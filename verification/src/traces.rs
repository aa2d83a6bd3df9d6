//! Runs of the assembler over whole sequences of events, and what holds of
//! every run.

use vstd::prelude::*;
use crate::assembler::{admissible, in_flight, step_of, CloseReason, Effect, Event, Phase};
use crate::config::MAX_BATCH_SIZE;
use crate::job::Job;

verus! {

/// Feeds `events` in order to an assembler in the given state: the state
/// that results, and the effect of every step.
pub open spec fn run(phase: Phase, pending: Seq<Job>, events: Seq<Event>) -> (
    Phase,
    Seq<Job>,
    Seq<Effect>,
)
    decreases events.len(),
{
    if events.len() == 0 {
        (phase, pending, Seq::empty())
    } else {
        let before = run(phase, pending, events.drop_last());
        let last = step_of(before.0, before.1, events.last());
        (last.0, last.1, before.2.push(last.2))
    }
}

/// A run from the initial state.
pub open spec fn run_from_start(events: Seq<Event>) -> (Phase, Seq<Job>, Seq<Effect>) {
    run(Phase::Idle, Seq::empty(), events)
}

/// The events of `jobs` arriving one after the other.
pub open spec fn arrivals(jobs: Seq<Job>) -> Seq<Event> {
    Seq::new(jobs.len(), |i: int| Event::Arrived(jobs[i]))
}

/// Every step leads from an admissible state to an admissible state.
pub proof fn step_keeps_admissible(phase: Phase, pending: Seq<Job>, event: Event)
    requires
        admissible(phase, pending),
    ensures
        admissible(step_of(phase, pending, event).0, step_of(phase, pending, event).1),
{
}

/// A run has one effect per event, every state it passes through is
/// admissible, and the effect at each position is the step taken from the
/// state that the events before it lead to.
pub proof fn run_unfolds(events: Seq<Event>, i: int)
    requires
        0 <= i < events.len(),
    ensures
        run_from_start(events).2.len() == events.len(),
        admissible(run_from_start(events).0, run_from_start(events).1),
        admissible(run_from_start(events.take(i)).0, run_from_start(events.take(i)).1),
        run_from_start(events.take(i + 1)).0 == step_of(
            run_from_start(events.take(i)).0,
            run_from_start(events.take(i)).1,
            events[i],
        ).0,
        run_from_start(events).2[i] == step_of(
            run_from_start(events.take(i)).0,
            run_from_start(events.take(i)).1,
            events[i],
        ).2,
    decreases events.len(),
{
    let shorter = events.drop_last();
    let before = run_from_start(shorter);
    run_is_admissible(shorter);
    step_keeps_admissible(before.0, before.1, events.last());
    if i == events.len() - 1 {
        assert(events.take(i) =~= shorter);
        assert(events.take(i + 1) =~= events);
    } else {
        run_unfolds(shorter, i);
        assert(shorter.take(i) =~= events.take(i));
        assert(shorter.take(i + 1) =~= events.take(i + 1));
    }
}

/// Every run from the initial state ends in an admissible state, with one
/// effect per event.
pub proof fn run_is_admissible(events: Seq<Event>)
    ensures
        run_from_start(events).2.len() == events.len(),
        admissible(run_from_start(events).0, run_from_start(events).1),
    decreases events.len(),
{
    if events.len() > 0 {
        let before = run_from_start(events.drop_last());
        run_is_admissible(events.drop_last());
        step_keeps_admissible(before.0, before.1, events.last());
    }
}

/// While fewer jobs than the largest size have arrived, the batch stays
/// open and holds exactly the arrived jobs in order; nothing is dispatched.
pub proof fn arrivals_fill_the_batch(jobs: Seq<Job>)
    requires
        1 <= jobs.len() < MAX_BATCH_SIZE,
    ensures
        run_from_start(arrivals(jobs)).0 == Phase::Filling,
        run_from_start(arrivals(jobs)).1 == jobs,
        run_from_start(arrivals(jobs)).2.len() == jobs.len(),
        forall|k: int|
            0 <= k < jobs.len() ==> !(#[trigger] run_from_start(arrivals(jobs)).2[k] is Dispatch),
    decreases jobs.len(),
{
    let events = arrivals(jobs);
    let fewer = jobs.drop_last();
    assert(events.drop_last() =~= arrivals(fewer));
    assert(events.last() == Event::Arrived(jobs.last()));
    if jobs.len() == 1 {
        assert(arrivals(fewer).len() == 0);
        assert(run_from_start(arrivals(fewer)).2 =~= Seq::<Effect>::empty());
        assert(Seq::<Job>::empty().push(jobs.last()) =~= jobs);
    } else {
        arrivals_fill_the_batch(fewer);
        assert(fewer.push(jobs.last()) =~= jobs);
    }
}

/// Size trigger: when as many jobs as the largest size arrive with no
/// deadline in between, exactly one batch is closed, at the last arrival,
/// and it holds exactly those jobs in order of arrival.
pub proof fn size_closes_the_batch(jobs: Seq<Job>)
    requires
        jobs.len() == MAX_BATCH_SIZE,
    ensures
        run_from_start(arrivals(jobs)).0 == Phase::Dispatched,
        run_from_start(arrivals(jobs)).1.len() == 0,
        run_from_start(arrivals(jobs)).2.len() == jobs.len(),
        run_from_start(arrivals(jobs)).2.last() == Effect::Dispatch(jobs, CloseReason::Full),
        forall|k: int|
            0 <= k < jobs.len() - 1 ==> !(#[trigger] run_from_start(arrivals(jobs)).2[k] is Dispatch),
{
    let events = arrivals(jobs);
    let fewer = jobs.drop_last();
    assert(events.drop_last() =~= arrivals(fewer));
    assert(events.last() == Event::Arrived(jobs.last()));
    arrivals_fill_the_batch(fewer);
    assert(fewer.push(jobs.last()) =~= jobs);
    assert(run_from_start(events).1 =~= Seq::<Job>::empty());
}

/// Deadline trigger: when the deadline elapses on an open batch, that batch
/// is closed with exactly the jobs that had arrived, in order. For a single
/// job this is a batch of that one job.
pub proof fn deadline_closes_the_batch(jobs: Seq<Job>)
    requires
        1 <= jobs.len() < MAX_BATCH_SIZE,
    ensures
        run_from_start(arrivals(jobs).push(Event::DeadlineElapsed)).0 == Phase::Dispatched,
        run_from_start(arrivals(jobs).push(Event::DeadlineElapsed)).1.len() == 0,
        run_from_start(arrivals(jobs).push(Event::DeadlineElapsed)).2.len() == jobs.len() + 1,
        run_from_start(arrivals(jobs).push(Event::DeadlineElapsed)).2.last() == Effect::Dispatch(
            jobs,
            CloseReason::Deadline,
        ),
        forall|k: int|
            0 <= k < jobs.len() ==> !(#[trigger] run_from_start(
                arrivals(jobs).push(Event::DeadlineElapsed),
            ).2[k] is Dispatch),
{
    let events = arrivals(jobs).push(Event::DeadlineElapsed);
    assert(events.drop_last() =~= arrivals(jobs));
    arrivals_fill_the_batch(jobs);
    assert(run_from_start(events).1 =~= Seq::<Job>::empty());
}

/// A deadline that elapses while no job has been admitted closes nothing:
/// the assembler stays idle and no batch is dispatched.
pub proof fn deadline_on_empty_batch_is_skipped()
    ensures
        step_of(Phase::Idle, Seq::empty(), Event::DeadlineElapsed) == (
            Phase::Idle,
            Seq::<Job>::empty(),
            Effect::AwaitJob,
        ),
{
}

/// The size threshold wins a tie: a job that fills the batch in the instant
/// in which the deadline elapses closes the batch as full, with that job in
/// it.
pub proof fn full_batch_wins_the_tie(pending: Seq<Job>, job: Job)
    requires
        pending.len() + 1 == MAX_BATCH_SIZE,
    ensures
        step_of(Phase::Filling, pending, Event::ArrivedAtDeadline(job)) == (
            Phase::Dispatched,
            Seq::<Job>::empty(),
            Effect::Dispatch(pending.push(job), CloseReason::Full),
        ),
{
}

/// One call at a time, step by step: a batch is dispatched only when none
/// is in flight, a dispatch puts one in flight, and it stays in flight until
/// its completion is reported, whatever else arrives meanwhile.
pub proof fn one_call_at_a_time(phase: Phase, pending: Seq<Job>, event: Event)
    ensures
        step_of(phase, pending, event).2 is Dispatch ==> !in_flight(phase) && in_flight(
            step_of(phase, pending, event).0,
        ),
        in_flight(phase) && !(event is Completed) ==> in_flight(step_of(phase, pending, event).0),
        in_flight(phase) ==> !(step_of(phase, pending, event).2 is Dispatch),
        !in_flight(phase) && in_flight(step_of(phase, pending, event).0) ==> step_of(
            phase,
            pending,
            event,
        ).2 is Dispatch,
{
}

/// After a dispatch at position `i`, a batch is in flight for as long as no
/// completion is reported.
proof fn stays_in_flight(events: Seq<Event>, i: int, j: int)
    requires
        0 <= i < j <= events.len(),
        run_from_start(events).2[i] is Dispatch,
        forall|k: int| i < k < j ==> !(#[trigger] events[k] is Completed),
    ensures
        in_flight(run_from_start(events.take(j)).0),
    decreases j - i,
{
    if j == i + 1 {
        run_unfolds(events, i);
        let before = run_from_start(events.take(i));
        one_call_at_a_time(before.0, before.1, events[i]);
    } else {
        stays_in_flight(events, i, j - 1);
        run_unfolds(events, j - 1);
        let before = run_from_start(events.take(j - 1));
        one_call_at_a_time(before.0, before.1, events[j - 1]);
    }
}

/// Sequential dispatch: in every run, between any two dispatches the
/// completion of the first is reported. So no second call is issued while
/// one is outstanding, whatever arrives in between.
pub proof fn dispatches_are_sequential(events: Seq<Event>, i: int, j: int)
    requires
        0 <= i < j < events.len(),
        run_from_start(events).2[i] is Dispatch,
        run_from_start(events).2[j] is Dispatch,
    ensures
        exists|k: int| i < k < j && #[trigger] events[k] is Completed,
{
    if forall|k: int| i < k < j ==> !(#[trigger] events[k] is Completed) {
        stays_in_flight(events, i, j);
        run_unfolds(events, j);
        let before = run_from_start(events.take(j));
        one_call_at_a_time(before.0, before.1, events[j]);
        assert(false);
    }
}

/// Every closed batch is within bounds: whatever the events, a dispatched
/// batch holds at least one job and at most the largest size.
pub proof fn dispatched_batches_are_bounded(events: Seq<Event>, i: int)
    requires
        0 <= i < events.len(),
        run_from_start(events).2[i] is Dispatch,
    ensures
        1 <= run_from_start(events).2[i]->Dispatch_0.len() <= MAX_BATCH_SIZE,
{
    run_unfolds(events, i);
}

} // verus!
