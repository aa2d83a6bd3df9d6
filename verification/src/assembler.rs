//! The batch assembler: a state machine that turns arrivals, deadlines and
//! completions into batches and tells its driver what to do next.
//!
//! The driver owns the queue, the timer and the network. It feeds one
//! [`Event`] at a time to [`Assembler::step`] and carries out the [`Action`]
//! it gets back. The machine itself never waits.

use vstd::prelude::*;
use crate::config::MAX_BATCH_SIZE;
use crate::job::Job;

verus! {

/// Where the assembler stands in its cycle.
#[derive(Clone, Copy, Debug, PartialEq, Eq, Structural)]
pub enum Phase {
    /// No job has been admitted to the next batch; no deadline is running.
    Idle,
    /// The batch holds at least one job and is open for more.
    Filling,
    /// A batch is with the backend; nothing is admitted until it completes.
    Dispatched,
    /// The last batch is with the backend; the queue has ended.
    FinalDispatch,
    /// The queue has ended and nothing is outstanding.
    Stopped,
}

/// Why a batch was closed.
#[derive(Clone, Copy, Debug, PartialEq, Eq, Structural)]
pub enum CloseReason {
    /// It reached the largest size.
    Full,
    /// Its deadline elapsed.
    Deadline,
    /// The queue ended while it was open.
    Shutdown,
}

/// What the driver observed.
#[derive(Debug)]
pub enum Event {
    /// The queue yielded a job.
    Arrived(Job),
    /// The deadline of the open batch elapsed.
    DeadlineElapsed,
    /// The queue yielded a job in the same instant in which the deadline
    /// elapsed. The job is admitted first.
    ArrivedAtDeadline(Job),
    /// The queue has ended: it is closed and empty.
    QueueClosed,
    /// The dispatched batch has been answered and its callers resolved.
    Completed,
}

/// What the driver has to do next.
#[derive(Debug)]
pub enum Action {
    /// Wait for the next job. No deadline is running.
    AwaitJob,
    /// Start the deadline now, then wait for the next job or the deadline.
    StartDeadline,
    /// Keep waiting for the next job or the running deadline.
    AwaitJobOrDeadline,
    /// Send this batch to the backend, resolve its callers, then report
    /// [`Event::Completed`].
    Dispatch(Vec<Job>, CloseReason),
    /// Keep waiting for the outstanding batch.
    AwaitCompletion,
    /// The job cannot be admitted in this phase and is handed back.
    Refuse(Job),
    /// Stop driving the assembler.
    Stop,
}

/// The mathematical content of an [`Action`].
pub enum Effect {
    AwaitJob,
    StartDeadline,
    AwaitJobOrDeadline,
    Dispatch(Seq<Job>, CloseReason),
    AwaitCompletion,
    Refuse(Job),
    Stop,
}

impl View for Action {
    type V = Effect;

    open spec fn view(&self) -> Effect {
        match *self {
            Action::AwaitJob => Effect::AwaitJob,
            Action::StartDeadline => Effect::StartDeadline,
            Action::AwaitJobOrDeadline => Effect::AwaitJobOrDeadline,
            Action::Dispatch(batch, reason) => Effect::Dispatch(batch@, reason),
            Action::AwaitCompletion => Effect::AwaitCompletion,
            Action::Refuse(job) => Effect::Refuse(job),
            Action::Stop => Effect::Stop,
        }
    }
}

/// Whether a batch is with the backend in this phase.
pub open spec fn in_flight(phase: Phase) -> bool {
    phase == Phase::Dispatched || phase == Phase::FinalDispatch
}

/// The states that the assembler can be in: an open batch holds between one
/// job and one less than the largest size, and outside `Filling` no job is
/// pending.
pub open spec fn admissible(phase: Phase, pending: Seq<Job>) -> bool {
    if phase == Phase::Filling {
        1 <= pending.len() < MAX_BATCH_SIZE
    } else {
        pending.len() == 0
    }
}

/// Admission of `job` to the open batch `pending`. A batch that is full
/// closes for that reason even when the deadline has elapsed as well.
pub open spec fn admission_of(pending: Seq<Job>, job: Job, deadline: bool) -> (Phase, Seq<Job>, Effect) {
    let grown = pending.push(job);
    if grown.len() >= MAX_BATCH_SIZE {
        (Phase::Dispatched, Seq::empty(), Effect::Dispatch(grown, CloseReason::Full))
    } else if deadline {
        (Phase::Dispatched, Seq::empty(), Effect::Dispatch(grown, CloseReason::Deadline))
    } else if pending.len() == 0 {
        (Phase::Filling, grown, Effect::StartDeadline)
    } else {
        (Phase::Filling, grown, Effect::AwaitJobOrDeadline)
    }
}

/// The transition function: next phase, next pending jobs, and effect.
pub open spec fn step_of(phase: Phase, pending: Seq<Job>, event: Event) -> (Phase, Seq<Job>, Effect) {
    match phase {
        Phase::Idle => match event {
            Event::Arrived(job) => admission_of(pending, job, false),
            Event::ArrivedAtDeadline(job) => admission_of(pending, job, false),
            Event::DeadlineElapsed => (Phase::Idle, pending, Effect::AwaitJob),
            Event::QueueClosed => (Phase::Stopped, pending, Effect::Stop),
            Event::Completed => (Phase::Idle, pending, Effect::AwaitJob),
        },
        Phase::Filling => match event {
            Event::Arrived(job) => admission_of(pending, job, false),
            Event::ArrivedAtDeadline(job) => admission_of(pending, job, true),
            Event::DeadlineElapsed => (
                Phase::Dispatched,
                Seq::empty(),
                Effect::Dispatch(pending, CloseReason::Deadline),
            ),
            Event::QueueClosed => (
                Phase::FinalDispatch,
                Seq::empty(),
                Effect::Dispatch(pending, CloseReason::Shutdown),
            ),
            Event::Completed => (Phase::Filling, pending, Effect::AwaitJobOrDeadline),
        },
        Phase::Dispatched => match event {
            Event::Arrived(job) => (Phase::Dispatched, pending, Effect::Refuse(job)),
            Event::ArrivedAtDeadline(job) => (Phase::Dispatched, pending, Effect::Refuse(job)),
            Event::DeadlineElapsed => (Phase::Dispatched, pending, Effect::AwaitCompletion),
            Event::QueueClosed => (Phase::FinalDispatch, pending, Effect::AwaitCompletion),
            Event::Completed => (Phase::Idle, pending, Effect::AwaitJob),
        },
        Phase::FinalDispatch => match event {
            Event::Arrived(job) => (Phase::FinalDispatch, pending, Effect::Refuse(job)),
            Event::ArrivedAtDeadline(job) => (Phase::FinalDispatch, pending, Effect::Refuse(job)),
            Event::DeadlineElapsed => (Phase::FinalDispatch, pending, Effect::AwaitCompletion),
            Event::QueueClosed => (Phase::FinalDispatch, pending, Effect::AwaitCompletion),
            Event::Completed => (Phase::Stopped, pending, Effect::Stop),
        },
        Phase::Stopped => match event {
            Event::Arrived(job) => (Phase::Stopped, pending, Effect::Refuse(job)),
            Event::ArrivedAtDeadline(job) => (Phase::Stopped, pending, Effect::Refuse(job)),
            Event::DeadlineElapsed => (Phase::Stopped, pending, Effect::Stop),
            Event::QueueClosed => (Phase::Stopped, pending, Effect::Stop),
            Event::Completed => (Phase::Stopped, pending, Effect::Stop),
        },
    }
}

/// The batch assembler.
#[derive(Debug)]
pub struct Assembler {
    phase: Phase,
    batch: Vec<Job>,
}

impl Assembler {
    #[verifier::type_invariant]
    spec fn well_formed(self) -> bool {
        admissible(self.phase, self.batch@)
    }

    /// The current phase.
    pub closed spec fn phase(&self) -> Phase {
        self.phase
    }

    /// The jobs admitted to the open batch, in order of admission.
    pub closed spec fn pending(&self) -> Seq<Job> {
        self.batch@
    }

    /// An assembler with nothing admitted and nothing outstanding.
    pub fn new() -> (fresh: Assembler)
        ensures
            fresh.phase() == Phase::Idle,
            fresh.pending() == Seq::<Job>::empty(),
    {
        Assembler { phase: Phase::Idle, batch: Vec::new() }
    }

    /// The current phase.
    pub fn current_phase(&self) -> (phase: Phase)
        ensures
            phase == self.phase(),
            admissible(self.phase(), self.pending()),
    {
        proof {
            use_type_invariant(self);
        }
        self.phase
    }

    /// The number of jobs in the open batch.
    pub fn pending_len(&self) -> (n: usize)
        ensures
            n == self.pending().len(),
            n < MAX_BATCH_SIZE,
    {
        proof {
            use_type_invariant(self);
        }
        self.batch.len()
    }

    /// Admits `job` to `batch`, closing the batch where it is full or the
    /// deadline has elapsed.
    fn take_in(batch: Vec<Job>, job: Job, deadline: bool) -> (next: (Assembler, Action))
        requires
            batch.len() < MAX_BATCH_SIZE,
        ensures
            (next.0.phase(), next.0.pending(), next.1@) == admission_of(batch@, job, deadline),
    {
        let first = batch.len() == 0;
        let mut batch = batch;
        batch.push(job);
        if batch.len() >= MAX_BATCH_SIZE {
            (
                Assembler { phase: Phase::Dispatched, batch: Vec::new() },
                Action::Dispatch(batch, CloseReason::Full),
            )
        } else if deadline {
            (
                Assembler { phase: Phase::Dispatched, batch: Vec::new() },
                Action::Dispatch(batch, CloseReason::Deadline),
            )
        } else if first {
            (Assembler { phase: Phase::Filling, batch }, Action::StartDeadline)
        } else {
            (Assembler { phase: Phase::Filling, batch }, Action::AwaitJobOrDeadline)
        }
    }

    /// Takes one event and returns the assembler's next state together with
    /// what the driver has to do. Every event is accepted in every phase; a
    /// job that arrives while nothing can be admitted is handed back.
    pub fn step(self, event: Event) -> (next: (Assembler, Action))
        ensures
            (next.0.phase(), next.0.pending(), next.1@) == step_of(
                self.phase(),
                self.pending(),
                event,
            ),
            admissible(self.phase(), self.pending()),
            admissible(next.0.phase(), next.0.pending()),
    {
        proof {
            use_type_invariant(&self);
        }
        let phase = self.phase;
        let batch = self.batch;
        match phase {
            Phase::Idle => match event {
                Event::Arrived(job) => Self::take_in(batch, job, false),
                Event::ArrivedAtDeadline(job) => Self::take_in(batch, job, false),
                Event::DeadlineElapsed => (Assembler { phase: Phase::Idle, batch }, Action::AwaitJob),
                Event::QueueClosed => (Assembler { phase: Phase::Stopped, batch }, Action::Stop),
                Event::Completed => (Assembler { phase: Phase::Idle, batch }, Action::AwaitJob),
            },
            Phase::Filling => match event {
                Event::Arrived(job) => Self::take_in(batch, job, false),
                Event::ArrivedAtDeadline(job) => Self::take_in(batch, job, true),
                Event::DeadlineElapsed => (
                    Assembler { phase: Phase::Dispatched, batch: Vec::new() },
                    Action::Dispatch(batch, CloseReason::Deadline),
                ),
                Event::QueueClosed => (
                    Assembler { phase: Phase::FinalDispatch, batch: Vec::new() },
                    Action::Dispatch(batch, CloseReason::Shutdown),
                ),
                Event::Completed => (
                    Assembler { phase: Phase::Filling, batch },
                    Action::AwaitJobOrDeadline,
                ),
            },
            Phase::Dispatched => match event {
                Event::Arrived(job) => (Assembler { phase: Phase::Dispatched, batch }, Action::Refuse(job)),
                Event::ArrivedAtDeadline(job) => (
                    Assembler { phase: Phase::Dispatched, batch },
                    Action::Refuse(job),
                ),
                Event::DeadlineElapsed => (
                    Assembler { phase: Phase::Dispatched, batch },
                    Action::AwaitCompletion,
                ),
                Event::QueueClosed => (
                    Assembler { phase: Phase::FinalDispatch, batch },
                    Action::AwaitCompletion,
                ),
                Event::Completed => (Assembler { phase: Phase::Idle, batch }, Action::AwaitJob),
            },
            Phase::FinalDispatch => match event {
                Event::Arrived(job) => (
                    Assembler { phase: Phase::FinalDispatch, batch },
                    Action::Refuse(job),
                ),
                Event::ArrivedAtDeadline(job) => (
                    Assembler { phase: Phase::FinalDispatch, batch },
                    Action::Refuse(job),
                ),
                Event::DeadlineElapsed => (
                    Assembler { phase: Phase::FinalDispatch, batch },
                    Action::AwaitCompletion,
                ),
                Event::QueueClosed => (
                    Assembler { phase: Phase::FinalDispatch, batch },
                    Action::AwaitCompletion,
                ),
                Event::Completed => (Assembler { phase: Phase::Stopped, batch }, Action::Stop),
            },
            Phase::Stopped => match event {
                Event::Arrived(job) => (Assembler { phase: Phase::Stopped, batch }, Action::Refuse(job)),
                Event::ArrivedAtDeadline(job) => (
                    Assembler { phase: Phase::Stopped, batch },
                    Action::Refuse(job),
                ),
                Event::DeadlineElapsed => (Assembler { phase: Phase::Stopped, batch }, Action::Stop),
                Event::QueueClosed => (Assembler { phase: Phase::Stopped, batch }, Action::Stop),
                Event::Completed => (Assembler { phase: Phase::Stopped, batch }, Action::Stop),
            },
        }
    }
}

} // verus!
