use batching_proxy::assembler::{Action, Assembler, CloseReason, Event, Phase};
use batching_proxy::config::MAX_BATCH_SIZE;
use batching_proxy::job::{Job, Reply};
use tokio::sync::oneshot;

fn job(input: &str) -> (Job, oneshot::Receiver<Reply>) {
    let (tx, rx) = oneshot::channel::<Reply>();
    (Job::new(input.to_string(), tx), rx)
}

fn inputs(batch: &[Job]) -> Vec<String> {
    batch.iter().map(|j| j.input.clone()).collect()
}

#[test]
fn new_assembler_is_idle_and_empty() {
    let a = Assembler::new();
    assert_eq!(a.current_phase(), Phase::Idle);
    assert_eq!(a.pending_len(), 0);
}

#[test]
fn size_trigger_closes_one_full_batch() {
    let mut a = Assembler::new();
    let mut receivers = Vec::new();
    let mut dispatched: Vec<Vec<Job>> = Vec::new();
    for i in 0..MAX_BATCH_SIZE {
        let (j, rx) = job(&format!("item-{i}"));
        receivers.push(rx);
        let (next, action) = a.step(Event::Arrived(j));
        a = next;
        match action {
            Action::StartDeadline => assert_eq!(i, 0),
            Action::AwaitJobOrDeadline => assert!(i > 0 && i < MAX_BATCH_SIZE - 1),
            Action::Dispatch(batch, reason) => {
                assert_eq!(i, MAX_BATCH_SIZE - 1);
                assert_eq!(reason, CloseReason::Full);
                dispatched.push(batch);
            }
            other => panic!("unexpected action {other:?}"),
        }
    }
    assert_eq!(dispatched.len(), 1);
    assert_eq!(dispatched[0].len(), MAX_BATCH_SIZE);
    let expected: Vec<String> = (0..MAX_BATCH_SIZE).map(|i| format!("item-{i}")).collect();
    assert_eq!(inputs(&dispatched[0]), expected);
    assert_eq!(a.current_phase(), Phase::Dispatched);
    assert_eq!(a.pending_len(), 0);
}

#[test]
fn deadline_trigger_closes_batch_of_one() {
    let a = Assembler::new();
    let (j, _rx) = job("only");
    let (a, action) = a.step(Event::Arrived(j));
    assert!(matches!(action, Action::StartDeadline));
    assert_eq!(a.current_phase(), Phase::Filling);
    assert_eq!(a.pending_len(), 1);
    let (a, action) = a.step(Event::DeadlineElapsed);
    match action {
        Action::Dispatch(batch, reason) => {
            assert_eq!(reason, CloseReason::Deadline);
            assert_eq!(inputs(&batch), vec!["only".to_string()]);
        }
        other => panic!("unexpected action {other:?}"),
    }
    assert_eq!(a.current_phase(), Phase::Dispatched);
}

#[test]
fn deadline_keeps_arrival_order_of_partial_batch() {
    let mut a = Assembler::new();
    let mut keep = Vec::new();
    for name in ["a", "b", "c"] {
        let (j, rx) = job(name);
        keep.push(rx);
        a = a.step(Event::Arrived(j)).0;
    }
    assert_eq!(a.pending_len(), 3);
    let (_, action) = a.step(Event::DeadlineElapsed);
    match action {
        Action::Dispatch(batch, CloseReason::Deadline) => {
            assert_eq!(inputs(&batch), vec!["a".to_string(), "b".to_string(), "c".to_string()]);
        }
        other => panic!("unexpected action {other:?}"),
    }
}

#[test]
fn deadline_with_no_job_dispatches_nothing() {
    let a = Assembler::new();
    let (a, action) = a.step(Event::DeadlineElapsed);
    assert!(matches!(action, Action::AwaitJob));
    assert_eq!(a.current_phase(), Phase::Idle);
    assert_eq!(a.pending_len(), 0);
}

#[test]
fn full_batch_wins_tie_with_deadline() {
    let mut a = Assembler::new();
    let mut keep = Vec::new();
    for i in 0..MAX_BATCH_SIZE - 1 {
        let (j, rx) = job(&format!("{i}"));
        keep.push(rx);
        a = a.step(Event::Arrived(j)).0;
    }
    let (j, _rx) = job("last");
    let (a, action) = a.step(Event::ArrivedAtDeadline(j));
    match action {
        Action::Dispatch(batch, reason) => {
            assert_eq!(reason, CloseReason::Full);
            assert_eq!(batch.len(), MAX_BATCH_SIZE);
            assert_eq!(batch[MAX_BATCH_SIZE - 1].input, "last");
        }
        other => panic!("unexpected action {other:?}"),
    }
    assert_eq!(a.current_phase(), Phase::Dispatched);
}

#[test]
fn arrival_at_deadline_joins_the_closing_batch() {
    let a = Assembler::new();
    let (first, _r1) = job("first");
    let (a, _) = a.step(Event::Arrived(first));
    let (second, _r2) = job("second");
    let (a, action) = a.step(Event::ArrivedAtDeadline(second));
    match action {
        Action::Dispatch(batch, reason) => {
            assert_eq!(reason, CloseReason::Deadline);
            assert_eq!(inputs(&batch), vec!["first".to_string(), "second".to_string()]);
        }
        other => panic!("unexpected action {other:?}"),
    }
    assert_eq!(a.current_phase(), Phase::Dispatched);
}

#[test]
fn stale_deadline_with_first_arrival_opens_a_batch() {
    let a = Assembler::new();
    let (j, _rx) = job("x");
    let (a, action) = a.step(Event::ArrivedAtDeadline(j));
    assert!(matches!(action, Action::StartDeadline));
    assert_eq!(a.current_phase(), Phase::Filling);
    assert_eq!(a.pending_len(), 1);
}

#[test]
fn no_second_dispatch_while_one_is_outstanding() {
    let a = Assembler::new();
    let (j, _r0) = job("first");
    let (a, _) = a.step(Event::Arrived(j));
    let (mut a, action) = a.step(Event::DeadlineElapsed);
    assert!(matches!(action, Action::Dispatch(_, _)));
    let mut outstanding = 1;
    let mut keep = Vec::new();
    for i in 0..(2 * MAX_BATCH_SIZE) {
        let (j, rx) = job(&format!("late-{i}"));
        keep.push(rx);
        let (next, action) = a.step(Event::Arrived(j));
        a = next;
        match action {
            Action::Refuse(back) => assert_eq!(back.input, format!("late-{i}")),
            Action::Dispatch(_, _) => outstanding += 1,
            other => panic!("unexpected action {other:?}"),
        }
        assert!(outstanding <= 1);
        assert_eq!(a.current_phase(), Phase::Dispatched);
    }
    let (a, action) = a.step(Event::DeadlineElapsed);
    assert!(matches!(action, Action::AwaitCompletion));
    assert_eq!(a.current_phase(), Phase::Dispatched);
    let (a, action) = a.step(Event::Completed);
    assert!(matches!(action, Action::AwaitJob));
    assert_eq!(a.current_phase(), Phase::Idle);
    let (j, _r1) = job("next");
    let (a, action) = a.step(Event::Arrived(j));
    assert!(matches!(action, Action::StartDeadline));
    assert_eq!(a.pending_len(), 1);
}

#[test]
fn queue_end_with_partial_batch_dispatches_then_stops() {
    let a = Assembler::new();
    let (j1, _r1) = job("p");
    let (j2, _r2) = job("q");
    let (a, _) = a.step(Event::Arrived(j1));
    let (a, _) = a.step(Event::Arrived(j2));
    let (a, action) = a.step(Event::QueueClosed);
    match action {
        Action::Dispatch(batch, reason) => {
            assert_eq!(reason, CloseReason::Shutdown);
            assert_eq!(inputs(&batch), vec!["p".to_string(), "q".to_string()]);
        }
        other => panic!("unexpected action {other:?}"),
    }
    assert_eq!(a.current_phase(), Phase::FinalDispatch);
    let (a, action) = a.step(Event::Completed);
    assert!(matches!(action, Action::Stop));
    assert_eq!(a.current_phase(), Phase::Stopped);
}

#[test]
fn queue_end_with_empty_batch_stops_at_once() {
    let a = Assembler::new();
    let (a, action) = a.step(Event::QueueClosed);
    assert!(matches!(action, Action::Stop));
    assert_eq!(a.current_phase(), Phase::Stopped);
}

#[test]
fn queue_end_during_dispatch_stops_after_completion() {
    let a = Assembler::new();
    let (j, _r) = job("z");
    let (a, _) = a.step(Event::Arrived(j));
    let (a, _) = a.step(Event::DeadlineElapsed);
    let (a, action) = a.step(Event::QueueClosed);
    assert!(matches!(action, Action::AwaitCompletion));
    assert_eq!(a.current_phase(), Phase::FinalDispatch);
    let (late, _rl) = job("late");
    let (a, action) = a.step(Event::ArrivedAtDeadline(late));
    assert!(matches!(action, Action::Refuse(_)));
    let (a, action) = a.step(Event::Completed);
    assert!(matches!(action, Action::Stop));
    assert_eq!(a.current_phase(), Phase::Stopped);
}

#[test]
fn stopped_assembler_hands_jobs_back() {
    let a = Assembler::new();
    let (a, _) = a.step(Event::QueueClosed);
    let (j, _r) = job("after");
    let (a, action) = a.step(Event::Arrived(j));
    match action {
        Action::Refuse(back) => assert_eq!(back.input, "after"),
        other => panic!("unexpected action {other:?}"),
    }
    let (a, action) = a.step(Event::Completed);
    assert!(matches!(action, Action::Stop));
    let (a, action) = a.step(Event::DeadlineElapsed);
    assert!(matches!(action, Action::Stop));
    assert_eq!(a.current_phase(), Phase::Stopped);
}

#[test]
fn spurious_completion_changes_nothing() {
    let a = Assembler::new();
    let (a, action) = a.step(Event::Completed);
    assert!(matches!(action, Action::AwaitJob));
    assert_eq!(a.current_phase(), Phase::Idle);
    let (j, _r) = job("k");
    let (a, _) = a.step(Event::Arrived(j));
    let (a, action) = a.step(Event::Completed);
    assert!(matches!(action, Action::AwaitJobOrDeadline));
    assert_eq!(a.current_phase(), Phase::Filling);
    assert_eq!(a.pending_len(), 1);
}

#[test]
fn one_bad_batch_does_not_stop_the_next() {
    let mut a = Assembler::new();
    for round in 0..3 {
        let (j, _r) = job(&format!("r{round}"));
        let (next, action) = a.step(Event::Arrived(j));
        assert!(matches!(action, Action::StartDeadline));
        let (next, action) = next.step(Event::DeadlineElapsed);
        assert!(matches!(action, Action::Dispatch(_, CloseReason::Deadline)));
        let (next, action) = next.step(Event::Completed);
        assert!(matches!(action, Action::AwaitJob));
        a = next;
    }
    assert_eq!(a.current_phase(), Phase::Idle);
}
