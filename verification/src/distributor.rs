//! Fanning one backend outcome out to the callers of a batch, position by
//! position.

use vstd::prelude::*;
use crate::job::{taken_or_returned, Delivery, Failure, Job, Reply};
use crate::upstream::{keyed_items, normalized, UpstreamError};
use crate::json::{json_items, json_member};
use crate::config::DATA_KEY;

verus! {

/// The mathematical content of a backend outcome: the ordered results, or
/// the reason there are none.
pub open spec fn outcome_view(outcome: Result<Vec<serde_json::Value>, UpstreamError>) -> Result<
    Seq<serde_json::Value>,
    UpstreamError,
> {
    match outcome {
        Ok(results) => Ok(results@),
        Err(e) => Err(e),
    }
}

/// The reply owed to the job at position `i` of a batch.
///
/// A failed call fails every position alike. Otherwise position `i` gets
/// result `i`, and a position beyond the last result gets a count mismatch.
pub open spec fn reply_for(outcome: Result<Seq<serde_json::Value>, UpstreamError>, i: int) -> Reply {
    match outcome {
        Err(_) => Reply::Failed(Failure::UpstreamFailed),
        Ok(results) => if i < results.len() {
            Reply::Embedding(results[i])
        } else {
            Reply::Failed(Failure::CountMismatch)
        },
    }
}

/// The deliveries owed to a batch: one per job, in batch order, each through
/// that job's own handle.
pub open spec fn plan_of(
    batch: Seq<Job>,
    outcome: Result<Seq<serde_json::Value>, UpstreamError>,
) -> Seq<Delivery> {
    Seq::new(
        batch.len(),
        |i: int| (Delivery { handle: batch[i].handle, reply: reply_for(outcome, i) }),
    )
}

/// Decides the reply for the job at position `i`.
fn reply_at(outcome: &Result<Vec<serde_json::Value>, UpstreamError>, i: usize) -> (reply: Reply)
    ensures
        reply == reply_for(outcome_view(*outcome), i as int),
{
    match outcome {
        Err(_) => Reply::Failed(Failure::UpstreamFailed),
        Ok(results) => if i < results.len() {
            Reply::Embedding(results[i].clone())
        } else {
            Reply::Failed(Failure::CountMismatch)
        },
    }
}

/// Pairs every job of a batch with its reply. No job is dropped, none is
/// answered twice, and the order of the batch is kept.
pub fn plan(batch: Vec<Job>, outcome: Result<Vec<serde_json::Value>, UpstreamError>) -> (deliveries:
    Vec<Delivery>)
    ensures
        deliveries@ == plan_of(batch@, outcome_view(outcome)),
{
    let ghost jobs = batch@;
    let ghost target = plan_of(jobs, outcome_view(outcome));
    let mut rest = batch;
    let mut deliveries: Vec<Delivery> = Vec::new();
    while rest.len() > 0
        invariant
            target == plan_of(jobs, outcome_view(outcome)),
            deliveries.len() + rest.len() == jobs.len(),
            rest@ == jobs.skip(deliveries.len() as int),
            deliveries@ == target.take(deliveries.len() as int),
        decreases rest.len(),
    {
        let ghost done = deliveries.len() as int;
        let reply = reply_at(&outcome, deliveries.len());
        let job = rest.remove(0);
        assert(job == jobs[done]);
        deliveries.push(Delivery { handle: job.handle, reply });
        assert(rest@ =~= jobs.skip(done + 1));
        assert(deliveries@ =~= target.take(done + 1));
    }
    assert(deliveries@ =~= target);
    deliveries
}

/// What sending a list of deliveries comes to: one result per delivery, in
/// the order of the deliveries, and each reply that was not taken is the
/// reply of the delivery at its position.
pub open spec fn sent_in_order(deliveries: Seq<Delivery>, sent: Seq<Result<(), Reply>>) -> bool {
    &&& sent.len() == deliveries.len()
    &&& forall|i: int|
        0 <= i < deliveries.len() ==> taken_or_returned(#[trigger] sent[i], deliveries[i].reply)
}

/// Sends every delivery, in order, each through its own handle, and returns
/// what each send came to, position by position. A caller that has gone
/// gets back the reply meant for it and has no effect on the others.
pub fn deliver(deliveries: Vec<Delivery>) -> (sent: Vec<Result<(), Reply>>)
    ensures
        sent_in_order(deliveries@, sent@),
{
    let ghost all = deliveries@;
    let mut rest = deliveries;
    let mut sent: Vec<Result<(), Reply>> = Vec::new();
    while rest.len() > 0
        invariant
            sent.len() + rest.len() == all.len(),
            rest@ == all.skip(sent.len() as int),
            forall|k: int| 0 <= k < sent.len() ==> taken_or_returned(#[trigger] sent[k], all[k].reply),
        decreases rest.len(),
    {
        let ghost done = sent.len() as int;
        let delivery = rest.remove(0);
        assert(delivery == all[done]);
        sent.push(delivery.resolve());
        assert(rest@ =~= all.skip(done + 1));
    }
    sent
}

/// Resolves every job of a batch from one backend outcome: the job at each
/// position is sent the reply owed to that position. Returns what each send
/// came to, position by position; a reply that comes back is the one that
/// was owed there.
pub fn distribute(batch: Vec<Job>, outcome: Result<Vec<serde_json::Value>, UpstreamError>) -> (sent:
    Vec<Result<(), Reply>>)
    ensures
        sent_in_order(plan_of(batch@, outcome_view(outcome)), sent@),
{
    deliver(plan(batch, outcome))
}

/// Order is preserved: when the backend returns as many results as the batch
/// has jobs, the job at each position receives the result at that position,
/// through its own handle.
pub proof fn order_preserved(batch: Seq<Job>, results: Seq<serde_json::Value>, i: int)
    requires
        results.len() == batch.len(),
        0 <= i < batch.len(),
    ensures
        plan_of(batch, Ok(results)).len() == batch.len(),
        plan_of(batch, Ok(results))[i].handle == batch[i].handle,
        plan_of(batch, Ok(results))[i].reply == Reply::Embedding(results[i]),
{
}

/// A failed call reaches every caller: each job of the batch is answered,
/// through its own handle, with the same upstream failure.
pub proof fn failure_reaches_every_caller(batch: Seq<Job>, error: UpstreamError, i: int)
    requires
        0 <= i < batch.len(),
    ensures
        plan_of(batch, Err(error)).len() == batch.len(),
        plan_of(batch, Err(error))[i].handle == batch[i].handle,
        plan_of(batch, Err(error))[i].reply == Reply::Failed(Failure::UpstreamFailed),
{
}

/// A short answer leaves nobody waiting: every job is answered, the jobs
/// that have a result at their position get it, and each job beyond the last
/// result gets an explicit count mismatch.
pub proof fn short_answer_fails_the_rest(batch: Seq<Job>, results: Seq<serde_json::Value>, i: int)
    requires
        results.len() < batch.len(),
        0 <= i < batch.len(),
    ensures
        plan_of(batch, Ok(results)).len() == batch.len(),
        plan_of(batch, Ok(results))[i].handle == batch[i].handle,
        i < results.len() ==> plan_of(batch, Ok(results))[i].reply == Reply::Embedding(results[i]),
        i >= results.len() ==> plan_of(batch, Ok(results))[i].reply == Reply::Failed(
            Failure::CountMismatch,
        ),
{
}

/// An array standing alone and the same array wrapped under the data key
/// are one answer: both normalise to the array's elements, so every caller
/// of a batch gets the same reply from either. The array standing alone is
/// an array and nothing else: it has no member under the data key.
pub proof fn shapes_are_equivalent(
    bare: serde_json::Value,
    keyed: serde_json::Value,
    items: Seq<serde_json::Value>,
    batch: Seq<Job>,
)
    requires
        json_items(bare) == Some(items),
        json_member(bare, DATA_KEY@) is None,
        json_member(keyed, DATA_KEY@) == Some(bare),
    ensures
        normalized(bare) == items,
        normalized(keyed) == items,
        plan_of(batch, Ok(normalized(bare))) == plan_of(batch, Ok(normalized(keyed))),
{
}

/// An answer of neither accepted shape is never a success: it normalises to
/// the empty list, and every job of the batch gets a count mismatch.
pub proof fn unrecognised_shape_fails_everyone(v: serde_json::Value, batch: Seq<Job>, i: int)
    requires
        json_items(v) is None,
        keyed_items(v) is None,
        0 <= i < batch.len(),
    ensures
        normalized(v).len() == 0,
        plan_of(batch, Ok(normalized(v))).len() == batch.len(),
        plan_of(batch, Ok(normalized(v)))[i].handle == batch[i].handle,
        plan_of(batch, Ok(normalized(v)))[i].reply == Reply::Failed(Failure::CountMismatch),
{
}

} // verus!
