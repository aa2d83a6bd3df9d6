//! Jobs, the replies that callers wait for, and the single-use handle that
//! carries one reply back to one caller.

use vstd::prelude::*;

verus! {

/// `tokio::sync::oneshot::Sender`, the sending half of a single-use channel,
/// carried through as an opaque value.
#[verifier::external_type_specification]
#[verifier::external_body]
#[verifier::reject_recursive_types(T)]
pub struct ExSender<T>(tokio::sync::oneshot::Sender<T>);

/// Why a caller gets no result.
#[derive(Clone, Copy, Debug, PartialEq, Eq, Structural)]
pub enum Failure {
    /// The call to the backend failed, or its answer was not JSON.
    UpstreamFailed,
    /// The backend answered with fewer results than the batch had jobs.
    CountMismatch,
}

/// What one caller receives for one submission.
#[derive(Debug, PartialEq)]
pub enum Reply {
    /// The backend's result for this caller's input.
    Embedding(serde_json::Value),
    /// No result; the reason.
    Failed(Failure),
}

/// The single-use slot through which one job's reply reaches its caller.
pub type CompletionHandle = tokio::sync::oneshot::Sender<Reply>;

/// One caller's input together with the handle that answers it.
#[derive(Debug)]
pub struct Job {
    pub input: String,
    pub handle: CompletionHandle,
}

/// A reply that has been decided for a handle and not yet sent.
#[derive(Debug)]
pub struct Delivery {
    pub handle: CompletionHandle,
    pub reply: Reply,
}

/// What a send can come to: either the reply was taken, or the very reply
/// that was offered is handed back.
pub open spec fn taken_or_returned(sent: Result<(), Reply>, offered: Reply) -> bool {
    sent matches Err(back) ==> back == offered
}

/// `tokio::sync::oneshot::Sender::send`: consumes the handle. Whether the
/// reply is taken depends on whether the receiving side still exists, which
/// nothing here determines; a reply that is not taken comes back unchanged.
#[verifier::external_body]
pub(crate) fn send_reply(handle: CompletionHandle, reply: Reply) -> (sent: Result<(), Reply>)
    ensures
        taken_or_returned(sent, reply),
{
    handle.send(reply)
}

impl Failure {
    /// The words that describe this failure to a caller.
    pub open spec fn text(self) -> Seq<char> {
        match self {
            Failure::UpstreamFailed => "upstream failed"@,
            Failure::CountMismatch => "result count mismatch"@,
        }
    }

    /// The words that describe this failure to a caller.
    pub fn message(&self) -> (r: String)
        ensures
            r@ == self.text(),
    {
        match self {
            Failure::UpstreamFailed => String::from_str("upstream failed"),
            Failure::CountMismatch => String::from_str("result count mismatch"),
        }
    }
}

impl Job {
    /// Pairs an input with the handle that will answer it.
    pub fn new(input: String, handle: CompletionHandle) -> (job: Job)
        ensures
            job.input == input,
            job.handle == handle,
    {
        Job { input, handle }
    }
}

impl Delivery {
    /// Sends the reply through the handle, which is used up. Where the
    /// caller has gone the send is harmless, and the reply comes back as it
    /// was.
    pub fn resolve(self) -> (sent: Result<(), Reply>)
        ensures
            taken_or_returned(sent, self.reply),
    {
        send_reply(self.handle, self.reply)
    }
}

} // verus!
