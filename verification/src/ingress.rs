//! What one caller is told about one submission.

use vstd::prelude::*;
use crate::config::{NOT_ADMITTED_TEXT, UNRESOLVED_TEXT};
use crate::job::{Failure, Reply};

verus! {

/// The answer to one submission.
#[derive(Debug, PartialEq)]
pub enum Answer {
    /// The backend's result for the caller's input.
    Embedding(serde_json::Value),
    /// The batch was dispatched and this caller got no result.
    Error(Failure),
    /// The submission could not be queued.
    NotAdmitted,
    /// The submission was queued and its handle was dropped without a reply.
    Unresolved,
}

/// The answer owed to a caller, given whether its job was queued and what,
/// if anything, came back through its handle.
pub open spec fn answer_of(admitted: bool, reply: Option<Reply>) -> Answer {
    if !admitted {
        Answer::NotAdmitted
    } else {
        match reply {
            None => Answer::Unresolved,
            Some(Reply::Embedding(value)) => Answer::Embedding(value),
            Some(Reply::Failed(failure)) => Answer::Error(failure),
        }
    }
}

/// Decides the answer to one submission. A submission that was not queued
/// affects no other caller and is answered at once.
pub fn answer(admitted: bool, reply: Option<Reply>) -> (given: Answer)
    ensures
        given == answer_of(admitted, reply),
{
    if !admitted {
        Answer::NotAdmitted
    } else {
        match reply {
            None => Answer::Unresolved,
            Some(Reply::Embedding(value)) => Answer::Embedding(value),
            Some(Reply::Failed(failure)) => Answer::Error(failure),
        }
    }
}

impl Answer {
    /// The words that go with an answer that carries no result; nothing for
    /// an answer that carries one.
    pub open spec fn text(self) -> Option<Seq<char>> {
        match self {
            Answer::Embedding(_) => None,
            Answer::Error(failure) => Some(failure.text()),
            Answer::NotAdmitted => Some(NOT_ADMITTED_TEXT@),
            Answer::Unresolved => Some(UNRESOLVED_TEXT@),
        }
    }

    /// The words that go with an answer that carries no result.
    pub fn message(&self) -> (words: Option<String>)
        ensures
            match words {
                Some(w) => self.text() == Some(w@),
                None => self.text() is None,
            },
    {
        match self {
            Answer::Embedding(_) => None,
            Answer::Error(failure) => Some(failure.message()),
            Answer::NotAdmitted => Some(String::from_str(NOT_ADMITTED_TEXT)),
            Answer::Unresolved => Some(String::from_str(UNRESOLVED_TEXT)),
        }
    }
}

} // verus!
