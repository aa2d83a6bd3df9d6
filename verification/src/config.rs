//! Fixed configuration of the proxy.

use vstd::prelude::*;

verus! {

/// Largest number of jobs that one batch may hold.
pub const MAX_BATCH_SIZE: usize = 32;

/// Longest time, in milliseconds, that a batch stays open after its first job.
pub const MAX_WAIT_TIME_MILLIS: u64 = 10_000;

/// Number of jobs that the submission queue buffers before producers wait.
pub const QUEUE_CAPACITY: usize = 1024;

/// Address of the backend that receives each batch.
pub const TARGET_SERVICE_URL: &'static str = "http://127.0.0.1:8080/embed";

/// Key under which a batch's inputs travel to the backend.
pub const INPUTS_KEY: &'static str = "inputs";

/// Key under which the backend may wrap its list of results.
pub const DATA_KEY: &'static str = "data";

/// What a caller is told when its submission could not be queued.
pub const NOT_ADMITTED_TEXT: &'static str = "Failed to batch.";

/// What a caller is told when its handle was dropped without a reply.
pub const UNRESOLVED_TEXT: &'static str = "Batching Failed. Try again.";

} // verus!
