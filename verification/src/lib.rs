//! Request batching in front of a single-request inference backend.
//!
//! Callers submit one text at a time. The [`assembler`] groups the
//! submissions into bounded batches that close on a size threshold or on a
//! deadline, [`upstream`] frames the outgoing call and normalises either
//! accepted response shape into one ordered list, and the [`distributor`]
//! pairs that list with the waiting callers position by position.

pub mod assembler;
pub mod config;
pub mod distributor;
pub mod ingress;
pub mod job;
pub mod json;
pub mod traces;
pub mod upstream;
