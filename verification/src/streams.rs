//! Readers and writers of host streams: what to do with a call that the host
//! is still working on, and how to fit a chunk of the host into a buffer of
//! the caller.
pub mod reader;
pub mod writer;

pub use reader::{ChunkKind, ReadAction, Reader};
pub use writer::{Room, TypedWriter, WriteAction};

use vstd::prelude::*;
use crate::error::HostError;

verus! {

/// What a look at a call found that the host is working on.
#[derive(Debug, PartialEq, Eq)]
pub enum Settled<V> {
    /// The host has not answered yet.
    Pending,
    /// The host has answered.
    Fulfilled(V),
    /// The host has failed.
    Rejected(HostError),
}

} // verus!
