//! The errors of the rebuild engine.
use vstd::prelude::*;

use crate::rebuild_state::{RebuildOperation, RebuildState};

verus! {

/// Which of the two children of a rebuild an error concerns.
#[derive(Clone, Copy, Debug, PartialEq, Eq, Structural)]
pub enum IoSide {
    /// The healthy child that is read.
    Src,
    /// The stale child that is written.
    Dst,
}

/// What can go wrong in a rebuild.
#[derive(Clone, Copy, Debug, PartialEq, Eq, Structural)]
pub enum RebuildError {
    /// The URI of a child did not resolve to a device.
    NoSuchDevice { side: IoSide },
    /// No I/O handle could be had for a child.
    NoBdevHandle { side: IoSide },
    /// A read from the source or a write to the destination failed; `offset`
    /// and `len` are in blocks, `cause` is the error number of the device.
    IoError { side: IoSide, offset: u64, len: u64, cause: i32 },
    /// The range lock over a segment could not be taken.
    RangeLockFailed { offset: u64, len: u64 },
    /// The range is empty, unaligned, or not contained in both devices.
    BadRange,
    /// Another job exists for the destination.
    AlreadyExists,
    /// The command does not fit the state the job is in.
    InvalidStateTransition { operation: RebuildOperation, state: RebuildState },
}

} // verus!
