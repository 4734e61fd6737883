//! Error values surfaced to callers of the client layer.

use vstd::prelude::*;

verus! {

/// An error returned by coordinator client operations.
///
/// Resource exhaustion and request-level failures are ordinary, recoverable
/// values of this type. Protocol violations (a severed channel, a reply slot
/// dropped without a value) are *not* represented here: they are signalled by
/// [`Disconnected`] so that the embedding can treat them as fatal.
#[derive(Debug)]
pub enum CoordError {
    /// Every connection identifier in the allocator's range is in use.
    IdExhausted,
    /// The coordinator reported a failure for a single request. The session
    /// survives such a failure and remains usable.
    Coordinator(String),
}

/// The channel to the coordinator is severed: the coordinator is gone.
///
/// Normal operation guarantees the coordinator outlives every client, so an
/// embedding that receives this value should treat it as a fatal lifecycle
/// defect, not as a recoverable error.
#[derive(Debug)]
pub struct Disconnected;

} // verus!
