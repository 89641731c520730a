//! Error values returned by the fallible operations of this crate.

use vstd::prelude::*;

verus! {

/// Failure of opening a device context.
///
/// `NoDevice` is reserved for the case where enumeration found zero
/// adapters; a named device that is absent from a non-empty list surfaces
/// as `OpenDeviceError`, exactly as a hardware open failure would.
#[derive(Clone, Copy, Debug, PartialEq, Eq, Structural)]
pub enum IbvContextError {
    NoDevice,
    OpenDeviceError,
}

/// Failure of an operation on an already-open object.
///
/// - `AllocFailed`: a domain, queue, region or queue pair could not be
///   created (or a queue could not be resized) at the driver level.
/// - `ModifyFailed`: a queue-pair state transition was rejected, because it
///   was attempted out of order or with the wrong attribute mask.
/// - `PostFailed`: a work request (or a scatter-gather entry for one) was
///   rejected at construction or posting time.
/// - `PollFailed`: the driver reported an internal polling error.
/// - `QueryFailed`: a capability, port, address or key query was rejected,
///   e.g. for an out-of-range port number or table index.
/// - `DestroyFailed`: an object could not be destroyed because live objects
///   still depend on it.
#[derive(Clone, Copy, Debug, PartialEq, Eq, Structural)]
pub enum IbvError {
    AllocFailed,
    ModifyFailed,
    PostFailed,
    PollFailed,
    QueryFailed,
    DestroyFailed,
}

} // verus!
