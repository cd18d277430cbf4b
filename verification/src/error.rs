//! The statuses with which the object core refuses an operation.

use vstd::prelude::*;

verus! {

/// Why an operation on handles and kernel objects was refused. Every failure
/// is reported with one of these, and none changes any state.
#[derive(Clone, Copy, Debug, PartialEq, Eq, Structural)]
pub enum ZxError {
    /// The handle value is not in the calling process's handle table.
    WrongHandle,
    /// The handle's rights do not cover what the operation needs.
    AccessDenied,
    /// An argument is malformed, or the combination asked for does not exist.
    InvalidArgument,
    /// The object is not of a kind that the operation accepts.
    WrongType,
    /// The exceptionate already has a live channel.
    AlreadyBound,
}

} // verus!
