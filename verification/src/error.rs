//! What can go wrong while the monitor starts, and how the process reports it.

use crate::arguments::Field;
use vstd::prelude::*;

verus! {

/// Why a value was refused.
#[derive(Clone, Copy, PartialEq, Eq, Structural, Debug)]
pub enum Reason {
    /// The input is required and was not given.
    Missing,
    /// The input was given with an empty value.
    Empty,
    /// The value is not a number of the expected type.
    NotANumber,
}

/// A resource that the process must hold before it may go on.
#[derive(Clone, Copy, PartialEq, Eq, Structural, Debug)]
pub enum Resource {
    /// The null device, opened for reading.
    NullDeviceReadOnly,
    /// The null device, opened for writing.
    NullDeviceWriteOnly,
    /// The descriptor inherited from the parent for the handshake.
    HandshakeDescriptor,
}

/// An operation on the handshake descriptor.
#[derive(Clone, Copy, PartialEq, Eq, Structural, Debug)]
pub enum HandshakeOperation {
    Read,
    Close,
}

/// A fatal startup failure. None of them is retried: a launcher that is only
/// half set up must not go on to create a container.
#[derive(Clone, Copy, PartialEq, Eq, Structural, Debug)]
pub enum LaunchError {
    /// An input is malformed, or a required one is missing.
    InvalidArgument { field: Field, reason: Reason },
    /// A descriptor could not be opened or prepared.
    ResourceAcquisitionFailed { resource: Resource, errno: i32 },
    /// Reading from or closing the handshake descriptor failed.
    HandshakeIoError { operation: HandshakeOperation, errno: i32 },
}

/// Exit status of a process that was given bad input.
pub const EXIT_INVALID_ARGUMENT: i32 = 64;

/// Exit status of a process that could not acquire a resource.
pub const EXIT_RESOURCE: i32 = 71;

/// Exit status of a process whose handshake with the parent failed.
pub const EXIT_HANDSHAKE: i32 = 74;

impl LaunchError {
    /// The exit status that tells this kind of failure from the others.
    pub open spec fn status(self) -> int {
        match self {
            LaunchError::InvalidArgument { .. } => EXIT_INVALID_ARGUMENT as int,
            LaunchError::ResourceAcquisitionFailed { .. } => EXIT_RESOURCE as int,
            LaunchError::HandshakeIoError { .. } => EXIT_HANDSHAKE as int,
        }
    }

    /// The status with which the process exits on this failure.
    pub fn exit_status(&self) -> (status: i32)
        ensures
            status == self.status(),
    {
        match self {
            LaunchError::InvalidArgument { .. } => EXIT_INVALID_ARGUMENT,
            LaunchError::ResourceAcquisitionFailed { .. } => EXIT_RESOURCE,
            LaunchError::HandshakeIoError { .. } => EXIT_HANDSHAKE,
        }
    }
}

/// Two failures share an exit status only if they are of the same kind, and no
/// failure exits with success (0), with the generic failure status (1) or with
/// the status of a crashed process (101).
pub proof fn law_exit_status_tells_kinds_apart(a: LaunchError, b: LaunchError)
    ensures
        a.status() == b.status() <==> ((a is InvalidArgument && b is InvalidArgument) || (a
            is ResourceAcquisitionFailed && b is ResourceAcquisitionFailed) || (a
            is HandshakeIoError && b is HandshakeIoError)),
        a.status() != 0 && a.status() != 1 && a.status() != 101,
        0 < a.status() < 256,
{
}

} // verus!
