//! What the process says when it gives up.
//!
//! A refused argument is reported with the option or variable that it came
//! from; a failed operation with the resource it was about and the error
//! number of the system.

use crate::arguments::Field;
use crate::error::{HandshakeOperation, LaunchError, Reason, Resource};
use crate::number::{append_decimal, decimal_text};
use vstd::prelude::*;

verus! {

/// How a field is called in a message: an option with its two dashes, the
/// environment variable by its bare name.
pub open spec fn field_label(field: Field) -> Seq<char> {
    if field is StartPipe {
        field.name()
    } else {
        "--"@ + field.name()
    }
}

/// What a message says of a refused value.
pub open spec fn reason_text(reason: Reason) -> Seq<char> {
    match reason {
        Reason::Missing => "is required"@,
        Reason::Empty => "must not be empty"@,
        Reason::NotANumber => "is not a number"@,
    }
}

/// How a resource is called in a message.
pub open spec fn resource_text(resource: Resource) -> Seq<char> {
    match resource {
        Resource::NullDeviceReadOnly => "open /dev/null for reading"@,
        Resource::NullDeviceWriteOnly => "open /dev/null for writing"@,
        Resource::HandshakeDescriptor => "mark the start pipe close-on-exec"@,
    }
}

/// How an operation on the handshake descriptor is called in a message.
pub open spec fn operation_text(operation: HandshakeOperation) -> Seq<char> {
    match operation {
        HandshakeOperation::Read => "read from the start pipe"@,
        HandshakeOperation::Close => "close the start pipe"@,
    }
}

/// The message for a failure.
pub open spec fn message_text(error: LaunchError) -> Seq<char> {
    match error {
        LaunchError::InvalidArgument { field, reason } => "invalid argument: "@ + field_label(field)
            + " "@ + reason_text(reason),
        LaunchError::ResourceAcquisitionFailed { resource, errno } => "cannot "@ + resource_text(
            resource,
        ) + ": error "@ + decimal_text(errno as int),
        LaunchError::HandshakeIoError { operation, errno } => "handshake failed: cannot "@
            + operation_text(operation) + ": error "@ + decimal_text(errno as int),
    }
}

impl Reason {
    /// What a message says of a value refused for this reason.
    pub fn as_str(&self) -> (text: &'static str)
        ensures
            text@ == reason_text(*self),
    {
        match self {
            Reason::Missing => "is required",
            Reason::Empty => "must not be empty",
            Reason::NotANumber => "is not a number",
        }
    }
}

impl Resource {
    /// How the resource is called in a message.
    pub fn as_str(&self) -> (text: &'static str)
        ensures
            text@ == resource_text(*self),
    {
        match self {
            Resource::NullDeviceReadOnly => "open /dev/null for reading",
            Resource::NullDeviceWriteOnly => "open /dev/null for writing",
            Resource::HandshakeDescriptor => "mark the start pipe close-on-exec",
        }
    }
}

impl HandshakeOperation {
    /// How the operation is called in a message.
    pub fn as_str(&self) -> (text: &'static str)
        ensures
            text@ == operation_text(*self),
    {
        match self {
            HandshakeOperation::Read => "read from the start pipe",
            HandshakeOperation::Close => "close the start pipe",
        }
    }
}

impl LaunchError {
    /// The message for this failure.
    pub fn message(&self) -> (text: String)
        ensures
            text@ == message_text(*self),
    {
        match self {
            LaunchError::InvalidArgument { field, reason } => {
                let mut text = String::from_str("invalid argument: ");
                match field {
                    Field::StartPipe => {},
                    _ => {
                        text.append("--");
                    },
                }
                text.append(field.as_str());
                text.append(" ");
                text.append(reason.as_str());
                assert(text@ =~= message_text(*self));
                text
            },
            LaunchError::ResourceAcquisitionFailed { resource, errno } => {
                let mut text = String::from_str("cannot ");
                text.append(resource.as_str());
                text.append(": error ");
                append_decimal(&mut text, *errno as i64);
                assert(text@ =~= message_text(*self));
                text
            },
            LaunchError::HandshakeIoError { operation, errno } => {
                let mut text = String::from_str("handshake failed: cannot ");
                text.append(operation.as_str());
                text.append(": error ");
                append_decimal(&mut text, *errno as i64);
                assert(text@ =~= message_text(*self));
                text
            },
        }
    }
}

} // verus!
