//! Errors raised by the communication layer.
//!
//! Transport and codec failures reach the core as plain descriptions; the
//! enums here classify them so the supervisor can decide what is transient
//! backpressure, what is terminal for a task, and what aborts startup.

use vstd::prelude::*;

verus! {

/// Error raised by the communication layer.
#[derive(Clone, Debug, PartialEq, Eq)]
pub enum CommunicationError {
    /// The channel has no capacity left. Transient: the caller may retry.
    NoCapacity,
    /// The channel or the underlying pipe has been closed. Terminal for the
    /// owning task.
    Disconnected,
    /// The type does not support serialization.
    SerializeNotImplemented,
    /// The type does not support deserialization.
    DeserializeNotImplemented,
    /// The payload codec failed; carries the codec's description. Terminal
    /// for the receiver.
    SerializationError(String),
    /// Reading or writing the underlying pipe failed; carries the transport's
    /// description. Terminal.
    IoError(String),
    /// An unexpected control-message variant arrived during a barrier phase.
    /// Terminal: startup aborts.
    ProtocolViolation,
}

/// Error raised when a framed message cannot be encoded or decoded.
#[derive(Clone, Debug, PartialEq, Eq)]
pub enum CodecError {
    /// Reading or writing the frame failed; carries the transport's
    /// description.
    IoError(String),
    /// Serializing or deserializing the frame's metadata failed; carries the
    /// codec's description.
    SerializationError(String),
}

/// Error raised by a non-blocking read on a channel endpoint.
#[derive(Clone, Debug, PartialEq, Eq)]
pub enum TryRecvError {
    /// No data to read right now.
    Empty,
    /// The channel or the underlying pipe has been closed.
    Disconnected,
    /// The frame could not be deserialized; carries the codec's
    /// description.
    SerializationError(String),
}

/// What a [`CodecError`] becomes when it surfaces through the communication
/// layer.
pub open spec fn communication_error_of_codec(e: CodecError) -> CommunicationError {
    match e {
        CodecError::IoError(s) => CommunicationError::IoError(s),
        CodecError::SerializationError(s) => CommunicationError::SerializationError(s),
    }
}

impl From<CodecError> for CommunicationError {
    /// Lifts a codec failure into the communication layer's error space,
    /// keeping its description.
    fn from(e: CodecError) -> (r: CommunicationError) {
        match e {
            CodecError::IoError(s) => CommunicationError::IoError(s),
            CodecError::SerializationError(s) => CommunicationError::SerializationError(s),
        }
    }
}

impl vstd::std_specs::convert::FromSpecImpl<CodecError> for CommunicationError {
    open spec fn obeys_from_spec() -> bool {
        true
    }

    open spec fn from_spec(e: CodecError) -> CommunicationError {
        communication_error_of_codec(e)
    }
}

} // verus!
