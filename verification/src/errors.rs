//! Error taxonomy of the client core.
//!
//! All three kinds are surfaced synchronously to the operation that
//! triggered them; nothing is retried or recovered at this layer.

use vstd::prelude::*;

verus! {

/// An error reported by the client core or by the dispatch boundary.
#[derive(Debug, PartialEq, Eq, Clone)]
pub enum SignalRClientError {
    /// A value could not be converted to or from its wire representation.
    SerializationError { message: String },
    /// The underlying connection failed during a send or a receive.
    TransportError { message: String },
    /// An inbound message does not fit the protocol state, for instance a
    /// stream frame arriving after the stream already terminated.
    ProtocolError { message: String },
}

impl SignalRClientError {
    /// A human-readable description of the error.
    pub fn message(&self) -> (r: String)
        ensures
            r@ == match self {
                SignalRClientError::SerializationError { message } => message@,
                SignalRClientError::TransportError { message } => message@,
                SignalRClientError::ProtocolError { message } => message@,
            },
    {
        match self {
            SignalRClientError::SerializationError { message } => message.clone(),
            SignalRClientError::TransportError { message } => message.clone(),
            SignalRClientError::ProtocolError { message } => message.clone(),
        }
    }
}

} // verus!
