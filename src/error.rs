//! The library's error types.
use vstd::prelude::*;

verus! {

/// Establishing the connection failed; not retried here.
#[derive(Debug, Clone, PartialEq)]
pub enum ConnectError {
    /// The endpoint address could not be parsed.
    InvalidUrl(String),
    /// The upgrade handshake or the transport failed.
    Handshake(String),
}

/// A join request could not be sent.
#[derive(Debug, Clone, PartialEq)]
pub enum JoinError {
    /// Every correlation reference of this connection has been handed out.
    ReferencesExhausted,
    /// Writing the join envelope to the connection failed.
    Write(String),
}

/// One inbound frame could not be turned into a message, or the delivery
/// channel was closed.
#[derive(Debug, Clone, PartialEq)]
pub enum MessageError {
    /// The frame is not a JSON object.
    NotAnObject,
    /// A required member (named here) is absent.
    MissingField(String),
    /// A member (named here) that must be a JSON string is something else.
    NotAString(String),
    /// A binary frame arrived where envelopes are text.
    NotText,
    /// The connection reported a failure while reading.
    Transport(String),
    /// The application closed the delivery channel.
    ChannelClosed,
}

/// Everything the client can report.
#[derive(Debug)]
pub enum ClientError {
    Connect(ConnectError),
    Join(JoinError),
    /// The shared sender was left poisoned by a task that panicked while
    /// holding it; fatal and not retryable.
    Thread(String),
}

impl From<ConnectError> for ClientError {
    fn from(e: ConnectError) -> (r: ClientError)
        ensures
            r == ClientError::Connect(e),
    {
        ClientError::Connect(e)
    }
}

impl vstd::std_specs::convert::FromSpecImpl<ConnectError> for ClientError {
    open spec fn obeys_from_spec() -> bool {
        true
    }

    open spec fn from_spec(e: ConnectError) -> ClientError {
        ClientError::Connect(e)
    }
}

impl From<JoinError> for ClientError {
    fn from(e: JoinError) -> (r: ClientError)
        ensures
            r == ClientError::Join(e),
    {
        ClientError::Join(e)
    }
}

impl vstd::std_specs::convert::FromSpecImpl<JoinError> for ClientError {
    open spec fn obeys_from_spec() -> bool {
        true
    }

    open spec fn from_spec(e: JoinError) -> ClientError {
        ClientError::Join(e)
    }
}

} // verus!
