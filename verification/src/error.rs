//! The errors that a call can end in.

use vstd::prelude::*;
use vstd::string::StringExecFns;

verus! {

/// The five kinds of failure that a caller can tell apart.
#[derive(Clone, Copy, Debug, PartialEq, Eq, Structural)]
pub enum ErrorKind {
    /// The request could not be put on the wire.
    Transport,
    /// No response came within the time allowed.
    Timeout,
    /// The connection dropped while the call was in flight.
    Abandonment,
    /// What came back was no well-formed response to this call.
    ProtocolViolation,
    /// The remote end answered with an error of its own.
    Remote,
}

/// How a call failed.
#[derive(Clone, Debug, PartialEq, Eq)]
pub enum CallError {
    /// No connection is live.
    NotConnected,
    /// The request could not be serialised; holds the serialiser's message.
    Encode(String),
    /// Writing the request failed; holds the transport's message.
    SendFailed(String),
    /// No response came within the time allowed.
    TimedOut,
    /// The connection dropped before a response came.
    ConnectionLost,
    /// The completion slot was given up without a payload.
    NoResponse,
    /// The response could not be decoded; holds the decoder's message.
    Malformed(String),
    /// The response carries another call's id.
    MismatchedId,
    /// The response holds neither a result nor an error.
    NoResultOrError,
    /// The remote end reported an error; holds its message.
    Remote(String),
}

/// A [`CallError`] with its messages as character sequences.
pub enum CallErrorView {
    NotConnected,
    Encode(Seq<char>),
    SendFailed(Seq<char>),
    TimedOut,
    ConnectionLost,
    NoResponse,
    Malformed(Seq<char>),
    MismatchedId,
    NoResultOrError,
    Remote(Seq<char>),
}

impl View for CallError {
    type V = CallErrorView;

    open spec fn view(&self) -> CallErrorView {
        match self {
            CallError::NotConnected => CallErrorView::NotConnected,
            CallError::Encode(m) => CallErrorView::Encode(m@),
            CallError::SendFailed(m) => CallErrorView::SendFailed(m@),
            CallError::TimedOut => CallErrorView::TimedOut,
            CallError::ConnectionLost => CallErrorView::ConnectionLost,
            CallError::NoResponse => CallErrorView::NoResponse,
            CallError::Malformed(m) => CallErrorView::Malformed(m@),
            CallError::MismatchedId => CallErrorView::MismatchedId,
            CallError::NoResultOrError => CallErrorView::NoResultOrError,
            CallError::Remote(m) => CallErrorView::Remote(m@),
        }
    }
}

impl CallErrorView {
    /// The kind that an error falls under.
    pub open spec fn kind(self) -> ErrorKind {
        match self {
            CallErrorView::NotConnected => ErrorKind::Transport,
            CallErrorView::Encode(_) => ErrorKind::Transport,
            CallErrorView::SendFailed(_) => ErrorKind::Transport,
            CallErrorView::TimedOut => ErrorKind::Timeout,
            CallErrorView::ConnectionLost => ErrorKind::Abandonment,
            CallErrorView::NoResponse => ErrorKind::ProtocolViolation,
            CallErrorView::Malformed(_) => ErrorKind::ProtocolViolation,
            CallErrorView::MismatchedId => ErrorKind::ProtocolViolation,
            CallErrorView::NoResultOrError => ErrorKind::ProtocolViolation,
            CallErrorView::Remote(_) => ErrorKind::Remote,
        }
    }

    /// The text that an error is reported with.
    pub open spec fn message(self) -> Seq<char> {
        match self {
            CallErrorView::NotConnected => "WebSocket connection not established"@,
            CallErrorView::Encode(m) => m,
            CallErrorView::SendFailed(m) => "Failed to send request: "@ + m,
            CallErrorView::TimedOut => "Request timed out"@,
            CallErrorView::ConnectionLost => "Connection lost before receiving response"@,
            CallErrorView::NoResponse => "Failed to receive response"@,
            CallErrorView::Malformed(m) => m,
            CallErrorView::MismatchedId => "Mismatched response ID"@,
            CallErrorView::NoResultOrError => "No result or error in response"@,
            CallErrorView::Remote(m) => m,
        }
    }
}

impl CallError {
    /// The kind that the error falls under.
    pub fn kind(&self) -> (r: ErrorKind)
        ensures
            r == self@.kind(),
    {
        match self {
            CallError::NotConnected => ErrorKind::Transport,
            CallError::Encode(_) => ErrorKind::Transport,
            CallError::SendFailed(_) => ErrorKind::Transport,
            CallError::TimedOut => ErrorKind::Timeout,
            CallError::ConnectionLost => ErrorKind::Abandonment,
            CallError::NoResponse => ErrorKind::ProtocolViolation,
            CallError::Malformed(_) => ErrorKind::ProtocolViolation,
            CallError::MismatchedId => ErrorKind::ProtocolViolation,
            CallError::NoResultOrError => ErrorKind::ProtocolViolation,
            CallError::Remote(_) => ErrorKind::Remote,
        }
    }

    /// The text that the error is reported with.
    pub fn message(&self) -> (r: String)
        ensures
            r@ == self@.message(),
    {
        match self {
            CallError::NotConnected => "WebSocket connection not established".to_owned(),
            CallError::Encode(m) => m.clone(),
            CallError::SendFailed(m) => "Failed to send request: ".to_owned().concat(m.as_str()),
            CallError::TimedOut => "Request timed out".to_owned(),
            CallError::ConnectionLost => "Connection lost before receiving response".to_owned(),
            CallError::NoResponse => "Failed to receive response".to_owned(),
            CallError::Malformed(m) => m.clone(),
            CallError::MismatchedId => "Mismatched response ID".to_owned(),
            CallError::NoResultOrError => "No result or error in response".to_owned(),
            CallError::Remote(m) => m.clone(),
        }
    }
}

} // verus!
