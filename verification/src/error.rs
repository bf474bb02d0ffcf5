//! Error types for websocket operations

use crate::channel::send_error_text;
use crate::message::WsMessage;
use tokio::sync::mpsc::error::SendError;
use vstd::prelude::*;
use vstd::std_specs::convert::FromSpecImpl;

verus! {

/// Result type alias for websocket operations
pub type WsResult<T> = Result<T, WsError>;

/// Errors that can occur during websocket operations
#[derive(Debug, Clone)]
pub enum WsError {
    /// Failed to create or connect to the websocket
    ConnectionError(String),
    /// Error sending a message through the websocket
    SendError(String),
    /// Error receiving a message from the websocket
    ReceiveError(String),
    /// The websocket connection was closed
    ConnectionClosed { code: u16, reason: String },
    /// The websocket encountered an error event
    WebSocketError(String),
    /// Channel communication error
    ChannelError(String),
    /// Invalid message format
    InvalidMessage(String),
}

/// The mathematical value of a `WsError`: its variant, with each text taken
/// as its sequence of characters.
pub enum ErrorView {
    ConnectionError(Seq<char>),
    SendError(Seq<char>),
    ReceiveError(Seq<char>),
    ConnectionClosed { code: u16, reason: Seq<char> },
    WebSocketError(Seq<char>),
    ChannelError(Seq<char>),
    InvalidMessage(Seq<char>),
}

impl View for WsError {
    type V = ErrorView;

    open spec fn view(&self) -> ErrorView {
        match self {
            WsError::ConnectionError(s) => ErrorView::ConnectionError(s@),
            WsError::SendError(s) => ErrorView::SendError(s@),
            WsError::ReceiveError(s) => ErrorView::ReceiveError(s@),
            WsError::ConnectionClosed { code, reason } => ErrorView::ConnectionClosed {
                code: *code,
                reason: reason@,
            },
            WsError::WebSocketError(s) => ErrorView::WebSocketError(s@),
            WsError::ChannelError(s) => ErrorView::ChannelError(s@),
            WsError::InvalidMessage(s) => ErrorView::InvalidMessage(s@),
        }
    }
}

/// `prefix` followed by `tail`.
pub(crate) fn joined(prefix: &str, tail: String) -> (s: String)
    ensures
        s@ == prefix@ + tail@,
{
    let mut s = String::from_str(prefix);
    s.append(tail.as_str());
    s
}

/// The text of the error made from a failed send of a message on a channel.
pub open spec fn channel_failure_text() -> Seq<char> {
    "Failed to send message to channel: "@ + "channel closed"@
}

impl From<SendError<WsMessage>> for WsError {
    fn from(e: SendError<WsMessage>) -> (r: Self)
        ensures
            r@ == ErrorView::ChannelError(channel_failure_text()),
    {
        WsError::ChannelError(joined("Failed to send message to channel: ", send_error_text(&e)))
    }
}

impl FromSpecImpl<SendError<WsMessage>> for WsError {
    open spec fn obeys_from_spec() -> bool {
        false
    }

    open spec fn from_spec(e: SendError<WsMessage>) -> WsError {
        arbitrary()
    }
}

} // verus!
