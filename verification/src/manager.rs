//! The socket manager: off a browser a stand-in that refuses to connect;
//! and the decisions that the manager takes in a browser, on each command
//! that comes from the handle and on each event that comes from the socket.

use crate::error::{joined, ErrorView, WsError, WsResult};
use crate::message::WsMessage;
use crate::channel::{handed, LoggedSender};
use tokio::sync::mpsc::error::SendError;
use tokio::sync::mpsc::{UnboundedReceiver, UnboundedSender};
use vstd::prelude::*;

verus! {

/// Internal commands for controlling the websocket
#[derive(Debug)]
pub enum WsCommand {
    Send(WsMessage),
    Close,
}

/// The text of the error that the manager gives off a browser.
pub open spec fn wasm_only_text() -> Seq<char> {
    "WebSocket is only supported on WASM target"@
}

/// Manager for the websocket. Off a browser there is no socket to manage:
/// the manager never connects.
pub struct WsManager;

impl WsManager {
    /// Create a new websocket manager and connect to the given URL; off a
    /// browser this always fails with a connection error.
    pub fn new(
        _url: &str,
        _tx_msg: UnboundedSender<WsResult<WsMessage>>,
        _rx_cmd: UnboundedReceiver<WsCommand>,
    ) -> (r: WsResult<Self>)
        ensures
            r matches Err(e) && e@ == ErrorView::ConnectionError(wasm_only_text()),
    {
        Err(WsError::ConnectionError("WebSocket is only supported on WASM target".to_string()))
    }

    /// Close the websocket connection; with no socket there is nothing to
    /// close.
    pub fn close(&self) -> (r: WsResult<()>)
        ensures
            r is Ok,
    {
        Ok(())
    }
}

/// What the manager does to the socket.
#[derive(Debug)]
pub enum SocketAction {
    /// Send a text frame
    SendText(String),
    /// Send a binary frame
    SendBinary(Vec<u8>),
    /// Close the socket; the manager takes no more commands
    Close,
}

/// What the manager does to the socket for a command: send the message's
/// text or bytes, or close.
pub open spec fn command_action(c: WsCommand) -> SocketAction {
    match c {
        WsCommand::Send(WsMessage::Text(t)) => SocketAction::SendText(t),
        WsCommand::Send(WsMessage::Binary(b)) => SocketAction::SendBinary(b),
        WsCommand::Close => SocketAction::Close,
    }
}

/// Whether the manager stops taking commands after an action.
pub open spec fn stops(a: SocketAction) -> bool {
    a is Close
}

impl WsCommand {
    /// What the manager does to the socket for this command.
    pub fn action(self) -> (a: SocketAction)
        ensures
            a == command_action(self),
    {
        match self {
            WsCommand::Send(WsMessage::Text(t)) => SocketAction::SendText(t),
            WsCommand::Send(WsMessage::Binary(b)) => SocketAction::SendBinary(b),
            WsCommand::Close => SocketAction::Close,
        }
    }
}

/// What the manager does next, given the next command, or `None` once no
/// handle is left to send one: then it closes the socket, so the connection
/// closes when the handle is dropped.
pub open spec fn next_action(cmd: Option<WsCommand>) -> SocketAction {
    match cmd {
        Some(c) => command_action(c),
        None => SocketAction::Close,
    }
}

impl SocketAction {
    /// What the manager does next, given what its command channel gave: the
    /// next command, or `None` once every sender is gone.
    pub fn next(cmd: Option<WsCommand>) -> (a: SocketAction)
        ensures
            a == next_action(cmd),
    {
        match cmd {
            Some(c) => c.action(),
            None => SocketAction::Close,
        }
    }

    /// Whether the manager goes on taking commands after this action: it
    /// stops once it has closed the socket.
    pub fn keeps_running(&self) -> (r: bool)
        ensures
            r == !stops(*self),
    {
        match self {
            SocketAction::Close => false,
            _ => true,
        }
    }
}

/// What the socket tells the manager.
#[derive(Debug)]
pub enum SocketEvent {
    /// A message arrived whose data is text
    TextMessage(String),
    /// A message arrived whose data is an array buffer, with its bytes
    BinaryMessage(Vec<u8>),
    /// A message arrived whose data is neither
    OtherMessage,
    /// An error event, with its message
    Error(String),
    /// The socket closed, with the close code and reason
    Closed { code: u16, reason: String },
}

/// The `Debug` rendering of a string with the characters `s`.
pub uninterp spec fn debug_string(s: Seq<char>) -> Seq<char>;

/// A string rendered through its `Debug` impl (std's `format!` with
/// `{:?}`): quoted, with special characters escaped. The result is named by
/// `debug_string`, a function of the string's characters alone.
#[verifier::external_body]
fn debug_text(s: &String) -> (d: String)
    ensures
        d@ == debug_string(s@),
{
    format!("{:?}", s)
}

/// The error reported for a socket error event, given the `Debug` rendering
/// of the event's message.
pub fn socket_error(described: String) -> (e: WsError)
    ensures
        e@ == ErrorView::WebSocketError("WebSocket error: "@ + described@),
{
    WsError::WebSocketError(joined("WebSocket error: ", described))
}

/// `r` is what the manager hands to the handle for the event `ev`: the
/// message, the error, or nothing for a message of another kind.
pub open spec fn reports(ev: SocketEvent, r: Option<WsResult<WsMessage>>) -> bool {
    match ev {
        SocketEvent::TextMessage(t) => r matches Some(Ok(m)) && m == WsMessage::Text(t),
        SocketEvent::BinaryMessage(b) => r matches Some(Ok(m)) && m == WsMessage::Binary(b),
        SocketEvent::OtherMessage => r is None,
        SocketEvent::Error(message) => r matches Some(Err(e)) && e@ == ErrorView::WebSocketError(
            "WebSocket error: "@ + debug_string(message@),
        ),
        SocketEvent::Closed { code, reason } => r matches Some(Err(e)) && e
            == WsError::ConnectionClosed { code, reason },
    }
}

impl SocketEvent {
    /// What the manager hands to the handle for this event: the message, the
    /// error, or nothing for a message of another kind.
    pub fn report(self) -> (r: Option<WsResult<WsMessage>>)
        ensures
            reports(self, r),
    {
        match self {
            SocketEvent::TextMessage(t) => Some(Ok(WsMessage::Text(t))),
            SocketEvent::BinaryMessage(b) => Some(Ok(WsMessage::Binary(b))),
            SocketEvent::OtherMessage => None,
            SocketEvent::Error(message) => Some(Err(socket_error(debug_text(&message)))),
            SocketEvent::Closed { code, reason } => Some(Err(WsError::ConnectionClosed { code, reason })),
        }
    }
}

impl SocketEvent {
    /// Whether the event ends the connection: a close of the socket, after
    /// which the manager stops taking commands.
    pub fn ends_connection(&self) -> (r: bool)
        ensures
            r == (self is Closed),
    {
        match self {
            SocketEvent::Closed { .. } => true,
            _ => false,
        }
    }

    /// Hand what this event reports to the handle on `tx`. Returns whether
    /// something was handed over and the channel took it; the record of `tx`
    /// grows by exactly that item, and by nothing otherwise.
    pub fn relay(self, tx: &mut LoggedSender<WsResult<WsMessage>>) -> (delivered: bool)
        ensures
            final(tx).sender() == old(tx).sender(),
            self is OtherMessage ==> !delivered && final(tx).accepted() == old(tx).accepted(),
            !(self is OtherMessage) ==> exists|
                item: WsResult<WsMessage>,
                sent: Result<(), SendError<WsResult<WsMessage>>>,
            |
                {
                    &&& reports(self, Some(item))
                    &&& handed(&old(tx).sender(), item, sent)
                    &&& delivered == (sent is Ok)
                    &&& final(tx).accepted() == (if delivered {
                        old(tx).accepted().push(item)
                    } else {
                        old(tx).accepted()
                    })
                },
    {
        match self.report() {
            Some(item) => {
                let ghost reported = item;
                let sent = tx.send(item);
                assert(handed(&old(tx).sender(), reported, sent));
                sent.is_ok()
            },
            None => false,
        }
    }
}

} // verus!
