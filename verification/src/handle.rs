//! WsHandle - a handle that controls a websocket through channels

use crate::channel::{answered_closed, handed, send_error_text, LoggedSender};
use crate::error::{joined, ErrorView, WsError, WsResult};
use crate::manager::{WsCommand, WsManager};
use crate::message::WsMessage;
use tokio::sync::mpsc::error::SendError;
use tokio::sync::mpsc::{UnboundedReceiver, UnboundedSender};
use vstd::prelude::*;

verus! {

/// The text of the error that a failed close command gives.
pub open spec fn close_failure_text() -> Seq<char> {
    "Failed to send close command: "@ + "channel closed"@
}

/// The text of the error that a failed message send gives.
pub open spec fn send_failure_text() -> Seq<char> {
    "Failed to send message: "@ + "channel closed"@
}

/// The reason given when a closed handle is asked whether it is ready.
pub open spec fn closed_reason() -> Seq<char> {
    "Connection closed"@
}

/// The view of a `WsResult<()>`.
pub open spec fn unit_result_view(r: WsResult<()>) -> Result<(), ErrorView> {
    match r {
        Ok(()) => Ok(()),
        Err(e) => Err(e@),
    }
}

/// What a handle answers when asked whether it is ready, given whether it
/// is closed.
pub open spec fn readiness_view(closed: bool) -> Result<(), ErrorView> {
    if closed {
        Err(ErrorView::ConnectionClosed { code: 0, reason: closed_reason() })
    } else {
        Ok(())
    }
}

/// What closing gives, given whether the close command went out.
pub open spec fn close_result_view(sent: bool) -> Result<(), ErrorView> {
    if sent {
        Ok(())
    } else {
        Err(ErrorView::ChannelError(close_failure_text()))
    }
}

/// What sending a message gives, given whether its command went out.
pub open spec fn send_result_view(sent: bool) -> Result<(), ErrorView> {
    if sent {
        Ok(())
    } else {
        Err(ErrorView::SendError(send_failure_text()))
    }
}

/// A handle to a websocket.
///
/// Messages to send go out as commands on one channel; received messages
/// and errors come in on another. The socket itself is driven by a manager
/// at the other ends of the two channels.
pub struct WsHandle {
    rx_msg: UnboundedReceiver<WsResult<WsMessage>>,
    tx_cmd: LoggedSender<WsCommand>,
    _manager: Option<WsManager>,
}

impl WsHandle {
    /// The receiving half of the channel on which messages come in.
    pub closed spec fn incoming(&self) -> UnboundedReceiver<WsResult<WsMessage>> {
        self.rx_msg
    }

    /// The sending half of the channel on which commands go out.
    pub closed spec fn outgoing(&self) -> UnboundedSender<WsCommand> {
        self.tx_cmd.sender()
    }

    /// The commands that sending messages has put on the outgoing channel,
    /// oldest first. Close commands, sent through a shared reference, are not
    /// in it.
    pub closed spec fn handed_commands(&self) -> Seq<WsCommand> {
        self.tx_cmd.accepted()
    }

    /// Create a new websocket handle and connect to the given URL, where no
    /// browser socket exists.
    ///
    /// Both channels are made and handed to the manager; off a browser the
    /// manager refuses, and so does this. A browser manager holds the far
    /// ends of two channels of its own and hands out its handle through
    /// `from_channels`.
    pub fn new(url: &str) -> (r: WsResult<Self>)
        ensures
            r matches Err(e) && e@ == ErrorView::ConnectionError(crate::manager::wasm_only_text()),
    {
        let (tx_msg, rx_msg) = tokio::sync::mpsc::unbounded_channel();
        let (tx_cmd, rx_cmd) = tokio::sync::mpsc::unbounded_channel();
        match WsManager::new(url, tx_msg, rx_cmd) {
            Ok(manager) => Ok(
                WsHandle { rx_msg, tx_cmd: LoggedSender::new(tx_cmd), _manager: Some(manager) },
            ),
            Err(e) => Err(e),
        }
    }

    /// A handle on the two channels whose other ends a manager holds: messages
    /// and errors come in on `rx_msg`, commands go out on `tx_cmd`.
    pub fn from_channels(
        rx_msg: UnboundedReceiver<WsResult<WsMessage>>,
        tx_cmd: UnboundedSender<WsCommand>,
    ) -> (h: Self)
        ensures
            h.incoming() == rx_msg,
            h.outgoing() == tx_cmd,
            h.handed_commands() == Seq::<WsCommand>::empty(),
    {
        WsHandle { rx_msg, tx_cmd: LoggedSender::new(tx_cmd), _manager: None }
    }

    /// What closing gives for the outcome of sending the close command: `Ok`
    /// when the command went out, else a channel error.
    pub fn close_outcome(sent: Result<(), SendError<WsCommand>>) -> (r: WsResult<()>)
        ensures
            unit_result_view(r) == close_result_view(sent is Ok),
    {
        match sent {
            Ok(()) => Ok(()),
            Err(e) => Err(WsError::ChannelError(joined("Failed to send close command: ", send_error_text(&e)))),
        }
    }

    /// Manually close the websocket connection: a close command goes out to
    /// the manager, and the result says whether it went.
    pub fn close(&self) -> (r: WsResult<()>)
        ensures
            exists|sent: Result<(), SendError<WsCommand>>|
                handed(&self.outgoing(), WsCommand::Close, sent) && unit_result_view(r)
                    == close_result_view(sent is Ok),
    {
        let sent = self.tx_cmd.send_close();
        assert(handed(&self.outgoing(), WsCommand::Close, sent));
        Self::close_outcome(sent)
    }

    /// Check if the handle is closed: whether the manager has stopped taking
    /// commands, which it does once the socket is closed, by either side.
    pub fn is_closed(&self) -> (closed: bool)
        ensures
            answered_closed(&self.outgoing(), closed),
    {
        self.tx_cmd.is_closed()
    }

    /// Whether a handle is ready to take a message, given whether it is
    /// closed.
    pub fn readiness(closed: bool) -> (r: WsResult<()>)
        ensures
            unit_result_view(r) == readiness_view(closed),
    {
        if closed {
            Err(WsError::ConnectionClosed { code: 0, reason: "Connection closed".to_string() })
        } else {
            Ok(())
        }
    }

    /// Whether this handle is ready to take a message: it is unless closed.
    pub fn check_ready(&self) -> (r: WsResult<()>)
        ensures
            exists|closed: bool|
                answered_closed(&self.outgoing(), closed) && unit_result_view(r) == readiness_view(
                    closed,
                ),
    {
        Self::readiness(self.is_closed())
    }

    /// What sending a message gives for the outcome of sending its command:
    /// `Ok` when the command went out, else a send error.
    pub fn send_outcome(sent: Result<(), SendError<WsCommand>>) -> (r: WsResult<()>)
        ensures
            unit_result_view(r) == send_result_view(sent is Ok),
    {
        match sent {
            Ok(()) => Ok(()),
            Err(e) => Err(WsError::SendError(joined("Failed to send message: ", send_error_text(&e)))),
        }
    }

    /// Send a message: it goes out to the manager as a send command, and the
    /// result says whether it went. A command that went is added to the
    /// record of handed commands; nothing else is.
    pub fn start_send(&mut self, item: WsMessage) -> (r: WsResult<()>)
        ensures
            exists|sent: Result<(), SendError<WsCommand>>|
                handed(&old(self).outgoing(), WsCommand::Send(item), sent) && unit_result_view(r)
                    == send_result_view(sent is Ok),
            final(self).handed_commands() == (if r is Ok {
                old(self).handed_commands().push(WsCommand::Send(item))
            } else {
                old(self).handed_commands()
            }),
            final(self).outgoing() == old(self).outgoing(),
            final(self).incoming() == old(self).incoming(),
    {
        let sent = self.tx_cmd.send(WsCommand::Send(item));
        assert(handed(&old(self).outgoing(), WsCommand::Send(item), sent));
        Self::send_outcome(sent)
    }

    /// The receiving half of the channel on which messages and errors come
    /// in, to be polled.
    pub fn incoming_mut(&mut self) -> (rx: &mut UnboundedReceiver<WsResult<WsMessage>>)
        ensures
            *rx == old(self).incoming(),
            final(self).incoming() == *final(rx),
            final(self).outgoing() == old(self).outgoing(),
            final(self).handed_commands() == old(self).handed_commands(),
    {
        &mut self.rx_msg
    }
}

} // verus!
