//! Laws on what the manager delivers and performs, and on message equality,
//! stated over what the executable functions return.

use crate::error::{ErrorView, WsError, WsResult};
use crate::manager::{SocketAction, SocketEvent, WsCommand};
use crate::message::{MessageView, WsMessage};
use vstd::prelude::*;
use vstd::std_specs::cmp::PartialEqSpec;

verus! {

/// A received binary message reaches the handle with all of its bytes.
pub proof fn law_binary_event_delivered_whole(b: Vec<u8>, r: Option<WsResult<WsMessage>>)
    requires
        call_ensures(SocketEvent::report, (SocketEvent::BinaryMessage(b),), r),
    ensures
        r matches Some(Ok(m)) && m@ == MessageView::Binary(b@),
{
}

/// A received text message reaches the handle with all of its characters.
pub proof fn law_text_event_delivered_whole(t: String, r: Option<WsResult<WsMessage>>)
    requires
        call_ensures(SocketEvent::report, (SocketEvent::TextMessage(t),), r),
    ensures
        r matches Some(Ok(m)) && m@ == MessageView::Text(t@),
{
}

/// A close of the socket reaches the handle as a close error with the
/// socket's own code and reason.
pub proof fn law_close_event_delivered(code: u16, reason: String, r: Option<WsResult<WsMessage>>)
    requires
        call_ensures(SocketEvent::report, ((SocketEvent::Closed { code, reason }),), r),
    ensures
        r matches Some(Err(e)) && e@ == (ErrorView::ConnectionClosed { code, reason: reason@ }),
{
}

/// A message of another kind reaches the handle as nothing at all.
pub proof fn law_other_event_dropped(r: Option<WsResult<WsMessage>>)
    requires
        call_ensures(SocketEvent::report, (SocketEvent::OtherMessage,), r),
    ensures
        r is None,
{
}

/// The manager performs each command as it is: a message is sent with its
/// own text or bytes, and only a close, or the end of all commands, closes
/// the socket.
pub proof fn law_next_performs_the_command(cmd: Option<WsCommand>, a: SocketAction)
    requires
        call_ensures(SocketAction::next, (cmd,), a),
    ensures
        cmd matches Some(WsCommand::Send(m)) ==> match m {
            WsMessage::Text(t) => a matches SocketAction::SendText(u) && u@ == t@,
            WsMessage::Binary(b) => a matches SocketAction::SendBinary(d) && d@ == b@,
        },
        (a is Close) <==> (cmd is None || cmd matches Some(WsCommand::Close)),
{
}

/// The manager keeps running after every action but a close.
pub proof fn law_running_until_close(a: SocketAction, r: bool)
    requires
        call_ensures(SocketAction::keeps_running, (&a,), r),
    ensures
        r <==> !(a is Close),
{
}

/// Two messages compare equal exactly when they are of the same kind with
/// the same text or the same bytes.
pub proof fn law_eq_compares_kind_and_content(x: WsMessage, y: WsMessage, r: bool)
    requires
        call_ensures(<WsMessage as PartialEq>::eq, (&x, &y), r),
    ensures
        r <==> (x@ == y@),
        r <==> match (x, y) {
            (WsMessage::Text(a), WsMessage::Text(b)) => a@ == b@,
            (WsMessage::Binary(a), WsMessage::Binary(b)) => a@ == b@,
            _ => false,
        },
{
}

/// What `==` means for messages in specifications: same kind, same content.
pub proof fn law_eq_spec_is_content_equality(x: WsMessage, y: WsMessage)
    ensures
        x.eq_spec(&y) <==> x@ == y@,
        <WsMessage as PartialEqSpec>::obeys_eq_spec(),
{
}

} // verus!
