//! Laws that relate the library's operations to one another.

use crate::error::ErrorView;
use crate::handle::{closed_reason, readiness_view, send_failure_text, send_result_view};
use crate::manager::{command_action, next_action, stops, SocketAction, WsCommand};
use crate::message::{
    binary_made_from, binary_result, text_made_from, text_result, MessageView, WsMessage,
};
use vstd::prelude::*;

verus! {

/// A text message gives back its text when turned into text, and refuses to
/// be turned into binary data.
pub proof fn law_text_round_trip(s: Seq<char>)
    ensures
        text_result(MessageView::Text(s)) == Ok::<Seq<char>, ErrorView>(s),
        binary_result(MessageView::Text(s)) == Err::<Seq<u8>, ErrorView>(
            ErrorView::InvalidMessage("Not a binary message"@),
        ),
{
}

/// A binary message gives back its bytes when turned into binary data, and
/// refuses to be turned into text.
pub proof fn law_binary_round_trip(b: Seq<u8>)
    ensures
        binary_result(MessageView::Binary(b)) == Ok::<Seq<u8>, ErrorView>(b),
        text_result(MessageView::Binary(b)) == Err::<Seq<char>, ErrorView>(
            ErrorView::InvalidMessage("Not a text message"@),
        ),
{
}

/// Every message is either text or binary, never both: exactly one of the
/// two conversions succeeds, the one that matches its kind.
pub proof fn law_exactly_one_kind(m: MessageView)
    ensures
        (m is Text) != (m is Binary),
        text_result(m) is Ok <==> m is Text,
        binary_result(m) is Ok <==> m is Binary,
        text_result(m) is Ok != binary_result(m) is Ok,
{
}

/// What a conversion gives back is all there is to the message: rebuilding
/// a message from it gives the same message.
pub proof fn law_conversion_loses_nothing(m: MessageView)
    ensures
        text_result(m) matches Ok(s) ==> m == MessageView::Text(s),
        binary_result(m) matches Ok(b) ==> m == MessageView::Binary(b),
{
}

/// A handle is ready exactly when it is not closed; a closed one answers
/// with a close of code 0.
pub proof fn law_ready_unless_closed(closed: bool)
    ensures
        readiness_view(closed) is Ok <==> !closed,
        closed ==> readiness_view(closed) == Err::<(), ErrorView>(
            ErrorView::ConnectionClosed { code: 0, reason: closed_reason() },
        ),
{
}

/// The manager stops after a command exactly when the command is a close,
/// and a send command sends the message's own text or bytes.
pub proof fn law_commands_forward_messages(c: WsCommand)
    ensures
        stops(command_action(c)) <==> c is Close,
        c matches WsCommand::Send(WsMessage::Text(t)) ==> command_action(c)
            == SocketAction::SendText(t),
        c matches WsCommand::Send(WsMessage::Binary(b)) ==> command_action(c)
            == SocketAction::SendBinary(b),
{
}

/// When nothing closes the channel between the two calls, asking whether a
/// handle is ready and then sending on it agree: ready exactly when the send
/// goes out, and a closed handle's send fails with the send error.
pub proof fn law_ready_agrees_with_send(closed: bool, sent: bool)
    requires
        sent == !closed,
    ensures
        readiness_view(closed) is Ok <==> send_result_view(sent) is Ok,
        closed ==> send_result_view(sent) == Err::<(), ErrorView>(
            ErrorView::SendError(send_failure_text()),
        ),
{
}

/// Once no handle is left to send commands, the manager closes the socket
/// and stops.
pub proof fn law_manager_closes_when_handles_are_gone()
    ensures
        next_action(None) is Close,
        stops(next_action(None)),
{
}

/// A text message made from a `String` holds that very string, and gives it
/// back when turned into text.
pub proof fn law_text_keeps_a_string(s: String, m: WsMessage)
    requires
        text_made_from(s, m),
    ensures
        m == WsMessage::Text(s),
        text_result(m@) == Ok::<Seq<char>, ErrorView>(s@),
{
}

/// A text message made from a string slice holds its characters.
pub proof fn law_text_keeps_a_str(s: &str, m: WsMessage)
    requires
        text_made_from(s, m),
    ensures
        m@ == MessageView::Text(s@),
        text_result(m@) == Ok::<Seq<char>, ErrorView>(s@),
{
}

/// A binary message made from a `Vec<u8>` holds that very vector, and gives
/// it back when turned into binary data.
pub proof fn law_binary_keeps_bytes(b: Vec<u8>, m: WsMessage)
    requires
        binary_made_from(b, m),
    ensures
        m == WsMessage::Binary(b),
        binary_result(m@) == Ok::<Seq<u8>, ErrorView>(b@),
{
}

/// Two messages that go out one after the other are recorded in that order,
/// each exactly once, after what was handed before them.
pub proof fn law_sent_messages_keep_their_order(
    before: Seq<WsCommand>,
    middle: Seq<WsCommand>,
    after: Seq<WsCommand>,
    a: WsMessage,
    b: WsMessage,
)
    requires
        middle == before.push(WsCommand::Send(a)),
        after == middle.push(WsCommand::Send(b)),
    ensures
        after.len() == before.len() + 2,
        after.subrange(0, before.len() as int) == before,
        after[before.len() as int] == WsCommand::Send(a),
        after[before.len() + 1int] == WsCommand::Send(b),
{
}

} // verus!
