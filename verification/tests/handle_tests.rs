use tokio::sync::mpsc::error::SendError;
use wasm_socket_handle::{
    LoggedSender, SocketAction, SocketEvent, WsCommand, WsError, WsHandle, WsManager, WsMessage,
};

#[test]
fn new_handle_fails_off_a_browser() {
    match WsHandle::new("ws://localhost:8080/socket") {
        Err(WsError::ConnectionError(m)) => {
            assert_eq!(m, "WebSocket is only supported on WASM target")
        }
        Err(e) => panic!("unexpected error {:?}", e),
        Ok(_) => panic!("a handle was made"),
    }
}

#[test]
fn manager_refuses_and_closes_quietly() {
    let (tx_msg, _rx_msg) = tokio::sync::mpsc::unbounded_channel();
    let (_tx_cmd, rx_cmd) = tokio::sync::mpsc::unbounded_channel();
    match WsManager::new("ws://example.com", tx_msg, rx_cmd) {
        Err(WsError::ConnectionError(m)) => {
            assert_eq!(m, "WebSocket is only supported on WASM target")
        }
        other => panic!("unexpected {:?}", other.err()),
    }
    assert!(WsManager.close().is_ok());
}

#[test]
fn close_outcome_reports_a_closed_channel() {
    assert!(WsHandle::close_outcome(Ok(())).is_ok());
    match WsHandle::close_outcome(Err(SendError(WsCommand::Close))) {
        Err(WsError::ChannelError(m)) => {
            assert_eq!(m, "Failed to send close command: channel closed")
        }
        other => panic!("unexpected {:?}", other),
    }
}

#[test]
fn send_outcome_reports_a_closed_channel() {
    assert!(WsHandle::send_outcome(Ok(())).is_ok());
    let failed = Err(SendError(WsCommand::Send(WsMessage::text("lost"))));
    match WsHandle::send_outcome(failed) {
        Err(WsError::SendError(m)) => assert_eq!(m, "Failed to send message: channel closed"),
        other => panic!("unexpected {:?}", other),
    }
}

#[test]
fn readiness_follows_closedness() {
    assert!(WsHandle::readiness(false).is_ok());
    match WsHandle::readiness(true) {
        Err(WsError::ConnectionClosed { code, reason }) => {
            assert_eq!(code, 0);
            assert_eq!(reason, "Connection closed");
        }
        other => panic!("unexpected {:?}", other),
    }
}

#[test]
fn send_error_converts_to_channel_error() {
    let e = WsError::from(SendError(WsMessage::text("hi")));
    match e {
        WsError::ChannelError(m) => {
            assert_eq!(m, "Failed to send message to channel: channel closed")
        }
        other => panic!("unexpected {:?}", other),
    }
}

#[test]
fn commands_become_socket_actions() {
    match WsCommand::Send(WsMessage::text("hello")).action() {
        SocketAction::SendText(t) => assert_eq!(t, "hello"),
        other => panic!("unexpected {:?}", other),
    }
    match WsCommand::Send(WsMessage::binary(vec![1u8, 2])).action() {
        SocketAction::SendBinary(b) => assert_eq!(b, vec![1u8, 2]),
        other => panic!("unexpected {:?}", other),
    }
    let close = WsCommand::Close.action();
    assert!(matches!(close, SocketAction::Close));
    assert!(!close.keeps_running());
    assert!(SocketAction::SendText(String::new()).keeps_running());
    assert!(SocketAction::SendBinary(Vec::new()).keeps_running());
}

#[test]
fn socket_events_become_reports() {
    match SocketEvent::TextMessage(String::from("in")).report() {
        Some(Ok(m)) => assert_eq!(m, WsMessage::text("in")),
        other => panic!("unexpected {:?}", other),
    }
    match SocketEvent::BinaryMessage(vec![3u8]).report() {
        Some(Ok(m)) => assert_eq!(m, WsMessage::binary(vec![3u8])),
        other => panic!("unexpected {:?}", other),
    }
    assert!(SocketEvent::OtherMessage.report().is_none());
    let closed = SocketEvent::Closed { code: 1000, reason: String::from("bye") };
    match closed.report() {
        Some(Err(WsError::ConnectionClosed { code, reason })) => {
            assert_eq!(code, 1000);
            assert_eq!(reason, "bye");
        }
        other => panic!("unexpected {:?}", other),
    }
}

#[test]
fn error_events_quote_their_message() {
    match SocketEvent::Error(String::from("boom")).report() {
        Some(Err(WsError::WebSocketError(m))) => assert_eq!(m, "WebSocket error: \"boom\""),
        other => panic!("unexpected {:?}", other),
    }
    match SocketEvent::Error(String::from("a\"b")).report() {
        Some(Err(WsError::WebSocketError(m))) => assert_eq!(m, "WebSocket error: \"a\\\"b\""),
        other => panic!("unexpected {:?}", other),
    }
}

#[test]
fn socket_error_prefixes_its_description() {
    match wasm_socket_handle::manager::socket_error(String::from("\"x\"")) {
        WsError::WebSocketError(m) => assert_eq!(m, "WebSocket error: \"x\""),
        other => panic!("unexpected {:?}", other),
    }
}

fn connected() -> (
    WsHandle,
    tokio::sync::mpsc::UnboundedSender<wasm_socket_handle::WsResult<WsMessage>>,
    tokio::sync::mpsc::UnboundedReceiver<WsCommand>,
) {
    let (tx_msg, rx_msg) = tokio::sync::mpsc::unbounded_channel();
    let (tx_cmd, rx_cmd) = tokio::sync::mpsc::unbounded_channel();
    (WsHandle::from_channels(rx_msg, tx_cmd), tx_msg, rx_cmd)
}

#[test]
fn open_handle_queues_commands_in_order() {
    let (mut h, _tx_msg, mut rx_cmd) = connected();
    assert!(!h.is_closed());
    assert!(h.check_ready().is_ok());
    assert!(h.start_send(WsMessage::text("one")).is_ok());
    assert!(h.start_send(WsMessage::binary(vec![2u8])).is_ok());
    assert!(h.close().is_ok());
    match rx_cmd.try_recv() {
        Ok(WsCommand::Send(m)) => assert_eq!(m, WsMessage::text("one")),
        other => panic!("unexpected {:?}", other),
    }
    match rx_cmd.try_recv() {
        Ok(WsCommand::Send(m)) => assert_eq!(m, WsMessage::binary(vec![2u8])),
        other => panic!("unexpected {:?}", other),
    }
    assert!(matches!(rx_cmd.try_recv(), Ok(WsCommand::Close)));
    assert!(rx_cmd.try_recv().is_err());
}

#[test]
fn handle_whose_manager_is_gone_reports_closed() {
    let (mut h, _tx_msg, rx_cmd) = connected();
    drop(rx_cmd);
    assert!(h.is_closed());
    match h.check_ready() {
        Err(WsError::ConnectionClosed { code, reason }) => {
            assert_eq!(code, 0);
            assert_eq!(reason, "Connection closed");
        }
        other => panic!("unexpected {:?}", other),
    }
    match h.start_send(WsMessage::text("late")) {
        Err(WsError::SendError(m)) => assert_eq!(m, "Failed to send message: channel closed"),
        other => panic!("unexpected {:?}", other),
    }
    match h.close() {
        Err(WsError::ChannelError(m)) => {
            assert_eq!(m, "Failed to send close command: channel closed")
        }
        other => panic!("unexpected {:?}", other),
    }
}

#[test]
fn handle_receives_what_the_manager_relays() {
    let (mut h, tx_msg, _rx_cmd) = connected();
    let mut tx = LoggedSender::new(tx_msg);
    assert!(SocketEvent::TextMessage(String::from("hi")).relay(&mut tx));
    assert!(!SocketEvent::OtherMessage.relay(&mut tx));
    assert!(SocketEvent::Closed { code: 1006, reason: String::new() }.relay(&mut tx));
    match h.incoming_mut().try_recv() {
        Ok(Ok(m)) => assert_eq!(m, WsMessage::text("hi")),
        other => panic!("unexpected {:?}", other),
    }
    match h.incoming_mut().try_recv() {
        Ok(Err(WsError::ConnectionClosed { code, .. })) => assert_eq!(code, 1006),
        other => panic!("unexpected {:?}", other),
    }
    assert!(h.incoming_mut().try_recv().is_err());
}

#[test]
fn relay_to_a_gone_handle_is_not_delivered() {
    let (tx_msg, rx_msg) = tokio::sync::mpsc::unbounded_channel();
    drop(rx_msg);
    let mut tx = LoggedSender::new(tx_msg);
    assert!(!SocketEvent::BinaryMessage(vec![1u8]).relay(&mut tx));
    assert!(tx.is_closed());
}

#[test]
fn manager_closes_when_no_command_can_come() {
    assert!(matches!(SocketAction::next(None), SocketAction::Close));
    match SocketAction::next(Some(WsCommand::Send(WsMessage::text("go")))) {
        SocketAction::SendText(t) => assert_eq!(t, "go"),
        other => panic!("unexpected {:?}", other),
    }
    assert!(matches!(SocketAction::next(Some(WsCommand::Close)), SocketAction::Close));
}

#[test]
fn only_a_close_event_ends_the_connection() {
    assert!(SocketEvent::Closed { code: 1000, reason: String::new() }.ends_connection());
    assert!(!SocketEvent::Error(String::from("e")).ends_connection());
    assert!(!SocketEvent::TextMessage(String::new()).ends_connection());
    assert!(!SocketEvent::BinaryMessage(Vec::new()).ends_connection());
    assert!(!SocketEvent::OtherMessage.ends_connection());
}

#[test]
fn logged_sender_hands_over_in_order() {
    let (tx, mut rx) = tokio::sync::mpsc::unbounded_channel::<u8>();
    let mut tx = LoggedSender::new(tx);
    assert!(!tx.is_closed());
    assert!(tx.send(1).is_ok());
    assert!(tx.send(2).is_ok());
    assert_eq!(rx.try_recv().ok(), Some(1));
    assert_eq!(rx.try_recv().ok(), Some(2));
    drop(rx);
    assert!(tx.send(3).is_err());
}
