use wasm_socket_handle::{WsError, WsMessage};

#[test]
fn test_ws_message_creation() {
    let text_msg = WsMessage::text("hello");
    assert!(text_msg.is_text());
    assert_eq!(text_msg.as_text(), Some("hello"));

    let binary_msg = WsMessage::binary(vec![1, 2, 3]);
    assert!(binary_msg.is_binary());
    assert_eq!(binary_msg.as_binary(), Some(&[1u8, 2, 3][..]));
}

#[test]
fn test_ws_message_conversions() {
    let msg: WsMessage = "test".into();
    assert!(msg.is_text());

    let msg: WsMessage = vec![1, 2, 3].into();
    assert!(msg.is_binary());
}

#[test]
fn text_message_is_not_binary() {
    let msg = WsMessage::text(String::from("abc"));
    assert!(!msg.is_binary());
    assert_eq!(msg.as_binary(), None);
}

#[test]
fn binary_message_is_not_text() {
    let msg = WsMessage::binary(&[9u8][..]);
    assert!(!msg.is_text());
    assert_eq!(msg.as_text(), None);
    assert_eq!(msg.as_binary(), Some(&[9u8][..]));
}

#[test]
fn into_text_gives_back_the_text() {
    let msg = WsMessage::text("round trip");
    match msg.into_text() {
        Ok(s) => assert_eq!(s, "round trip"),
        Err(e) => panic!("unexpected error {:?}", e),
    }
}

#[test]
fn into_binary_gives_back_the_bytes() {
    let msg = WsMessage::binary(vec![0u8, 255, 7]);
    match msg.into_binary() {
        Ok(b) => assert_eq!(b, vec![0u8, 255, 7]),
        Err(e) => panic!("unexpected error {:?}", e),
    }
}

#[test]
fn into_text_of_binary_is_invalid() {
    match WsMessage::binary(vec![1u8]).into_text() {
        Err(WsError::InvalidMessage(m)) => assert_eq!(m, "Not a text message"),
        other => panic!("unexpected {:?}", other),
    }
}

#[test]
fn into_binary_of_text_is_invalid() {
    match WsMessage::text("x").into_binary() {
        Err(WsError::InvalidMessage(m)) => assert_eq!(m, "Not a binary message"),
        other => panic!("unexpected {:?}", other),
    }
}

#[test]
fn from_conversions_pick_the_kind() {
    assert_eq!(WsMessage::from(String::from("s")), WsMessage::Text(String::from("s")));
    assert_eq!(WsMessage::from("t"), WsMessage::Text(String::from("t")));
    assert_eq!(WsMessage::from(vec![4u8, 5]), WsMessage::Binary(vec![4u8, 5]));
    assert_eq!(WsMessage::from(&[6u8][..]), WsMessage::Binary(vec![6u8]));
}

#[test]
fn equality_compares_kind_and_content() {
    assert_eq!(WsMessage::text("a"), WsMessage::text("a"));
    assert_ne!(WsMessage::text("a"), WsMessage::text("b"));
    assert_ne!(WsMessage::binary(vec![1u8]), WsMessage::binary(vec![1u8, 2]));
    assert_ne!(WsMessage::binary(vec![97u8]), WsMessage::text("a"));
    assert_eq!(WsMessage::binary(Vec::new()), WsMessage::binary(Vec::new()));
}

#[test]
fn empty_text_and_empty_binary() {
    let t = WsMessage::text("");
    assert_eq!(t.as_text(), Some(""));
    let b = WsMessage::binary(Vec::<u8>::new());
    assert_eq!(b.as_binary(), Some(&[][..]));
}

#[test]
fn text_and_binary_keep_their_content() {
    let s = String::from("kept");
    match WsMessage::text(s.clone()).into_text() {
        Ok(t) => assert_eq!(t, s),
        Err(e) => panic!("unexpected {:?}", e),
    }
    let v = vec![5u8, 6, 7];
    match WsMessage::binary(v.clone()).into_binary() {
        Ok(w) => assert_eq!(w, v),
        Err(e) => panic!("unexpected {:?}", e),
    }
}
