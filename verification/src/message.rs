//! Message types for websocket communication

use crate::error::{ErrorView, WsError};
use vstd::prelude::*;
use vstd::std_specs::cmp::PartialEqSpecImpl;
use vstd::std_specs::convert::FromSpecImpl;

verus! {

/// Messages that can be sent or received through the websocket
#[derive(Debug, Clone)]
pub enum WsMessage {
    /// Text message
    Text(String),
    /// Binary message
    Binary(Vec<u8>),
}

/// The mathematical value of a `WsMessage`: a text as its characters, or
/// binary data as its bytes.
pub enum MessageView {
    Text(Seq<char>),
    Binary(Seq<u8>),
}

impl View for WsMessage {
    type V = MessageView;

    open spec fn view(&self) -> MessageView {
        match self {
            WsMessage::Text(s) => MessageView::Text(s@),
            WsMessage::Binary(b) => MessageView::Binary(b@),
        }
    }
}

/// What `into_text` gives for a message: its text, or the error for a
/// message that is not text.
pub open spec fn text_result(m: MessageView) -> Result<Seq<char>, ErrorView> {
    match m {
        MessageView::Text(s) => Ok(s),
        MessageView::Binary(_) => Err(ErrorView::InvalidMessage("Not a text message"@)),
    }
}

/// What `into_binary` gives for a message: its bytes, or the error for a
/// message that is not binary.
pub open spec fn binary_result(m: MessageView) -> Result<Seq<u8>, ErrorView> {
    match m {
        MessageView::Binary(b) => Ok(b),
        MessageView::Text(_) => Err(ErrorView::InvalidMessage("Not a binary message"@)),
    }
}

/// The view of a `Result<String, WsError>`.
pub open spec fn string_result_view(r: Result<String, WsError>) -> Result<Seq<char>, ErrorView> {
    match r {
        Ok(s) => Ok(s@),
        Err(e) => Err(e@),
    }
}

/// The view of a `Result<Vec<u8>, WsError>`.
pub open spec fn bytes_result_view(r: Result<Vec<u8>, WsError>) -> Result<Seq<u8>, ErrorView> {
    match r {
        Ok(b) => Ok(b@),
        Err(e) => Err(e@),
    }
}

/// `m` is a text message holding what converting `s` into a `String` gives.
pub open spec fn text_made_from<S: Into<String>>(s: S, m: WsMessage) -> bool {
    m matches WsMessage::Text(t) && call_ensures(<S as Into<String>>::into, (s,), t)
}

/// `m` is a binary message holding what converting `b` into a `Vec<u8>`
/// gives.
pub open spec fn binary_made_from<B: Into<Vec<u8>>>(b: B, m: WsMessage) -> bool {
    m matches WsMessage::Binary(v) && call_ensures(<B as Into<Vec<u8>>>::into, (b,), v)
}

impl WsMessage {
    /// Create a text message
    pub fn text<S: Into<String>>(s: S) -> (m: Self)
        ensures
            text_made_from(s, m),
    {
        WsMessage::Text(s.into())
    }

    /// Create a binary message
    pub fn binary<B: Into<Vec<u8>>>(b: B) -> (m: Self)
        ensures
            binary_made_from(b, m),
    {
        WsMessage::Binary(b.into())
    }

    /// Check if this is a text message
    pub fn is_text(&self) -> (r: bool)
        ensures
            r == (self@ is Text),
    {
        match self {
            WsMessage::Text(_) => true,
            _ => false,
        }
    }

    /// Check if this is a binary message
    pub fn is_binary(&self) -> (r: bool)
        ensures
            r == (self@ is Binary),
    {
        match self {
            WsMessage::Binary(_) => true,
            _ => false,
        }
    }

    /// Get the text content if this is a text message
    pub fn as_text(&self) -> (r: Option<&str>)
        ensures
            r is Some <==> self@ is Text,
            r matches Some(t) ==> self@ == MessageView::Text(t@),
    {
        match self {
            WsMessage::Text(s) => Some(s.as_str()),
            _ => None,
        }
    }

    /// Get the binary content if this is a binary message
    pub fn as_binary(&self) -> (r: Option<&[u8]>)
        ensures
            r is Some <==> self@ is Binary,
            r matches Some(b) ==> self@ == MessageView::Binary(b@),
    {
        match self {
            WsMessage::Binary(b) => Some(b.as_slice()),
            _ => None,
        }
    }

    /// Convert this message into a text string
    pub fn into_text(self) -> (r: Result<String, WsError>)
        ensures
            string_result_view(r) == text_result(self@),
            r matches Ok(s) ==> self == WsMessage::Text(s),
    {
        match self {
            WsMessage::Text(s) => Ok(s),
            _ => Err(WsError::InvalidMessage("Not a text message".to_string())),
        }
    }

    /// Convert this message into binary data
    pub fn into_binary(self) -> (r: Result<Vec<u8>, WsError>)
        ensures
            bytes_result_view(r) == binary_result(self@),
            r matches Ok(b) ==> self == WsMessage::Binary(b),
    {
        match self {
            WsMessage::Binary(b) => Ok(b),
            _ => Err(WsError::InvalidMessage("Not a binary message".to_string())),
        }
    }
}

impl PartialEq for WsMessage {
    fn eq(&self, other: &Self) -> (r: bool)
        ensures
            r == (self@ == other@),
    {
        match self {
            WsMessage::Text(a) => match other {
                WsMessage::Text(b) => *a == *b,
                WsMessage::Binary(_) => false,
            },
            WsMessage::Binary(a) => match other {
                WsMessage::Binary(b) => {
                    let same = *a == *b;
                    proof {
                        if same {
                            assert(a@ =~= b@);
                        }
                    }
                    same
                },
                WsMessage::Text(_) => false,
            },
        }
    }
}

impl PartialEqSpecImpl for WsMessage {
    open spec fn obeys_eq_spec() -> bool {
        true
    }

    open spec fn eq_spec(&self, other: &WsMessage) -> bool {
        self@ == other@
    }
}

impl From<String> for WsMessage {
    fn from(s: String) -> (m: Self) {
        WsMessage::Text(s)
    }
}

impl FromSpecImpl<String> for WsMessage {
    open spec fn obeys_from_spec() -> bool {
        true
    }

    open spec fn from_spec(s: String) -> WsMessage {
        WsMessage::Text(s)
    }
}

impl From<&str> for WsMessage {
    fn from(s: &str) -> (m: Self)
        ensures
            m@ == MessageView::Text(s@),
    {
        WsMessage::Text(s.to_string())
    }
}

impl FromSpecImpl<&str> for WsMessage {
    open spec fn obeys_from_spec() -> bool {
        false
    }

    open spec fn from_spec(s: &str) -> WsMessage {
        arbitrary()
    }
}

impl From<Vec<u8>> for WsMessage {
    fn from(b: Vec<u8>) -> (m: Self) {
        WsMessage::Binary(b)
    }
}

impl FromSpecImpl<Vec<u8>> for WsMessage {
    open spec fn obeys_from_spec() -> bool {
        true
    }

    open spec fn from_spec(b: Vec<u8>) -> WsMessage {
        WsMessage::Binary(b)
    }
}

impl From<&[u8]> for WsMessage {
    fn from(b: &[u8]) -> (m: Self)
        ensures
            m@ == MessageView::Binary(b@),
    {
        WsMessage::Binary(vstd::slice::slice_to_vec(b))
    }
}

impl FromSpecImpl<&[u8]> for WsMessage {
    open spec fn obeys_from_spec() -> bool {
        false
    }

    open spec fn from_spec(b: &[u8]) -> WsMessage {
        arbitrary()
    }
}

} // verus!
