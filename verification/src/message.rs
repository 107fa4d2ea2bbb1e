//! The message that travels over a websocket, and the body it offers to JSON.

use vstd::prelude::*;
use vstd::utf8::encode_utf8;

verus! {

/// One websocket message.
#[derive(Debug, Clone, PartialEq, Eq)]
pub enum Message {
    /// A text body.
    Text(String),
    /// A binary body.
    Binary(Vec<u8>),
    /// A ping, with its payload.
    Ping(Vec<u8>),
    /// A pong, with its payload.
    Pong(Vec<u8>),
    /// The closing handshake, with its status code and reason.
    Close { code: u16, reason: String },
}

impl Message {
    /// Whether the message has a body that can hold JSON: only text and binary
    /// messages do.
    pub open spec fn has_body(self) -> bool {
        self is Text || self is Binary
    }

    /// The bytes of the body: a text body in UTF-8, a binary body as it is.
    pub open spec fn body(self) -> Option<Seq<u8>> {
        match self {
            Message::Text(text) => Some(encode_utf8(text@)),
            Message::Binary(bytes) => Some(bytes@),
            _ => None,
        }
    }
}

} // verus!
