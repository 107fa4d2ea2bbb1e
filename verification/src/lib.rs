//! JSON conversions for websocket messages: a value is encoded into the body of
//! a text or binary message, and such a body is decoded back into a value.

pub mod error;
pub mod json;
pub mod message;

pub use error::{JsonError, WebSocketError};
pub use message::Message;
