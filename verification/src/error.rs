//! Failure kinds of the JSON conversions, and the umbrella error they fold into.

use vstd::prelude::*;
use vstd::std_specs::convert::FromSpecImpl;

verus! {

/// `serde_json::Error`, the diagnostic that `serde_json` returns when it cannot
/// encode a value or decode a text. Nothing is claimed about what it holds: the
/// library only moves such a value into [`JsonError::SerdeJson`].
#[verifier::external_type_specification]
#[verifier::external_body]
pub struct ExSerdeJsonError(serde_json::Error);

/// Why a JSON conversion of a message failed.
#[derive(Debug)]
pub enum JsonError {
    /// The encoder or the decoder refused; the wrapped value is its own
    /// diagnostic, with the line and column where it has them.
    SerdeJson(serde_json::Error),
    /// The message is neither text nor binary, so it has no body to decode.
    NeitherTextNorBinaryMessage,
}

/// The umbrella error of the websocket layer: each part of it folds its own
/// failures into this type, so that a caller handles one error type only.
#[derive(Debug)]
pub enum WebSocketError {
    /// A JSON conversion of a message failed.
    Json(JsonError),
}

impl From<serde_json::Error> for JsonError {
    fn from(value: serde_json::Error) -> (r: JsonError) {
        JsonError::SerdeJson(value)
    }
}

impl FromSpecImpl<serde_json::Error> for JsonError {
    open spec fn obeys_from_spec() -> bool {
        true
    }

    open spec fn from_spec(value: serde_json::Error) -> JsonError {
        JsonError::SerdeJson(value)
    }
}

impl From<JsonError> for WebSocketError {
    fn from(value: JsonError) -> (r: WebSocketError) {
        WebSocketError::Json(value)
    }
}

impl FromSpecImpl<JsonError> for WebSocketError {
    open spec fn obeys_from_spec() -> bool {
        true
    }

    open spec fn from_spec(value: JsonError) -> WebSocketError {
        WebSocketError::Json(value)
    }
}

impl From<serde_json::Error> for WebSocketError {
    fn from(value: serde_json::Error) -> (r: WebSocketError) {
        WebSocketError::from(JsonError::from(value))
    }
}

impl FromSpecImpl<serde_json::Error> for WebSocketError {
    open spec fn obeys_from_spec() -> bool {
        true
    }

    open spec fn from_spec(value: serde_json::Error) -> WebSocketError {
        WebSocketError::Json(JsonError::SerdeJson(value))
    }
}

} // verus!
