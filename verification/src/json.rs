//! Encoding a value as the JSON body of a message, and decoding such a body.
//!
//! `serde_json` does the encoding and the parsing. What it answers depends on
//! how the value's type implements `serde`'s traits, which is not known here.
//! So the functions that call it say what holds of every answer, and the
//! functions that take an answer as their argument say exactly what becomes
//! of it.

use serde::de::DeserializeOwned;
use serde::Serialize;
use vstd::prelude::*;
use vstd::utf8::encode_utf8;

use crate::error::JsonError;
use crate::message::Message;

verus! {

/// `serde_json::to_string` encodes `value` as JSON text, or returns the
/// encoder's diagnostic. The contract is empty: which of the two comes back,
/// and what it holds, is decided by `T`'s `Serialize`, and is assumed only to
/// come back.
pub assume_specification<T>[ serde_json::to_string::<T> ](value: &T) -> serde_json::Result<String>
    where T: ?Sized + Serialize
;

/// `serde_json::to_vec` encodes `value` as the bytes of JSON text, or returns
/// the encoder's diagnostic. The contract is empty, as for
/// `serde_json::to_string`.
pub assume_specification<T>[ serde_json::to_vec::<T> ](value: &T) -> serde_json::Result<Vec<u8>>
    where T: ?Sized + Serialize
;

/// `serde_json::from_str` parses a `T` from JSON text, or returns the parser's
/// diagnostic. The contract is empty: which of the two comes back is decided
/// by the text and by `T`'s `Deserialize`, and is assumed only to come back.
pub assume_specification<'a, T>[ serde_json::from_str::<'a, T> ](s: &'a str) -> serde_json::Result<T>
    where T: serde::de::Deserialize<'a>
;

/// `serde_json::from_slice` parses a `T` from the bytes of JSON text, or
/// returns the parser's diagnostic. The contract is empty, as for
/// `serde_json::from_str`.
pub assume_specification<'a, T>[ serde_json::from_slice::<'a, T> ](v: &'a [u8]) -> serde_json::Result<T>
    where T: serde::de::Deserialize<'a>
;

/// What a conversion returns for an answer of `serde_json`: the value as it
/// is, or the diagnostic as a [`JsonError::SerdeJson`].
pub open spec fn surfaced<T>(answer: Result<T, serde_json::Error>) -> Result<T, JsonError> {
    match answer {
        Ok(value) => Ok(value),
        Err(diagnostic) => Err(JsonError::SerdeJson(diagnostic)),
    }
}

/// Turns an answer of `serde_json` into the result of a conversion.
pub fn surface<T>(answer: Result<T, serde_json::Error>) -> (r: Result<T, JsonError>)
    ensures
        r == surfaced(answer),
{
    match answer {
        Ok(value) => Ok(value),
        Err(diagnostic) => Err(JsonError::from(diagnostic)),
    }
}

impl Message {
    /// The result of encoding as text, for an answer of the encoder.
    pub open spec fn text_of(answer: Result<String, serde_json::Error>) -> Result<
        Message,
        JsonError,
    > {
        match answer {
            Ok(text) => Ok(Message::Text(text)),
            Err(diagnostic) => Err(JsonError::SerdeJson(diagnostic)),
        }
    }

    /// The result of encoding as bytes, for an answer of the encoder.
    pub open spec fn binary_of(answer: Result<Vec<u8>, serde_json::Error>) -> Result<
        Message,
        JsonError,
    > {
        match answer {
            Ok(bytes) => Ok(Message::Binary(bytes)),
            Err(diagnostic) => Err(JsonError::SerdeJson(diagnostic)),
        }
    }

    /// Wraps the text that the encoder produced into a text message, or hands
    /// on its diagnostic. The text is taken as it is.
    pub fn text_from_encoded(answer: Result<String, serde_json::Error>) -> (r: Result<
        Message,
        JsonError,
    >)
        ensures
            r == Message::text_of(answer),
    {
        match answer {
            Ok(text) => Ok(Message::Text(text)),
            Err(diagnostic) => Err(JsonError::from(diagnostic)),
        }
    }

    /// Wraps the bytes that the encoder produced into a binary message, or
    /// hands on its diagnostic. The bytes are taken as they are.
    pub fn binary_from_encoded(answer: Result<Vec<u8>, serde_json::Error>) -> (r: Result<
        Message,
        JsonError,
    >)
        ensures
            r == Message::binary_of(answer),
    {
        match answer {
            Ok(bytes) => Ok(Message::Binary(bytes)),
            Err(diagnostic) => Err(JsonError::from(diagnostic)),
        }
    }

    /// Encodes `json` as JSON and returns the text as a text message.
    ///
    /// Fails with [`JsonError::SerdeJson`], and in no other way, when
    /// `serde_json` cannot encode the value: when `T`'s `Serialize` fails, or
    /// when the value holds a map whose keys are not strings.
    pub fn text_from_json<T: Serialize + ?Sized>(json: &T) -> (r: Result<Message, JsonError>)
        ensures
            r matches Ok(message) ==> message is Text,
            r matches Err(error) ==> error is SerdeJson,
    {
        Message::text_from_encoded(serde_json::to_string(json))
    }

    /// Encodes `json` as JSON and returns the bytes as a binary message.
    ///
    /// Fails as [`Message::text_from_json`] does.
    pub fn binary_from_json<T: Serialize + ?Sized>(json: &T) -> (r: Result<Message, JsonError>)
        ensures
            r matches Ok(message) ==> message is Binary,
            r matches Err(error) ==> error is SerdeJson,
    {
        Message::binary_from_encoded(serde_json::to_vec(json))
    }

    /// Decodes the body of the message as JSON.
    ///
    /// A message that is neither text nor binary fails with
    /// [`JsonError::NeitherTextNorBinaryMessage`]; the parser is not called
    /// and the payload is not looked at. A text or binary message never fails
    /// so: its body goes to the parser, whose value comes back as it is and
    /// whose diagnostic comes back as a [`JsonError::SerdeJson`].
    pub fn json<T: DeserializeOwned>(&self) -> (r: Result<T, JsonError>)
        ensures
            !self.has_body() ==> r == Err::<T, JsonError>(JsonError::NeitherTextNorBinaryMessage),
            self.has_body() ==> (r matches Err(error) ==> error is SerdeJson),
    {
        match self {
            Message::Text(text) => surface(serde_json::from_str(text.as_str())),
            Message::Binary(bytes) => surface(serde_json::from_slice(bytes.as_slice())),
            _ => Err(JsonError::NeitherTextNorBinaryMessage),
        }
    }
}

/// A round trip through a message loses nothing on this side of the encoder
/// and the parser: the message that an encoding returns has a body, that body
/// is what the encoder produced (text in UTF-8, bytes as they are), and the
/// value that the parser makes of a body comes back from decoding unchanged.
pub proof fn lemma_round_trip_keeps_encoder_and_parser_answers<T>(
    text: String,
    bytes: Vec<u8>,
    value: T,
)
    ensures
        Message::text_of(Ok(text)) matches Ok(message) && message.has_body() && message.body()
            == Some(encode_utf8(text@)),
        Message::binary_of(Ok(bytes)) matches Ok(message) && message.has_body() && message.body()
            == Some(bytes@),
        surfaced(Ok::<T, serde_json::Error>(value)) == Ok::<T, JsonError>(value),
{
}

/// The two encodings agree: where the text that the encoder produced for one
/// and the bytes that it produced for the other are the same bytes, the text
/// message and the binary message carry the same body.
pub proof fn lemma_text_and_binary_bodies_agree(text: String, bytes: Vec<u8>)
    requires
        encode_utf8(text@) == bytes@,
    ensures
        Message::text_of(Ok(text)) matches Ok(as_text) && Message::binary_of(Ok(bytes)) matches Ok(
            as_binary,
        ) && as_text.body() == as_binary.body(),
{
}

} // verus!
