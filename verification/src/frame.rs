//! The frames that a socket delivers, as far as the protocol reads them.

use vstd::prelude::*;
use vstd::utf8::*;

verus! {

/// One frame from the socket. Only text frames carry protocol messages;
/// ping and pong serve liveness alone.
#[derive(Clone, Debug, PartialEq, Eq)]
pub enum Frame {
    Text(Vec<u8>),
    Binary(Vec<u8>),
    Continuation,
    Ping(Vec<u8>),
    Pong(Vec<u8>),
    Close,
}

/// A failure of the socket itself, below the level of messages.
#[derive(Clone, Copy, Debug, PartialEq, Eq, Structural)]
pub struct TransportError;

/// Calls `String::from_utf8`, which makes a string of bytes that are valid
/// UTF-8 and refuses all others. The string's bytes are the bytes given.
#[verifier::external_body]
pub(crate) fn text_of_bytes(bytes: Vec<u8>) -> (text: Option<String>)
    ensures
        text is Some <==> valid_utf8(bytes@),
        text matches Some(s) ==> encode_utf8(s@) == bytes@,
{
    String::from_utf8(bytes).ok()
}

/// The text of a frame's payload, where the payload is valid UTF-8.
pub fn payload_text(bytes: Vec<u8>) -> (text: Option<String>)
    ensures
        text is Some <==> valid_utf8(bytes@),
        text matches Some(s) ==> s@ == decode_utf8(bytes@),
{
    let text = text_of_bytes(bytes);
    proof {
        if text is Some {
            encode_utf8_decode_utf8(text->0@);
        }
    }
    text
}

} // verus!
