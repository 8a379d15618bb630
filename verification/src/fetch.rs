//! What a fetch hands to the map: the values of a response, or the fact
//! that the transport failed.

use crate::tokenizer::MAX_MARKUP_BYTES;
use std::string::FromUtf8Error;
use vstd::prelude::*;
use vstd::utf8::{decode_utf8, valid_utf8};

verus! {

/// The status line of a response and the URL that answered, after any
/// redirects.
#[derive(Clone, Debug, PartialEq, Eq)]
pub struct ResponseHead {
    pub status: u16,
    pub final_url: String,
}

/// The mathematical content of a [`ResponseHead`].
pub struct ResponseHeadView {
    pub status: u16,
    pub final_url: Seq<char>,
}

impl View for ResponseHead {
    type V = ResponseHeadView;

    open spec fn view(&self) -> ResponseHeadView {
        ResponseHeadView { status: self.status, final_url: self.final_url@ }
    }
}

/// A response with its body as it came off the wire.
#[derive(Clone, Debug, PartialEq, Eq)]
pub struct FetchedPage {
    pub status: u16,
    pub final_url: String,
    pub body: Vec<u8>,
}

/// The mathematical content of a [`FetchedPage`].
pub struct FetchedPageView {
    pub status: u16,
    pub final_url: Seq<char>,
    pub body: Seq<u8>,
}

impl View for FetchedPage {
    type V = FetchedPageView;

    open spec fn view(&self) -> FetchedPageView {
        FetchedPageView { status: self.status, final_url: self.final_url@, body: self.body@ }
    }
}

/// A failure of the transport: no response was received.
#[derive(Clone, Debug, PartialEq, Eq)]
pub struct TransportError {
    pub detail: String,
}

/// Why the body of a response cannot be read as text.
#[derive(Clone, Copy, Debug, PartialEq, Eq, Structural)]
pub enum DecodeError {
    /// The body is longer than [`MAX_MARKUP_BYTES`].
    TooLong,
    /// The body is not valid UTF-8.
    InvalidUtf8,
}

/// `std::string::FromUtf8Error`, of which the verifier sees nothing.
#[verifier::external_type_specification]
#[verifier::external_body]
pub struct ExFromUtf8Error(FromUtf8Error);

/// Calls `String::from_utf8`. Trusted, as std documents it: the call
/// succeeds exactly on valid UTF-8 and the string then holds the decoded
/// text.
#[verifier::external_body]
fn string_from_utf8(bytes: Vec<u8>) -> (r: Result<String, FromUtf8Error>)
    ensures
        r is Ok <==> valid_utf8(bytes@),
        r matches Ok(text) ==> text@ == decode_utf8(bytes@),
{
    String::from_utf8(bytes)
}

/// Whether a body can be read as text: it is valid UTF-8 and short enough
/// to be tokenized.
pub open spec fn decodable(body: Seq<u8>) -> bool {
    body.len() <= MAX_MARKUP_BYTES && valid_utf8(body)
}

/// Decodes a body as UTF-8 text.
pub fn decode_body(body: Vec<u8>) -> (r: Result<String, DecodeError>)
    ensures
        r is Ok <==> decodable(body@),
        r matches Ok(text) ==> text@ == decode_utf8(body@),
        r matches Err(e) ==> (e == DecodeError::TooLong <==> body@.len() > MAX_MARKUP_BYTES),
{
    if body.len() > MAX_MARKUP_BYTES {
        return Err(DecodeError::TooLong);
    }
    match string_from_utf8(body) {
        Ok(text) => Ok(text),
        Err(_) => Err(DecodeError::InvalidUtf8),
    }
}

} // verus!
