//! The cursor wire codec: URL-safe, padded base64 over the UTF-8 bytes of a
//! raw delimited string.
//!
//! The base64 alphabet itself lives in the `base64` crate; its encoding of a
//! byte sequence is named here by the uninterpreted function [`base64_of`].
//! Everything layered on top — the UTF-8 step, the success/failure split and
//! the round trip — is verified against the two small trusted wrappers below.

use vstd::prelude::*;

use crate::cursor_errors::CursorError;

use base64::Engine;

verus! {

/// The URL-safe, padded base64 encoding of a byte sequence, as produced by
/// `base64::prelude::BASE64_URL_SAFE`. The encoding is a function of the
/// bytes alone, so it is given a name rather than a page of alphabet tables.
pub uninterp spec fn base64_of(bytes: Seq<u8>) -> Seq<char>;

/// The wire form of a raw cursor string: base64 over its UTF-8 bytes.
pub open spec fn encoded_form(raw: Seq<char>) -> Seq<char> {
    base64_of(vstd::utf8::encode_utf8(raw))
}

/// Whether `s` is the wire form of some raw string.
pub open spec fn is_encoded(s: Seq<char>) -> bool {
    exists|raw: Seq<char>| s == encoded_form(raw)
}

/// The raw string whose wire form `s` is, when [`is_encoded`] holds of `s`.
pub open spec fn decoded_raw(s: Seq<char>) -> Seq<char> {
    choose|raw: Seq<char>| s == encoded_form(raw)
}

/// Relies on `base64::engine::Engine::encode` with `BASE64_URL_SAFE`: the
/// returned string is the padded URL-safe base64 encoding of the input bytes.
#[verifier::external_body]
fn b64_encode(bytes: &[u8]) -> (r: String)
    ensures
        r@ == base64_of(bytes@),
{
    base64::prelude::BASE64_URL_SAFE.encode(bytes)
}

/// Relies on `base64::engine::Engine::decode` with `BASE64_URL_SAFE`, whose
/// configuration requires canonical padding and rejects nonzero trailing
/// bits, so decoding succeeds exactly on canonical encodings and is the
/// inverse of encoding.
#[verifier::external_body]
fn b64_decode(s: &str) -> (r: Result<Vec<u8>, CursorError>)
    ensures
        r matches Ok(v) ==> s@ == base64_of(v@),
        r matches Ok(v) ==> forall|b: Seq<u8>| s@ == base64_of(b) ==> v@ == b,
        r matches Err(e) ==> e == CursorError::Base64DecodeError && (forall|b: Seq<u8>|
            s@ != base64_of(b)),
{
    match base64::prelude::BASE64_URL_SAFE.decode(s) {
        Ok(v) => Ok(v),
        Err(_) => Err(CursorError::Base64DecodeError),
    }
}

/// Relies on `alloc::string::String::from_utf8`: it succeeds exactly when
/// the bytes are valid UTF-8, and then returns the string they encode.
#[verifier::external_body]
fn utf8_to_string(bytes: Vec<u8>) -> (r: Result<String, CursorError>)
    ensures
        r matches Ok(s) ==> bytes@ == vstd::utf8::encode_utf8(s@),
        r matches Ok(s) ==> forall|cs: Seq<char>| bytes@ == vstd::utf8::encode_utf8(cs) ==> s@
            == cs,
        r matches Err(e) ==> e == CursorError::Utf8DecodeError && (forall|cs: Seq<char>|
            bytes@ != vstd::utf8::encode_utf8(cs)),
{
    match String::from_utf8(bytes) {
        Ok(s) => Ok(s),
        Err(_) => Err(CursorError::Utf8DecodeError),
    }
}

/// Encodes a raw cursor string into its opaque wire form.
pub fn encode_raw(raw: &str) -> (r: String)
    ensures
        r@ == encoded_form(raw@),
{
    b64_encode(raw.as_bytes())
}

/// Decodes an opaque wire-form token back into the raw cursor string,
/// reporting which layer rejected a malformed token.
pub fn decode_encoded(input: &str) -> (r: Result<String, CursorError>)
    ensures
        forall|raw: Seq<char>| input@ == encoded_form(raw) ==> (r matches Ok(s) && s@ == raw),
        r matches Ok(s) ==> input@ == encoded_form(s@),
        !is_encoded(input@) ==> (r matches Err(e) && (e == CursorError::Base64DecodeError || e
            == CursorError::Utf8DecodeError)),
{
    match b64_decode(input) {
        Ok(bytes) => match utf8_to_string(bytes) {
            Ok(s) => Ok(s),
            Err(e) => Err(e),
        },
        Err(e) => Err(e),
    }
}

} // verus!
