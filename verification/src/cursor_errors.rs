//! The typed failures that cursor decoding can report.

use vstd::prelude::*;

verus! {

/// Why a cursor token could not be decoded. Decoding never panics: every
/// failure path reports one of these.
#[derive(Debug, Clone, Copy, PartialEq, Eq, Structural)]
pub enum CursorError {
    /// The delimited payload had the wrong number of segments, or the kind
    /// tag did not match the cursor type being decoded.
    InvalidCursor,
    /// The token was not valid base64.
    Base64DecodeError,
    /// The base64 payload decoded to bytes that are not valid UTF-8.
    Utf8DecodeError,
}

} // verus!
