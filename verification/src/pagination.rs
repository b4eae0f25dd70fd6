//! The inputs and outputs of pagination decisions: the caller's page
//! request and the derived `PageInfo`.

use vstd::prelude::*;

use crate::codec::encoded_form;
use crate::codec::is_encoded;
use crate::cursor_errors::CursorError;
use crate::cursors::Cursor;
use crate::segments::split_spec;

verus! {

/// Page-boundary summary in the Relay style: whether further pages exist in
/// either direction, plus the encoded cursors at the page's ends. Always
/// derived by a cursor provider, never hand-constructed except by callers
/// bypassing the provider abstraction entirely.
#[derive(Debug, Eq, PartialEq, Clone)]
pub struct PageInfo {
    /// Indicates whether there is a page following this current one.
    pub has_next_page: bool,

    /// Indicates whether there is a page preceding this one.
    pub has_prev_page: bool,

    /// The encoded cursor of the first item of the page, if any.
    pub start_cursor: Option<String>,

    /// The encoded cursor of the last item of the page, if any.
    pub end_cursor: Option<String>,
}

/// The caller's pagination ask: a requested page size (`first`) and an
/// encoded continuation cursor (`after`). Consumed read-only by cursor
/// providers.
#[derive(Debug, Eq, PartialEq, Clone)]
pub struct PageRequest {
    /// The number of items to return.
    pub first: Option<i32>,

    /// A cursor to use as the pointer to the start of the page.
    pub after: Option<String>,
}

/// The exact relation between an `after` field's segments and the result of
/// lazily decoding it: `Ok(None)` when absent, the cursor's own parse
/// result lifted into `Option` when present.
pub open spec fn parsed_cursor_ok<T: Cursor<CursorType = T>>(
    parts: Seq<Seq<char>>,
    r: Result<Option<T>, CursorError>,
) -> bool {
    match r {
        Ok(Some(c)) => T::parse_ok(parts, Ok(c)),
        Ok(None) => false,
        Err(e) => T::parse_ok(parts, Err(e)),
    }
}

impl PageRequest {
    /// Builds a request from the component parts of a query resolver,
    /// encoding the continuation cursor.
    pub fn new<C: Cursor>(first: Option<i32>, after: Option<C>) -> (r: Self)
        requires
            after matches Some(c) ==> c.well_formed(),
        ensures
            r.first == first,
            match after {
                Some(c) => r.after matches Some(a) && a@ == encoded_form(c.raw_spec()),
                None => r.after is None,
            },
    {
        match after {
            Some(c) => PageRequest { first, after: Some(c.to_encoded_string()) },
            None => PageRequest { first, after: None },
        }
    }

    /// Lazily decodes `after` into the cursor type the caller asks for:
    /// `Ok(None)` when no cursor was supplied, a decode error when the
    /// supplied one is malformed.
    pub fn parsed_cursor<T: Cursor<CursorType = T>>(&self) -> (r: Result<Option<T>, CursorError>)
        ensures
            self.after is None ==> r == Ok::<Option<T>, CursorError>(None),
            self.after matches Some(a) ==> forall|raw: Seq<char>|
                a@ == encoded_form(raw) ==> parsed_cursor_ok::<T>(split_spec(raw), r),
            (self.after matches Some(a) && !is_encoded(a@)) ==> (r matches Err(e) && (e
                == CursorError::Base64DecodeError || e == CursorError::Utf8DecodeError)),
    {
        match &self.after {
            None => Ok(None),
            Some(a) => match T::from_encoded_string(a.as_str()) {
                Ok(c) => Ok(Some(c)),
                Err(e) => Err(e),
            },
        }
    }
}

} // verus!
