//! Cursor providers: the algorithms that, given pagination metadata and a
//! page of items, produce a cursor for any item of the page and the
//! complete [`PageInfo`] for the page.
//!
//! Two providers with materially different boundary policies are built in:
//! [`OffsetCursorProvider`] for stores with a known total count and cheap
//! offset arithmetic, and [`KeyedCursorProvider`] for stores whose only
//! continuation signal is an opaque per-item key.

use vstd::prelude::*;

use crate::codec::decoded_raw;
use crate::codec::encoded_form;
use crate::codec::is_encoded;
use crate::cursors::offset_parse_spec;
use crate::cursors::string_tag;
use crate::cursors::Cursor;
use crate::cursors::OffsetCursor;
use crate::cursors::StringCursor;
use crate::pagination::parsed_cursor_ok;
use crate::pagination::PageInfo;
use crate::pagination::PageRequest;
use crate::segments::delim;
use crate::segments::split_spec;

verus! {

/// What a cursor provider needs to know about the result set being
/// described: the total number of items and the caller's page request, if
/// any. Constructed fresh per resolution and never mutated.
#[derive(Debug, Clone)]
pub struct PaginationMetadata {
    /// The total number of items in the result set.
    pub total_count: i32,

    /// The incoming page request, if any.
    pub page_request: Option<PageRequest>,
}

/// Builds a cursor for each item of a result page and derives the page's
/// [`PageInfo`].
///
/// The five spec functions are the provider's mathematical model; the two
/// methods are pinned to it exactly.
pub trait CursorProvider<ItemT> {
    /// The concrete cursor kind this provider issues.
    type CursorT: Cursor;

    /// The raw string form of the cursor issued for the item at `item_idx`.
    spec fn item_cursor_raw(&self, meta: PaginationMetadata, item_idx: int, item: ItemT) -> Seq<
        char,
    >;

    /// Whether a page following the described one exists.
    spec fn has_next_spec(&self, meta: PaginationMetadata, items: Seq<ItemT>) -> bool;

    /// Whether a page preceding the described one exists.
    spec fn has_prev_spec(&self, meta: PaginationMetadata, items: Seq<ItemT>) -> bool;

    /// The encoded cursor of the page's first item, or `None` on an empty
    /// page.
    spec fn start_cursor_spec(&self, meta: PaginationMetadata, items: Seq<ItemT>) -> Option<
        Seq<char>,
    >;

    /// The encoded cursor of the page's last item, or `None` on an empty
    /// page.
    spec fn end_cursor_spec(&self, meta: PaginationMetadata, items: Seq<ItemT>) -> Option<
        Seq<char>,
    >;

    /// Builds the cursor for the item at `item_idx` of the page.
    fn get_cursor_for_item(
        &self,
        metadata: &PaginationMetadata,
        item_idx: i32,
        item: &ItemT,
    ) -> (r: Self::CursorT)
        requires
            0 <= item_idx,
        ensures
            r.well_formed(),
            r.raw_spec() == self.item_cursor_raw(*metadata, item_idx as int, *item),
    ;

    /// Derives the complete `PageInfo` for the page.
    fn get_page_info(&self, metadata: &PaginationMetadata, items: &Vec<ItemT>) -> (r: PageInfo)
        requires
            items@.len() <= i32::MAX as nat,
        ensures
            r.has_next_page == self.has_next_spec(*metadata, items@),
            r.has_prev_page == self.has_prev_spec(*metadata, items@),
            r.start_cursor.deep_view() == self.start_cursor_spec(*metadata, items@),
            r.end_cursor.deep_view() == self.end_cursor_spec(*metadata, items@),
    ;
}

// -------------- OffsetCursorProvider ---------------

/// The offset cursor the request's `after` field decodes to, when one was
/// supplied and decodes successfully.
pub open spec fn offset_after_decode(meta: PaginationMetadata) -> Option<OffsetCursor> {
    match meta.page_request {
        Some(pr) => match pr.after {
            Some(a) => if is_encoded(a@) {
                match offset_parse_spec(split_spec(decoded_raw(a@))) {
                    Ok(c) => Some(c),
                    Err(_) => None,
                }
            } else {
                None
            },
            None => None,
        },
        None => None,
    }
}

/// The current cursor the offset provider works from: the decoded `after`
/// cursor, or the start-of-set default when none was supplied or the
/// supplied one is undecodable (a malformed `after` deliberately degrades
/// to "start from offset 0" rather than failing the query).
pub open spec fn offset_base(meta: PaginationMetadata) -> OffsetCursor {
    match offset_after_decode(meta) {
        Some(c) => c,
        None => OffsetCursor { offset: 0, first: None },
    }
}

/// One exactly when an `after` cursor was decoded: that cursor points at
/// the last-seen item, so issued cursors start one past it.
pub open spec fn offset_adjust(meta: PaginationMetadata) -> int {
    if offset_after_decode(meta) is Some {
        1
    } else {
        0
    }
}

/// Values above `i32::MAX` saturate to it, so issuing a cursor is total.
pub open spec fn clamp_i32(v: int) -> int {
    if v > i32::MAX {
        i32::MAX as int
    } else {
        v
    }
}

/// The cursor the offset provider issues for the item at `idx`.
pub open spec fn offset_item_cursor(meta: PaginationMetadata, idx: int) -> OffsetCursor {
    let base = offset_base(meta);
    OffsetCursor {
        offset: clamp_i32(base.offset + offset_adjust(meta) + idx) as i32,
        first: base.first,
    }
}

/// A successfully parsed offset cursor is well-formed.
pub proof fn lemma_offset_parse_wf(parts: Seq<Seq<char>>)
    ensures
        offset_parse_spec(parts) matches Ok(c) ==> c.well_formed(),
{
    if offset_parse_spec(parts) matches Ok(c) {
        match crate::numerals::parse_nonneg(parts[1]) {
            Some(v) => {
                crate::numerals::lemma_digits_val_nonneg(parts[1]);
            },
            None => {},
        }
        if parts.len() == 3 {
            match crate::numerals::parse_nonneg(parts[2]) {
                Some(v) => {
                    crate::numerals::lemma_digits_val_nonneg(parts[2]);
                },
                None => {},
            }
        }
    }
}

/// The offset provider's current cursor is well-formed.
pub proof fn lemma_offset_base_wf(meta: PaginationMetadata)
    ensures
        offset_base(meta).well_formed(),
{
    match meta.page_request {
        Some(pr) => match pr.after {
            Some(a) => {
                if is_encoded(a@) {
                    lemma_offset_parse_wf(split_spec(decoded_raw(a@)));
                }
            },
            None => {},
        },
        None => {},
    }
}

/// Built-in cursor provider for offset/limit-style pagination, where the
/// total item count is known up front. Serves as a reference implementation
/// for cursor providers of your own.
pub struct OffsetCursorProvider;

impl OffsetCursorProvider {
    /// Shortcut method for creating a new instance of OffsetCursorProvider.
    pub fn new() -> (r: Self)
        ensures
            r == OffsetCursorProvider,
    {
        OffsetCursorProvider
    }
}

impl Default for OffsetCursorProvider {
    fn default() -> (r: Self)
        ensures
            r == OffsetCursorProvider,
    {
        OffsetCursorProvider
    }
}

/// Resolves the current cursor and the offset adjustment from the request's
/// `after` field.
fn offset_current_cursor(metadata: &PaginationMetadata) -> (r: (OffsetCursor, i32))
    ensures
        r.0 == offset_base(*metadata),
        r.1 as int == offset_adjust(*metadata),
        r.0.well_formed(),
{
    proof {
        lemma_offset_base_wf(*metadata);
    }
    match &metadata.page_request {
        None => (OffsetCursor::new(0, None), 0),
        Some(pr) => {
            let pc = pr.parsed_cursor::<OffsetCursor>();
            proof {
                match &pr.after {
                    Some(a) => {
                        if is_encoded(a@) {
                            assert(a@ == encoded_form(decoded_raw(a@)));
                            assert(parsed_cursor_ok::<OffsetCursor>(
                                split_spec(decoded_raw(a@)),
                                pc,
                            ));
                        }
                    },
                    None => {},
                }
            }
            match pc {
                Ok(Some(cc)) => (cc, 1),
                Ok(None) => (OffsetCursor::new(0, None), 0),
                Err(_) => (OffsetCursor::new(0, None), 0),
            }
        },
    }
}

impl<ItemT> CursorProvider<ItemT> for OffsetCursorProvider {
    type CursorT = OffsetCursor;

    open spec fn item_cursor_raw(&self, meta: PaginationMetadata, item_idx: int, item: ItemT) -> Seq<
        char,
    > {
        offset_item_cursor(meta, item_idx).raw_spec()
    }

    /// False without a page request (the whole set was returned) and
    /// without a requested page size; otherwise true exactly when the
    /// current offset plus the page size falls short of the total count.
    open spec fn has_next_spec(&self, meta: PaginationMetadata, items: Seq<ItemT>) -> bool {
        match meta.page_request {
            Some(pr) => match pr.first {
                Some(f) => offset_base(meta).offset + f < meta.total_count,
                None => false,
            },
            None => false,
        }
    }

    /// True exactly when the current offset is past the start of the set.
    open spec fn has_prev_spec(&self, meta: PaginationMetadata, items: Seq<ItemT>) -> bool {
        offset_base(meta).offset > 0
    }

    open spec fn start_cursor_spec(&self, meta: PaginationMetadata, items: Seq<ItemT>) -> Option<
        Seq<char>,
    > {
        if items.len() == 0 {
            None
        } else {
            Some(encoded_form(self.item_cursor_raw(meta, 0, items[0])))
        }
    }

    open spec fn end_cursor_spec(&self, meta: PaginationMetadata, items: Seq<ItemT>) -> Option<
        Seq<char>,
    > {
        if items.len() == 0 {
            None
        } else {
            Some(
                encoded_form(
                    self.item_cursor_raw(meta, items.len() - 1, items[items.len() - 1]),
                ),
            )
        }
    }

    fn get_cursor_for_item(
        &self,
        metadata: &PaginationMetadata,
        item_idx: i32,
        item: &ItemT,
    ) -> (r: OffsetCursor) {
        let (base, adjust) = offset_current_cursor(metadata);
        let sum: i64 = base.offset as i64 + adjust as i64 + item_idx as i64;
        let offset: i32 = if sum > i32::MAX as i64 {
            i32::MAX
        } else {
            sum as i32
        };
        OffsetCursor { offset, first: base.first }
    }

    fn get_page_info(&self, metadata: &PaginationMetadata, items: &Vec<ItemT>) -> (r: PageInfo)
    {
        let (base, _adjust) = offset_current_cursor(metadata);

        let has_next_page = match &metadata.page_request {
            Some(pr) => match pr.first {
                Some(f) => (base.offset as i64) + (f as i64) < (metadata.total_count as i64),
                None => false,
            },
            None => false,
        };

        let has_prev_page = base.offset > 0;

        let (start_cursor, end_cursor) = if items.len() == 0 {
            (None, None)
        } else {
            let last_index = items.len() - 1;
            let sc = self.get_cursor_for_item(metadata, 0, &items[0]).to_encoded_string();
            let ec = self.get_cursor_for_item(
                metadata,
                last_index as i32,
                &items[last_index],
            ).to_encoded_string();
            (Some(sc), Some(ec))
        };

        PageInfo { has_next_page, has_prev_page, start_cursor, end_cursor }
    }
}

// ------------- KeyedCursorProvider -------------

/// The capability an item type needs for the keyed provider: a stable
/// string key identifying the item for continuation purposes.
pub trait CursorByKey {
    /// The item's continuation key.
    spec fn key_spec(&self) -> Seq<char>;

    /// Returns the item's continuation key.
    fn cursor_key(&self) -> (r: String)
        ensures
            r@ == self.key_spec(),
    ;
}

/// Cursor provider for stores whose native continuation token is an opaque
/// key (e.g. NoSQL). Each item's cursor wraps the item's own key.
///
/// If any `after` is provided, a previous page is assumed to exist. If any
/// items were returned, a next page is assumed to exist: under opaque
/// cursors the only reliable last page is an empty page, which can be
/// unexpected to a lot of frontends.
pub struct KeyedCursorProvider;

impl<ItemT: CursorByKey> CursorProvider<ItemT> for KeyedCursorProvider {
    type CursorT = StringCursor;

    open spec fn item_cursor_raw(&self, meta: PaginationMetadata, item_idx: int, item: ItemT) -> Seq<
        char,
    > {
        string_tag() + delim() + item.key_spec()
    }

    /// A non-empty page always reports a next page, whether or not more
    /// data actually exists.
    open spec fn has_next_spec(&self, meta: PaginationMetadata, items: Seq<ItemT>) -> bool {
        items.len() > 0
    }

    /// True exactly when the incoming request carried an `after` cursor.
    open spec fn has_prev_spec(&self, meta: PaginationMetadata, items: Seq<ItemT>) -> bool {
        match meta.page_request {
            Some(pr) => pr.after is Some,
            None => false,
        }
    }

    open spec fn start_cursor_spec(&self, meta: PaginationMetadata, items: Seq<ItemT>) -> Option<
        Seq<char>,
    > {
        if items.len() == 0 {
            None
        } else {
            Some(encoded_form(self.item_cursor_raw(meta, 0, items[0])))
        }
    }

    open spec fn end_cursor_spec(&self, meta: PaginationMetadata, items: Seq<ItemT>) -> Option<
        Seq<char>,
    > {
        if items.len() == 0 {
            None
        } else {
            Some(
                encoded_form(
                    self.item_cursor_raw(meta, items.len() - 1, items[items.len() - 1]),
                ),
            )
        }
    }

    fn get_cursor_for_item(
        &self,
        metadata: &PaginationMetadata,
        item_idx: i32,
        item: &ItemT,
    ) -> (r: StringCursor) {
        StringCursor::new(item.cursor_key())
    }

    fn get_page_info(&self, metadata: &PaginationMetadata, items: &Vec<ItemT>) -> (r: PageInfo)
    {
        let (start_cursor, end_cursor) = if items.len() == 0 {
            (None, None)
        } else {
            let last_index = items.len() - 1;
            let sc = self.get_cursor_for_item(metadata, 0, &items[0]).to_encoded_string();
            let ec = self.get_cursor_for_item(
                metadata,
                last_index as i32,
                &items[last_index],
            ).to_encoded_string();
            (Some(sc), Some(ec))
        };

        let has_prev_page = match &metadata.page_request {
            Some(pr) => pr.after.is_some(),
            None => false,
        };

        let has_next_page = items.len() > 0;

        PageInfo { has_next_page, has_prev_page, start_cursor, end_cursor }
    }
}

// ------------- Laws -------------

/// An empty page has no boundary cursors under the
/// offset provider.
pub proof fn lemma_empty_page_offset<ItemT>(
    p: OffsetCursorProvider,
    meta: PaginationMetadata,
    items: Seq<ItemT>,
)
    requires
        items.len() == 0,
    ensures
        p.start_cursor_spec(meta, items) is None,
        p.end_cursor_spec(meta, items) is None,
{
}

/// An empty page has no boundary cursors under the keyed
/// provider, and reports no next page.
pub proof fn lemma_empty_page_keyed<ItemT: CursorByKey>(
    p: KeyedCursorProvider,
    meta: PaginationMetadata,
    items: Seq<ItemT>,
)
    requires
        items.len() == 0,
    ensures
        p.start_cursor_spec(meta, items) is None,
        p.end_cursor_spec(meta, items) is None,
        !p.has_next_spec(meta, items),
{
}

/// With no page request at all, the offset provider reports no page in
/// either direction, regardless of any mismatch between the total count
/// and the number of items in the page.
pub proof fn lemma_offset_no_request<ItemT>(
    p: OffsetCursorProvider,
    meta: PaginationMetadata,
    items: Seq<ItemT>,
)
    requires
        meta.page_request is None,
    ensures
        !p.has_prev_spec(meta, items),
        !p.has_next_spec(meta, items),
{
}

/// Under the keyed provider, a request that carries an `after` cursor
/// but got an empty page back reports a previous page, no next page, and
/// no boundary cursors.
pub proof fn lemma_keyed_after_empty_page<ItemT: CursorByKey>(
    p: KeyedCursorProvider,
    meta: PaginationMetadata,
    items: Seq<ItemT>,
)
    requires
        items.len() == 0,
        meta.page_request matches Some(pr) && pr.after is Some,
    ensures
        p.has_prev_spec(meta, items),
        !p.has_next_spec(meta, items),
        p.start_cursor_spec(meta, items) is None,
        p.end_cursor_spec(meta, items) is None,
{
}

} // verus!
