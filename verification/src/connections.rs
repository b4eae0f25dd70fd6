//! Connection and edge assembly: wrapping an ordered page of nodes into the
//! full paginated response shape (total count, one edge per node, page
//! info).
//!
//! The shapes are generic containers parameterized over the node type; a
//! per-entity wrapper type is just an instantiation of them.

use vstd::prelude::*;

use crate::codec::encoded_form;
use crate::cursor_provider::CursorProvider;
use crate::cursor_provider::PaginationMetadata;
use crate::cursors::Cursor;
use crate::pagination::PageInfo;
use crate::pagination::PageRequest;

verus! {

/// The pairing of a node and the encoded cursor pointing at it.
#[derive(Debug, Clone)]
pub struct RelayEdge<N> {
    /// The node itself.
    pub node: N,

    /// The encoded cursor pointing at the node, if one was generated.
    pub cursor: Option<String>,
}

impl<N> RelayEdge<N> {
    /// Builds an edge from a node and a cursor, encoding the cursor.
    pub fn new<C: Cursor>(node: N, cursor: C) -> (r: Self)
        requires
            cursor.well_formed(),
        ensures
            r.node == node,
            r.cursor matches Some(s) && s@ == encoded_form(cursor.raw_spec()),
    {
        RelayEdge { node, cursor: Some(cursor.to_encoded_string()) }
    }

    /// Builds an edge from a node and an already-encoded cursor, or none.
    pub fn new_raw_cursor(node: N, cursor: Option<String>) -> (r: Self)
        ensures
            r.node == node,
            r.cursor == cursor,
    {
        RelayEdge { node, cursor }
    }
}

/// The full paginated response: the total count of the underlying result
/// set, one edge per page item in page order, and the page's `PageInfo`.
#[derive(Debug, Clone)]
pub struct RelayConnection<N> {
    /// The total number of items in the underlying result set (not the
    /// page size).
    pub count: i32,

    /// One edge per node of the page, in the same order as the input.
    pub edges: Vec<RelayEdge<N>>,

    /// The page-boundary summary for the page.
    pub page_info: PageInfo,
}

/// The metadata a connection hands its cursor provider.
pub open spec fn connection_metadata(
    total_items: i32,
    page_request: Option<PageRequest>,
) -> PaginationMetadata {
    PaginationMetadata { total_count: total_items, page_request }
}

impl<N> RelayConnection<N> {
    /// Builds a connection and its edges from the page's nodes. A cursor is
    /// generated for every edge, and the `PageInfo` is derived by the given
    /// cursor provider. A pure function of its inputs: no I/O, no global
    /// state.
    ///
    /// The edges match the input nodes one to one, in order, and
    /// `count` is the supplied total, not the page size.
    pub fn new<P: CursorProvider<N>>(
        nodes: Vec<N>,
        total_items: i32,
        cursor_provider: &P,
        page_request: Option<PageRequest>,
    ) -> (r: Self)
        requires
            nodes@.len() <= i32::MAX as nat,
        ensures
            r.count == total_items,
            r.edges@.len() == nodes@.len(),
            forall|i: int| 0 <= i < nodes@.len() ==> (#[trigger] r.edges@[i]).node == nodes@[i],
            forall|i: int| 0 <= i < nodes@.len() ==> (#[trigger] r.edges@[i]).cursor.deep_view()
                == Some(
                encoded_form(
                    cursor_provider.item_cursor_raw(
                        connection_metadata(total_items, page_request),
                        i,
                        nodes@[i],
                    ),
                ),
            ),
            r.page_info.has_next_page == cursor_provider.has_next_spec(
                connection_metadata(total_items, page_request),
                nodes@,
            ),
            r.page_info.has_prev_page == cursor_provider.has_prev_spec(
                connection_metadata(total_items, page_request),
                nodes@,
            ),
            r.page_info.start_cursor.deep_view() == cursor_provider.start_cursor_spec(
                connection_metadata(total_items, page_request),
                nodes@,
            ),
            r.page_info.end_cursor.deep_view() == cursor_provider.end_cursor_spec(
                connection_metadata(total_items, page_request),
                nodes@,
            ),
    {
        let metadata = PaginationMetadata { total_count: total_items, page_request };
        let page_info = cursor_provider.get_page_info(&metadata, &nodes);

        let ghost all_nodes = nodes@;
        let mut nodes = nodes;
        let mut edges: Vec<RelayEdge<N>> = Vec::new();
        let mut idx: i32 = 0;
        while nodes.len() > 0
            invariant
                all_nodes.len() <= i32::MAX as nat,
                edges@.len() + nodes@.len() == all_nodes.len(),
                idx as int == edges@.len(),
                nodes@ == all_nodes.skip(edges@.len() as int),
                metadata == connection_metadata(total_items, page_request),
                forall|i: int| 0 <= i < edges@.len() ==> (#[trigger] edges@[i]).node
                    == all_nodes[i],
                forall|i: int| 0 <= i < edges@.len() ==> (#[trigger] edges@[i]).cursor.deep_view()
                    == Some(
                    encoded_form(cursor_provider.item_cursor_raw(metadata, i, all_nodes[i])),
                ),
            decreases nodes@.len(),
        {
            let node = nodes.remove(0);
            proof {
                assert(node == all_nodes[idx as int]);
                assert(nodes@ =~= all_nodes.skip(edges@.len() as int + 1));
            }
            let cursor = cursor_provider.get_cursor_for_item(&metadata, idx, &node);
            let encoded = cursor.to_encoded_string();
            edges.push(RelayEdge { node, cursor: Some(encoded) });
            idx = idx + 1;
        }

        RelayConnection { count: total_items, edges, page_info }
    }
}

} // verus!
