//! Pagination primitives in the style of the Relay cursor-connection
//! convention: opaque base64 cursors, page metadata, cursor providers that
//! derive `PageInfo` from a page of results, and connection/edge assembly.

mod codec;
mod connections;
mod cursor_errors;
mod cursor_provider;
mod cursors;
mod location;
mod numerals;
mod pagination;
mod segments;

pub use codec::decode_encoded;
pub use codec::decoded_raw;
pub use codec::encode_raw;
pub use codec::encoded_form;
pub use codec::is_encoded;
pub use connections::connection_metadata;
pub use connections::RelayConnection;
pub use connections::RelayEdge;
pub use cursor_errors::CursorError;
pub use cursor_provider::clamp_i32;
pub use cursor_provider::lemma_empty_page_keyed;
pub use cursor_provider::lemma_empty_page_offset;
pub use cursor_provider::lemma_keyed_after_empty_page;
pub use cursor_provider::lemma_offset_base_wf;
pub use cursor_provider::lemma_offset_no_request;
pub use cursor_provider::lemma_offset_parse_wf;
pub use cursor_provider::offset_adjust;
pub use cursor_provider::offset_after_decode;
pub use cursor_provider::offset_base;
pub use cursor_provider::offset_item_cursor;
pub use cursor_provider::CursorByKey;
pub use cursor_provider::CursorProvider;
pub use cursor_provider::KeyedCursorProvider;
pub use cursor_provider::OffsetCursorProvider;
pub use cursor_provider::PaginationMetadata;
pub use cursors::cursor_from_encoded_string;
pub use cursors::lemma_offset_cursor_round_trip;
pub use cursors::lemma_offset_raw_injective;
pub use cursors::lemma_string_cursor_round_trip;
pub use cursors::offset_parse_spec;
pub use cursors::offset_tag;
pub use cursors::string_tag;
pub use cursors::Cursor;
pub use cursors::OffsetCursor;
pub use cursors::StringCursor;
pub use location::get_location_test_data;
pub use location::Location;
pub use location::LocationRow;
pub use numerals::dec_str;
pub use numerals::parse_nonneg;
pub use pagination::parsed_cursor_ok;
pub use pagination::PageInfo;
pub use pagination::PageRequest;
pub use segments::delim;
pub use segments::delim_free;
pub use segments::split_spec;
