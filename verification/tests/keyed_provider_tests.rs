use relay_pagination::Cursor;
use relay_pagination::CursorProvider;
use relay_pagination::KeyedCursorProvider;
use relay_pagination::Location;
use relay_pagination::PageRequest;
use relay_pagination::PaginationMetadata;
use relay_pagination::StringCursor;

fn item(id: &str) -> Location {
    Location { id: id.to_string(), name: id.to_string() }
}

#[test]
fn test_item_cursors() {
    let p = KeyedCursorProvider;
    let items = [item("id-1"), item("id-2"), item("id-3")];

    let meta = PaginationMetadata {
        total_count: 3,
        page_request: Some(PageRequest::new(
            Some(10),
            Some(StringCursor::new("".to_string())),
        )),
    };

    let i1_cursor = p.get_cursor_for_item(&meta, 0, &items[0]);
    assert_eq!(i1_cursor.to_encoded_string(), "c3RyaW5nfHxpZC0x");

    let i2_cursor = p.get_cursor_for_item(&meta, 1, &items[1]);
    assert_eq!(i2_cursor.to_encoded_string(), "c3RyaW5nfHxpZC0y");

    let i3_cursor = p.get_cursor_for_item(&meta, 2, &items[2]);
    assert_eq!(i3_cursor.to_encoded_string(), "c3RyaW5nfHxpZC0z");
}

#[test]
fn test_page_info_full_page() {
    let p = KeyedCursorProvider {};
    let items = vec![item("id-1"), item("id-2"), item("id-3")];

    let meta = PaginationMetadata {
        total_count: 3,
        page_request: Some(PageRequest { first: Some(10), after: None }),
    };

    let page_info = p.get_page_info(&meta, &items);
    assert!(!page_info.has_prev_page);
    assert!(page_info.has_next_page); // assume next is true due to items being returned.
    assert_eq!(page_info.start_cursor, Some("c3RyaW5nfHxpZC0x".to_string()));
    assert_eq!(page_info.end_cursor, Some("c3RyaW5nfHxpZC0z".to_string()));
}

#[test]
fn test_page_info_first_page_of_many() {
    let p = KeyedCursorProvider {};
    let items = vec![item("id-1"), item("id-2"), item("id-3")];

    let meta = PaginationMetadata {
        total_count: 30, // More than the items returned, we have more items
        page_request: Some(PageRequest { first: Some(10), after: None }),
    };

    let page_info = p.get_page_info(&meta, &items);
    assert!(!page_info.has_prev_page);
    assert!(page_info.has_next_page);
    assert_eq!(page_info.start_cursor, Some("c3RyaW5nfHxpZC0x".to_string()));
    assert_eq!(page_info.end_cursor, Some("c3RyaW5nfHxpZC0z".to_string()));
}

#[test]
fn test_page_info_last_page() {
    let p = KeyedCursorProvider {};
    let items: Vec<Location> = vec![];

    let meta = PaginationMetadata {
        total_count: 30, // More than the items returned, we have more items
        page_request: Some(PageRequest {
            first: Some(10),                             // More than items returned
            after: Some("c3RyaW5nOmlkLTA=".to_string()), // id-0 - we're paginating.
        }),
    };

    let page_info = p.get_page_info(&meta, &items);
    assert!(page_info.has_prev_page);
    assert!(!page_info.has_next_page);
    assert_eq!(page_info.start_cursor, None);
    assert_eq!(page_info.end_cursor, None);
}

/// An empty page with no request reports no next page and no boundary
/// cursors under the keyed provider.
#[test]
fn test_page_info_empty_no_request() {
    let p = KeyedCursorProvider;
    let items: Vec<Location> = vec![];
    let page_info = p.get_page_info(
        &PaginationMetadata { total_count: 12, page_request: None },
        &items,
    );
    assert!(!page_info.has_prev_page);
    assert!(!page_info.has_next_page);
    assert_eq!(page_info.start_cursor, None);
    assert_eq!(page_info.end_cursor, None);
}
