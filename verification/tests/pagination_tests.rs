use relay_pagination::CursorError;
use relay_pagination::OffsetCursor;
use relay_pagination::PageRequest;
use relay_pagination::StringCursor;

#[test]
fn test_new() {
    let pr = PageRequest::new(Some(10), Some(StringCursor::new("some-string-cursor".to_string())));
    assert_eq!(pr.first, Some(10));
    assert_eq!(pr.after, Some("c3RyaW5nfHxzb21lLXN0cmluZy1jdXJzb3I=".to_string()));
}

#[test]
fn test_decoding_cursor_from_page_request() {
    let request = PageRequest { first: Some(10), after: Some("b2Zmc2V0fHwxfHwxMA==".to_string()) };
    let decoded_cursor = request.parsed_cursor::<OffsetCursor>().unwrap();
    assert_eq!(decoded_cursor.unwrap().offset, 1);
}

#[test]
fn test_new_without_after() {
    let pr = PageRequest::new(None, None::<OffsetCursor>);
    assert_eq!(pr.first, None);
    assert_eq!(pr.after, None);
}

#[test]
fn test_parsed_cursor_absent() {
    let request = PageRequest { first: Some(3), after: None };
    let decoded = request.parsed_cursor::<OffsetCursor>().unwrap();
    assert!(decoded.is_none());
}

#[test]
fn test_parsed_cursor_malformed() {
    let request = PageRequest { first: None, after: Some("***".to_string()) };
    let res = request.parsed_cursor::<StringCursor>();
    assert_eq!(res.unwrap_err(), CursorError::Base64DecodeError);
}
