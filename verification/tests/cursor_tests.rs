use relay_pagination::Cursor;
use relay_pagination::CursorError;
use relay_pagination::OffsetCursor;
use relay_pagination::StringCursor;

#[test]
fn test_new_offset_first() {
    let cursor = OffsetCursor::new(1, Some(10));
    assert_eq!(cursor.offset, 1);
    assert_eq!(cursor.first, Some(10));
}

#[test]
fn test_offset_cursor_default() {
    let cursor = OffsetCursor::default();
    assert_eq!(cursor.offset, 0);
    assert_eq!(cursor.first, None);
}

#[test]
fn test_offset_cursor_raw_string() {
    let cursor = OffsetCursor { offset: 1, first: Some(10) };
    assert_eq!(cursor.to_raw_string(), "offset||1||10");
}

#[test]
fn test_offset_cursor_encoded_string() {
    let cursor = OffsetCursor { offset: 1, first: Some(10) };
    assert_eq!(cursor.to_encoded_string(), "b2Zmc2V0fHwxfHwxMA==");
}

#[test]
fn test_offset_cursor_from_encoded_string() {
    let cursor = OffsetCursor::from_encoded_string("b2Zmc2V0fHwxfHwxMA==").unwrap();
    assert_eq!(cursor.offset, 1);
    assert_eq!(cursor.first, Some(10));
}

#[test]
fn test_string_cursor_raw_string() {
    let cursor = StringCursor { value: "some-cursor".to_string() };
    assert_eq!(cursor.to_raw_string(), "string||some-cursor");
}

#[test]
fn test_string_cursor_encoded_string() {
    let cursor = StringCursor { value: "some-cursor".to_string() };
    assert_eq!(cursor.to_encoded_string(), "c3RyaW5nfHxzb21lLWN1cnNvcg==");
}

#[test]
fn test_string_cursor_from_encoded_string() {
    let cursor = StringCursor::from_encoded_string("c3RyaW5nfHxzb21lLWN1cnNvcg==").unwrap();
    assert_eq!(cursor.value, "some-cursor");
}

#[test]
fn test_offset_cursor_round_trip_no_first() {
    let cursor = OffsetCursor::new(42, None);
    let decoded = OffsetCursor::from_encoded_string(&cursor.to_encoded_string()).unwrap();
    assert_eq!(decoded.offset, 42);
    assert_eq!(decoded.first, None);
}

#[test]
fn test_offset_cursor_round_trip_with_first() {
    let cursor = OffsetCursor::new(0, Some(25));
    let decoded = OffsetCursor::from_encoded_string(&cursor.to_encoded_string()).unwrap();
    assert_eq!(decoded.offset, 0);
    assert_eq!(decoded.first, Some(25));
}

#[test]
fn test_string_cursor_round_trip() {
    let cursor = StringCursor::new("region#7/key".to_string());
    let decoded = StringCursor::from_encoded_string(&cursor.to_encoded_string()).unwrap();
    assert_eq!(decoded.value, "region#7/key");
}

#[test]
fn test_string_cursor_round_trip_single_pipe() {
    // A lone `|` is not the delimiter and must survive the round trip.
    let cursor = StringCursor::new("a|b".to_string());
    assert_eq!(cursor.to_encoded_string(), "c3RyaW5nfHxhfGI=");
    let decoded = StringCursor::from_encoded_string("c3RyaW5nfHxhfGI=").unwrap();
    assert_eq!(decoded.value, "a|b");
}

#[test]
fn test_string_cursor_default() {
    let cursor = StringCursor::default();
    assert_eq!(cursor.value, "");
}

#[test]
fn test_decode_invalid_base64() {
    let res = OffsetCursor::from_encoded_string("not base64 at all!");
    assert_eq!(res.unwrap_err(), CursorError::Base64DecodeError);
}

#[test]
fn test_decode_invalid_utf8() {
    // Valid base64 of the single byte 0xFF, which is not valid UTF-8.
    let res = StringCursor::from_encoded_string("_w==");
    assert_eq!(res.unwrap_err(), CursorError::Utf8DecodeError);
}

#[test]
fn test_decode_wrong_segment_count() {
    // base64 of "justonesegment": one segment, no delimiter.
    let res = OffsetCursor::from_encoded_string("anVzdG9uZXNlZ21lbnQ=");
    assert_eq!(res.unwrap_err(), CursorError::InvalidCursor);
    let res = StringCursor::from_encoded_string("anVzdG9uZXNlZ21lbnQ=");
    assert_eq!(res.unwrap_err(), CursorError::InvalidCursor);
}

#[test]
fn test_decode_wrong_kind_tag() {
    // base64 of "string||5" read as an offset cursor, and vice versa.
    let res = relay_pagination::cursor_from_encoded_string::<OffsetCursor>("c3RyaW5nfHw1");
    assert_eq!(res.unwrap_err(), CursorError::InvalidCursor);
    // base64 of "offset||1||10" read as a string cursor.
    let res = relay_pagination::cursor_from_encoded_string::<StringCursor>("b2Zmc2V0fHwxfHwxMA==");
    assert_eq!(res.unwrap_err(), CursorError::InvalidCursor);
}

#[test]
fn test_decode_lenient_offset_fields() {
    // base64 of "offset||abc||5": unparsable offset falls back to 0.
    let c = OffsetCursor::from_encoded_string("b2Zmc2V0fHxhYmN8fDU=").unwrap();
    assert_eq!(c.offset, 0);
    assert_eq!(c.first, Some(5));

    // base64 of "offset||7||xyz": unparsable first becomes None.
    let c = OffsetCursor::from_encoded_string("b2Zmc2V0fHw3fHx4eXo=").unwrap();
    assert_eq!(c.offset, 7);
    assert_eq!(c.first, None);

    // base64 of "offset||-3": not a non-negative numeral, falls back to 0.
    let c = OffsetCursor::from_encoded_string("b2Zmc2V0fHwtMw==").unwrap();
    assert_eq!(c.offset, 0);
    assert_eq!(c.first, None);

    // base64 of "offset||99999999999": overflows an i32, falls back to 0.
    let c = OffsetCursor::from_encoded_string("b2Zmc2V0fHw5OTk5OTk5OTk5OQ==").unwrap();
    assert_eq!(c.offset, 0);
    assert_eq!(c.first, None);
}
