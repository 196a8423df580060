use base64::engine::general_purpose::URL_SAFE_NO_PAD;
use base64::Engine;
use dbmcp::pagination::{decode_cursor, encode_cursor, Cursor, Pager};

#[test]
fn page_defaults_to_offset_zero_without_cursor() {
    let pager = Pager::new(None, 50);
    assert_eq!(pager.offset(), 0);
    assert_eq!(pager.limit(), 51);
}

#[test]
fn page_inherits_offset_from_cursor() {
    let pager = Pager::new(Some(Cursor { offset: 200 }), 50);
    assert_eq!(pager.offset(), 200);
    assert_eq!(pager.limit(), 51);
}

#[test]
fn page_finalize_emits_next_cursor_when_over_fetched() {
    let pager = Pager::new(None, 3);
    let (items, next) = pager.finalize(vec!["a", "b", "c", "d"]);
    assert_eq!(items, ["a", "b", "c"]);
    assert_eq!(next, Some(Cursor { offset: 3 }));
}

#[test]
fn page_finalize_drops_next_cursor_on_exact_fit() {
    let pager = Pager::new(None, 3);
    let (items, next) = pager.finalize(vec!["a", "b", "c"]);
    assert_eq!(items, ["a", "b", "c"]);
    assert!(next.is_none());
}

#[test]
fn page_finalize_drops_next_cursor_on_short_page() {
    let pager = Pager::new(None, 3);
    let (items, next) = pager.finalize(vec!["a"]);
    assert_eq!(items, ["a"]);
    assert!(next.is_none());
}

#[test]
fn page_finalize_drops_next_cursor_on_empty_result() {
    let pager = Pager::new(Some(Cursor { offset: 99 }), 3);
    let (items, next) = pager.finalize(Vec::<&str>::new());
    assert!(items.is_empty());
    assert!(next.is_none());
}

#[test]
fn page_finalize_advances_offset_by_page_size() {
    let pager = Pager::new(Some(Cursor { offset: 100 }), 50);
    let items: Vec<u32> = (0..51).collect();
    let (_, next) = pager.finalize(items);
    assert_eq!(next, Some(Cursor { offset: 150 }));
}

#[test]
fn encode_decode_round_trips_representative_offsets() {
    for offset in [0u64, 1, 99, 100, 101, 12_345, u64::MAX / 2, u64::MAX] {
        let cursor = encode_cursor(offset);
        let decoded = decode_cursor(&cursor).expect("valid cursor should decode");
        assert_eq!(decoded, offset);
    }
}

#[test]
fn encoded_cursor_is_url_safe_base64() {
    let cursor = encode_cursor(100);
    assert!(!cursor.contains('+'));
    assert!(!cursor.contains('/'));
    assert!(!cursor.contains('='));
}

#[test]
fn encoded_cursor_carries_offset_payload() {
    let cursor = encode_cursor(100);
    assert_ne!(cursor, "{\"offset\":100}");
    let bytes = URL_SAFE_NO_PAD.decode(cursor.as_bytes()).unwrap();
    assert_eq!(bytes, b"{\"offset\":100}");
    let payload: serde_json::Value = serde_json::from_slice(&bytes).unwrap();
    assert_eq!(payload.get("offset").and_then(serde_json::Value::as_u64), Some(100));
    assert_eq!(decode_cursor(&cursor), Ok(100));
}

#[test]
fn cursor_deserialization_rejects_non_base64() {
    let err = decode_cursor("!!!not-base64").expect_err("should fail");
    assert_eq!(err, "invalid pagination cursor: not valid base64");
    assert!(err.contains("base64"));
}

#[test]
fn cursor_deserialization_rejects_base64_of_non_json() {
    let raw = URL_SAFE_NO_PAD.encode(b"not json");
    assert_eq!(decode_cursor(&raw), Err("invalid pagination cursor: payload is malformed"));
}

#[test]
fn cursor_deserialization_rejects_payload_missing_fields() {
    let raw = URL_SAFE_NO_PAD.encode(b"{}");
    assert_eq!(decode_cursor(&raw), Err("invalid pagination cursor: payload is malformed"));
}

#[test]
fn cursor_deserialization_rejects_negative_offset() {
    let raw = URL_SAFE_NO_PAD.encode(b"{\"offset\":-1}");
    assert_eq!(decode_cursor(&raw), Err("invalid pagination cursor: payload is malformed"));
}

#[test]
fn cursor_serializes_as_base64_string() {
    let s = encode_cursor(Cursor { offset: 100 }.offset);
    assert_eq!(decode_cursor(&s).unwrap(), 100);
}

#[test]
fn cursor_deserializes_from_valid_base64() {
    let raw = encode_cursor(42);
    let cursor = Cursor { offset: decode_cursor(&raw).unwrap() };
    assert_eq!(cursor.offset, 42);
}

#[test]
fn encoded_cursor_payload_uses_offset_key() {
    let s = encode_cursor(100);
    let bytes = URL_SAFE_NO_PAD.decode(s.as_bytes()).unwrap();
    let payload: serde_json::Value = serde_json::from_slice(&bytes).unwrap();
    let obj = payload.as_object().expect("payload should be a JSON object");
    assert_eq!(obj.get("offset").and_then(serde_json::Value::as_u64), Some(100));
}

#[test]
fn cursor_payload_with_spacing_still_decodes() {
    let raw = URL_SAFE_NO_PAD.encode(b"{ \"offset\" : 42 }");
    assert_eq!(decode_cursor(&raw), Ok(42));
}

#[test]
fn offsets_past_the_signed_range_saturate() {
    let pager = Pager::new(Some(Cursor { offset: u64::MAX }), 10);
    assert_eq!(pager.offset(), i64::MAX);
}

#[test]
fn following_cursors_visits_every_row_once() {
    let all: Vec<u32> = (0..23).collect();
    let size: u16 = 5;
    let mut cursor = None;
    let mut seen = Vec::new();
    loop {
        let pager = Pager::new(cursor, size);
        let start = pager.offset() as usize;
        let end = (start + pager.limit() as usize).min(all.len());
        let fetched = all[start.min(all.len())..end].to_vec();
        let (page, next) = pager.finalize(fetched);
        assert!(page.len() <= size as usize);
        seen.extend(page);
        match next {
            Some(c) => cursor = Some(c),
            None => break,
        }
    }
    assert_eq!(seen, all);
}

#[test]
fn cursor_text_is_the_base64_of_its_payload() {
    assert_eq!(encode_cursor(0), "eyJvZmZzZXQiOjB9");
    assert_eq!(encode_cursor(100), "eyJvZmZzZXQiOjEwMH0");
}

#[test]
fn cursor_payload_that_is_no_object_is_malformed() {
    let raw = URL_SAFE_NO_PAD.encode(b"[5]");
    assert_eq!(decode_cursor(&raw), Err("invalid pagination cursor: payload is malformed"));
}

#[test]
fn cursor_payload_with_repeated_offset_takes_the_last() {
    let raw = URL_SAFE_NO_PAD.encode(b"{\"offset\":1,\"offset\":2}");
    assert_eq!(decode_cursor(&raw), Ok(2));
}
