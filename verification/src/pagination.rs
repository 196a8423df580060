//! Opaque cursor pagination for tool responses.
//!
//! A cursor is the URL-safe, unpadded base64 encoding of the JSON object
//! `{"offset":<offset>}`. Paginated tools fetch one row more than the page
//! size (`LIMIT size + 1 OFFSET offset`), then [`Pager::finalize`] trims the
//! extra row and emits the cursor of the next page when there is one.

use vstd::prelude::*;
use vstd::utf8::encode_utf8;
use crate::text::{decimal, push_decimal};
use base64::Engine;
use serde_json::Value;

verus! {

/// Opaque pagination cursor: a zero-based row offset.
#[derive(Debug, Clone, Copy, PartialEq, Eq, Structural)]
pub struct Cursor {
    /// Zero-based row offset into the backend's sorted item list.
    pub offset: u64,
}

/// A single page request resolved from an optional cursor and a page size.
#[derive(Debug, Clone, Copy)]
pub struct Pager {
    offset: u64,
    size: u16,
}

/// Rows that `LIMIT limit OFFSET offset` selects from the sorted list `all`.
pub open spec fn window<T>(all: Seq<T>, offset: nat, limit: nat) -> Seq<T> {
    let lo = if offset <= all.len() { offset } else { all.len() };
    let hi = if offset + limit <= all.len() { offset + limit } else { all.len() };
    all.subrange(lo as int, hi as int)
}

/// The items of a page: the fetched rows cut to at most `size`.
pub open spec fn page_items<T>(items: Seq<T>, size: nat) -> Seq<T> {
    if items.len() > size {
        items.take(size as int)
    } else {
        items
    }
}

/// The cursor that follows a page that started at `offset` and fetched
/// `items`: present exactly when more rows were fetched than fit the page.
pub open spec fn next_cursor<T>(items: Seq<T>, offset: nat, size: nat) -> Option<Cursor> {
    if items.len() > size {
        Some(Cursor { offset: (offset + size) as u64 })
    } else {
        None
    }
}

/// Concatenation of the pages a client receives when it starts at `offset`
/// and follows every next cursor, the backend answering each request from the
/// sorted list `all`.
pub open spec fn walk<T>(all: Seq<T>, offset: nat, size: nat) -> Seq<T>
    decreases all.len() - offset,
    when size > 0
{
    let fetched = window(all, offset, size + 1);
    let page = page_items(fetched, size);
    match next_cursor(fetched, offset, size) {
        Some(c) => page + walk(all, offset + size, size),
        None => page,
    }
}

impl Pager {
    /// Row offset at which this page starts.
    pub closed spec fn start(self) -> nat {
        self.offset as nat
    }

    /// Maximum number of items in this page.
    pub closed spec fn page_size(self) -> nat {
        self.size as nat
    }

    /// Builds a page request from an optional cursor and the configured page size.
    pub fn new(cursor: Option<Cursor>, size: u16) -> (p: Self)
        ensures
            p.start() == (match cursor {
                Some(c) => c.offset as nat,
                None => 0,
            }),
            p.page_size() == size,
    {
        let offset = match cursor {
            Some(c) => c.offset,
            None => 0,
        };
        Pager { offset, size }
    }

    /// Row offset at which this page starts, saturated at `i64::MAX`.
    pub fn offset(&self) -> (o: i64)
        ensures
            o == (if self.start() <= i64::MAX { self.start() as int } else { i64::MAX as int }),
    {
        if self.offset <= i64::MAX as u64 {
            self.offset as i64
        } else {
            i64::MAX
        }
    }

    /// Row count to fetch from the backend: the page size plus one lookahead row.
    pub fn limit(&self) -> (l: i64)
        ensures
            l == self.page_size() + 1,
    {
        self.size as i64 + 1
    }

    /// Trims over-fetched items to the page size and derives the next cursor.
    ///
    /// When `items` holds more than the page size, the tail is dropped and a
    /// cursor pointing at the next offset is returned; otherwise the items
    /// come back unchanged with `None`.
    pub fn finalize<T>(&self, items: Vec<T>) -> (r: (Vec<T>, Option<Cursor>))
        requires
            items@.len() > self.page_size() ==> self.start() + self.page_size() <= u64::MAX,
        ensures
            r.0@ == page_items(items@, self.page_size()),
            r.1 == next_cursor(items@, self.start(), self.page_size()),
            r.0@.len() <= self.page_size(),
    {
        let mut items = items;
        let size = self.size as usize;
        if items.len() > size {
            items.truncate(size);
            let offset = self.offset + self.size as u64;
            (items, Some(Cursor { offset }))
        } else {
            (items, None)
        }
    }
}

/// Following next cursors from `offset` returns every row of `all` from
/// `offset` on, each exactly once and in order (for a positive page size).
pub proof fn lemma_walk_covers<T>(all: Seq<T>, offset: nat, size: nat)
    requires
        size > 0,
        offset <= all.len(),
    ensures
        walk(all, offset, size) == all.subrange(offset as int, all.len() as int),
    decreases all.len() - offset,
{
    let fetched = window(all, offset, size + 1);
    if offset + size < all.len() {
        lemma_walk_covers(all, offset + size, size);
        assert(page_items(fetched, size) =~= all.subrange(offset as int, (offset + size) as int));
        assert(all.subrange(offset as int, (offset + size) as int) + all.subrange(
            (offset + size) as int,
            all.len() as int,
        ) =~= all.subrange(offset as int, all.len() as int));
    } else {
        assert(page_items(fetched, size) =~= all.subrange(offset as int, all.len() as int));
    }
}

/// A page fetched at `offset` holds the next `size` rows of `all` (fewer at
/// the end), and its next cursor is present exactly when rows remain after it.
pub proof fn lemma_page_of_window<T>(all: Seq<T>, offset: nat, size: nat)
    requires
        offset <= all.len(),
    ensures
        page_items(window(all, offset, size + 1), size) == window(all, offset, size),
        next_cursor(window(all, offset, size + 1), offset, size) is Some <==> offset + size
            < all.len(),
{
    let fetched = window(all, offset, size + 1);
    if fetched.len() > size {
        assert(fetched.take(size as int) =~= window(all, offset, size));
    }
}

/// A character allowed in a plain JSON member name: an ASCII letter, digit
/// or underscore (nothing that JSON escapes).
pub open spec fn is_plain_key_char(c: char) -> bool {
    ('A' <= c && c <= 'Z') || ('a' <= c && c <= 'z') || ('0' <= c && c <= '9') || c == '_'
}

/// A non-empty JSON member name of plain characters only.
pub open spec fn is_plain_key(key: Seq<char>) -> bool {
    key.len() > 0 && forall|i: int| 0 <= i < key.len() ==> #[trigger] is_plain_key_char(key[i])
}

/// The JSON text `{"<key>":<n>}`: an object with one unsigned integer member.
pub open spec fn json_object_text(key: Seq<char>, n: u64) -> Seq<char> {
    "{\""@ + key + "\":"@ + decimal(n as nat) + "}"@
}

/// The JSON text carried inside a cursor: `{"offset":<offset>}`.
pub open spec fn cursor_payload(offset: u64) -> Seq<char> {
    json_object_text("offset"@, offset)
}

/// A character of the URL-safe base64 alphabet (`A-Z`, `a-z`, `0-9`, `-`, `_`).
pub open spec fn is_url_safe_base64_char(c: char) -> bool {
    ('A' <= c && c <= 'Z') || ('a' <= c && c <= 'z') || ('0' <= c && c <= '9') || c == '-' || c
        == '_'
}

/// The character of the URL-safe base64 alphabet for the six-bit value `v`.
pub open spec fn url_safe_digit(v: int) -> char {
    if v < 26 {
        ('A' as int + v) as char
    } else if v < 52 {
        ('a' as int + (v - 26)) as char
    } else if v < 62 {
        ('0' as int + (v - 52)) as char
    } else if v == 62 {
        '-'
    } else {
        '_'
    }
}

/// Unpadded URL-safe base64 (RFC 4648, section 5) of `data`: every three
/// bytes become four characters, a final two bytes three, a final byte two.
pub open spec fn base64_url_nopad_encode(data: Seq<u8>) -> Seq<char>
    decreases data.len(),
{
    if data.len() == 0 {
        Seq::empty()
    } else if data.len() == 1 {
        let a = data[0] as int;
        seq![url_safe_digit(a / 4), url_safe_digit((a % 4) * 16)]
    } else if data.len() == 2 {
        let a = data[0] as int;
        let b = data[1] as int;
        seq![url_safe_digit(a / 4), url_safe_digit((a % 4) * 16 + b / 16), url_safe_digit((b % 16) * 4)]
    } else {
        let a = data[0] as int;
        let b = data[1] as int;
        let c = data[2] as int;
        seq![
            url_safe_digit(a / 4),
            url_safe_digit((a % 4) * 16 + b / 16),
            url_safe_digit((b % 16) * 4 + c / 64),
            url_safe_digit(c % 64),
        ] + base64_url_nopad_encode(data.skip(3))
    }
}

/// Every character of an unpadded URL-safe base64 text is in the URL-safe
/// alphabet.
pub proof fn lemma_base64_url_safe(data: Seq<u8>)
    ensures
        forall|i: int|
            0 <= i < base64_url_nopad_encode(data).len() ==> #[trigger] is_url_safe_base64_char(
                base64_url_nopad_encode(data)[i],
            ),
    decreases data.len(),
{
    assert forall|v: int| 0 <= v < 64 implies #[trigger] is_url_safe_base64_char(url_safe_digit(v)) by {}
    if data.len() >= 3 {
        lemma_base64_url_safe(data.skip(3));
    }
    let e = base64_url_nopad_encode(data);
    assert forall|i: int| 0 <= i < e.len() implies #[trigger] is_url_safe_base64_char(e[i]) by {
        if data.len() >= 3 && i >= 4 {
            assert(e[i] == base64_url_nopad_encode(data.skip(3))[i - 4]);
        }
    }
}

/// What `URL_SAFE_NO_PAD.decode` of the base64 crate returns for `text`
/// (`None` where it reports a decode error).
pub uninterp spec fn base64_url_nopad_decode(text: Seq<char>) -> Option<Seq<u8>>;

/// `base64::engine::general_purpose::URL_SAFE_NO_PAD.encode`: the unpadded
/// URL-safe base64 text of `data`.
#[verifier::external_body]
fn base64_encode(data: &[u8]) -> (r: String)
    requires
        data@.len() <= 0x1000_0000,
    ensures
        r@ == base64_url_nopad_encode(data@),
{
    base64::engine::general_purpose::URL_SAFE_NO_PAD.encode(data)
}

/// `base64::engine::general_purpose::URL_SAFE_NO_PAD.decode`: the decoded
/// bytes, or `None` on a decode error. Text that this engine's `encode`
/// produced decodes back to the encoded bytes.
#[verifier::external_body]
fn base64_decode(text: &str) -> (r: Option<Vec<u8>>)
    ensures
        r is Some <==> base64_url_nopad_decode(text@) is Some,
        r matches Some(v) ==> v@ == base64_url_nopad_decode(text@)->0,
        r is None ==> forall|b: Seq<u8>| #[trigger] base64_url_nopad_encode(b) != text@,
        r matches Some(v) ==> forall|b: Seq<u8>|
            #[trigger] base64_url_nopad_encode(b) == text@ ==> v@ == b,
{
    base64::engine::general_purpose::URL_SAFE_NO_PAD.decode(text.as_bytes()).ok()
}

/// The wire text of the cursor for `offset`.
pub open spec fn cursor_text(offset: u64) -> Seq<char> {
    base64_url_nopad_encode(encode_utf8(cursor_payload(offset)))
}

/// Encodes a zero-based page offset as an opaque cursor string.
pub fn encode_cursor(offset: u64) -> (s: String)
    ensures
        s@ == cursor_text(offset),
        forall|i: int| 0 <= i < s@.len() ==> #[trigger] is_url_safe_base64_char(s@[i]),
{
    let mut json = String::from_str("{\"offset\":");
    push_decimal(&mut json, offset);
    json.append("}");
    let bytes = json.as_str().as_bytes();
    proof {
        lemma_decimal_len(offset as nat);
        lemma_encode_utf8_len(json@);
        reveal_strlit("{\"offset\":");
        reveal_strlit("{\"");
        reveal_strlit("offset");
        reveal_strlit("\":");
        reveal_strlit("}");
        assert(json@ =~= cursor_payload(offset));
        assert(json@.len() <= 31);
        lemma_base64_url_safe(bytes@);
    }
    base64_encode(bytes)
}

/// Message of the error for a cursor that is not valid base64.
pub open spec fn not_base64_message() -> Seq<char> {
    "invalid pagination cursor: not valid base64"@
}

/// Message of the error for a cursor whose payload is not `{"offset": <u64>}`.
pub open spec fn malformed_payload_message() -> Seq<char> {
    "invalid pagination cursor: payload is malformed"@
}

/// What `serde_json::from_slice::<Value>` parses from `bytes` (`None` on a
/// parse error).
pub uninterp spec fn json_value_of(bytes: Seq<u8>) -> Option<Value>;

/// What `Value::get` with a string key returns for `v`: the member `key` of
/// an object (`None` for a value that is no object, or lacks the member).
pub uninterp spec fn json_member_of(v: Value, key: Seq<char>) -> Option<Value>;

/// What `Value::as_u64` returns for `v`: the number, when `v` is an integer
/// that fits a `u64`.
pub uninterp spec fn json_u64_of(v: Value) -> Option<u64>;

/// `serde_json::from_slice::<Value>`: the JSON value in `bytes`, or `None`
/// on a parse error. The UTF-8 text `{"<key>":<n>}`, for a plain key and an
/// unsigned `n`, parses to an object whose member `key` is the integer `n`.
#[verifier::external_body]
fn json_parse(bytes: &[u8]) -> (r: Option<Value>)
    ensures
        r == json_value_of(bytes@),
        forall|key: Seq<char>, n: u64|
            is_plain_key(key) && #[trigger] encode_utf8(json_object_text(key, n)) == bytes@
                ==> r is Some && json_member_of(r->0, key) is Some && json_u64_of(
                json_member_of(r->0, key)->0,
            ) == Some(n),
{
    serde_json::from_slice(bytes).ok()
}

/// `Value::get` with a string key: the member `key` of the object `v`.
#[verifier::external_body]
fn json_get<'a>(v: &'a Value, key: &str) -> (r: Option<&'a Value>)
    ensures
        r is None <==> json_member_of(*v, key@) is None,
        r matches Some(m) ==> json_member_of(*v, key@) == Some(*m),
{
    v.get(key)
}

/// `Value::as_u64`: the number held by `v`, when it is an unsigned integer.
#[verifier::external_body]
fn json_as_u64(v: &Value) -> (r: Option<u64>)
    ensures
        r == json_u64_of(*v),
{
    v.as_u64()
}

/// The offset a cursor payload carries: the unsigned integer member `offset`
/// of the JSON object in `bytes`.
pub open spec fn payload_offset(bytes: Seq<u8>) -> Option<u64> {
    match json_value_of(bytes) {
        Some(v) => match json_member_of(v, "offset"@) {
            Some(m) => json_u64_of(m),
            None => None,
        },
        None => None,
    }
}

/// Decodes a cursor string back to its offset.
///
/// A cursor made by [`encode_cursor`] decodes to the offset it was made
/// from; text that is not base64 and payloads without an unsigned integer
/// `offset` member are refused with their messages. The payload is read as a
/// JSON value: a payload that is no object (such as the array `[5]`) has no
/// `offset` member and is malformed, and of an `offset` given twice the last
/// one counts.
pub fn decode_cursor(raw: &str) -> (r: Result<u64, &'static str>)
    ensures
        match base64_url_nopad_decode(raw@) {
            None => r matches Err(m) && m@ == not_base64_message(),
            Some(bytes) => match payload_offset(bytes) {
                Some(o) => r == Ok::<u64, &'static str>(o),
                None => r matches Err(m) && m@ == malformed_payload_message(),
            },
        },
        forall|o: u64| #[trigger] cursor_text(o) == raw@ ==> r == Ok::<u64, &'static str>(o),
{
    let bytes = match base64_decode(raw) {
        Some(v) => v,
        None => {
            let m = "invalid pagination cursor: not valid base64";
            proof {
                reveal_strlit("invalid pagination cursor: not valid base64");
            }
            return Err(m);
        },
    };
    let malformed = "invalid pagination cursor: payload is malformed";
    proof {
        reveal_strlit("invalid pagination cursor: payload is malformed");
    }
    let parsed = json_parse(bytes.as_slice());
    proof {
        reveal_strlit("offset");
        assert forall|o: u64| #[trigger] cursor_text(o) == raw@ implies payload_offset(bytes@)
            == Some(o) by {
            let key = "offset"@;
            assert(is_plain_key(key));
            assert(bytes@ == encode_utf8(cursor_payload(o)));
            assert(encode_utf8(json_object_text(key, o)) == bytes@);
        }
    }
    let value = match parsed {
        Some(v) => v,
        None => return Err(malformed),
    };
    let member = match json_get(&value, "offset") {
        Some(m) => m,
        None => return Err(malformed),
    };
    match json_as_u64(member) {
        Some(o) => Ok(o),
        None => Err(malformed),
    }
}

/// A UTF-8 encoding takes at most four bytes per character.
proof fn lemma_encode_utf8_len(chars: Seq<char>)
    ensures
        encode_utf8(chars).len() <= 4 * chars.len(),
    decreases chars.len(),
{
    if chars.len() > 0 {
        lemma_encode_utf8_len(chars.drop_first());
    }
}

/// Ten to the power `k`.
spec fn pow10(k: nat) -> nat
    decreases k,
{
    if k == 0 {
        1
    } else {
        10 * pow10((k - 1) as nat)
    }
}

/// A number below `10^k` has at most `k` decimal digits.
proof fn lemma_decimal_len_below(n: nat, k: nat)
    requires
        k >= 1,
        n < pow10(k),
    ensures
        decimal(n).len() <= k,
    decreases k,
{
    if n >= 10 {
        let k1 = (k - 1) as nat;
        assert(pow10(k) == 10 * pow10(k1));
        if k1 == 0 {
            assert(pow10(k1) == 1);
        }
        assert(n / 10 < pow10(k1)) by (nonlinear_arith)
            requires
                n < 10 * pow10(k1),
        ;
        lemma_decimal_len_below(n / 10, k1);
    }
}

/// The decimal rendering of a `u64` has at most 20 digits.
proof fn lemma_decimal_len(n: nat)
    requires
        n <= u64::MAX,
    ensures
        decimal(n).len() <= 20,
{
    reveal_with_fuel(pow10, 21);
    assert(pow10(20) == 100000000000000000000nat);
    lemma_decimal_len_below(n, 20);
}

} // verus!
