//! Opaque pagination cursors.
//!
//! A cursor serializes to a raw delimited string `<kind>||<field>...`, whose
//! base64 form is the opaque wire token. Two cursor kinds are built in: an
//! offset cursor (a position plus the page size at issuance) and a string
//! cursor (an opaque caller-supplied key). Decoding is variant-specific and
//! never panics; failures surface as [`CursorError`] values.

use vstd::prelude::*;

use crate::codec::decode_encoded;
use crate::codec::encode_raw;
use crate::codec::encoded_form;
use crate::codec::is_encoded;
use crate::cursor_errors::CursorError;
use crate::numerals::dec_str;
use crate::numerals::format_decimal;
use crate::numerals::is_digit;
use crate::numerals::lemma_dec_str_digits;
use crate::numerals::lemma_parse_dec_str;
use crate::numerals::parse_decimal;
use crate::numerals::parse_nonneg;
use crate::segments::delim;
use crate::segments::delim_free;
use crate::segments::is_delim_at;
use crate::segments::lemma_split_free;
use crate::segments::lemma_split_join;
use crate::segments::split_segments;
use crate::segments::split_spec;

verus! {

/// The kind tag of an offset cursor's raw form.
pub open spec fn offset_tag() -> Seq<char> {
    seq!['o', 'f', 'f', 's', 'e', 't']
}

/// The kind tag of a string cursor's raw form.
pub open spec fn string_tag() -> Seq<char> {
    seq!['s', 't', 'r', 'i', 'n', 'g']
}

/// A position in an ordered result set, serializable to an opaque token.
///
/// `CursorType` is the concrete type a decode produces, normally the
/// implementing type itself.
pub trait Cursor: Sized {
    type CursorType;

    /// The values this cursor may hold for serialization: encoding is total
    /// on well-formed cursors.
    spec fn well_formed(&self) -> bool;

    /// The raw delimited string form of this cursor.
    spec fn raw_spec(&self) -> Seq<char>;

    /// The exact relation between delimiter-split segments and the result of
    /// decoding them into this cursor kind.
    spec fn parse_ok(parts: Seq<Seq<char>>, r: Result<Self::CursorType, CursorError>) -> bool;

    /// Serializes the cursor into its raw delimited string.
    fn to_raw_string(&self) -> (r: String)
        requires
            self.well_formed(),
        ensures
            r@ == self.raw_spec(),
    ;

    /// Reconstructs a cursor from the delimiter-split segments of a raw
    /// string. Malformed segment lists are a decode error, not a panic.
    fn new(raw: &str, parts: &Vec<String>) -> (r: Result<Self::CursorType, CursorError>)
        ensures
            Self::parse_ok(parts.deep_view(), r),
    ;

    /// Builds the opaque wire token: base64 over the raw string.
    fn to_encoded_string(&self) -> (r: String)
        requires
            self.well_formed(),
        ensures
            r@ == encoded_form(self.raw_spec()),
    ;

    /// Decodes a wire token: base64-decode, validate UTF-8, split on the
    /// delimiter, then reconstruct the cursor from the segments.
    fn from_encoded_string(input: &str) -> (r: Result<Self::CursorType, CursorError>)
        ensures
            forall|raw: Seq<char>| input@ == encoded_form(raw) ==> Self::parse_ok(
                split_spec(raw),
                r,
            ),
            !is_encoded(input@) ==> (r matches Err(e) && (e == CursorError::Base64DecodeError
                || e == CursorError::Utf8DecodeError)),
    ;
}

/// Decodes a wire token into the cursor type given by the caller, e.g.
/// `cursor_from_encoded_string::<OffsetCursor>(token)`.
pub fn cursor_from_encoded_string<T: Cursor<CursorType = T>>(input: &str) -> (r: Result<
    T,
    CursorError,
>)
    ensures
        forall|raw: Seq<char>| input@ == encoded_form(raw) ==> T::parse_ok(split_spec(raw), r),
        !is_encoded(input@) ==> (r matches Err(e) && (e == CursorError::Base64DecodeError || e
            == CursorError::Utf8DecodeError)),
{
    T::from_encoded_string(input)
}

// ------------- OffsetCursor -------------

/// A simple offset-based cursor: the zero-based index of the item the cursor
/// points at, plus the page size at the time it was issued.
#[derive(Debug, Clone)]
pub struct OffsetCursor {
    /// The offset of the cursor (how many items to skip).
    pub offset: i32,

    /// The number of items to return.
    pub first: Option<i32>,
}

impl OffsetCursor {
    pub fn new(offset: i32, first: Option<i32>) -> (r: Self)
        ensures
            r.offset == offset,
            r.first == first,
    {
        OffsetCursor { offset, first }
    }
}

impl Default for OffsetCursor {
    /// The cursor at the start of the result set, with no page size.
    fn default() -> (r: Self)
        ensures
            r.offset == 0,
            r.first is None,
    {
        OffsetCursor { offset: 0, first: None }
    }
}

/// How delimiter-split segments decode into an offset cursor: exactly two or
/// three segments led by the kind tag; an unparsable offset deliberately
/// falls back to `0` and an unparsable page size to `None`, so a slightly
/// malformed token degrades instead of failing the whole query.
pub open spec fn offset_parse_spec(parts: Seq<Seq<char>>) -> Result<OffsetCursor, CursorError> {
    if parts.len() != 2 && parts.len() != 3 {
        Err(CursorError::InvalidCursor)
    } else if parts[0] != offset_tag() {
        Err(CursorError::InvalidCursor)
    } else {
        let offset = match parse_nonneg(parts[1]) {
            Some(v) => v,
            None => 0,
        };
        let first = if parts.len() == 2 {
            None
        } else {
            parse_nonneg(parts[2])
        };
        Ok(OffsetCursor { offset, first })
    }
}

/// Reconstructs an offset cursor from split segments, as
/// [`offset_parse_spec`] describes.
fn offset_from_parts(parts: &Vec<String>) -> (r: Result<OffsetCursor, CursorError>)
    ensures
        r == offset_parse_spec(parts.deep_view()),
{
    if !(parts.len() == 2 || parts.len() == 3) {
        return Err(CursorError::InvalidCursor);
    }
    let tag = "offset".to_owned();
    proof {
        reveal_strlit("offset");
        assert(tag@ =~= offset_tag());
        assert(parts.deep_view()[0] == parts@[0]@);
        assert(parts.deep_view()[1] == parts@[1]@);
    }
    if !(parts[0] == tag) {
        return Err(CursorError::InvalidCursor);
    }
    let offset = match parse_decimal(parts[1].as_str()) {
        Some(v) => v,
        None => 0,
    };
    let first = if parts.len() == 2 {
        None
    } else {
        proof {
            assert(parts.deep_view()[2] == parts@[2]@);
        }
        parse_decimal(parts[2].as_str())
    };
    Ok(OffsetCursor { offset, first })
}

impl Cursor for OffsetCursor {
    type CursorType = OffsetCursor;

    /// Both numeric fields are non-negative, as positions and page sizes
    /// are.
    open spec fn well_formed(&self) -> bool {
        &&& self.offset >= 0
        &&& match self.first {
            Some(f) => f >= 0,
            None => true,
        }
    }

    /// `offset||<offset>||<first>` when a page size is present, else
    /// `offset||<offset>`.
    open spec fn raw_spec(&self) -> Seq<char> {
        match self.first {
            Some(f) => offset_tag() + delim() + dec_str(self.offset as int) + delim() + dec_str(
                f as int,
            ),
            None => offset_tag() + delim() + dec_str(self.offset as int),
        }
    }

    open spec fn parse_ok(parts: Seq<Seq<char>>, r: Result<OffsetCursor, CursorError>) -> bool {
        r == offset_parse_spec(parts)
    }

    fn to_raw_string(&self) -> (r: String)
    {
        let mut r = "offset".to_owned();
        r.append("||");
        let off = format_decimal(self.offset);
        r.append(off.as_str());
        match self.first {
            Some(f) => {
                r.append("||");
                let fs = format_decimal(f);
                r.append(fs.as_str());
            },
            None => {},
        }
        proof {
            reveal_strlit("offset");
            reveal_strlit("||");
            assert(r@ =~= self.raw_spec());
        }
        r
    }

    fn new(raw: &str, parts: &Vec<String>) -> (r: Result<OffsetCursor, CursorError>)
    {
        offset_from_parts(parts)
    }

    fn to_encoded_string(&self) -> (r: String)
    {
        let raw = self.to_raw_string();
        encode_raw(raw.as_str())
    }

    fn from_encoded_string(input: &str) -> (r: Result<OffsetCursor, CursorError>)
    {
        match decode_encoded(input) {
            Ok(raw_string) => {
                let parts = split_segments(raw_string.as_str());
                let r = offset_from_parts(&parts);
                proof {
                    assert forall|raw: Seq<char>| input@ == encoded_form(raw) implies
                        Self::parse_ok(split_spec(raw), r) by {
                        assert(raw_string@ == raw);
                    }
                }
                r
            },
            Err(e) => Err(e),
        }
    }
}

/// The round trip for offset cursors: decoding the encoding of any well-formed offset
/// cursor yields that cursor back. Together with the contracts of
/// `to_encoded_string` and `from_encoded_string`, this states the round
/// trip `decode(encode(c)) == Ok(c)`.
pub proof fn lemma_offset_cursor_round_trip(c: OffsetCursor)
    requires
        c.well_formed(),
    ensures
        offset_parse_spec(split_spec(c.raw_spec())) == Ok::<OffsetCursor, CursorError>(c),
{
    let ds = dec_str(c.offset as int);
    lemma_dec_str_digits(c.offset as int);
    lemma_parse_dec_str(c.offset as int);
    lemma_tag_delim_free(offset_tag());
    lemma_digits_delim_free(ds);
    match c.first {
        None => {
            lemma_split_join(offset_tag(), ds);
            lemma_split_free(ds);
            let parts = split_spec(c.raw_spec());
            assert(parts =~= seq![offset_tag(), ds]);
        },
        Some(f) => {
            let fs = dec_str(f as int);
            lemma_dec_str_digits(f as int);
            lemma_parse_dec_str(f as int);
            lemma_digits_delim_free(fs);
            let rest = ds + delim() + fs;
            assert(c.raw_spec() =~= offset_tag() + delim() + rest);
            lemma_split_join(offset_tag(), rest);
            lemma_split_join(ds, fs);
            lemma_split_free(fs);
            let parts = split_spec(c.raw_spec());
            assert(parts =~= seq![offset_tag(), ds, fs]);
        },
    }
}

/// On well-formed offset cursors the raw string form is injective: a
/// caller that knows a cursor's raw form knows its fields.
pub proof fn lemma_offset_raw_injective(a: OffsetCursor, b: OffsetCursor)
    requires
        a.well_formed(),
        b.well_formed(),
        a.raw_spec() == b.raw_spec(),
    ensures
        a == b,
{
    lemma_offset_cursor_round_trip(a);
    lemma_offset_cursor_round_trip(b);
}

/// A run of decimal digits holds no delimiter and does not end in `|`.
proof fn lemma_digits_delim_free(s: Seq<char>)
    requires
        crate::numerals::all_digits(s),
    ensures
        delim_free(s),
        s.len() == 0 || s.last() != '|',
{
    assert forall|i: int| !is_delim_at(s, i) by {
        if 0 <= i && i + 2 <= s.len() {
            assert(is_digit(s[i]));
        }
    }
    if s.len() > 0 {
        assert(is_digit(s.last()));
    }
}

/// Both kind tags hold no delimiter and do not end in `|`.
proof fn lemma_tag_delim_free(t: Seq<char>)
    requires
        t == offset_tag() || t == string_tag(),
    ensures
        delim_free(t),
        t.last() != '|',
{
    assert forall|i: int| !is_delim_at(t, i) by {
        if 0 <= i && i + 2 <= t.len() {
            assert(t[i] != '|');
        }
    }
}

// ------------- StringCursor -------------

/// A cursor that is just an opaque string, e.g. a primary key or a NoSQL
/// continuation token.
#[derive(Debug, Clone)]
pub struct StringCursor {
    /// The value of the cursor.
    pub value: String,
}

impl StringCursor {
    pub fn new(value: String) -> (r: Self)
        ensures
            r.value == value,
    {
        StringCursor { value }
    }
}

impl Default for StringCursor {
    /// The empty-key cursor.
    fn default() -> (r: Self)
        ensures
            r.value@ == Seq::<char>::empty(),
    {
        StringCursor { value: String::new() }
    }
}

/// Reconstructs a string cursor from split segments: at least two segments
/// led by the kind tag, the second taken verbatim as the value.
fn string_from_parts(parts: &Vec<String>) -> (r: Result<StringCursor, CursorError>)
    ensures
        <StringCursor as Cursor>::parse_ok(parts.deep_view(), r),
{
    if parts.len() < 2 {
        return Err(CursorError::InvalidCursor);
    }
    let tag = "string".to_owned();
    proof {
        reveal_strlit("string");
        assert(tag@ =~= string_tag());
        assert(parts.deep_view()[0] == parts@[0]@);
        assert(parts.deep_view()[1] == parts@[1]@);
    }
    if !(parts[0] == tag) {
        return Err(CursorError::InvalidCursor);
    }
    let value = parts[1].clone();
    Ok(StringCursor { value })
}

impl Cursor for StringCursor {
    type CursorType = StringCursor;

    /// Every value is serializable (a value containing the delimiter still
    /// encodes, though it will not split back into itself).
    open spec fn well_formed(&self) -> bool {
        true
    }

    /// `string||<value>`.
    open spec fn raw_spec(&self) -> Seq<char> {
        string_tag() + delim() + self.value@
    }

    open spec fn parse_ok(parts: Seq<Seq<char>>, r: Result<StringCursor, CursorError>) -> bool {
        if parts.len() >= 2 && parts[0] == string_tag() {
            r matches Ok(c) && c.value@ == parts[1]
        } else {
            r == Err::<StringCursor, CursorError>(CursorError::InvalidCursor)
        }
    }

    fn to_raw_string(&self) -> (r: String)
    {
        let mut r = "string".to_owned();
        r.append("||");
        r.append(self.value.as_str());
        proof {
            reveal_strlit("string");
            reveal_strlit("||");
            assert(r@ =~= self.raw_spec());
        }
        r
    }

    fn new(raw: &str, parts: &Vec<String>) -> (r: Result<StringCursor, CursorError>)
    {
        string_from_parts(parts)
    }

    fn to_encoded_string(&self) -> (r: String)
    {
        let raw = self.to_raw_string();
        encode_raw(raw.as_str())
    }

    fn from_encoded_string(input: &str) -> (r: Result<StringCursor, CursorError>)
    {
        match decode_encoded(input) {
            Ok(raw_string) => {
                let parts = split_segments(raw_string.as_str());
                let r = string_from_parts(&parts);
                proof {
                    assert forall|raw: Seq<char>| input@ == encoded_form(raw) implies
                        Self::parse_ok(split_spec(raw), r) by {
                        assert(raw_string@ == raw);
                    }
                }
                r
            },
            Err(e) => Err(e),
        }
    }
}

/// The round trip for string cursors: the raw form of a cursor whose value holds no
/// delimiter splits back into exactly the kind tag and the value, so
/// decoding the encoding of such a cursor yields a cursor with the same
/// value. Together with the contracts of `to_encoded_string` and
/// `from_encoded_string`, this states the round trip; a value containing
/// `||` (e.g. `a||b`) is the one kind of input the round trip cannot
/// serve, since splitting cannot see where the value began.
pub proof fn lemma_string_cursor_round_trip(c: StringCursor)
    requires
        delim_free(c.value@),
    ensures
        split_spec(c.raw_spec()) == seq![string_tag(), c.value@],
        forall|r: Result<StringCursor, CursorError>|
            <StringCursor as Cursor>::parse_ok(split_spec(c.raw_spec()), r) ==> (r matches Ok(d)
                && d.value@ == c.value@),
{
    lemma_tag_delim_free(string_tag());
    lemma_split_join(string_tag(), c.value@);
    lemma_split_free(c.value@);
    assert(split_spec(c.raw_spec()) =~= seq![string_tag(), c.value@]);
}

} // verus!
