//! FITS header reader.
//!
//! FITS headers are 80-character ASCII records grouped in 2880-byte blocks.
//! Records before the data unit either look like `KEY     = VALUE / COMMENT`
//! (with VALUE quoted for strings) or are commentary cards (HISTORY, COMMENT,
//! blank key), kept with their raw text. The header ends at a record whose key
//! is `END`; data starts at the next 2880-byte boundary.

use vstd::prelude::*;
use vstd::utf8::{decode_utf8, valid_utf8};

use crate::text::{
    chars_eq, chars_of, decimal, decimal_int, parse_i64, parse_i64_spec, push_decimal,
    push_decimal_i64, push_str, trim_str, copy_range, skip_char_backward, skip_char_forward, skip_ws_backward,
    skip_ws_forward, string_of, trim, trim_char, trim_chars, trim_end, trim_start, trim_start_char,
    utf8_range,
};

verus! {

/// Bytes per header block.
pub const FITS_BLOCK: usize = 2880;

/// Bytes per header record.
pub const FITS_RECORD: usize = 80;

/// Value/comment cards beyond this count without an `END` are refused.
pub const MAX_CARDS: usize = 1024;

/// One header card: trimmed key, unquoted value and comment text.
#[derive(Clone, Debug)]
pub struct FitsCard {
    pub key: String,
    pub value: String,
    pub comment: String,
}

/// The contents of a [`FitsCard`].
pub struct CardView {
    pub key: Seq<char>,
    pub value: Seq<char>,
    pub comment: Seq<char>,
}

impl View for FitsCard {
    type V = CardView;

    open spec fn view(&self) -> CardView {
        CardView { key: self.key@, value: self.value@, comment: self.comment@ }
    }
}

/// The contents of a list of cards.
pub open spec fn cards_view(v: Seq<FitsCard>) -> Seq<CardView> {
    v.map_values(|c: FitsCard| c@)
}

/// Why a header could not be read.
#[derive(Clone, Debug)]
pub enum FitsError {
    /// Fewer bytes than one record.
    TooShort,
    /// A record's key columns are not valid UTF-8; carries the decoder's message.
    KeyNotUtf8(String),
    /// More than [`MAX_CARDS`] value cards were read without an `END`.
    TooLong,
    /// The records ran out before an `END` card.
    NoEnd,
}

/// The kind of a [`FitsError`], without its message.
pub enum FitsErrorKind {
    TooShort,
    KeyNotUtf8,
    TooLong,
    NoEnd,
}

impl FitsError {
    pub open spec fn kind(&self) -> FitsErrorKind {
        match self {
            FitsError::TooShort => FitsErrorKind::TooShort,
            FitsError::KeyNotUtf8(_) => FitsErrorKind::KeyNotUtf8,
            FitsError::TooLong => FitsErrorKind::TooLong,
            FitsError::NoEnd => FitsErrorKind::NoEnd,
        }
    }

    /// The error text the header reader reports.
    pub fn message(&self) -> (r: String)
        ensures
            self.kind() == FitsErrorKind::TooShort ==> r@ == "file too short"@,
            self.kind() == FitsErrorKind::TooLong ==> r@ == "header too long, no END"@,
            self.kind() == FitsErrorKind::NoEnd ==> r@ == "no END card"@,
            self matches FitsError::KeyNotUtf8(m) ==> r@ == m@,
    {
        match self {
            FitsError::TooShort => String::from_str("file too short"),
            FitsError::KeyNotUtf8(m) => m.clone(),
            FitsError::TooLong => String::from_str("header too long, no END"),
            FitsError::NoEnd => String::from_str("no END card"),
        }
    }
}

// ── Specification ────────────────────────────────────────────────────────────

/// The UTF-8 text of `b`, or nothing when `b` is not valid UTF-8.
pub open spec fn text_or_empty(b: Seq<u8>) -> Seq<char> {
    if valid_utf8(b) {
        decode_utf8(b)
    } else {
        seq![]
    }
}

/// The key that ends the header.
pub open spec fn end_key() -> Seq<char> {
    seq!['E', 'N', 'D']
}

/// Keys whose cards carry free text rather than a value.
pub open spec fn is_commentary_key(k: Seq<char>) -> bool {
    k.len() == 0 || k == seq!['H', 'I', 'S', 'T', 'O', 'R', 'Y'] || k == seq![
        'C',
        'O',
        'M',
        'M',
        'E',
        'N',
        'T',
    ]
}

/// First index `>= j` of `c` in `s`.
pub open spec fn find_from(s: Seq<char>, c: char, j: int) -> Option<int>
    decreases s.len() - j,
{
    if j < 0 || j >= s.len() {
        None
    } else if s[j] == c {
        Some(j)
    } else {
        find_from(s, c, j + 1)
    }
}

/// Scanning a quoted string from index `j`, the index just past its closing
/// quote; a doubled quote `''` stands for one quote inside the string.
pub open spec fn closing_quote(s: Seq<char>, j: int) -> Option<int>
    decreases s.len() - j,
{
    if j < 0 || j >= s.len() {
        None
    } else if s[j] == '\'' {
        if j + 1 < s.len() && s[j + 1] == '\'' {
            closing_quote(s, j + 2)
        } else {
            Some(j + 1)
        }
    } else {
        closing_quote(s, j + 1)
    }
}

/// Splits a card body into its value part and its comment part (the comment
/// keeps its leading `/`). A quoted value may contain `/`.
pub open spec fn split_value_comment_spec(s0: Seq<char>) -> (Seq<char>, Seq<char>) {
    let s = trim_start(s0);
    let quoted = if s.len() > 0 && s[0] == '\'' {
        closing_quote(s, 1)
    } else {
        None
    };
    match quoted {
        Some(e) => match find_from(s, '/', e) {
            Some(k) => (s.subrange(0, e), s.subrange(k, s.len() as int)),
            None => (s.subrange(0, e), seq![]),
        },
        None => match find_from(s, '/', 0) {
            Some(k) => (s.subrange(0, k), s.subrange(k, s.len() as int)),
            None => (s, seq![]),
        },
    }
}

/// What one 80-byte record contributes to the header.
pub enum RecordKind {
    End,
    Card(CardView),
    BadKey,
}

/// Reads one record: its key is columns 1–8, a value card's body starts at
/// column 11, and a commentary card's text at column 9.
pub open spec fn record_kind(rec: Seq<u8>) -> RecordKind {
    let kb = rec.subrange(0, 8);
    if !valid_utf8(kb) {
        RecordKind::BadKey
    } else {
        let key = trim(decode_utf8(kb));
        if key == end_key() {
            RecordKind::End
        } else if is_commentary_key(key) {
            RecordKind::Card(
                CardView { key, value: trim_end(text_or_empty(rec.subrange(8, 80))), comment: seq![] },
            )
        } else {
            let body = trim_end(text_or_empty(rec.subrange(10, 80)));
            let (v, c) = split_value_comment_spec(body);
            RecordKind::Card(
                CardView {
                    key,
                    value: trim(trim_char(trim(v), '\'')),
                    comment: trim(trim_start_char(c, '/')),
                },
            )
        }
    }
}

/// Reads records from byte offset `i` on, having collected `rows` so far.
pub open spec fn header_from(bytes: Seq<u8>, i: int, rows: Seq<CardView>) -> Result<
    Seq<CardView>,
    FitsErrorKind,
>
    decreases bytes.len() - i,
{
    if i < 0 || i + 80 > bytes.len() {
        Err(FitsErrorKind::NoEnd)
    } else {
        match record_kind(bytes.subrange(i, i + 80)) {
            RecordKind::BadKey => Err(FitsErrorKind::KeyNotUtf8),
            RecordKind::End => Ok(rows),
            RecordKind::Card(c) => {
                let more = rows.push(c);
                if !is_commentary_key(c.key) && more.len() > 1024 {
                    Err(FitsErrorKind::TooLong)
                } else {
                    header_from(bytes, i + 80, more)
                }
            },
        }
    }
}

/// The cards of a FITS header, up to its `END` record.
pub open spec fn fits_header(bytes: Seq<u8>) -> Result<Seq<CardView>, FitsErrorKind> {
    if bytes.len() < 80 {
        Err(FitsErrorKind::TooShort)
    } else {
        header_from(bytes, 0, seq![])
    }
}

// ── Value / comment split ────────────────────────────────────────────────────

fn find_char_from(s: &Vec<char>, c: char, j: usize) -> (r: Option<usize>)
    requires
        j <= s@.len(),
    ensures
        r matches Some(k) ==> k < s@.len() && find_from(s@, c, j as int) == Some(k as int),
        r is None ==> find_from(s@, c, j as int) is None,
{
    let mut k = j;
    while k < s.len()
        invariant
            j <= k <= s@.len(),
            find_from(s@, c, j as int) == find_from(s@, c, k as int),
        decreases s.len() - k,
    {
        if s[k] == c {
            return Some(k);
        }
        k += 1;
    }
    None
}

fn closing_quote_exec(s: &Vec<char>) -> (r: Option<usize>)
    requires
        s@.len() >= 1,
    ensures
        r matches Some(e) ==> e <= s@.len() && closing_quote(s@, 1) == Some(e as int),
        r is None ==> closing_quote(s@, 1) is None,
{
    let mut j: usize = 1;
    while j < s.len()
        invariant
            1 <= j <= s@.len(),
            closing_quote(s@, 1) == closing_quote(s@, j as int),
        decreases s.len() - j,
    {
        if s[j] == '\'' {
            if j + 1 < s.len() && s[j + 1] == '\'' {
                j += 2;
            } else {
                return Some(j + 1);
            }
        } else {
            j += 1;
        }
    }
    None
}

/// Splits a card body into value and comment character runs.
pub fn split_value_comment_chars(s0: &Vec<char>) -> (r: (Vec<char>, Vec<char>))
    ensures
        r.0@ == split_value_comment_spec(s0@).0,
        r.1@ == split_value_comment_spec(s0@).1,
{
    let a = skip_ws_forward(s0, 0, s0.len());
    assert(s0@.subrange(0, s0@.len() as int) =~= s0@);
    let s = copy_range(s0, a, s0.len());
    let quoted = if s.len() > 0 && s[0] == '\'' {
        closing_quote_exec(&s)
    } else {
        None
    };
    match quoted {
        Some(e) => match find_char_from(&s, '/', e) {
            Some(k) => (copy_range(&s, 0, e), copy_range(&s, k, s.len())),
            None => (copy_range(&s, 0, e), Vec::new()),
        },
        None => match find_char_from(&s, '/', 0) {
            Some(k) => (copy_range(&s, 0, k), copy_range(&s, k, s.len())),
            None => {
                assert(s@.subrange(0, s@.len() as int) =~= s@);
                (copy_range(&s, 0, s.len()), Vec::new())
            },
        },
    }
}

/// Splits a card body (`VALUE / COMMENT`) into its value part and its comment
/// part, the comment keeping its leading `/`.
pub fn split_value_comment(s: &str) -> (r: (String, String))
    ensures
        r.0@ == split_value_comment_spec(s@).0,
        r.1@ == split_value_comment_spec(s@).1,
{
    let v = chars_of(s);
    let (a, b) = split_value_comment_chars(&v);
    (string_of(a.as_slice()), string_of(b.as_slice()))
}

// ── Record reader ────────────────────────────────────────────────────────────

fn trim_char_chars(v: &Vec<char>, k: char) -> (r: Vec<char>)
    ensures
        r@ == trim_char(v@, k),
{
    let a = skip_char_forward(v, 0, v.len(), k);
    let b = skip_char_backward(v, a, v.len(), k);
    assert(v@.subrange(0, v@.len() as int) =~= v@);
    copy_range(v, a, b)
}

fn trim_start_char_chars(v: &Vec<char>, k: char) -> (r: Vec<char>)
    ensures
        r@ == trim_start_char(v@, k),
{
    let a = skip_char_forward(v, 0, v.len(), k);
    assert(v@.subrange(0, v@.len() as int) =~= v@);
    copy_range(v, a, v.len())
}

fn trim_end_chars(v: &Vec<char>) -> (r: Vec<char>)
    ensures
        r@ == trim_end(v@),
{
    let b = skip_ws_backward(v, 0, v.len());
    assert(v@.subrange(0, v@.len() as int) =~= v@);
    copy_range(v, 0, b)
}

fn decode_or_empty(b: &[u8], lo: usize, hi: usize) -> (r: Vec<char>)
    requires
        lo <= hi <= b@.len(),
    ensures
        r@ == text_or_empty(b@.subrange(lo as int, hi as int)),
{
    match utf8_range(b, lo, hi) {
        Ok(v) => v,
        Err(_) => Vec::new(),
    }
}

fn is_commentary_key_exec(k: &Vec<char>) -> (r: bool)
    ensures
        r == is_commentary_key(k@),
{
    let h = vec!['H', 'I', 'S', 'T', 'O', 'R', 'Y'];
    let c = vec!['C', 'O', 'M', 'M', 'E', 'N', 'T'];
    k.len() == 0 || chars_eq(k, &h) || chars_eq(k, &c)
}

/// Reads the record at byte offset `i`: `Ok(None)` for `END`, `Ok(Some(card))`
/// for a card, `Err(message)` when its key is not UTF-8.
fn read_record(bytes: &[u8], i: usize) -> (r: Result<Option<FitsCard>, String>)
    requires
        i + 80 <= bytes.len(),
    ensures
        match record_kind(bytes@.subrange(i as int, i + 80)) {
            RecordKind::BadKey => r is Err,
            RecordKind::End => r matches Ok(None),
            RecordKind::Card(c) => r matches Ok(Some(card)) && card@ == c,
        },
{
    let ghost rec = bytes@.subrange(i as int, i + 80);
    proof {
        assert(rec.subrange(0, 8) =~= bytes@.subrange(i as int, i + 8));
        assert(rec.subrange(8, 80) =~= bytes@.subrange(i + 8, i + 80));
        assert(rec.subrange(10, 80) =~= bytes@.subrange(i + 10, i + 80));
    }
    let kraw = match utf8_range(bytes, i, i + 8) {
        Ok(v) => v,
        Err(e) => {
            return Err(e);
        },
    };
    let key = trim_chars(&kraw);
    let endk = vec!['E', 'N', 'D'];
    if chars_eq(&key, &endk) {
        return Ok(None);
    }
    if is_commentary_key_exec(&key) {
        let text = decode_or_empty(bytes, i + 8, i + 80);
        let text = trim_end_chars(&text);
        let card = FitsCard { key: string_of(key.as_slice()), value: string_of(text.as_slice()), comment: String::new() };
        proof {
            assert(card@.comment =~= seq![]);
        }
        return Ok(Some(card));
    }
    let body = decode_or_empty(bytes, i + 10, i + 80);
    let body = trim_end_chars(&body);
    let (v, c) = split_value_comment_chars(&body);
    let v1 = trim_chars(&v);
    let v2 = trim_char_chars(&v1, '\'');
    let v3 = trim_chars(&v2);
    let c1 = trim_start_char_chars(&c, '/');
    let c2 = trim_chars(&c1);
    Ok(
        Some(
            FitsCard {
                key: string_of(key.as_slice()),
                value: string_of(v3.as_slice()),
                comment: string_of(c2.as_slice()),
            },
        ),
    )
}

/// Reads the header cards of a FITS file, stopping at the `END` record.
pub fn read_fits_header(bytes: &[u8]) -> (r: Result<Vec<FitsCard>, FitsError>)
    ensures
        match fits_header(bytes@) {
            Ok(rows) => r matches Ok(v) && cards_view(v@) == rows,
            Err(k) => r matches Err(e) && e.kind() == k,
        },
{
    if bytes.len() < FITS_RECORD {
        return Err(FitsError::TooShort);
    }
    let mut rows: Vec<FitsCard> = Vec::new();
    let mut i: usize = 0;
    assert(cards_view(rows@) =~= seq![]);
    while i <= bytes.len() - FITS_RECORD
        invariant
            bytes@.len() >= 80,
            i <= bytes.len(),
            fits_header(bytes@) == header_from(bytes@, i as int, cards_view(rows@)),
        decreases bytes.len() - i,
    {
        match read_record(bytes, i) {
            Err(e) => {
                return Err(FitsError::KeyNotUtf8(e));
            },
            Ok(None) => {
                return Ok(rows);
            },
            Ok(Some(card)) => {
                let commentary = {
                    let kv = chars_of(card.key.as_str());
                    is_commentary_key_exec(&kv)
                };
                let ghost before = rows@;
                rows.push(card);
                proof {
                    assert(cards_view(rows@) =~= cards_view(before).push(rows@.last()@));
                }
                i += FITS_RECORD;
                if !commentary && rows.len() > MAX_CARDS {
                    return Err(FitsError::TooLong);
                }
            },
        }
    }
    Err(FitsError::NoEnd)
}

/// Reads the header cards of a FITS file; errors are reported as text.
pub fn parse_fits_header(bytes: &[u8]) -> (r: Result<Vec<FitsCard>, String>)
    ensures
        match fits_header(bytes@) {
            Ok(rows) => r matches Ok(v) && cards_view(v@) == rows,
            Err(FitsErrorKind::TooShort) => r matches Err(m) && m@ == "file too short"@,
            Err(FitsErrorKind::TooLong) => r matches Err(m) && m@ == "header too long, no END"@,
            Err(FitsErrorKind::NoEnd) => r matches Err(m) && m@ == "no END card"@,
            Err(FitsErrorKind::KeyNotUtf8) => r is Err,
        },
{
    match read_fits_header(bytes) {
        Ok(v) => Ok(v),
        Err(e) => Err(e.message()),
    }
}

// ── Lookups ──────────────────────────────────────────────────────────────────

/// Index of the first card at or after `j` whose key is `key`.
pub open spec fn first_with_key(rows: Seq<CardView>, key: Seq<char>, j: int) -> Option<int>
    decreases rows.len() - j,
{
    if j < 0 || j >= rows.len() {
        None
    } else if rows[j].key == key {
        Some(j)
    } else {
        first_with_key(rows, key, j + 1)
    }
}

/// The value of the first card whose key is `key`.
pub open spec fn header_value(rows: Seq<CardView>, key: Seq<char>) -> Option<Seq<char>> {
    match first_with_key(rows, key, 0) {
        Some(i) => Some(rows[i].value),
        None => None,
    }
}

/// The value of the first card whose key is `key`.
pub fn header_get<'a>(rows: &'a [FitsCard], key: &str) -> (r: Option<&'a str>)
    ensures
        match header_value(cards_view(rows@), key@) {
            Some(v) => r matches Some(s) && s@ == v,
            None => r is None,
        },
{
    let kv = chars_of(key);
    let mut i: usize = 0;
    while i < rows.len()
        invariant
            i <= rows@.len(),
            kv@ == key@,
            first_with_key(cards_view(rows@), key@, 0) == first_with_key(
                cards_view(rows@),
                key@,
                i as int,
            ),
        decreases rows.len() - i,
    {
        let rk = chars_of(rows[i].key.as_str());
        if chars_eq(&rk, &kv) {
            return Some(rows[i].value.as_str());
        }
        i += 1;
    }
    None
}

/// The first card value for `key`, trimmed and read as an `i64`.
pub open spec fn header_i64_spec(rows: Seq<CardView>, key: Seq<char>) -> Option<i64> {
    match header_value(rows, key) {
        Some(v) => parse_i64_spec(trim(v)),
        None => None,
    }
}

/// The first card value for `key`, trimmed and read as an `i64`.
pub fn header_i64(rows: &[FitsCard], key: &str) -> (r: Option<i64>)
    ensures
        r == header_i64_spec(cards_view(rows@), key@),
{
    match header_get(rows, key) {
        Some(v) => {
            let t = trim_str(v);
            parse_i64(t.as_str())
        },
        None => None,
    }
}

/// Whether `key` names a card in `rows`.
pub open spec fn has_key(rows: Seq<CardView>, key: Seq<char>) -> bool {
    exists|i: int| 0 <= i < rows.len() && #[trigger] rows[i].key == key
}

/// Whether some card has the key `key`.
pub fn header_has(rows: &[FitsCard], key: &str) -> (r: bool)
    ensures
        r == has_key(cards_view(rows@), key@),
{
    let kv = chars_of(key);
    let mut i: usize = 0;
    while i < rows.len()
        invariant
            i <= rows@.len(),
            kv@ == key@,
            forall|j: int| 0 <= j < i ==> #[trigger] cards_view(rows@)[j].key != key@,
        decreases rows.len() - i,
    {
        let rk = chars_of(rows[i].key.as_str());
        if chars_eq(&rk, &kv) {
            assert(cards_view(rows@)[i as int].key == key@);
            return true;
        }
        i += 1;
    }
    false
}

// ── Locating the data unit ───────────────────────────────────────────────────

/// Whether the record at offset `i` starts with `END` followed by five spaces.
pub open spec fn is_end_record(b: Seq<u8>, i: int) -> bool {
    &&& b[i] == 69u8
    &&& b[i + 1] == 78u8
    &&& b[i + 2] == 68u8
    &&& forall|j: int| 3 <= j < 8 ==> #[trigger] b[i + j] == 32u8
}

/// Searching from record offset `i`, the offset just past the `END` record;
/// the search gives up past 64 blocks.
pub open spec fn end_search(b: Seq<u8>, i: int) -> Option<int>
    decreases b.len() - i,
{
    if i < 0 || i + 80 > b.len() {
        None
    } else if is_end_record(b, i) {
        Some(i + 80)
    } else if i + 80 > 64 * 2880 {
        None
    } else {
        end_search(b, i + 80)
    }
}

/// The byte offset just past the `END` record, or `"no END"`.
pub fn find_header_end(bytes: &[u8]) -> (r: Result<usize, String>)
    ensures
        match end_search(bytes@, 0) {
            Some(n) => r matches Ok(k) && k == n,
            None => r matches Err(m) && m@ == "no END"@,
        },
{
    if bytes.len() < FITS_RECORD {
        return Err(String::from_str("no END"));
    }
    let mut i: usize = 0;
    while i <= bytes.len() - FITS_RECORD
        invariant
            bytes@.len() >= 80,
            i <= bytes.len(),
            i <= 64 * 2880 + 80,
            end_search(bytes@, 0) == end_search(bytes@, i as int),
        decreases bytes.len() - i,
    {
        if bytes[i] == 69u8 && bytes[i + 1] == 78u8 && bytes[i + 2] == 68u8 && bytes[i + 3] == 32u8
            && bytes[i + 4] == 32u8 && bytes[i + 5] == 32u8 && bytes[i + 6] == 32u8 && bytes[i
            + 7] == 32u8 {
            assert(is_end_record(bytes@, i as int)) by {
                assert forall|j: int| 3 <= j < 8 implies #[trigger] bytes@[i + j] == 32u8 by {
                    assert(j == 3 || j == 4 || j == 5 || j == 6 || j == 7);
                }
            }
            return Ok(i + FITS_RECORD);
        }
        proof {
            if is_end_record(bytes@, i as int) {
                assert(bytes@[i + 3] == 32u8);
                assert(bytes@[i + 4] == 32u8);
                assert(bytes@[i + 5] == 32u8);
                assert(bytes@[i + 6] == 32u8);
                assert(bytes@[i + 7] == 32u8);
            }
        }
        i += FITS_RECORD;
        if i > 64 * FITS_BLOCK {
            return Err(String::from_str("no END"));
        }
    }
    Err(String::from_str("no END"))
}

/// The offset of the data unit: `header_end` rounded up to whole blocks.
pub open spec fn data_offset(header_end: int) -> int {
    ((header_end + 2880 - 1) / 2880) * 2880
}

// ── Image layout ─────────────────────────────────────────────────────────────

/// Where the pixels of the primary image lie.
#[derive(Clone, Copy, Debug, PartialEq, Eq)]
pub struct FitsLayout {
    /// Bits per pixel as declared (8, 16, 32 integers; -32, -64 floats).
    pub bitpix: i64,
    pub width: u64,
    pub height: u64,
    /// First byte of the data unit.
    pub data_start: usize,
    /// One past the last byte of the primary image plane.
    pub data_end: usize,
}

/// Why the primary image could not be located.
#[derive(Clone, Debug)]
pub enum LayoutError {
    Header(String),
    MissingBitpix,
    NotImage,
    MissingNaxis1,
    MissingNaxis2,
    NoEnd,
    /// The file is shorter than the image needs; `need` is `None` when the
    /// needed length does not even fit in 64 bits.
    Truncated { need: Option<u64>, have: u64 },
    Unsupported(i64),
}

/// The kind of a [`LayoutError`].
pub enum LayoutErrorKind {
    Header,
    MissingBitpix,
    NotImage,
    MissingNaxis1,
    MissingNaxis2,
    NoEnd,
    Truncated,
    Unsupported,
}

impl LayoutError {
    pub open spec fn kind(&self) -> LayoutErrorKind {
        match self {
            LayoutError::Header(_) => LayoutErrorKind::Header,
            LayoutError::MissingBitpix => LayoutErrorKind::MissingBitpix,
            LayoutError::NotImage => LayoutErrorKind::NotImage,
            LayoutError::MissingNaxis1 => LayoutErrorKind::MissingNaxis1,
            LayoutError::MissingNaxis2 => LayoutErrorKind::MissingNaxis2,
            LayoutError::NoEnd => LayoutErrorKind::NoEnd,
            LayoutError::Truncated { .. } => LayoutErrorKind::Truncated,
            LayoutError::Unsupported(_) => LayoutErrorKind::Unsupported,
        }
    }
}

/// Whether a `BITPIX` value is one the image decoder handles.
pub open spec fn supported_bitpix(b: i64) -> bool {
    b == 8 || b == 16 || b == 32 || b == -32 || b == -64
}

/// Bytes per pixel for a `BITPIX` value: `|BITPIX| / 8`.
pub open spec fn bytes_per_pixel(b: i64) -> nat {
    (if b < 0 {
        -(b as int)
    } else {
        b as int
    }) as nat / 8
}

/// What the primary image layout is, given its header cards.
pub open spec fn layout_of(bytes: Seq<u8>, rows: Seq<CardView>) -> Result<FitsLayout, LayoutErrorKind> {
    match header_i64_spec(rows, "BITPIX"@) {
        None => Err(LayoutErrorKind::MissingBitpix),
        Some(bitpix) => {
            let naxis = match header_i64_spec(rows, "NAXIS"@) {
                Some(n) => n,
                None => 0,
            };
            if naxis < 2 {
                Err(LayoutErrorKind::NotImage)
            } else {
                match (header_i64_spec(rows, "NAXIS1"@), header_i64_spec(rows, "NAXIS2"@)) {
                    (None, _) => Err(LayoutErrorKind::MissingNaxis1),
                    (Some(_), None) => Err(LayoutErrorKind::MissingNaxis2),
                    (Some(n1), Some(n2)) => match end_search(bytes, 0) {
                        None => Err(LayoutErrorKind::NoEnd),
                        Some(hend) => {
                            let w = n1 as u64;
                            let h = n2 as u64;
                            let start = data_offset(hend);
                            let need = start + w * h * bytes_per_pixel(bitpix);
                            if bytes.len() < need {
                                Err(LayoutErrorKind::Truncated)
                            } else if !supported_bitpix(bitpix) {
                                Err(LayoutErrorKind::Unsupported)
                            } else {
                                Ok(
                                    FitsLayout {
                                        bitpix,
                                        width: w,
                                        height: h,
                                        data_start: start as usize,
                                        data_end: need as usize,
                                    },
                                )
                            }
                        },
                    },
                }
            }
        },
    }
}

/// The layout of the primary image of a FITS file.
pub open spec fn fits_layout(bytes: Seq<u8>) -> Result<FitsLayout, LayoutErrorKind> {
    match fits_header(bytes) {
        Err(_) => Err(LayoutErrorKind::Header),
        Ok(rows) => layout_of(bytes, rows),
    }
}

fn abs_i64(x: i64) -> (r: u64)
    ensures
        r == (if x < 0 {
            -(x as int)
        } else {
            x as int
        }),
{
    if x >= 0 {
        x as u64
    } else if x == i64::MIN {
        0x8000_0000_0000_0000
    } else {
        (-x) as u64
    }
}

/// Locates the primary image of a FITS file: reads the header, checks the
/// axes, finds the data unit and checks that the whole plane is present.
pub fn image_layout(bytes: &[u8]) -> (r: Result<FitsLayout, LayoutError>)
    ensures
        match fits_layout(bytes@) {
            Ok(l) => r == Ok::<FitsLayout, LayoutError>(l),
            Err(k) => r matches Err(e) && e.kind() == k,
        },
{
    let rows = match parse_fits_header(bytes) {
        Ok(v) => v,
        Err(m) => {
            return Err(LayoutError::Header(m));
        },
    };
    let bitpix = match header_i64(rows.as_slice(), "BITPIX") {
        Some(b) => b,
        None => {
            return Err(LayoutError::MissingBitpix);
        },
    };
    let naxis = match header_i64(rows.as_slice(), "NAXIS") {
        Some(n) => n,
        None => 0,
    };
    if naxis < 2 {
        return Err(LayoutError::NotImage);
    }
    let n1 = match header_i64(rows.as_slice(), "NAXIS1") {
        Some(n) => n,
        None => {
            return Err(LayoutError::MissingNaxis1);
        },
    };
    let n2 = match header_i64(rows.as_slice(), "NAXIS2") {
        Some(n) => n,
        None => {
            return Err(LayoutError::MissingNaxis2);
        },
    };
    let hend = match find_header_end(bytes) {
        Ok(n) => n,
        Err(_) => {
            return Err(LayoutError::NoEnd);
        },
    };
    let w = #[verifier::truncate] (n1 as u64);
    let h = #[verifier::truncate] (n2 as u64);
    assert(hend <= 64 * 2880 + 80) by {
        lemma_end_search_bound(bytes@, 0);
    }
    assert(w * h <= 0xffff_ffff_ffff_ffffu128 * 0xffff_ffff_ffff_ffffu128) by (nonlinear_arith)
        requires
            w <= 0xffff_ffff_ffff_ffffu64,
            h <= 0xffff_ffff_ffff_ffffu64,
    ;
    let start: usize = ((hend + FITS_BLOCK - 1) / FITS_BLOCK) * FITS_BLOCK;
    let bpp: u64 = abs_i64(bitpix) / 8;
    let plane: u128 = (w as u128) * (h as u128);
    assert((w as u128) * (h as u128) == w * h) by (nonlinear_arith);
    let have = bytes.len() as u64;
    let need: Option<u64> = match plane.checked_mul(bpp as u128) {
        Some(p) => {
            if p <= 0xffff_ffff_ffff_ffff - (start as u128) {
                Some((p + start as u128) as u64)
            } else {
                None
            }
        },
        None => None,
    };
    match need {
        Some(n) => {
            if have < n {
                return Err(LayoutError::Truncated { need: Some(n), have });
            }
        },
        None => {
            return Err(LayoutError::Truncated { need: None, have });
        },
    }
    let n = need.unwrap();
    if !(bitpix == 8 || bitpix == 16 || bitpix == 32 || bitpix == -32 || bitpix == -64) {
        return Err(LayoutError::Unsupported(bitpix));
    }
    Ok(FitsLayout { bitpix, width: w, height: h, data_start: start, data_end: n as usize })
}

/// The `END` search never reports an offset past 64 blocks and a record.
pub proof fn lemma_end_search_bound(b: Seq<u8>, i: int)
    requires
        0 <= i <= 64 * 2880,
    ensures
        end_search(b, i) matches Some(n) ==> n <= 64 * 2880 + 80,
    decreases b.len() - i,
{
    if i + 80 <= b.len() && !is_end_record(b, i) && i + 80 <= 64 * 2880 {
        lemma_end_search_bound(b, i + 80);
    }
}

/// Text of a layout error, as the thumbnail and preview endpoints log it.
pub fn layout_error_message(e: &LayoutError) -> (r: String)
    ensures
        e matches LayoutError::Header(m) ==> r@ == m@,
        e is MissingBitpix ==> r@ == "missing BITPIX"@,
        e is NotImage ==> r@ == "not a 2D image"@,
        e is MissingNaxis1 ==> r@ == "missing NAXIS1"@,
        e is MissingNaxis2 ==> r@ == "missing NAXIS2"@,
        e is NoEnd ==> r@ == "no END"@,
        e matches LayoutError::Truncated { need: Some(n), have } ==> r@ == "truncated: need "@
            + decimal(n as nat) + " have "@ + decimal(have as nat),
        e matches LayoutError::Unsupported(b) ==> r@ == "unsupported BITPIX "@ + decimal_int(
            b as int,
        ),
{
    match e {
        LayoutError::Header(m) => m.clone(),
        LayoutError::MissingBitpix => String::from_str("missing BITPIX"),
        LayoutError::NotImage => String::from_str("not a 2D image"),
        LayoutError::MissingNaxis1 => String::from_str("missing NAXIS1"),
        LayoutError::MissingNaxis2 => String::from_str("missing NAXIS2"),
        LayoutError::NoEnd => String::from_str("no END"),
        LayoutError::Truncated { need, have } => {
            let mut v: Vec<char> = Vec::new();
            match need {
                Some(n) => {
                    push_str(&mut v, "truncated: need ");
                    push_decimal(&mut v, *n);
                },
                None => {
                    push_str(&mut v, "truncated: need more than ");
                    push_decimal(&mut v, 0xffff_ffff_ffff_ffff);
                },
            }
            push_str(&mut v, " have ");
            push_decimal(&mut v, *have);
            string_of(v.as_slice())
        },
        LayoutError::Unsupported(b) => {
            let mut v: Vec<char> = Vec::new();
            push_str(&mut v, "unsupported BITPIX ");
            push_decimal_i64(&mut v, *b);
            string_of(v.as_slice())
        },
    }
}

// ── Text fields of the metadata summary ──────────────────────────────────────

/// The non-numeric part of the metadata summary of a header.
#[derive(Clone, Debug)]
pub struct FitsTextMeta {
    /// `"XxY"` from `XBINNING`/`YBINNING` (`"XxX"` when only X is given).
    pub binning: Option<String>,
    /// `FRAME`, else `IMAGETYP`.
    pub frame_type: Option<String>,
    pub filter: Option<String>,
    /// `OBJECT`.
    pub target: Option<String>,
    /// Whether a WCS key (`CD1_1`, `PC1_1` or `CRVAL1`) is present.
    pub plate_solved: bool,
    pub naxis1: Option<i64>,
    pub naxis2: Option<i64>,
}

/// `"{x}x{y}"`.
pub open spec fn binning_text(x: i64, y: i64) -> Seq<char> {
    decimal_int(x as int) + seq!['x'] + decimal_int(y as int)
}

/// The first value of `a`, else of `b`.
pub open spec fn value_or(rows: Seq<CardView>, a: Seq<char>, b: Seq<char>) -> Option<Seq<char>> {
    match header_value(rows, a) {
        Some(v) => Some(v),
        None => header_value(rows, b),
    }
}

fn opt_string(o: Option<&str>) -> (r: Option<String>)
    ensures
        match o {
            Some(s) => r matches Some(t) && t@ == s@,
            None => r is None,
        },
{
    match o {
        Some(s) => Some(String::from_str(s)),
        None => None,
    }
}

/// Summarises the text fields of a header.
pub fn fits_text_meta(rows: &[FitsCard]) -> (m: FitsTextMeta)
    ensures
        ({
            let rv = cards_view(rows@);
            &&& match value_or(rv, "FRAME"@, "IMAGETYP"@) {
                Some(v) => m.frame_type matches Some(t) && t@ == v,
                None => m.frame_type is None,
            }
            &&& match header_value(rv, "FILTER"@) {
                Some(v) => m.filter matches Some(t) && t@ == v,
                None => m.filter is None,
            }
            &&& match header_value(rv, "OBJECT"@) {
                Some(v) => m.target matches Some(t) && t@ == v,
                None => m.target is None,
            }
            &&& m.plate_solved == (has_key(rv, "CD1_1"@) || has_key(rv, "PC1_1"@) || has_key(
                rv,
                "CRVAL1"@,
            ))
            &&& m.naxis1 == header_i64_spec(rv, "NAXIS1"@)
            &&& m.naxis2 == header_i64_spec(rv, "NAXIS2"@)
            &&& match (header_i64_spec(rv, "XBINNING"@), header_i64_spec(rv, "YBINNING"@)) {
                (Some(x), Some(y)) => m.binning matches Some(t) && t@ == binning_text(x, y),
                (Some(x), None) => m.binning matches Some(t) && t@ == binning_text(x, x),
                (None, _) => m.binning is None,
            }
        }),
{
    let frame_type = match header_get(rows, "FRAME") {
        Some(s) => Some(String::from_str(s)),
        None => opt_string(header_get(rows, "IMAGETYP")),
    };
    let filter = opt_string(header_get(rows, "FILTER"));
    let target = opt_string(header_get(rows, "OBJECT"));
    let plate_solved = header_has(rows, "CD1_1") || header_has(rows, "PC1_1") || header_has(
        rows,
        "CRVAL1",
    );
    let xbin = header_i64(rows, "XBINNING");
    let ybin = header_i64(rows, "YBINNING");
    let binning = match xbin {
        Some(x) => {
            let y = match ybin {
                Some(y) => y,
                None => x,
            };
            let mut v: Vec<char> = Vec::new();
            push_decimal_i64(&mut v, x);
            v.push('x');
            push_decimal_i64(&mut v, y);
            assert(v@ =~= binning_text(x, y));
            Some(string_of(v.as_slice()))
        },
        None => None,
    };
    FitsTextMeta {
        binning,
        frame_type,
        filter,
        target,
        plate_solved,
        naxis1: header_i64(rows, "NAXIS1"),
        naxis2: header_i64(rows, "NAXIS2"),
    }
}

// ── Laws ─────────────────────────────────────────────────────────────────────

proof fn lemma_header_from_no_end(bytes: Seq<u8>, i: int, rows: Seq<CardView>)
    requires
        forall|j: int| 0 <= j < rows.len() ==> #[trigger] rows[j].key != end_key(),
    ensures
        header_from(bytes, i, rows) matches Ok(out) ==> forall|j: int|
            0 <= j < out.len() ==> #[trigger] out[j].key != end_key(),
    decreases bytes.len() - i,
{
    if 0 <= i && i + 80 <= bytes.len() {
        match record_kind(bytes.subrange(i, i + 80)) {
            RecordKind::Card(c) => {
                let more = rows.push(c);
                assert(c.key != end_key());
                assert forall|j: int| 0 <= j < more.len() implies #[trigger] more[j].key
                    != end_key() by {
                    if j < rows.len() {
                        assert(more[j] == rows[j]);
                    }
                }
                lemma_header_from_no_end(bytes, i + 80, more);
            },
            _ => {},
        }
    }
}

/// The header stops at its `END` record: no card read has the key `END`.
pub proof fn law_header_excludes_end(bytes: Seq<u8>)
    ensures
        fits_header(bytes) matches Ok(rows) ==> forall|j: int|
            0 <= j < rows.len() ==> #[trigger] rows[j].key != end_key(),
{
    if bytes.len() >= 80 {
        lemma_header_from_no_end(bytes, 0, seq![]);
    }
}

proof fn lemma_end_search_shape(b: Seq<u8>, i: int)
    requires
        0 <= i,
        i % 80 == 0,
    ensures
        end_search(b, i) matches Some(n) ==> n % 80 == 0 && 80 <= n <= b.len() && is_end_record(
            b,
            n - 80,
        ),
    decreases b.len() - i,
{
    if i + 80 <= b.len() && !is_end_record(b, i) && i + 80 <= 64 * 2880 {
        lemma_end_search_shape(b, i + 80);
    }
}

/// The header ends on a record boundary: the offset past `END` is a whole
/// number of records, lies within the file, and the record before it is
/// the `END` record.
pub proof fn law_header_end_on_record_boundary(bytes: Seq<u8>)
    ensures
        end_search(bytes, 0) matches Some(n) ==> n % 80 == 0 && 80 <= n <= bytes.len()
            && is_end_record(bytes, n - 80),
{
    lemma_end_search_shape(bytes, 0);
}

/// The data unit starts at the first block boundary at or after the end of
/// the header.
pub proof fn law_data_starts_on_block_boundary(header_end: int)
    requires
        0 <= header_end,
    ensures
        data_offset(header_end) % 2880 == 0,
        header_end <= data_offset(header_end) < header_end + 2880,
{
    let q = (header_end + 2879) / 2880;
    assert(data_offset(header_end) == q * 2880);
    assert((q * 2880) % 2880 == 0) by (nonlinear_arith);
    assert(q * 2880 <= header_end + 2879 < q * 2880 + 2880) by (nonlinear_arith)
        requires
            q == (header_end + 2879) / 2880,
            header_end >= 0,
    ;
}

/// A located image lies inside the file: its data starts on a block
/// boundary after the header and spans exactly width × height pixels of
/// `|BITPIX| / 8` bytes.
pub proof fn law_layout_within_file(bytes: Seq<u8>)
    requires
        bytes.len() <= usize::MAX,
    ensures
        fits_layout(bytes) matches Ok(l) ==> {
            &&& l.data_end <= bytes.len()
            &&& l.data_start % 2880 == 0
            &&& l.data_end - l.data_start == l.width * l.height * bytes_per_pixel(l.bitpix)
            &&& supported_bitpix(l.bitpix)
        },
{
    if let Some(hend) = end_search(bytes, 0) {
        lemma_end_search_shape(bytes, 0);
        law_data_starts_on_block_boundary(hend);
        if let Ok(rows) = fits_header(bytes) {
            if let Ok(l) = layout_of(bytes, rows) {
                let bpp = bytes_per_pixel(l.bitpix);
                let w = l.width as int;
                let h = l.height as int;
                assert(w * h * bpp >= 0) by (nonlinear_arith)
                    requires
                        w >= 0,
                        h >= 0,
                        bpp >= 0,
                ;
            }
        }
    }
}

/// A located image plane holds exactly width × height pixels of
/// `|BITPIX| / 8` bytes each: 1 byte for BITPIX 8, 2 for 16, 4 for 32 and
/// -32, 8 for -64.
pub proof fn law_plane_size(bytes: Seq<u8>)
    requires
        bytes.len() <= usize::MAX,
    ensures
        fits_layout(bytes) matches Ok(l) ==> l.data_end - l.data_start == l.width * l.height * ((
        if l.bitpix < 0 {
            -l.bitpix
        } else {
            l.bitpix as int
        }) / 8),
        fits_layout(bytes) matches Ok(l) ==> (l.bitpix == -32 ==> l.data_end - l.data_start
            == l.width * l.height * 4) && (l.bitpix == -64 ==> l.data_end - l.data_start == l.width
            * l.height * 8) && (l.bitpix == 16 ==> l.data_end - l.data_start == l.width * l.height
            * 2),
{
    law_layout_within_file(bytes);
}

proof fn lemma_find_from_char(s: Seq<char>, c: char, j: int)
    ensures
        find_from(s, c, j) matches Some(k) ==> 0 <= j <= k < s.len() && s[k] == c,
    decreases s.len() - j,
{
    if 0 <= j < s.len() && s[j] != c {
        lemma_find_from_char(s, c, j + 1);
    }
}

/// The comment part of a card body is empty or starts with its `/`.
pub proof fn law_comment_starts_with_slash(body: Seq<char>)
    ensures
        split_value_comment_spec(body).1.len() == 0 || split_value_comment_spec(body).1[0] == '/',
{
    let s = trim_start(body);
    lemma_find_from_char(s, '/', 0);
    if s.len() > 0 && s[0] == '\'' {
        if let Some(e) = closing_quote(s, 1) {
            lemma_find_from_char(s, '/', e);
        }
    }
}

} // verus!
