//! Outside codecs the bridge relies on: base64 (RFC 4648 standard alphabet,
//! padded) and the compact re-serialisation of JSON text by `serde_json`.

use base64::Engine;
use vstd::prelude::*;

verus! {

/// The RFC 4648 standard alphabet character for a six-bit value.
pub open spec fn b64_char(n: nat) -> char {
    if n < 26 {
        ((n + ('A' as nat)) as u32) as char
    } else if n < 52 {
        ((n - 26 + ('a' as nat)) as u32) as char
    } else if n < 62 {
        ((n - 52 + ('0' as nat)) as u32) as char
    } else if n == 62 {
        '+'
    } else {
        '/'
    }
}

/// Padded base64 (RFC 4648 §4) of `b`: each three bytes become four
/// characters; a final one or two bytes are padded with `=`.
pub open spec fn base64(b: Seq<u8>) -> Seq<char>
    decreases b.len(),
{
    if b.len() == 0 {
        seq![]
    } else if b.len() == 1 {
        seq![b64_char((b[0] / 4) as nat), b64_char(((b[0] % 4) * 16) as nat), '=', '=']
    } else if b.len() == 2 {
        seq![
            b64_char((b[0] / 4) as nat),
            b64_char(((b[0] % 4) * 16 + b[1] / 16) as nat),
            b64_char(((b[1] % 16) * 4) as nat),
            '=',
        ]
    } else {
        seq![
            b64_char((b[0] / 4) as nat),
            b64_char(((b[0] % 4) * 16 + b[1] / 16) as nat),
            b64_char(((b[1] % 16) * 4 + b[2] / 64) as nat),
            b64_char((b[2] % 64) as nat),
        ] + base64(b.skip(3))
    }
}

/// `base64::engine::general_purpose::STANDARD.encode`: the padded standard
/// base64 text of the bytes. The crate panics only when the encoded length
/// overflows `usize`, which the bound rules out.
#[verifier::external_body]
pub(crate) fn base64_standard(b: &[u8]) -> (r: String)
    requires
        b@.len() <= usize::MAX / 2,
    ensures
        r@ == base64(b@),
{
    base64::engine::general_purpose::STANDARD.encode(b)
}

/// `serde_json`'s compact form of a text: `None` when the text is not one
/// JSON document, else the document as `serde_json` writes it back (no
/// whitespace, object keys in its map order).
pub uninterp spec fn json_compact(text: Seq<char>) -> Option<Seq<char>>;

/// `serde_json::from_str::<serde_json::Value>` followed by `Value::to_string`:
/// the text written back compactly by `serde_json`, or `None` when it does not
/// read as JSON. The result is a function of the text alone (named
/// [`json_compact`]); which texts are JSON is serde_json's grammar, not
/// restated here.
#[verifier::external_body]
pub(crate) fn compact_json(text: &str) -> (r: Option<String>)
    ensures
        match json_compact(text@) {
            Some(t) => r matches Some(s) && s@ == t,
            None => r is None,
        },
{
    serde_json::from_str::<serde_json::Value>(text).ok().map(|v| v.to_string())
}

} // verus!
