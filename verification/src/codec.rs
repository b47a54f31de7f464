//! Encodings at the boundary: hex, base64, UTF-8, JSON parsing and date
//! rendering.  Each outside call stands behind a small trusted wrapper whose
//! contract states what the called crate documents; everything downstream of
//! the wrappers is verified against those contracts.

use vstd::prelude::*;
use base64::Engine;
use crate::strutil::{hex_seq_valid, hex_digit_val, is_hex_digit};
use crate::value::Json;

verus! {

/// The character for one lowercase hexadecimal digit.
pub open spec fn hexdig_char(d: nat) -> char {
    if d == 0 { '0' } else if d == 1 { '1' } else if d == 2 { '2' } else if d == 3 { '3' }
    else if d == 4 { '4' } else if d == 5 { '5' } else if d == 6 { '6' } else if d == 7 { '7' }
    else if d == 8 { '8' } else if d == 9 { '9' } else if d == 10 { 'a' } else if d == 11 { 'b' }
    else if d == 12 { 'c' } else if d == 13 { 'd' } else if d == 14 { 'e' } else { 'f' }
}

/// The lowercase hex encoding of a byte string: two digits per byte.
pub open spec fn hex_encode_seq(b: Seq<u8>) -> Seq<char>
    decreases b.len(),
{
    if b.len() == 0 {
        Seq::empty()
    } else {
        seq![hexdig_char((b[0] >> 4) as nat), hexdig_char((b[0] & 0xf) as nat)]
            + hex_encode_seq(b.skip(1))
    }
}

/// Text that hex-decodes: even length, hexadecimal digits throughout.
pub open spec fn hex_valid(s: Seq<char>) -> bool {
    s.len() % 2 == 0 && hex_seq_valid(s)
}

/// The bytes denoted by a hex string, two digits per byte.
pub open spec fn hex_decode_seq(s: Seq<char>) -> Seq<u8>
    decreases s.len(),
{
    if s.len() < 2 {
        Seq::empty()
    } else {
        seq![(hex_digit_val(s[0]) * 16 + hex_digit_val(s[1])) as u8] + hex_decode_seq(s.skip(2))
    }
}

/// Law: decoding the encoding of a byte string gives the bytes back — the
/// contracts of the two hex wrappers cohere.
pub proof fn lemma_hex_roundtrip(b: Seq<u8>)
    ensures
        hex_valid(hex_encode_seq(b)),
        hex_decode_seq(hex_encode_seq(b)) == b,
    decreases b.len(),
{
    if b.len() == 0 {
        assert(hex_decode_seq(hex_encode_seq(b)) =~= b);
    } else {
        lemma_hex_roundtrip(b.skip(1));
        let e = hex_encode_seq(b);
        let tail = hex_encode_seq(b.skip(1));
        let x = b[0];
        let hi = (x >> 4) as nat;
        let lo = (x & 0xf) as nat;
        assert(x >> 4 < 16 && x & 0xf < 16) by (bit_vector);
        assert(x == (x >> 4) * 16 + (x & 0xf)) by (bit_vector);
        let c1 = hexdig_char(hi);
        let c2 = hexdig_char(lo);
        assert(is_hex_digit(c1) && hex_digit_val(c1) == hi);
        assert(is_hex_digit(c2) && hex_digit_val(c2) == lo);
        assert(e =~= seq![c1, c2] + tail);
        assert forall|i: int| 0 <= i < e.len() implies is_hex_digit(#[trigger] e[i]) by {
            if i >= 2 {
                assert(e[i] == tail[i - 2]);
            }
        }
        assert((hi * 16 + lo) as u8 == x);
        assert(e.skip(2) =~= tail);
        assert(hex_decode_seq(e) =~= seq![b[0]] + hex_decode_seq(tail));
        assert(seq![b[0]] + b.skip(1) =~= b);
    }
}

/// Relies on hex::encode: the lowercase encoding, two digits per byte, in
/// byte order.
#[verifier::external_body]
pub(crate) fn hex_encode(b: &[u8]) -> (r: String)
    ensures
        r@ == hex_encode_seq(b@),
{
    hex::encode(b)
}

/// Relies on hex::decode: accepts exactly the even-length all-digit strings
/// (either case) and yields the denoted bytes.
#[verifier::external_body]
pub(crate) fn hex_decode(s: &str) -> (r: Option<Vec<u8>>)
    ensures
        match r {
            Some(v) => hex_valid(s@) && v@ == hex_decode_seq(s@),
            None => !hex_valid(s@),
        },
{
    hex::decode(s).ok()
}

/// What UTF-8 decoding yields on a byte string, when the bytes are valid
/// UTF-8: a function of the bytes alone.
pub uninterp spec fn utf8_decoding(b: Seq<u8>) -> Option<Seq<char>>;

/// Relies on String::from_utf8: the decoding is a function of the bytes
/// alone, yielding text exactly on valid UTF-8 input.
#[verifier::external_body]
pub(crate) fn utf8_to_text(b: Vec<u8>) -> (r: Option<String>)
    ensures
        match r {
            Some(t) => utf8_decoding(b@) == Some(t@),
            None => utf8_decoding(b@) is None,
        },
{
    String::from_utf8(b).ok()
}

/// What base64 decoding (standard alphabet, padded) yields on a string, when
/// it is well-formed base64: a function of the text alone.
pub uninterp spec fn base64_decoding(s: Seq<char>) -> Option<Seq<u8>>;

/// Relies on base64's standard-alphabet engine: decoding is a function of
/// the text alone, yielding bytes exactly on well-formed input.
#[verifier::external_body]
pub(crate) fn base64_decode(s: &str) -> (r: Option<Vec<u8>>)
    ensures
        match r {
            Some(v) => base64_decoding(s@) == Some(v@),
            None => base64_decoding(s@) is None,
        },
{
    base64::engine::general_purpose::STANDARD.decode(s).ok()
}

/// Relies on chrono: every unsigned 32-bit count of seconds is a
/// representable timestamp, and its RFC 2822 rendering in the machine's
/// local time zone is never empty.  The zone varies by machine, so nothing
/// more is assumed of the text.
#[verifier::external_body]
pub(crate) fn timestamp_text(t: u32) -> (r: String)
    ensures
        r@.len() > 0,
{
    chrono::DateTime::from_timestamp(t as i64, 0)
        .unwrap()
        .with_timezone(&chrono::Local)
        .to_rfc2822()
}

/// One lowercase hexadecimal digit as text.
pub(crate) fn hexdig_str(d: u64) -> (r: &'static str)
    requires
        d < 16,
    ensures
        r@ =~= seq![hexdig_char(d as nat)],
{
    proof {
        reveal_strlit("0");
        reveal_strlit("1");
        reveal_strlit("2");
        reveal_strlit("3");
        reveal_strlit("4");
        reveal_strlit("5");
        reveal_strlit("6");
        reveal_strlit("7");
        reveal_strlit("8");
        reveal_strlit("9");
        reveal_strlit("a");
        reveal_strlit("b");
        reveal_strlit("c");
        reveal_strlit("d");
        reveal_strlit("e");
        reveal_strlit("f");
    }
    match d {
        0 => "0",
        1 => "1",
        2 => "2",
        3 => "3",
        4 => "4",
        5 => "5",
        6 => "6",
        7 => "7",
        8 => "8",
        9 => "9",
        10 => "a",
        11 => "b",
        12 => "c",
        13 => "d",
        14 => "e",
        _ => "f",
    }
}

/// Relies on char::to_string: the text of one character is that character.
#[verifier::external_body]
pub(crate) fn char_str(c: char) -> (r: String)
    ensures
        r@ =~= seq![c],
{
    c.to_string()
}

/// Conversion of a parsed serde_json tree into the engine's document type,
/// node for node: objects keep their field order, integers survive exactly
/// when they fit a signed machine word, other numbers read as null.
#[verifier::external_body]
fn value_from_json(v: &serde_json::Value) -> Json {
    match v {
        serde_json::Value::Null => Json::Null,
        serde_json::Value::Bool(b) => Json::Bool(*b),
        serde_json::Value::Number(n) => match n.as_i64() {
            Some(i) => Json::Int(i),
            None => Json::Null,
        },
        serde_json::Value::String(s) => Json::Str(s.clone()),
        serde_json::Value::Array(a) => Json::Arr(a.iter().map(value_from_json).collect()),
        serde_json::Value::Object(m) => Json::Obj(
            m.iter().map(|(k, x)| (k.clone(), value_from_json(x))).collect(),
        ),
    }
}

/// What JSON parsing yields on a string: a tree exactly on well-formed
/// JSON, a function of the text alone.
pub uninterp spec fn json_parsing(s: Seq<char>) -> Option<Json>;

/// Relies on serde_json::from_str: text that parses as JSON yields a tree,
/// text that does not yields nothing; the parse is a function of the text
/// alone.
#[verifier::external_body]
pub(crate) fn parse_json(s: &str) -> (r: Option<Json>)
    ensures
        r == json_parsing(s@),
{
    match serde_json::from_str::<serde_json::Value>(s) {
        Ok(v) => Some(value_from_json(&v)),
        Err(_) => None,
    }
}

/// Decode a hex-encoded UTF-8 string to text, as used for names, interface
/// descriptions and error descriptions fetched from a contract.
pub fn str_hex_to_utf8(hex_str: &str) -> (r: Option<String>)
    ensures
        match r {
            Some(t) => hex_valid(hex_str@) && utf8_decoding(hex_decode_seq(hex_str@)) == Some(t@),
            None => !hex_valid(hex_str@) || utf8_decoding(hex_decode_seq(hex_str@)) is None,
        },
{
    match hex_decode(hex_str) {
        Some(b) => utf8_to_text(b),
        None => None,
    }
}

} // verus!
