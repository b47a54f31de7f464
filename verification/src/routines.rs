//! Utility routines: positional template rendering over a parameter
//! document, and conversion of a decimal token amount to its smallest-unit
//! integer text.

use vstd::prelude::*;
use vstd::string::*;
use crate::strutil::{dec_digits, u64_to_dec, parse_hex_u64, parse_dec_u64, hex_seq_valid, hex_seq_num, dec_seq_valid, dec_seq_num, match_at, find_from, contains_seq, find_sub, lemma_find_from_is_match};
use crate::value::{Json, spec_get, as_text_spec};
use crate::codec::{hex_valid, hex_decode_seq, utf8_decoding, char_str, timestamp_text};
use crate::engine::CallService;

verus! {

/// The key `param<i>`.
pub open spec fn param_key(i: nat) -> Seq<char> {
    "param"@ + dec_digits(i)
}

/// The key `str<i>`.
pub open spec fn str_key(i: nat) -> Seq<char> {
    "str"@ + dec_digits(i)
}

/// The key `number<i>`.
pub open spec fn number_key(i: nat) -> Seq<char> {
    "number"@ + dec_digits(i)
}

/// The key `utime<i>`.
pub open spec fn utime_key(i: nat) -> Seq<char> {
    "utime"@ + dec_digits(i)
}

/// A hex-encoded-UTF-8 text field rendered to text: empty on any decode
/// failure.
pub open spec fn str_field_text(h: Seq<char>) -> Seq<char> {
    if hex_valid(h) && utf8_decoding(hex_decode_seq(h)) is Some {
        utf8_decoding(hex_decode_seq(h))->0
    } else {
        Seq::empty()
    }
}

/// The digits of a `0x`-prefixed field, i.e. everything after the first two
/// characters.
pub open spec fn hex_tail(h: Seq<char>) -> Seq<char> {
    h.skip(2)
}

/// A hex-encoded number field holds a machine-word value.
pub open spec fn num_field_ok(h: Seq<char>) -> bool {
    h.len() > 2 && hex_seq_valid(hex_tail(h)) && hex_seq_num(hex_tail(h)) <= u64::MAX as nat
}

/// A hex-encoded number field rendered as decimal text: empty when
/// malformed.
pub open spec fn num_field_text(h: Seq<char>) -> Seq<char> {
    if num_field_ok(h) {
        dec_digits(hex_seq_num(hex_tail(h)))
    } else {
        Seq::empty()
    }
}

/// A hex-encoded timestamp field holds a 32-bit value.
pub open spec fn utime_field_ok(h: Seq<char>) -> bool {
    h.len() > 2 && hex_seq_valid(hex_tail(h)) && hex_seq_num(hex_tail(h)) <= u32::MAX as nat
}

/// The i-th argument resolves to a timestamp that must be rendered as a
/// date: its text then depends on the machine's time zone and is not a
/// function of the document alone.
pub open spec fn arg_is_live_time(params: Json, i: nat) -> bool {
    &&& as_text_spec(spec_get(params, param_key(i))) is None
    &&& as_text_spec(spec_get(params, str_key(i))) is None
    &&& as_text_spec(spec_get(params, number_key(i))) is None
    &&& match as_text_spec(spec_get(params, utime_key(i))) {
            Some(h) => utime_field_ok(h) && hex_seq_num(hex_tail(h)) != 0,
            None => false,
        }
}

/// The text of the i-th template argument, resolved from the parameter
/// document by trying, in order: a direct text field, a hex-encoded-UTF-8
/// text field, a hex-encoded number field, and a hex-encoded timestamp
/// field; the empty string when none matches.  (A live nonzero timestamp is
/// rendered by the machine's clock rules instead; see `arg_is_live_time`.)
pub open spec fn arg_text(params: Json, i: nat) -> Seq<char> {
    match as_text_spec(spec_get(params, param_key(i))) {
        Some(t) => t,
        None => match as_text_spec(spec_get(params, str_key(i))) {
            Some(h) => str_field_text(h),
            None => match as_text_spec(spec_get(params, number_key(i))) {
                Some(h) => num_field_text(h),
                None => match as_text_spec(spec_get(params, utime_key(i))) {
                    Some(h) => if utime_field_ok(h) && hex_seq_num(hex_tail(h)) == 0 {
                        "undefined"@
                    } else {
                        Seq::empty()
                    },
                    None => Seq::empty(),
                },
            },
        },
    }
}

/// Resolve the i-th template argument from the parameter document.
pub fn format_arg(params: &Json, i: u64) -> (r: String)
    ensures
        !arg_is_live_time(*params, i as nat) ==> r@ == arg_text(*params, i as nat),
        arg_is_live_time(*params, i as nat) ==> r@.len() > 0,
{
    let idx = u64_to_dec(i);

    let mut pkey = String::from_str("param");
    pkey.append(idx.as_str());
    if let Some(t) = params.get(pkey.as_str()).as_str() {
        return t.clone();
    }

    let mut skey = String::from_str("str");
    skey.append(idx.as_str());
    if let Some(h) = params.get(skey.as_str()).as_str() {
        return match crate::codec::str_hex_to_utf8(h.as_str()) {
            Some(t) => t,
            None => String::new(),
        };
    }

    let mut nkey = String::from_str("number");
    nkey.append(idx.as_str());
    if let Some(h) = params.get(nkey.as_str()).as_str() {
        return match parse_hex_u64(h.as_str(), 2) {
            Some(v) => u64_to_dec(v),
            None => String::new(),
        };
    }

    let mut ukey = String::from_str("utime");
    ukey.append(idx.as_str());
    if let Some(h) = params.get(ukey.as_str()).as_str() {
        return match parse_hex_u64(h.as_str(), 2) {
            Some(v) => {
                if v == 0 {
                    String::from_str("undefined")
                } else if v <= u32::MAX as u64 {
                    timestamp_text(v as u32)
                } else {
                    String::new()
                }
            },
            None => String::new(),
        };
    }

    String::new()
}

/// The rendering of a template against a parameter document: each `{}`
/// placeholder is replaced, left to right, by the matching argument's text.
pub open spec fn fmt_text(s: Seq<char>, params: Json, argi: nat) -> Seq<char>
    decreases s.len(),
{
    if s.len() < 2 {
        s
    } else if s[0] == '{' && s[1] == '}' {
        arg_text(params, argi) + fmt_text(s.skip(2), params, argi + 1)
    } else {
        seq![s[0]] + fmt_text(s.skip(1), params, argi)
    }
}

/// No placeholder of the template resolves to a live timestamp, so the
/// rendering is a function of template and document alone.
pub open spec fn fmt_no_live(s: Seq<char>, params: Json, argi: nat) -> bool
    decreases s.len(),
{
    if s.len() < 2 {
        true
    } else if s[0] == '{' && s[1] == '}' {
        !arg_is_live_time(params, argi) && fmt_no_live(s.skip(2), params, argi + 1)
    } else {
        fmt_no_live(s.skip(1), params, argi)
    }
}

fn fmt_tail(s: &str, pos: usize, n: usize, params: &Json, argi: u64) -> (r: String)
    requires
        n == s@.len(),
        pos <= n,
        argi as nat + (n - pos) <= u64::MAX as nat,
    ensures
        fmt_no_live(s@.skip(pos as int), *params, argi as nat)
            ==> r@ == fmt_text(s@.skip(pos as int), *params, argi as nat),
    decreases n - pos,
{
    let ghost t = s@.skip(pos as int);
    if n - pos < 2 {
        let piece = s.substring_char(pos, n);
        let r = String::from_str(piece);
        proof {
            assert(t =~= s@.subrange(pos as int, n as int));
        }
        r
    } else {
        let c0 = s.get_char(pos);
        let c1 = s.get_char(pos + 1);
        proof {
            assert(t[0] == s@[pos as int]);
            assert(t[1] == s@[pos as int + 1]);
        }
        if c0 == '{' && c1 == '}' {
            let mut r = format_arg(params, argi);
            let rest = fmt_tail(s, pos + 2, n, params, argi + 1);
            r.append(rest.as_str());
            proof {
                assert(t.skip(2) =~= s@.skip(pos as int + 2));
            }
            r
        } else {
            let mut r = char_str(c0);
            let rest = fmt_tail(s, pos + 1, n, params, argi);
            r.append(rest.as_str());
            proof {
                assert(t.skip(1) =~= s@.skip(pos as int + 1));
            }
            r
        }
    }
}

/// Render a template against a parameter document (see `fmt_text`).
pub fn format_string(fstr: &str, params: &Json) -> (r: String)
    ensures
        fmt_no_live(fstr@, *params, 0) ==> r@ == fmt_text(fstr@, *params, 0),
        !contains_seq(fstr@, seq!['{', '}']) ==> r@ == fstr@,
{
    let n = fstr.unicode_len();
    let r = fmt_tail(fstr, 0, n, params, 0);
    proof {
        assert(fstr@.skip(0) =~= fstr@);
        if !contains_seq(fstr@, seq!['{', '}']) {
            lemma_no_placeholder_identity(fstr@, *params, 0);
        }
    }
    r
}

/// Helper: a match of the needle in the tail is a match in the whole,
/// shifted.
proof fn lemma_match_shift(s: Seq<char>, sub: Seq<char>, k: int)
    requires
        s.len() >= 1,
        0 <= k,
    ensures
        match_at(s, sub, k + 1) == match_at(s.skip(1), sub, k),
{
    if k + sub.len() <= s.len() - 1 {
        assert(s.skip(1).subrange(k, k + sub.len()) =~= s.subrange(k + 1, k + 1 + sub.len()));
    } else {
        assert(!match_at(s, sub, k + 1));
        assert(!match_at(s.skip(1), sub, k));
    }
}

/// Helper: a sequence without the needle anywhere, once shortened at the
/// front, still has it nowhere.
proof fn lemma_find_none_skip(s: Seq<char>, sub: Seq<char>, i: int)
    requires
        sub.len() >= 1,
        s.len() >= 1,
        0 <= i,
        find_from(s, sub, i + 1) is None,
    ensures
        find_from(s.skip(1), sub, i) is None,
    decreases s.len() - i,
{
    lemma_match_shift(s, sub, i);
    if i + 1 + sub.len() <= s.len() {
        assert(!match_at(s, sub, i + 1));
        lemma_find_none_skip(s, sub, i + 1);
    }
}

/// Law: a template without a placeholder renders as itself, whatever the
/// parameter document: rendering is idempotent on such templates.
pub proof fn lemma_no_placeholder_identity(s: Seq<char>, params: Json, argi: nat)
    requires
        !contains_seq(s, seq!['{', '}']),
    ensures
        fmt_text(s, params, argi) == s,
        fmt_no_live(s, params, argi),
    decreases s.len(),
{
    let sub = seq!['{', '}'];
    if s.len() < 2 {
    } else {
        assert(find_from(s, sub, 0) is None);
        assert(!match_at(s, sub, 0));
        assert(s.subrange(0, 2) =~= seq![s[0], s[1]]);
        assert(!(s[0] == '{' && s[1] == '}'));
        lemma_find_none_skip(s, sub, 0);
        lemma_no_placeholder_identity(s.skip(1), params, argi);
        assert(fmt_text(s, params, argi) =~= seq![s[0]] + fmt_text(s.skip(1), params, argi));
        assert(seq![s[0]] + s.skip(1) =~= s);
    }
}

/// The right-padding of a fractional part to nine digits.
pub open spec fn pad9(frac: Seq<char>) -> Seq<char> {
    frac + Seq::new((9 - frac.len()) as nat, |i: int| '0')
}

/// The smallest-unit digit string denoted by a decimal token amount: the
/// integer part, then the fractional part right-padded to nine digits
/// (nine zeros when there is none).
pub open spec fn nano_digits(s: Seq<char>) -> Seq<char> {
    match find_from(s, seq!['.'], 0) {
        None => s + Seq::new(9, |i: int| '0'),
        Some(k) => s.subrange(0, k) + pad9(s.subrange(k + 1, s.len() as int)),
    }
}

/// A token amount in acceptable form: at most one separating dot, a
/// fractional part of at most nine digits, and a digit string that denotes
/// a machine-word value.
pub open spec fn amount_ok(s: Seq<char>) -> bool {
    &&& match find_from(s, seq!['.'], 0) {
            None => true,
            Some(k) => find_from(s, seq!['.'], k + 1) is None
                && s.len() - k - 1 <= 9,
        }
    &&& nano_digits(s).len() > 0
    &&& dec_seq_valid(nano_digits(s))
    &&& dec_seq_num(nano_digits(s)) <= u64::MAX as nat
}

/// Convert a decimal token amount (`"12.5"`) to its smallest-unit integer
/// text (`"12500000000"`): the engine's currency-unit conversion routine.
pub fn convert_string_to_tokens(arg: &str) -> (r: Result<String, String>)
    ensures
        match r {
            Ok(t) => amount_ok(arg@) && t@ == nano_digits(arg@),
            Err(_) => !amount_ok(arg@),
        },
{
    let n = arg.unicode_len();
    proof {
        reveal_strlit(".");
        assert("."@ =~= seq!['.']);
    }
    let dot = find_sub(arg, ".", 0);
    let mut digits: String;
    match dot {
        None => {
            digits = String::from_str(arg);
            digits.append("000000000");
            proof {
                reveal_strlit("000000000");
                assert("000000000"@ =~= Seq::new(9, |i: int| '0'));
            }
        },
        Some(k) => {
            proof {
                lemma_find_from_is_match(arg@, "."@, 0);
            }
            if find_sub(arg, ".", k + 1).is_some() {
                return Err(String::from_str("Invalid amout value"));
            }
            if n - k - 1 > 9 {
                return Err(String::from_str("invalid fractional part"));
            }
            let int_part = arg.substring_char(0, k);
            let frac = arg.substring_char(k + 1, n);
            digits = String::from_str(int_part);
            let mut pad: usize = 9 - (n - k - 1);
            let mut frac_padded = String::from_str(frac);
            while pad > 0
                invariant
                    pad <= 9,
                    frac_padded@ =~= frac@ + Seq::new((9 - frac@.len() - pad) as nat, |i: int| '0'),
                    frac@.len() + pad <= 9,
                    frac@ == arg@.subrange(k + 1, n as int),
                    n == arg@.len(),
                decreases pad,
            {
                frac_padded.append("0");
                proof {
                    reveal_strlit("0");
                    assert("0"@ =~= seq!['0']);
                }
                pad = pad - 1;
                proof {
                    assert(frac_padded@ =~= frac@ + Seq::new((9 - frac@.len() - pad) as nat, |i: int| '0'));
                }
            }
            digits.append(frac_padded.as_str());
            proof {
                assert(frac_padded@ =~= pad9(arg@.subrange(k + 1, n as int)));
            }
        },
    }
    match parse_dec_u64(digits.as_str()) {
        Some(_) => Ok(digits),
        None => Err(String::from_str("failed to parse amount")),
    }
}

/// The balance held by the first of the queried account records: exactly
/// when there is a first record and it bears a text `balance` field.
pub fn balance_of_records(records: &Vec<Json>) -> (r: Result<String, String>)
    ensures
        match r {
            Ok(b) => records@.len() > 0 && as_text_spec(spec_get(records@[0], "balance"@))
                == Some(b@),
            Err(_) => records@.len() == 0 || as_text_spec(spec_get(records@[0], "balance"@))
                is None,
        },
{
    if records.len() == 0 {
        return Err(String::from_str("account not found"));
    }
    match records[0].get("balance").as_str() {
        Some(b) => Ok(b.clone()),
        None => Err(String::from_str("no balance in record")),
    }
}

/// Look up an account's balance: the engine's balance routine.  The
/// argument document names the account (`{"addr": ...}`); the first record
/// the service returns supplies the `balance` field (see
/// `balance_of_records`).  An argument that is not JSON, or without a text
/// `addr` field, is rejected before any query.
pub fn get_balance<S: CallService>(ton: &mut S, arg: &str) -> (r: Result<String, String>)
    ensures
        crate::codec::json_parsing(arg@) is None ==> r is Err,
        (match crate::codec::json_parsing(arg@) {
            Some(v) => as_text_spec(spec_get(v, "addr"@)) is None ==> r is Err,
            None => true,
        }),
{
    let arg_json = match crate::codec::parse_json(arg) {
        Some(v) => v,
        None => {
            return Err(String::from_str("arguments is invalid json"));
        },
    };
    let addr = match arg_json.get("addr").as_str() {
        Some(a) => a.clone(),
        None => {
            return Err(String::from_str("addr not found"));
        },
    };
    let eq = Json::Obj(vec![(String::from_str("eq"), Json::Str(addr))]);
    let filter = Json::Obj(vec![(String::from_str("id"), eq)]);
    let accounts = match ton.query_accounts(&filter, "acc_type_name balance") {
        Ok(a) => a,
        Err(_) => {
            return Err(String::from_str("account query failed"));
        },
    };
    balance_of_records(&accounts)
}

} // verus!
