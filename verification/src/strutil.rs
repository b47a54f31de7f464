//! Verified text utilities: decimal rendering, hex/decimal parsing and
//! substring search over character sequences.

use vstd::prelude::*;
use vstd::string::*;

verus! {

/// The character for one decimal digit.
pub open spec fn digit_char(d: nat) -> char {
    if d == 0 { '0' } else if d == 1 { '1' } else if d == 2 { '2' } else if d == 3 { '3' }
    else if d == 4 { '4' } else if d == 5 { '5' } else if d == 6 { '6' } else if d == 7 { '7' }
    else if d == 8 { '8' } else { '9' }
}

/// The decimal rendering of a number, most significant digit first.
pub open spec fn dec_digits(n: nat) -> Seq<char>
    decreases n,
{
    if n < 10 {
        seq![digit_char(n)]
    } else {
        dec_digits(n / 10) + seq![digit_char(n % 10)]
    }
}

/// One decimal digit as text.
fn digit_str(d: u64) -> (r: &'static str)
    requires
        d < 10,
    ensures
        r@ =~= seq![digit_char(d as nat)],
{
    proof {
        reveal_strlit("0");
        reveal_strlit("1");
        reveal_strlit("2");
        reveal_strlit("3");
        reveal_strlit("4");
        reveal_strlit("5");
        reveal_strlit("6");
        reveal_strlit("7");
        reveal_strlit("8");
        reveal_strlit("9");
    }
    match d {
        0 => "0",
        1 => "1",
        2 => "2",
        3 => "3",
        4 => "4",
        5 => "5",
        6 => "6",
        7 => "7",
        8 => "8",
        _ => "9",
    }
}

/// Render a number in decimal.
pub fn u64_to_dec(n: u64) -> (r: String)
    ensures
        r@ == dec_digits(n as nat),
    decreases n,
{
    if n < 10 {
        String::from_str(digit_str(n))
    } else {
        let mut s = u64_to_dec(n / 10);
        s.append(digit_str(n % 10));
        s
    }
}

/// Law: parsing a rendered number gives the number back: `dec_digits`
/// always yields nonempty valid digits, and `dec_seq_num` inverts it.
pub proof fn lemma_dec_digits_value(n: nat)
    ensures
        dec_digits(n).len() > 0,
        dec_seq_valid(dec_digits(n)),
        dec_seq_num(dec_digits(n)) == n,
    decreases n,
{
    if n < 10 {
        assert(dec_digits(n) =~= seq![digit_char(n)]);
        assert(is_dec_digit(digit_char(n)));
        assert(seq![digit_char(n)].drop_last() =~= Seq::<char>::empty());
        assert(dec_seq_num(Seq::<char>::empty()) == 0);
        assert(dec_seq_num(seq![digit_char(n)]) == (digit_char(n) as int - '0' as int) as nat);
        assert((digit_char(n) as int - '0' as int) as nat == n);
    } else {
        lemma_dec_digits_value(n / 10);
        let s = dec_digits(n / 10);
        let t = dec_digits(n);
        assert(t =~= s + seq![digit_char(n % 10)]);
        assert(t.drop_last() =~= s);
        assert(t.last() == digit_char(n % 10));
        assert((digit_char(n % 10) as int - '0' as int) as nat == n % 10);
        assert(dec_seq_num(t) == dec_seq_num(s) * 10 + n % 10);
        assert(forall|j: int| 0 <= j < t.len() ==> is_dec_digit(#[trigger] t[j]));
    }
}

/// Whether a character is a decimal digit.
pub open spec fn is_dec_digit(c: char) -> bool {
    '0' <= c && c <= '9'
}

/// Whether a character is a hexadecimal digit.
pub open spec fn is_hex_digit(c: char) -> bool {
    ('0' <= c && c <= '9') || ('a' <= c && c <= 'f') || ('A' <= c && c <= 'F')
}

/// The numeric value of a hexadecimal digit.
pub open spec fn hex_digit_val(c: char) -> nat {
    if '0' <= c && c <= '9' {
        (c as int - '0' as int) as nat
    } else if 'a' <= c && c <= 'f' {
        (c as int - 'a' as int + 10) as nat
    } else {
        (c as int - 'A' as int + 10) as nat
    }
}

/// Every character of the sequence is a hexadecimal digit.
pub open spec fn hex_seq_valid(s: Seq<char>) -> bool {
    forall|i: int| 0 <= i < s.len() ==> is_hex_digit(#[trigger] s[i])
}

/// Every character of the sequence is a decimal digit.
pub open spec fn dec_seq_valid(s: Seq<char>) -> bool {
    forall|i: int| 0 <= i < s.len() ==> is_dec_digit(#[trigger] s[i])
}

/// The number denoted by a sequence of hexadecimal digits.
pub open spec fn hex_seq_num(s: Seq<char>) -> nat
    decreases s.len(),
{
    if s.len() == 0 {
        0
    } else {
        hex_seq_num(s.drop_last()) * 16 + hex_digit_val(s.last())
    }
}

/// The number denoted by a sequence of decimal digits.
pub open spec fn dec_seq_num(s: Seq<char>) -> nat
    decreases s.len(),
{
    if s.len() == 0 {
        0
    } else {
        dec_seq_num(s.drop_last()) * 10 + (s.last() as int - '0' as int) as nat
    }
}

/// A digit string denotes no less than any of its prefixes.
proof fn lemma_hex_prefix_le(s: Seq<char>, n: int)
    requires
        0 <= n <= s.len(),
    ensures
        hex_seq_num(s.subrange(0, n)) <= hex_seq_num(s),
    decreases s.len() - n,
{
    if n == s.len() {
        assert(s.subrange(0, n) =~= s);
    } else {
        lemma_hex_prefix_le(s, n + 1);
        let t = s.subrange(0, n + 1);
        assert(t.drop_last() =~= s.subrange(0, n));
        assert(hex_seq_num(t) == hex_seq_num(s.subrange(0, n)) * 16 + hex_digit_val(t.last()));
    }
}

/// Same, for decimal strings.
proof fn lemma_dec_prefix_le(s: Seq<char>, n: int)
    requires
        0 <= n <= s.len(),
    ensures
        dec_seq_num(s.subrange(0, n)) <= dec_seq_num(s),
    decreases s.len() - n,
{
    if n == s.len() {
        assert(s.subrange(0, n) =~= s);
    } else {
        lemma_dec_prefix_le(s, n + 1);
        let t = s.subrange(0, n + 1);
        assert(t.drop_last() =~= s.subrange(0, n));
        assert(dec_seq_num(t) == dec_seq_num(s.subrange(0, n)) * 10 + (t.last() as int - '0' as int) as nat);
    }
}

/// Whether a character is a hexadecimal digit.
pub fn is_hex_digit_exec(c: char) -> (r: bool)
    ensures
        r == is_hex_digit(c),
{
    ('0' <= c && c <= '9') || ('a' <= c && c <= 'f') || ('A' <= c && c <= 'F')
}

/// The numeric value of a hexadecimal digit.
pub fn hex_digit_val_exec(c: char) -> (r: u64)
    requires
        is_hex_digit(c),
    ensures
        r == hex_digit_val(c),
        r < 16,
{
    if '0' <= c && c <= '9' {
        c as u64 - '0' as u64
    } else if 'a' <= c && c <= 'f' {
        c as u64 - 'a' as u64 + 10
    } else {
        c as u64 - 'A' as u64 + 10
    }
}

/// Parse the tail of `s` (from character position `start`) as an unsigned
/// hexadecimal number.  Returns the denoted value exactly when the tail is
/// nonempty, all digits, and the value fits in a machine word.
pub fn parse_hex_u64(s: &str, start: usize) -> (r: Option<u64>)
    ensures
        match r {
            Some(v) => {
                &&& start < s@.len()
                &&& hex_seq_valid(s@.subrange(start as int, s@.len() as int))
                &&& hex_seq_num(s@.subrange(start as int, s@.len() as int)) == v as nat
            },
            None => {
                start >= s@.len()
                || !hex_seq_valid(s@.subrange(start as int, s@.len() as int))
                || hex_seq_num(s@.subrange(start as int, s@.len() as int)) > u64::MAX as nat
            },
        },
{
    let n = s.unicode_len();
    if start >= n {
        return None;
    }
    let ghost whole = s@.subrange(start as int, s@.len() as int);
    let mut i: usize = start;
    let mut acc: u64 = 0;
    while i < n
        invariant
            start <= i <= n,
            n == s@.len(),
            whole == s@.subrange(start as int, n as int),
            hex_seq_valid(s@.subrange(start as int, i as int)),
            acc as nat == hex_seq_num(s@.subrange(start as int, i as int)),
        decreases n - i,
    {
        let c = s.get_char(i);
        proof {
            assert(whole[i - start] == s@[i as int]);
        }
        if !is_hex_digit_exec(c) {
            return None;
        }
        let d = hex_digit_val_exec(c);
        let ghost pre = s@.subrange(start as int, i as int);
        let ghost ext = s@.subrange(start as int, i + 1 as int);
        proof {
            assert(ext.drop_last() =~= pre);
            assert(ext.last() == s@[i as int]);
            assert(hex_seq_num(ext) == acc as nat * 16 + d as nat);
            assert(ext =~= whole.subrange(0, i - start + 1));
        }
        if acc > u64::MAX / 16 || acc * 16 > u64::MAX - d {
            proof {
                lemma_hex_prefix_le(whole, i - start + 1);
            }
            return None;
        }
        acc = acc * 16 + d;
        i = i + 1;
        proof {
            assert(forall|j: int| 0 <= j < i - start ==> whole[j] == s@[start + j]);
            assert(hex_seq_valid(s@.subrange(start as int, i as int)));
        }
    }
    proof {
        assert(s@.subrange(start as int, i as int) =~= whole);
    }
    Some(acc)
}

/// Parse the whole of `s` as an unsigned decimal number.  Returns the denoted
/// value exactly when `s` is nonempty, all digits, and the value fits in a
/// machine word.
pub fn parse_dec_u64(s: &str) -> (r: Option<u64>)
    ensures
        match r {
            Some(v) => {
                &&& s@.len() > 0
                &&& dec_seq_valid(s@)
                &&& dec_seq_num(s@) == v as nat
            },
            None => s@.len() == 0 || !dec_seq_valid(s@) || dec_seq_num(s@) > u64::MAX as nat,
        },
{
    let n = s.unicode_len();
    if n == 0 {
        return None;
    }
    let mut i: usize = 0;
    let mut acc: u64 = 0;
    while i < n
        invariant
            i <= n,
            n == s@.len(),
            dec_seq_valid(s@.subrange(0, i as int)),
            acc as nat == dec_seq_num(s@.subrange(0, i as int)),
        decreases n - i,
    {
        let c = s.get_char(i);
        if !('0' <= c && c <= '9') {
            proof {
                assert(!is_dec_digit(s@[i as int]));
            }
            return None;
        }
        let d = c as u64 - '0' as u64;
        let ghost pre = s@.subrange(0, i as int);
        let ghost ext = s@.subrange(0, i + 1 as int);
        proof {
            assert(ext.drop_last() =~= pre);
            assert(ext.last() == s@[i as int]);
            assert(dec_seq_num(ext) == acc as nat * 10 + d as nat);
        }
        if acc > u64::MAX / 10 || acc * 10 > u64::MAX - d {
            proof {
                lemma_dec_prefix_le(s@, i + 1);
                assert(s@.subrange(0, s@.len() as int) =~= s@);
            }
            return None;
        }
        acc = acc * 10 + d;
        i = i + 1;
    }
    proof {
        assert(s@.subrange(0, i as int) =~= s@);
    }
    Some(acc)
}

/// The needle matches inside the haystack at position `i`.
pub open spec fn match_at(s: Seq<char>, sub: Seq<char>, i: int) -> bool {
    0 <= i && i + sub.len() <= s.len() && s.subrange(i, i + sub.len()) == sub
}

/// The first match position of the needle at or after `i`, if any.
pub open spec fn find_from(s: Seq<char>, sub: Seq<char>, i: int) -> Option<int>
    decreases s.len() - i,
{
    if i < 0 || i + sub.len() > s.len() {
        None
    } else if sub.len() == 0 {
        Some(i)
    } else if match_at(s, sub, i) {
        Some(i)
    } else {
        find_from(s, sub, i + 1)
    }
}

/// The haystack holds the needle somewhere.
pub open spec fn contains_seq(s: Seq<char>, sub: Seq<char>) -> bool {
    find_from(s, sub, 0) is Some
}

/// Whether the needle matches inside the haystack at character position `i`.
fn match_at_exec(s: &str, sub: &str, i: usize, n: usize, m: usize) -> (r: bool)
    requires
        n == s@.len(),
        m == sub@.len(),
        i + m <= n,
    ensures
        r == match_at(s@, sub@, i as int),
{
    let mut j: usize = 0;
    while j < m
        invariant
            j <= m,
            n == s@.len(),
            m == sub@.len(),
            i + m <= n,
            forall|k: int| 0 <= k < j ==> s@[i + k] == sub@[k],
        decreases m - j,
    {
        if s.get_char(i + j) != sub.get_char(j) {
            proof {
                assert(s@.subrange(i as int, i + m) != sub@) by {
                    assert(s@.subrange(i as int, i + m)[j as int] != sub@[j as int]);
                }
            }
            return false;
        }
        j = j + 1;
    }
    proof {
        assert(s@.subrange(i as int, i + m) =~= sub@);
    }
    true
}

/// Find the first occurrence of `sub` in `s` at or after position `from`.
pub fn find_sub(s: &str, sub: &str, from: usize) -> (r: Option<usize>)
    requires
        sub@.len() >= 1,
    ensures
        match r {
            Some(k) => find_from(s@, sub@, from as int) == Some(k as int),
            None => find_from(s@, sub@, from as int) is None,
        },
{
    let n = s.unicode_len();
    let m = sub.unicode_len();
    if from > n || m > n - from {
        return None;
    }
    let mut i: usize = from;
    while i < n - m
        invariant
            n == s@.len(),
            m == sub@.len(),
            1 <= m <= n,
            from <= i <= n - m,
            find_from(s@, sub@, from as int) == find_from(s@, sub@, i as int),
        decreases n - i,
    {
        if match_at_exec(s, sub, i, n, m) {
            return Some(i);
        }
        i = i + 1;
    }
    if match_at_exec(s, sub, i, n, m) {
        proof {
            assert(find_from(s@, sub@, i as int) == Some(i as int));
        }
        Some(i)
    } else {
        proof {
            assert(find_from(s@, sub@, i + 1) is None);
        }
        None
    }
}

/// Substring search: whether `sub` occurs in `s`.
pub fn contains_sub(s: &str, sub: &str) -> (r: bool)
    ensures
        r == contains_seq(s@, sub@),
{
    let m = sub.unicode_len();
    if m == 0 {
        proof {
            assert(s@.subrange(0, 0) =~= sub@);
        }
        return true;
    }
    match find_sub(s, sub, 0) {
        Some(_) => true,
        None => false,
    }
}

/// A found match really is a match, and lies within bounds.
pub proof fn lemma_find_from_is_match(s: Seq<char>, sub: Seq<char>, i: int)
    requires
        sub.len() >= 1,
    ensures
        match find_from(s, sub, i) {
            Some(k) => i <= k && match_at(s, sub, k),
            None => true,
        },
    decreases s.len() - i,
{
    if i < 0 || i + sub.len() > s.len() {
    } else if match_at(s, sub, i) {
    } else {
        lemma_find_from_is_match(s, sub, i + 1);
    }
}

} // verus!
