//! The dynamically-typed document model.
//!
//! Call outputs, call arguments and the session's account snapshot are all
//! values of [`Json`]: a JSON-like tree of nulls, booleans, integers, text,
//! arrays and keyed objects.  Field lookup follows the first binding of a
//! key; a missing field reads as [`Json::Null`].

use vstd::prelude::*;
use vstd::string::*;

verus! {

/// A dynamically-typed document: the engine's view of call outputs, call
/// arguments and account snapshots.  Numbers are modelled as signed 64-bit
/// integers; a wider number in fetched data reads as null.
#[derive(Debug, PartialEq, Eq)]
pub enum Json {
    Null,
    Bool(bool),
    Int(i64),
    Str(String),
    Arr(Vec<Json>),
    Obj(Vec<(String, Json)>),
}

/// The value bound to `key` by the first matching field, or null.
pub open spec fn obj_lookup(fields: Seq<(String, Json)>, key: Seq<char>) -> Json
    decreases fields.len(),
{
    if fields.len() == 0 {
        Json::Null
    } else if fields[0].0@ == key {
        fields[0].1
    } else {
        obj_lookup(fields.skip(1), key)
    }
}

/// Field lookup: the value bound to `key` if `v` is an object with such a
/// field, null otherwise.
pub open spec fn spec_get(v: Json, key: Seq<char>) -> Json {
    match v {
        Json::Obj(fields) => obj_lookup(fields@, key),
        _ => Json::Null,
    }
}

/// The text of a value, when it is text.
pub open spec fn as_text_spec(v: Json) -> Option<Seq<char>> {
    match v {
        Json::Str(s) => Some(s@),
        _ => None,
    }
}

/// The integer of a value, when it is an integer.
pub open spec fn as_int_spec(v: Json) -> Option<i64> {
    match v {
        Json::Int(i) => Some(i),
        _ => None,
    }
}

/// Relies on str's `PartialEq`: two string slices are equal exactly when
/// their character sequences are.
#[verifier::external_body]
pub fn str_eq(a: &str, b: &str) -> (r: bool)
    ensures
        r == (a@ == b@),
{
    a == b
}

impl Json {
    /// Field lookup; a missing field or a non-object reads as null.
    pub fn get<'a>(&'a self, key: &str) -> (r: &'a Json)
        ensures
            *r == spec_get(*self, key@),
    {
        match self {
            Json::Obj(fields) => {
                let n = fields.len();
                let mut i: usize = 0;
                proof {
                    assert(fields@.skip(0) =~= fields@);
                    assert(spec_get(*self, key@) == obj_lookup(fields@, key@));
                }
                while i < n
                    invariant
                        i <= n,
                        n == fields@.len(),
                        spec_get(*self, key@) == obj_lookup(fields@, key@),
                        obj_lookup(fields@, key@) == obj_lookup(fields@.skip(i as int), key@),
                    decreases n - i,
                {
                    if str_eq(fields[i].0.as_str(), key) {
                        proof {
                            assert(fields@.skip(i as int)[0] == fields@[i as int]);
                            assert(obj_lookup(fields@.skip(i as int), key@) == fields@[i as int].1);
                            assert(spec_get(*self, key@) == obj_lookup(fields@, key@));
                        }
                        return &fields[i].1;
                    }
                    proof {
                        assert(fields@.skip(i as int).skip(1) =~= fields@.skip(i + 1));
                        assert(fields@.skip(i as int)[0] == fields@[i as int]);
                    }
                    i = i + 1;
                }
                proof {
                    assert(fields@.skip(i as int).len() == 0);
                }
                &Json::Null
            },
            _ => &Json::Null,
        }
    }

    /// The text of the value, when it is text.
    pub fn as_str<'a>(&'a self) -> (r: Option<&'a String>)
        ensures
            match r {
                Some(s) => as_text_spec(*self) == Some(s@),
                None => as_text_spec(*self) is None,
            },
    {
        match self {
            Json::Str(s) => Some(s),
            _ => None,
        }
    }

    /// The integer of the value, when it is an integer.
    pub fn as_i64(&self) -> (r: Option<i64>)
        ensures
            r == as_int_spec(*self),
    {
        match self {
            Json::Int(i) => Some(*i),
            _ => None,
        }
    }

    /// Whether the value is null.
    pub fn is_null(&self) -> (r: bool)
        ensures
            r == (*self is Null),
    {
        match self {
            Json::Null => true,
            _ => false,
        }
    }
}

/// An object with a single text field: `{key: text}`.
pub fn obj1_text(key: &str, text: &String) -> (r: Json)
    ensures
        ({
            &&& r matches Json::Obj(fields)
            &&& fields@.len() == 1
            &&& fields@[0].0@ == key@
            &&& fields@[0].1 matches Json::Str(t) && t@ == text@
        }),
        as_text_spec(spec_get(r, key@)) == Some(text@),
{
    let fields = vec![(String::from_str(key), Json::Str(text.clone()))];
    proof {
        assert(obj_lookup(fields@, key@) == fields@[0].1);
    }
    Json::Obj(fields)
}

/// An object with a single integer field: `{key: n}`.
pub fn obj1_int(key: &str, n: i64) -> (r: Json)
    ensures
        ({
            &&& r matches Json::Obj(fields)
            &&& fields@.len() == 1
            &&& fields@[0].0@ == key@
            &&& fields@[0].1 == Json::Int(n)
        }),
        spec_get(r, key@) == Json::Int(n),
{
    let fields = vec![(String::from_str(key), Json::Int(n))];
    proof {
        assert(obj_lookup(fields@, key@) == fields@[0].1);
    }
    Json::Obj(fields)
}

/// The text of one character in a rendered string: quote, backslash and
/// the named control characters are escaped by letter, the remaining
/// control characters numerically, everything else stands.
pub open spec fn esc_char(c: char) -> Seq<char> {
    if c == '"' { seq!['\\', '"'] } else if c == '\\' { seq!['\\', '\\'] }
    else if c == '\n' { seq!['\\', 'n'] } else if c == '\r' { seq!['\\', 'r'] }
    else if c == '\t' { seq!['\\', 't'] }
    else if (c as nat) < 32 {
        seq!['\\', 'u', '0', '0', crate::codec::hexdig_char((c as nat) / 16),
            crate::codec::hexdig_char((c as nat) % 16)]
    } else { seq![c] }
}

/// The escaped rendering of a string's characters.
pub open spec fn esc_text(s: Seq<char>) -> Seq<char>
    decreases s.len(),
{
    if s.len() == 0 {
        Seq::empty()
    } else {
        esc_char(s[0]) + esc_text(s.skip(1))
    }
}

/// The decimal rendering of a signed integer.
pub open spec fn dec_int_text(i: int) -> Seq<char> {
    if i < 0 {
        seq!['-'] + crate::strutil::dec_digits((-i) as nat)
    } else {
        crate::strutil::dec_digits(i as nat)
    }
}

/// The rendering of a document as JSON text.
pub open spec fn json_text(v: Json) -> Seq<char>
    decreases v, 0int,
{
    match v {
        Json::Null => "null"@,
        Json::Bool(b) => if b {
            "true"@
        } else {
            "false"@
        },
        Json::Int(i) => dec_int_text(i as int),
        Json::Str(s) => seq!['"'] + esc_text(s@) + seq!['"'],
        Json::Arr(items) => seq!['['] + arr_text(items@) + seq![']'],
        Json::Obj(fields) => seq!['{'] + obj_text(fields@) + seq!['}'],
    }
}

/// The comma-separated renderings of array members.
pub open spec fn arr_text(items: Seq<Json>) -> Seq<char>
    decreases items, items.len(),
{
    if items.len() == 0 {
        Seq::empty()
    } else if items.len() == 1 {
        json_text(items[0])
    } else {
        json_text(items[0]) + seq![','] + arr_text(items.skip(1))
    }
}

/// The comma-separated renderings of object fields.
pub open spec fn obj_text(fields: Seq<(String, Json)>) -> Seq<char>
    decreases fields, fields.len(),
{
    if fields.len() == 0 {
        Seq::empty()
    } else {
        let head = seq!['"'] + esc_text(fields[0].0@) + seq!['"', ':'] + json_text(fields[0].1);
        if fields.len() == 1 {
            head
        } else {
            head + seq![','] + obj_text(fields.skip(1))
        }
    }
}

fn esc_tail(s: &str, pos: usize, n: usize) -> (r: String)
    requires
        n == s@.len(),
        pos <= n,
    ensures
        r@ == esc_text(s@.skip(pos as int)),
    decreases n - pos,
{
    let ghost t = s@.skip(pos as int);
    if pos == n {
        String::new()
    } else {
        let c = s.get_char(pos);
        proof {
            assert(t[0] == s@[pos as int]);
            assert(t.skip(1) =~= s@.skip(pos as int + 1));
        }
        let mut piece: String;
        if c == '"' {
            piece = String::from_str("\\\"");
            proof {
                reveal_strlit("\\\"");
                assert("\\\""@ =~= seq!['\\', '"']);
            }
        } else if c == '\\' {
            piece = String::from_str("\\\\");
            proof {
                reveal_strlit("\\\\");
                assert("\\\\"@ =~= seq!['\\', '\\']);
            }
        } else if c == '\n' {
            piece = String::from_str("\\n");
            proof {
                reveal_strlit("\\n");
                assert("\\n"@ =~= seq!['\\', 'n']);
            }
        } else if c == '\r' {
            piece = String::from_str("\\r");
            proof {
                reveal_strlit("\\r");
                assert("\\r"@ =~= seq!['\\', 'r']);
            }
        } else if c == '\t' {
            piece = String::from_str("\\t");
            proof {
                reveal_strlit("\\t");
                assert("\\t"@ =~= seq!['\\', 't']);
            }
        } else if (c as u32) < 32 {
            let d = c as u32;
            piece = String::from_str("\\u00");
            proof {
                reveal_strlit("\\u00");
                assert("\\u00"@ =~= seq!['\\', 'u', '0', '0']);
            }
            piece.append(crate::codec::hexdig_str((d / 16) as u64));
            piece.append(crate::codec::hexdig_str((d % 16) as u64));
        } else {
            piece = crate::codec::char_str(c);
        }
        let rest = esc_tail(s, pos + 1, n);
        piece.append(rest.as_str());
        piece
    }
}

fn arr_to_text(items: &Vec<Json>, i: usize) -> (r: String)
    requires
        i <= items@.len(),
    ensures
        r@ == arr_text(items@.skip(i as int)),
    decreases items@, items@.len() - i,
{
    let ghost t = items@.skip(i as int);
    let n = items.len();
    if i == n {
        String::new()
    } else {
        proof {
            assert(t[0] == items@[i as int]);
            assert(t.skip(1) =~= items@.skip(i as int + 1));
        }
        let mut s = items[i].to_text();
        if i + 1 < n {
            s.append(",");
            proof {
                reveal_strlit(",");
                assert(","@ =~= seq![',']);
            }
            let rest = arr_to_text(items, i + 1);
            s.append(rest.as_str());
        }
        s
    }
}

fn obj_to_text(fields: &Vec<(String, Json)>, i: usize) -> (r: String)
    requires
        i <= fields@.len(),
    ensures
        r@ == obj_text(fields@.skip(i as int)),
    decreases fields@, fields@.len() - i,
{
    let ghost t = fields@.skip(i as int);
    let n = fields.len();
    if i == n {
        String::new()
    } else {
        proof {
            assert(t[0] == fields@[i as int]);
            assert(t.skip(1) =~= fields@.skip(i as int + 1));
            reveal_strlit("\"");
            assert("\""@ =~= seq!['"']);
            reveal_strlit("\":");
            assert("\":"@ =~= seq!['"', ':']);
        }
        let key = &fields[i].0;
        let kn = key.as_str().unicode_len();
        let mut s = String::from_str("\"");
        let esc = esc_tail(key.as_str(), 0, kn);
        s.append(esc.as_str());
        s.append("\":");
        proof {
            assert(key@.skip(0) =~= key@);
        }
        let val = fields[i].1.to_text();
        s.append(val.as_str());
        if i + 1 < n {
            s.append(",");
            proof {
                reveal_strlit(",");
                assert(","@ =~= seq![',']);
            }
            let rest = obj_to_text(fields, i + 1);
            s.append(rest.as_str());
        }
        s
    }
}

impl Json {
    /// Render the document as JSON text (see `json_text`).
    pub fn to_text(&self) -> (r: String)
        ensures
            r@ == json_text(*self),
        decreases *self, 0int,
    {
        match self {
            Json::Null => String::from_str("null"),
            Json::Bool(b) => if *b {
                String::from_str("true")
            } else {
                String::from_str("false")
            },
            Json::Int(i) => {
                if *i >= 0 {
                    crate::strutil::u64_to_dec(*i as u64)
                } else {
                    let mut s = String::from_str("-");
                    proof {
                        reveal_strlit("-");
                        assert("-"@ =~= seq!['-']);
                    }
                    let m: u64 = if *i == i64::MIN {
                        9223372036854775808u64
                    } else {
                        (-*i) as u64
                    };
                    s.append(crate::strutil::u64_to_dec(m).as_str());
                    s
                }
            },
            Json::Str(t) => {
                let mut s = String::from_str("\"");
                proof {
                    reveal_strlit("\"");
                    assert("\""@ =~= seq!['"']);
                    assert(t@.skip(0) =~= t@);
                }
                let n = t.as_str().unicode_len();
                let esc = esc_tail(t.as_str(), 0, n);
                s.append(esc.as_str());
                s.append("\"");
                s
            },
            Json::Arr(items) => {
                let mut s = String::from_str("[");
                proof {
                    reveal_strlit("[");
                    assert("["@ =~= seq!['[']);
                    reveal_strlit("]");
                    assert("]"@ =~= seq![']']);
                    assert(items@.skip(0) =~= items@);
                }
                let body = arr_to_text(items, 0);
                s.append(body.as_str());
                s.append("]");
                s
            },
            Json::Obj(fields) => {
                let mut s = String::from_str("{");
                proof {
                    reveal_strlit("{");
                    assert("{"@ =~= seq!['{']);
                    reveal_strlit("}");
                    assert("}"@ =~= seq!['}']);
                    assert(fields@.skip(0) =~= fields@);
                }
                let body = obj_to_text(fields, 0);
                s.append(body.as_str());
                s.append("}");
                s
            },
        }
    }
}

/// The empty object: `{}`.
pub fn obj_empty() -> (r: Json)
    ensures
        r matches Json::Obj(fields) && fields@.len() == 0,
        forall|k: Seq<char>| spec_get(r, k) == Json::Null,
{
    Json::Obj(Vec::new())
}

} // verus!
