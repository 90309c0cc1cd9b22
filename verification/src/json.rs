//! JSON support for the crate.
//!
//! A parsed document is held as a [`JsonVal`]: a tree of plain values that
//! the verified code can read and that contracts can speak of exactly.
//! Parsing goes through `serde_json` behind a trusted wrapper whose result
//! is named [`json_of`], so every decode downstream is a stated function
//! of the body text.  Request bodies are written directly as JSON text by
//! verified functions whose contracts give the produced characters
//! exactly.

use vstd::prelude::*;
use vstd::string::StrSliceExecFns;
use vstd::string::StringExecFns;

use crate::text::dec_digit;
use crate::text::str_eq;

verus! {

/// One JSON document, as plain values.
#[derive(Debug, PartialEq, Eq)]
pub enum JsonVal {
    /// JSON `null`.
    Null,
    /// A JSON boolean.
    Bool(bool),
    /// A JSON number that is an integer in the signed 64-bit range — the
    /// only numbers the service's documented shapes use.
    Int(i64),
    /// Any other JSON number (fractional, or outside the signed 64-bit
    /// range).  Its value is not kept: no decoder reads one.
    OtherNum,
    /// A JSON string.
    Text(String),
    /// A JSON array, in order.
    Arr(Vec<JsonVal>),
    /// A JSON object: its fields in the order the parser hands them out.
    Obj(Vec<(String, JsonVal)>),
}

/// The document a text parses as, and `None` when the text is not
/// well-formed JSON.
pub uninterp spec fn json_of(s: Seq<char>) -> Option<JsonVal>;

#[verifier::external_type_specification]
#[verifier::external_body]
pub struct ExValue(serde_json::Value);

/// Relies on `serde_json::Value`: each variant carried over to its plain
/// model, one arm per variant; a number outside the signed 64-bit
/// integers becomes [`JsonVal::OtherNum`].  Serves only [`parse_json`].
#[verifier::external_body]
fn value_to_model(v: &serde_json::Value) -> JsonVal {
    match v {
        serde_json::Value::Null => JsonVal::Null,
        serde_json::Value::Bool(b) => JsonVal::Bool(*b),
        serde_json::Value::Number(n) => match n.as_i64() {
            Some(i) => JsonVal::Int(i),
            None => JsonVal::OtherNum,
        },
        serde_json::Value::String(s) => JsonVal::Text(s.clone()),
        serde_json::Value::Array(items) => JsonVal::Arr(items.iter().map(value_to_model).collect()),
        serde_json::Value::Object(fields) => JsonVal::Obj(
            fields.iter().map(|(k, f)| (k.clone(), value_to_model(f))).collect(),
        ),
    }
}

/// Relies on `serde_json::from_str`: parses one JSON document, or fails on
/// text that is not well-formed JSON.  Parsing and the variant-by-variant
/// conversion behind it depend on the text alone, so the result carries
/// the name [`json_of`].
#[verifier::external_body]
pub fn parse_json(s: &str) -> (r: Option<JsonVal>)
    ensures
        r == json_of(s@),
{
    match serde_json::from_str::<serde_json::Value>(s) {
        Ok(v) => Some(value_to_model(&v)),
        Err(_) => None,
    }
}

/// The value bound to a name in a field list: the first binding, as
/// `serde_json` keeps keys unique.
pub open spec fn binding_of(fields: Seq<(String, JsonVal)>, name: Seq<char>) -> Option<JsonVal>
    decreases fields.len(),
{
    if fields.len() == 0 {
        None
    } else if fields[0].0@ == name {
        Some(fields[0].1)
    } else {
        binding_of(fields.drop_first(), name)
    }
}

/// The value of the named field, when the document is an object that has
/// it.
pub open spec fn field_of(v: JsonVal, name: Seq<char>) -> Option<JsonVal> {
    match v {
        JsonVal::Obj(fields) => binding_of(fields@, name),
        _ => None,
    }
}

impl JsonVal {
    /// The named field of this document, when it is an object having one.
    #[verifier::loop_isolation(false)]
    pub fn get<'a>(&'a self, name: &str) -> (r: Option<&'a JsonVal>)
        ensures
            (match r {
                Some(f) => field_of(*self, name@) == Some(*f),
                None => field_of(*self, name@) is None,
            }),
    {
        match self {
            JsonVal::Obj(fields) => {
                let mut i: usize = 0;
                proof {
                    assert(fields@.subrange(0, fields@.len() as int) =~= fields@);
                }
                while i < fields.len()
                    invariant
                        i <= fields@.len(),
                        binding_of(fields@, name@) == binding_of(
                            fields@.subrange(i as int, fields@.len() as int),
                            name@,
                        ),
                    decreases fields@.len() - i,
                {
                    proof {
                        let tail = fields@.subrange(i as int, fields@.len() as int);
                        assert(tail[0] == fields@[i as int]);
                        assert(tail.drop_first() =~= fields@.subrange(
                            i + 1,
                            fields@.len() as int,
                        ));
                    }
                    if str_eq(fields[i].0.as_str(), name) {
                        return Some(&fields[i].1);
                    }
                    i = i + 1;
                }
                proof {
                    assert(fields@.subrange(fields@.len() as int, fields@.len() as int)
                        =~= Seq::<(String, JsonVal)>::empty());
                }
                None
            },
            _ => None,
        }
    }
}

/// The named field, required to be a string.
pub open spec fn spec_req_string(v: JsonVal, name: Seq<char>) -> Option<String> {
    match field_of(v, name) {
        Some(JsonVal::Text(s)) => Some(s),
        _ => None,
    }
}

/// The named field, required to be an integer.
pub open spec fn spec_req_i64(v: JsonVal, name: Seq<char>) -> Option<i64> {
    match field_of(v, name) {
        Some(JsonVal::Int(i)) => Some(i),
        _ => None,
    }
}

/// The named field, required to be a boolean.
pub open spec fn spec_req_bool(v: JsonVal, name: Seq<char>) -> Option<bool> {
    match field_of(v, name) {
        Some(JsonVal::Bool(b)) => Some(b),
        _ => None,
    }
}

/// An optional string field: absent or `null` stands for no value, any
/// other non-string value for a shape mismatch (the outer `None`).
pub open spec fn spec_opt_string(v: JsonVal, name: Seq<char>) -> Option<Option<String>> {
    match field_of(v, name) {
        None => Some(None),
        Some(JsonVal::Null) => Some(None),
        Some(JsonVal::Text(s)) => Some(Some(s)),
        Some(_) => None,
    }
}

/// An optional integer field, read as [`spec_opt_string`] is.
pub open spec fn spec_opt_i64(v: JsonVal, name: Seq<char>) -> Option<Option<i64>> {
    match field_of(v, name) {
        None => Some(None),
        Some(JsonVal::Null) => Some(None),
        Some(JsonVal::Int(i)) => Some(Some(i)),
        Some(_) => None,
    }
}

/// The documents under a named list field: absent or `null` stands for no
/// list, a non-list value for a shape mismatch (the outer `None`).
pub open spec fn spec_list_docs(v: JsonVal, name: Seq<char>) -> Option<Option<Seq<JsonVal>>> {
    match field_of(v, name) {
        None => Some(None),
        Some(JsonVal::Null) => Some(None),
        Some(JsonVal::Arr(items)) => Some(Some(items@)),
        Some(_) => None,
    }
}

/// The named field of an object, required to be a string.
pub(crate) fn req_string(v: &JsonVal, name: &str) -> (r: Option<String>)
    ensures
        r == spec_req_string(*v, name@),
{
    match v.get(name) {
        Some(JsonVal::Text(s)) => Some(s.clone()),
        _ => None,
    }
}

/// The named field of an object, required to be an integer.
pub(crate) fn req_i64(v: &JsonVal, name: &str) -> (r: Option<i64>)
    ensures
        r == spec_req_i64(*v, name@),
{
    match v.get(name) {
        Some(JsonVal::Int(i)) => Some(*i),
        _ => None,
    }
}

/// The named field of an object, required to be a boolean.
pub(crate) fn req_bool(v: &JsonVal, name: &str) -> (r: Option<bool>)
    ensures
        r == spec_req_bool(*v, name@),
{
    match v.get(name) {
        Some(JsonVal::Bool(b)) => Some(*b),
        _ => None,
    }
}

/// An optional string field, as [`spec_opt_string`] reads it.
pub(crate) fn opt_string(v: &JsonVal, name: &str) -> (r: Option<Option<String>>)
    ensures
        r == spec_opt_string(*v, name@),
{
    match v.get(name) {
        None => Some(None),
        Some(JsonVal::Null) => Some(None),
        Some(JsonVal::Text(s)) => Some(Some(s.clone())),
        Some(_) => None,
    }
}

/// An optional integer field, as [`spec_opt_i64`] reads it.
pub(crate) fn opt_i64(v: &JsonVal, name: &str) -> (r: Option<Option<i64>>)
    ensures
        r == spec_opt_i64(*v, name@),
{
    match v.get(name) {
        None => Some(None),
        Some(JsonVal::Null) => Some(None),
        Some(JsonVal::Int(i)) => Some(Some(*i)),
        Some(_) => None,
    }
}

/// The hexadecimal digit character for a value below sixteen.
pub open spec fn hex_digit(d: nat) -> char {
    if d < 10 {
        dec_digit(d)
    } else if d == 10 {
        'a'
    } else if d == 11 {
        'b'
    } else if d == 12 {
        'c'
    } else if d == 13 {
        'd'
    } else if d == 14 {
        'e'
    } else {
        'f'
    }
}

/// How one character is written inside a JSON string literal: quotes and
/// backslashes get a backslash escape, control characters a `\u00..`
/// escape, and every other character stands for itself.
pub open spec fn json_escaped_char(c: char) -> Seq<char> {
    if c == '"' {
        seq!['\\', '"']
    } else if c == '\\' {
        seq!['\\', '\\']
    } else if (c as nat) < 32 {
        seq!['\\', 'u', '0', '0', hex_digit((c as nat) / 16), hex_digit((c as nat) % 16)]
    } else {
        seq![c]
    }
}

/// The body of a JSON string literal: each character escaped in turn.
pub open spec fn json_escaped(s: Seq<char>) -> Seq<char>
    decreases s.len(),
{
    if s.len() == 0 {
        Seq::empty()
    } else {
        json_escaped_char(s[0]) + json_escaped(s.drop_first())
    }
}

/// A complete JSON string literal: the escaped text between double quotes.
pub open spec fn json_string(s: Seq<char>) -> Seq<char> {
    seq!['"'] + json_escaped(s) + seq!['"']
}

proof fn lemma_json_escaped_push(s: Seq<char>, c: char)
    ensures
        json_escaped(s.push(c)) == json_escaped(s) + json_escaped_char(c),
    decreases s.len(),
{
    if s.len() == 0 {
        assert(s.push(c).drop_first() =~= s);
        assert(json_escaped(s.push(c)) =~= json_escaped(s) + json_escaped_char(c));
    } else {
        assert(s.push(c).drop_first() =~= s.drop_first().push(c));
        lemma_json_escaped_push(s.drop_first(), c);
        assert(json_escaped(s.push(c)) =~= json_escaped(s) + json_escaped_char(c));
    }
}

fn hex_digit_str(d: u8) -> (r: &'static str)
    requires
        d < 16,
    ensures
        r@ == seq![hex_digit(d as nat)],
{
    let r: &'static str = match d {
        0 => "0",
        1 => "1",
        2 => "2",
        3 => "3",
        4 => "4",
        5 => "5",
        6 => "6",
        7 => "7",
        8 => "8",
        9 => "9",
        10 => "a",
        11 => "b",
        12 => "c",
        13 => "d",
        14 => "e",
        _ => "f",
    };
    proof {
        reveal_strlit("0");
        reveal_strlit("1");
        reveal_strlit("2");
        reveal_strlit("3");
        reveal_strlit("4");
        reveal_strlit("5");
        reveal_strlit("6");
        reveal_strlit("7");
        reveal_strlit("8");
        reveal_strlit("9");
        reveal_strlit("a");
        reveal_strlit("b");
        reveal_strlit("c");
        reveal_strlit("d");
        reveal_strlit("e");
        reveal_strlit("f");
        assert(r@ =~= seq![hex_digit(d as nat)]);
    }
    r
}

/// Write a text as a JSON string literal, quotes and escapes included.
pub fn json_quote(s: &str) -> (r: String)
    ensures
        r@ == json_string(s@),
{
    let len = s.unicode_len();
    let mut out = String::from_str("\"");
    proof {
        reveal_strlit("\"");
        assert(out@ =~= seq!['"'] + json_escaped(s@.subrange(0, 0)));
    }
    let mut i: usize = 0;
    while i < len
        invariant
            len == s@.len(),
            i <= len,
            out@ == seq!['"'] + json_escaped(s@.subrange(0, i as int)),
        decreases len - i,
    {
        let c = s.get_char(i);
        proof {
            assert(s@.subrange(0, i + 1) =~= s@.subrange(0, i as int).push(c));
            lemma_json_escaped_push(s@.subrange(0, i as int), c);
        }
        if c == '"' {
            out.append("\\\"");
            proof {
                reveal_strlit("\\\"");
                assert(out@ =~= seq!['"'] + json_escaped(s@.subrange(0, i + 1)));
            }
        } else if c == '\\' {
            out.append("\\\\");
            proof {
                reveal_strlit("\\\\");
                assert(out@ =~= seq!['"'] + json_escaped(s@.subrange(0, i + 1)));
            }
        } else if (c as u32) < 32 {
            let code: u8 = (c as u32) as u8;
            out.append("\\u00");
            out.append(hex_digit_str(code / 16));
            out.append(hex_digit_str(code % 16));
            proof {
                reveal_strlit("\\u00");
                assert(out@ =~= seq!['"'] + json_escaped(s@.subrange(0, i + 1)));
            }
        } else {
            let piece = s.substring_char(i, i + 1);
            out.append(piece);
            proof {
                assert(piece@ =~= json_escaped_char(c));
                assert(out@ =~= seq!['"'] + json_escaped(s@.subrange(0, i + 1)));
            }
        }
        i = i + 1;
    }
    out.append("\"");
    proof {
        reveal_strlit("\"");
        assert(s@.subrange(0, len as int) =~= s@);
        assert(out@ =~= json_string(s@));
    }
    out
}


} // verus!
