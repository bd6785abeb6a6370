//! A mathematical model of JSON documents, and the trusted boundary to
//! `serde_json`, which does the actual parsing.
//!
//! [`JsonData`] is the specification-level shape of a parsed document. A
//! `serde_json::Value` is opaque to Verus, so its contents are named by
//! [`json_view`], and what parsing a given text yields is named by
//! [`json_parse`]: parsing is a function of the text alone, so the name is
//! sound, and every accessor below is specified against the same two names.
//! Numbers are modelled only as far as the feed needs them: a JSON number
//! either is or is not exactly representable as a `u64` (cursors are), and
//! nothing else about it is tracked.

use vstd::prelude::*;

verus! {

/// The shape of a parsed JSON document.
///
/// `Num`'s `int_val` is `Some(n)` exactly when the number is an integer that
/// fits a `u64`; other numbers (negative, fractional, huge) carry no value.
pub enum JsonData {
    Null,
    Bool { b: bool },
    Num { int_val: Option<u64> },
    Str { s: Seq<char> },
    Arr { items: Seq<JsonData> },
    Obj { fields: Map<Seq<char>, JsonData> },
}

#[verifier::external_type_specification]
#[verifier::external_body]
pub struct ExValue(serde_json::Value);

/// The contents of a `serde_json::Value`, as the model sees them.
pub uninterp spec fn json_view(v: serde_json::Value) -> JsonData;

/// What parsing a text as one JSON document yields: the document, or nothing
/// when the text is not valid JSON. Parsing is deterministic, so this is a
/// function of the text.
pub uninterp spec fn json_parse(text: Seq<char>) -> Option<JsonData>;

/// Relies on `serde_json::from_str::<Value>`: parses the text as a single
/// JSON document, failing exactly on invalid input.
#[verifier::external_body]
pub fn parse_json(text: &str) -> (r: Option<serde_json::Value>)
    ensures
        match r {
            Some(v) => json_parse(text@) == Some(json_view(v)),
            None => json_parse(text@) is None,
        },
{
    serde_json::from_str::<serde_json::Value>(text).ok()
}

/// Relies on `serde_json::Value::get` with a string index: looks the key up
/// when the value is an object, and returns nothing otherwise.
#[verifier::external_body]
pub fn get_member<'a>(v: &'a serde_json::Value, key: &str) -> (r: Option<&'a serde_json::Value>)
    ensures
        match r {
            Some(m) => json_view(*v) is Obj && json_view(*v)->Obj_fields.contains_key(key@)
                && json_view(*m) == json_view(*v)->Obj_fields[key@],
            None => !(json_view(*v) is Obj) || !json_view(*v)->Obj_fields.contains_key(key@),
        },
{
    v.get(key)
}

/// Relies on `serde_json::Value::as_str`: the string contents, for a string.
#[verifier::external_body]
pub fn value_as_str<'a>(v: &'a serde_json::Value) -> (r: Option<&'a str>)
    ensures
        match r {
            Some(s) => json_view(*v) == (JsonData::Str { s: s@ }),
            None => !(json_view(*v) is Str),
        },
{
    v.as_str()
}

/// Relies on `serde_json::Value::as_u64`: the value of a number that is
/// exactly a `u64`, and nothing for any other value.
#[verifier::external_body]
pub fn value_as_u64(v: &serde_json::Value) -> (r: Option<u64>)
    ensures
        match r {
            Some(n) => json_view(*v) == (JsonData::Num { int_val: Some(n) }),
            None => !(json_view(*v) is Num) || json_view(*v)->Num_int_val is None,
        },
{
    v.as_u64()
}

/// Relies on `serde_json::Value::is_object`.
#[verifier::external_body]
pub fn value_is_object(v: &serde_json::Value) -> (r: bool)
    ensures
        r == (json_view(*v) is Obj),
{
    v.is_object()
}

/// Relies on `serde_json::Value::clone`: a copy with the same contents.
#[verifier::external_body]
pub fn clone_value(v: &serde_json::Value) -> (r: serde_json::Value)
    ensures
        json_view(r) == json_view(*v),
{
    v.clone()
}

/// Relies on `std::str::from_utf8`: succeeds exactly on valid UTF-8, and the
/// resulting string is the decoding of the bytes.
#[verifier::external_body]
pub fn bytes_as_utf8(bytes: &[u8]) -> (r: Option<&str>)
    ensures
        match r {
            Some(s) => vstd::utf8::valid_utf8(bytes@) && s@ == vstd::utf8::decode_utf8(bytes@),
            None => !vstd::utf8::valid_utf8(bytes@),
        },
{
    std::str::from_utf8(bytes).ok()
}

/// String equality, decided byte by byte on the UTF-8 encodings.
pub fn str_eq(a: &str, b: &str) -> (r: bool)
    ensures
        r == (a@ == b@),
{
    let ab = a.as_bytes();
    let bb = b.as_bytes();
    proof {
        broadcast use vstd::utf8::encode_utf8_decode_utf8;

    }
    if ab.len() != bb.len() {
        proof {
            assert(a@ != b@);
        }
        return false;
    }
    let n = ab.len();
    let mut i: usize = 0;
    while i < n
        invariant
            0 <= i <= n,
            n == ab@.len() == bb@.len(),
            ab@ == vstd::utf8::encode_utf8(a@),
            bb@ == vstd::utf8::encode_utf8(b@),
            forall|j: int| 0 <= j < i ==> ab@[j] == bb@[j],
        decreases n - i,
    {
        if ab[i] != bb[i] {
            proof {
                assert(vstd::utf8::encode_utf8(a@) != vstd::utf8::encode_utf8(b@));
            }
            return false;
        }
        i = i + 1;
    }
    proof {
        assert(ab@ =~= bb@);
        broadcast use vstd::utf8::encode_utf8_decode_utf8;

        assert(vstd::utf8::decode_utf8(vstd::utf8::encode_utf8(a@)) == a@);
        assert(vstd::utf8::decode_utf8(vstd::utf8::encode_utf8(b@)) == b@);
    }
    true
}

} // verus!
