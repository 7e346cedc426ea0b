//! JSON request bodies, assembled from serde_json's string literals.
use vstd::prelude::*;
use crate::request::opt_text;
use crate::text::{joined, texts, join, decimal, decimal_text, bool_text, bool_string};

verus! {

/// The JSON string literal of a text: quoted, with the characters that JSON
/// requires escaped, as serde_json writes it.
pub uninterp spec fn json_string_of(s: Seq<char>) -> Seq<char>;

/// Relies on `serde_json::to_string` for a `str`: it writes the JSON string
/// literal of the text. Serializing a `str` into memory does not fail.
#[verifier::external_body]
pub(crate) fn json_string(s: &str) -> (r: String)
    ensures
        r@ == json_string_of(s@),
{
    match serde_json::to_string(s) {
        Ok(t) => t,
        Err(_) => String::new(),
    }
}

/// A JSON array of values already written as JSON.
pub open spec fn json_array(values: Seq<Seq<char>>) -> Seq<char> {
    "["@ + joined(values, ","@) + "]"@
}

/// A JSON object of members already written as `"key":value`.
pub open spec fn json_object(members: Seq<Seq<char>>) -> Seq<char> {
    "{"@ + joined(members, ","@) + "}"@
}

/// One member of a JSON object.
pub open spec fn json_member(key: Seq<char>, value: Seq<char>) -> Seq<char> {
    json_string_of(key) + ":"@ + value
}

/// The JSON string literals of some texts.
pub open spec fn json_strings(v: Seq<Seq<char>>) -> Seq<Seq<char>> {
    v.map_values(|s: Seq<char>| json_string_of(s))
}

/// The JSON numbers of some integers.
pub open spec fn json_numbers(v: Seq<u32>) -> Seq<Seq<char>> {
    v.map_values(|n: u32| decimal(n as nat))
}

pub fn array(values: &Vec<String>) -> (r: String)
    ensures
        r@ == json_array(texts(values@)),
{
    let mut r = String::from_str("[");
    let inner = join(values, ",");
    r.append(inner.as_str());
    r.append("]");
    r
}

pub fn object(members: &Vec<String>) -> (r: String)
    ensures
        r@ == json_object(texts(members@)),
{
    let mut r = String::from_str("{");
    let inner = join(members, ",");
    r.append(inner.as_str());
    r.append("}");
    r
}

pub fn member(key: &str, value: String) -> (r: String)
    ensures
        r@ == json_member(key@, value@),
{
    let mut r = json_string(key);
    r.append(":");
    r.append(value.as_str());
    r
}

/// A JSON array of strings.
pub fn string_array(values: &Vec<String>) -> (r: String)
    ensures
        r@ == json_array(json_strings(texts(values@))),
{
    let mut quoted: Vec<String> = Vec::new();
    let mut i: usize = 0;
    while i < values.len()
        invariant
            i <= values.len(),
            texts(quoted@) == json_strings(texts(values@.subrange(0, i as int))),
        decreases values.len() - i,
    {
        let ghost q0 = texts(quoted@);
        quoted.push(json_string(values[i].as_str()));
        assert(texts(quoted@) =~= q0.push(json_string_of(values@[i as int]@)));
        assert(json_strings(texts(values@.subrange(0, i + 1))) =~= json_strings(
            texts(values@.subrange(0, i as int)),
        ).push(json_string_of(values@[i as int]@)));
        i += 1;
    }
    assert(values@.subrange(0, values.len() as int) =~= values@);
    array(&quoted)
}

/// A JSON array of integers.
pub fn number_array(values: &Vec<u32>) -> (r: String)
    ensures
        r@ == json_array(json_numbers(values@)),
{
    let mut numerals: Vec<String> = Vec::new();
    let mut i: usize = 0;
    while i < values.len()
        invariant
            i <= values.len(),
            texts(numerals@) == json_numbers(values@.subrange(0, i as int)),
        decreases values.len() - i,
    {
        let ghost q0 = texts(numerals@);
        numerals.push(decimal_text(values[i] as u64));
        assert(texts(numerals@) =~= q0.push(decimal(values@[i as int] as nat)));
        assert(json_numbers(values@.subrange(0, i + 1)) =~= json_numbers(values@.subrange(0, i as int)).push(
            decimal(values@[i as int] as nat),
        ));
        i += 1;
    }
    assert(values@.subrange(0, values.len() as int) =~= values@);
    array(&numerals)
}

/// A string member, `"key":"value"`.
pub fn string_member(key: &str, value: &str) -> (r: String)
    ensures
        r@ == json_member(key@, json_string_of(value@)),
{
    member(key, json_string(value))
}

/// A number member, `"key":n`.
pub fn number_member(key: &str, value: u64) -> (r: String)
    ensures
        r@ == json_member(key@, decimal(value as nat)),
{
    member(key, decimal_text(value))
}

/// A boolean member, `"key":true` or `"key":false`.
pub fn bool_member(key: &str, value: bool) -> (r: String)
    ensures
        r@ == json_member(key@, bool_text(value)),
{
    member(key, bool_string(value))
}

/// The body `{"ids":[...]}` of a write on a list of ids.
pub open spec fn ids_body(ids: Seq<Seq<char>>) -> Seq<char> {
    json_object(seq![json_member("ids"@, json_array(json_strings(ids)))])
}

pub fn ids_document(ids: &Vec<String>) -> (r: String)
    ensures
        r@ == ids_body(texts(ids@)),
{
    let mut members: Vec<String> = Vec::new();
    members.push(member("ids", string_array(ids)));
    assert(texts(members@) =~= seq![json_member("ids"@, json_array(json_strings(texts(ids@))))]);
    object(&members)
}

/// The member `"key":value` if a value is given, else nothing.
pub open spec fn opt_member(key: Seq<char>, value: Option<Seq<char>>) -> Seq<Seq<char>> {
    match value {
        Some(v) => seq![json_member(key, v)],
        None => Seq::empty(),
    }
}

pub open spec fn opt_json_string(o: Option<String>) -> Option<Seq<char>> {
    match o {
        Some(s) => Some(json_string_of(s@)),
        None => None,
    }
}

pub open spec fn opt_json_bool(o: Option<bool>) -> Option<Seq<char>> {
    match o {
        Some(b) => Some(bool_text(b)),
        None => None,
    }
}

pub open spec fn opt_json_number(o: Option<u32>) -> Option<Seq<char>> {
    match o {
        Some(n) => Some(decimal(n as nat)),
        None => None,
    }
}

/// Appends the member `"key":value` if a value is given.
pub fn push_member(members: &mut Vec<String>, key: &str, value: Option<String>)
    ensures
        texts(final(members)@) == texts(old(members)@) + opt_member(key@, opt_text(value)),
{
    match value {
        Some(v) => members.push(member(key, v)),
        None => {},
    }
    assert(texts(final(members)@) =~= texts(old(members)@) + opt_member(key@, opt_text(value)));
}

pub fn quoted_opt(o: &Option<String>) -> (r: Option<String>)
    ensures
        opt_text(r) == opt_json_string(*o),
{
    match o {
        Some(s) => Some(json_string(s.as_str())),
        None => None,
    }
}

pub fn bool_opt(o: Option<bool>) -> (r: Option<String>)
    ensures
        opt_text(r) == opt_json_bool(o),
{
    match o {
        Some(b) => Some(bool_string(b)),
        None => None,
    }
}

pub fn number_opt(o: Option<u32>) -> (r: Option<String>)
    ensures
        opt_text(r) == opt_json_number(o),
{
    match o {
        Some(n) => Some(decimal_text(n as u64)),
        None => None,
    }
}

} // verus!
