use vstd::prelude::*;
use vstd::string::StringSliceAdditionalSpecFns;
use crate::text::starts_with;

verus! {

broadcast use vstd::utf8::encode_utf8_decode_utf8;

/// A JSON document, as far as the providers' answers are read.
#[derive(Debug, PartialEq, Eq)]
pub enum Json {
    Null,
    Bool(bool),
    /// A number that fits an `i64`.
    Int(i64),
    /// Any other number.
    Number,
    Str(String),
    Array(Vec<Json>),
    /// An object's members, in the order serde_json's map yields them.
    Object(Vec<(String, Json)>),
}

#[verifier::external_type_specification]
#[verifier::external_body]
pub struct ExValue(serde_json::Value);

/// The document that `body` holds, if it is well-formed JSON.
pub uninterp spec fn json_of(body: Seq<u8>) -> Option<Json>;

/// Relies on serde_json::from_slice::<serde_json::Value>: reads `body` as one JSON
/// document; the outcome depends on the bytes alone.
#[verifier::external_body]
pub(crate) fn parse_json(body: &[u8]) -> (r: Option<Json>)
    ensures
        r == json_of(body@),
{
    serde_json::from_slice::<serde_json::Value>(body).ok().map(json_from_value)
}

/// Turns serde_json's value into a `Json`, variant for variant; serde_json's
/// `Number::as_i64` tells integers that fit from other numbers.
#[verifier::external_body]
fn json_from_value(v: serde_json::Value) -> Json {
    match v {
        serde_json::Value::Null => Json::Null,
        serde_json::Value::Bool(b) => Json::Bool(b),
        serde_json::Value::Number(n) => n.as_i64().map_or(Json::Number, Json::Int),
        serde_json::Value::String(s) => Json::Str(s),
        serde_json::Value::Array(a) => Json::Array(a.into_iter().map(json_from_value).collect()),
        serde_json::Value::Object(m) => Json::Object(
            m.into_iter().map(|(k, v)| (k, json_from_value(v))).collect(),
        ),
    }
}

/// The value of the first member named `k`.
pub open spec fn member(m: Seq<(String, Json)>, k: Seq<char>) -> Option<Json>
    decreases m.len(),
{
    if m.len() == 0 {
        None
    } else if m[0].0@ == k {
        Some(m[0].1)
    } else {
        member(m.drop_first(), k)
    }
}

/// The member `k` of an object; nothing for any other value.
pub open spec fn field(doc: Json, k: Seq<char>) -> Option<Json> {
    match doc {
        Json::Object(m) => member(m@, k),
        _ => None,
    }
}

/// The member `k` of an object, if it is an integer that fits an `i64`.
pub open spec fn int_field(doc: Json, k: Seq<char>) -> Option<i64> {
    match field(doc, k) {
        Some(Json::Int(n)) => Some(n),
        _ => None,
    }
}

/// The member `k` of an object, if it is a string.
pub open spec fn str_field(doc: Json, k: Seq<char>) -> Option<String> {
    match field(doc, k) {
        Some(Json::Str(s)) => Some(s),
        _ => None,
    }
}

/// Whether two strings are the same.
fn same_text(a: &str, b: &str) -> (r: bool)
    ensures
        r == (a@ == b@),
{
    let x = a.as_bytes();
    let y = b.as_bytes();
    proof {
        vstd::utf8::encode_utf8_decode_utf8(a@);
        vstd::utf8::encode_utf8_decode_utf8(b@);
        assert(x@ == vstd::utf8::encode_utf8(a@));
        assert(y@ == vstd::utf8::encode_utf8(b@));
    }
    if x.len() != y.len() {
        return false;
    }
    let r = starts_with(x, y);
    proof {
        assert(x@.subrange(0, y@.len() as int) =~= x@);
    }
    r
}

/// The value of the first member named `key`.
fn find_member<'a>(m: &'a Vec<(String, Json)>, key: &str) -> (r: Option<&'a Json>)
    ensures
        (r is Some) == (member(m@, key@) is Some),
        r matches Some(x) ==> member(m@, key@) == Some(*x),
{
    let mut i: usize = 0;
    assert(m@.subrange(0, m@.len() as int) =~= m@);
    while i < m.len()
        invariant
            0 <= i <= m@.len(),
            member(m@, key@) == member(m@.subrange(i as int, m@.len() as int), key@),
        decreases m@.len() - i,
    {
        let ghost rest = m@.subrange(i as int, m@.len() as int);
        assert(rest.drop_first() =~= m@.subrange(i + 1, m@.len() as int));
        let entry = &m[i];
        assert(*entry == rest[0]);
        if same_text(entry.0.as_str(), key) {
            return Some(&entry.1);
        }
        i = i + 1;
    }
    None
}

impl Json {
    /// The member `key` of an object.
    pub fn get(&self, key: &str) -> (r: Option<&Json>)
        ensures
            (r is Some) == (field(*self, key@) is Some),
            r matches Some(x) ==> field(*self, key@) == Some(*x),
    {
        match self {
            Json::Object(m) => find_member(m, key),
            _ => None,
        }
    }

    /// The member `key` of an object, if it is an integer that fits an `i64`.
    pub fn get_int(&self, key: &str) -> (r: Option<i64>)
        ensures
            r == int_field(*self, key@),
    {
        match self.get(key) {
            Some(Json::Int(n)) => Some(*n),
            _ => None,
        }
    }

    /// The member `key` of an object, if it is a string.
    pub fn get_str(&self, key: &str) -> (r: Option<String>)
        ensures
            r == str_field(*self, key@),
    {
        match self.get(key) {
            Some(Json::Str(s)) => Some(s.clone()),
            _ => None,
        }
    }
}

} // verus!
