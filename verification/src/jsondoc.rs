//! Trusted view of JSON documents, through rustc_serialize.
//!
//! A document is only ever consulted by looking up a string under a
//! path of object keys. Both what parses and what a lookup yields are
//! functions of the document text alone, so they carry names here and
//! the parsing logic above them is verified against those names.

use vstd::prelude::*;

verus! {

/// Whether the text parses as JSON (Json::from_str succeeds).
pub uninterp spec fn json_ok(doc: Seq<char>) -> bool;

/// The lookup outcome for a path of object keys in a parsed document:
/// None if nothing sits there, Some(None) if what sits there is not a
/// string, Some(Some(s)) for the string s.
pub uninterp spec fn json_str_at(doc: Seq<char>, path: Seq<Seq<char>>) -> Option<
    Option<Seq<char>>,
>;

/// What one string lookup in a JSON document can yield.
pub enum JsonLookup {
    BadJson,
    Missing,
    WrongType,
    Found(String),
}

/// Relies on rustc_serialize's Json::from_str and Json::find_path, and
/// on telling the Json::String variant apart: the outcome is a function
/// of the document text and the path alone.
#[verifier::external_body]
pub fn json_lookup_str(doc: &str, path: &Vec<String>) -> (r: JsonLookup)
    ensures
        (r is BadJson) <==> !json_ok(doc@),
        json_ok(doc@) ==> (match json_str_at(doc@, path@.map_values(|k: String| k@)) {
            None => r is Missing,
            Some(None) => r is WrongType,
            Some(Some(s)) => r matches JsonLookup::Found(f) && f@ == s,
        }),
{
    let parsed = match rustc_serialize::json::Json::from_str(doc) {
        Ok(p) => p,
        Err(_) => return JsonLookup::BadJson,
    };
    let keys: Vec<&str> = path.iter().map(|k| k.as_str()).collect();
    match parsed.find_path(&keys) {
        None => JsonLookup::Missing,
        Some(rustc_serialize::json::Json::String(s)) => JsonLookup::Found(s.clone()),
        Some(_) => JsonLookup::WrongType,
    }
}

/// The JSON string literal that encodes a string value, quotes and
/// escapes included: a function of the characters alone.
pub uninterp spec fn json_quoted(s: Seq<char>) -> Seq<char>;

/// Relies on rustc_serialize's json::encode for strings, which cannot
/// fail for a plain string value.
#[verifier::external_body]
pub fn json_encode_str(s: &String) -> (r: String)
    ensures
        r@ == json_quoted(s@),
{
    rustc_serialize::json::encode(s).unwrap()
}

/// A one-key lookup path.
pub fn path1(k: &str) -> (r: Vec<String>)
    ensures
        r@.map_values(|s: String| s@) =~= seq![k@],
{
    let mut v: Vec<String> = Vec::new();
    v.push(k.to_owned());
    v
}

/// A two-key lookup path.
pub fn path2(k1: &str, k2: &str) -> (r: Vec<String>)
    ensures
        r@.map_values(|s: String| s@) =~= seq![k1@, k2@],
{
    let mut v: Vec<String> = Vec::new();
    v.push(k1.to_owned());
    v.push(k2.to_owned());
    v
}

/// A three-key lookup path.
pub fn path3(k1: &str, k2: &str, k3: &str) -> (r: Vec<String>)
    ensures
        r@.map_values(|s: String| s@) =~= seq![k1@, k2@, k3@],
{
    let mut v: Vec<String> = Vec::new();
    v.push(k1.to_owned());
    v.push(k2.to_owned());
    v.push(k3.to_owned());
    v
}

/// The lookup outcome holds a string.
pub open spec fn field_present(v: Option<Option<Seq<char>>>) -> bool {
    v matches Some(Some(_))
}

/// The string a lookup outcome holds, empty when it holds none.
pub open spec fn field_str(v: Option<Option<Seq<char>>>) -> Seq<char> {
    match v {
        Some(Some(s)) => s,
        _ => Seq::empty(),
    }
}

/// The lookup outcome holds a non-empty string.
pub open spec fn field_nonempty(v: Option<Option<Seq<char>>>) -> bool {
    field_present(v) && field_str(v).len() > 0
}

} // verus!
