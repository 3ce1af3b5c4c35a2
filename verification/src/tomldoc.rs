//! Trusted view of TOML documents, through the toml crate.
//!
//! Configuration is only ever consulted by walking a path of table
//! keys and reading what sits at its end: a string, an integer, an
//! array of strings, a table's presence, or a table's keys. Each
//! outcome is a function of the document text and the path alone, so
//! each carries a name here and the configuration logic above is
//! verified against those names.

use vstd::prelude::*;
use crate::strutil::views_of;

verus! {

/// Whether the text parses as a TOML document (str::parse to a
/// toml::Value succeeds).
pub uninterp spec fn toml_ok(doc: Seq<char>) -> bool;

/// The string lookup outcome at a path: None if nothing sits there,
/// Some(None) if what sits there is not a string, Some(Some(s)) for s.
pub uninterp spec fn toml_str_at(doc: Seq<char>, path: Seq<Seq<char>>) -> Option<
    Option<Seq<char>>,
>;

/// The integer lookup outcome at a path, in the same shape.
pub uninterp spec fn toml_int_at(doc: Seq<char>, path: Seq<Seq<char>>) -> Option<Option<i64>>;

/// Whether a table sits at a path: None if nothing does, Some(b) with
/// b saying whether the value there is a table.
pub uninterp spec fn toml_table_at(doc: Seq<char>, path: Seq<Seq<char>>) -> Option<bool>;

/// The keys of the table at a path, in the sorted order the crate's
/// map iterates them; empty when no table sits there.
pub uninterp spec fn toml_keys_at(doc: Seq<char>, path: Seq<Seq<char>>) -> Seq<Seq<char>>;

/// The string-array lookup outcome at a path: Some(None) when the
/// value there is not an array of strings.
pub uninterp spec fn toml_strs_at(doc: Seq<char>, path: Seq<Seq<char>>) -> Option<
    Option<Seq<Seq<char>>>,
>;

/// What one string lookup in a TOML document can yield.
pub enum TomlLookup {
    BadToml,
    Missing,
    WrongType,
    Found(String),
}

/// What one integer lookup in a TOML document can yield.
pub enum TomlIntLookup {
    BadToml,
    Missing,
    WrongType,
    Found(i64),
}

/// What one string-array lookup in a TOML document can yield.
pub enum TomlStrsLookup {
    BadToml,
    Missing,
    WrongType,
    Found(Vec<String>),
}

/// Whether a table sits at a path.
pub enum TomlTableStatus {
    BadToml,
    Missing,
    NotTable,
    Table,
}

/// Relies on the toml crate's Value parsing and Value::get, and on
/// telling the Value::String variant apart: the outcome is a function
/// of the document text and the path alone.
#[verifier::external_body]
pub fn toml_lookup_str(doc: &str, path: &Vec<String>) -> (r: TomlLookup)
    ensures
        (r is BadToml) <==> !toml_ok(doc@),
        toml_ok(doc@) ==> (match toml_str_at(doc@, views_of(path@)) {
            None => r is Missing,
            Some(None) => r is WrongType,
            Some(Some(s)) => r matches TomlLookup::Found(f) && f@ == s,
        }),
{
    let root: toml::Value = match doc.parse::<toml::Table>() {
        Ok(v) => toml::Value::Table(v),
        Err(_) => return TomlLookup::BadToml,
    };
    let mut cur = &root;
    for k in path.iter() {
        match cur.get(k.as_str()) { Some(v) => cur = v, None => return TomlLookup::Missing }
    }
    match cur { toml::Value::String(s) => TomlLookup::Found(s.clone()), _ => TomlLookup::WrongType }
}

/// Relies on the toml crate's Value parsing and Value::get, and on
/// telling the Value::Integer variant apart.
#[verifier::external_body]
pub fn toml_lookup_int(doc: &str, path: &Vec<String>) -> (r: TomlIntLookup)
    ensures
        (r is BadToml) <==> !toml_ok(doc@),
        toml_ok(doc@) ==> (match toml_int_at(doc@, views_of(path@)) {
            None => r is Missing,
            Some(None) => r is WrongType,
            Some(Some(n)) => r == TomlIntLookup::Found(n),
        }),
{
    let root: toml::Value = match doc.parse::<toml::Table>() {
        Ok(v) => toml::Value::Table(v),
        Err(_) => return TomlIntLookup::BadToml,
    };
    let mut cur = &root;
    for k in path.iter() {
        match cur.get(k.as_str()) { Some(v) => cur = v, None => return TomlIntLookup::Missing }
    }
    match cur { toml::Value::Integer(n) => TomlIntLookup::Found(*n), _ => TomlIntLookup::WrongType }
}

/// Relies on the toml crate's Value parsing and Value::get, and on
/// telling the Value::Array and Value::String variants apart.
#[verifier::external_body]
pub fn toml_lookup_strs(doc: &str, path: &Vec<String>) -> (r: TomlStrsLookup)
    ensures
        (r is BadToml) <==> !toml_ok(doc@),
        toml_ok(doc@) ==> (match toml_strs_at(doc@, views_of(path@)) {
            None => r is Missing,
            Some(None) => r is WrongType,
            Some(Some(ss)) => r matches TomlStrsLookup::Found(f) && views_of(f@) == ss,
        }),
{
    let root: toml::Value = match doc.parse::<toml::Table>() {
        Ok(v) => toml::Value::Table(v),
        Err(_) => return TomlStrsLookup::BadToml,
    };
    let mut cur = &root;
    for k in path.iter() {
        match cur.get(k.as_str()) { Some(v) => cur = v, None => return TomlStrsLookup::Missing }
    }
    let arr = match cur { toml::Value::Array(a) => a, _ => return TomlStrsLookup::WrongType };
    let mut out: Vec<String> = Vec::new();
    for v in arr.iter() {
        match v { toml::Value::String(s) => out.push(s.clone()), _ => return TomlStrsLookup::WrongType }
    }
    TomlStrsLookup::Found(out)
}

/// Relies on the toml crate's Value parsing and Value::get, and on
/// telling the Value::Table variant apart.
#[verifier::external_body]
pub fn toml_table_status(doc: &str, path: &Vec<String>) -> (r: TomlTableStatus)
    ensures
        (r is BadToml) <==> !toml_ok(doc@),
        toml_ok(doc@) ==> (match toml_table_at(doc@, views_of(path@)) {
            None => r is Missing,
            Some(true) => r is Table,
            Some(false) => r is NotTable,
        }),
{
    let root: toml::Value = match doc.parse::<toml::Table>() {
        Ok(v) => toml::Value::Table(v),
        Err(_) => return TomlTableStatus::BadToml,
    };
    let mut cur = &root;
    for k in path.iter() {
        match cur.get(k.as_str()) { Some(v) => cur = v, None => return TomlTableStatus::Missing }
    }
    match cur { toml::Value::Table(_) => TomlTableStatus::Table, _ => TomlTableStatus::NotTable }
}

/// Relies on the toml crate's Value parsing, Value::get and the map's
/// keys iterator: the keys come out in their sorted map order.
#[verifier::external_body]
pub fn toml_keys(doc: &str, path: &Vec<String>) -> (r: Option<Vec<String>>)
    ensures
        (r is None) <==> !toml_ok(doc@),
        toml_ok(doc@) ==> (match r {
            Some(ks) => views_of(ks@) == toml_keys_at(doc@, views_of(path@)),
            None => false,
        }),
{
    let root: toml::Value = match doc.parse::<toml::Table>() {
        Ok(v) => toml::Value::Table(v),
        Err(_) => return None,
    };
    let mut cur = &root;
    for k in path.iter() {
        match cur.get(k.as_str()) { Some(v) => cur = v, None => return Some(Vec::new()) }
    }
    match cur { toml::Value::Table(t) => Some(t.keys().cloned().collect()), _ => Some(Vec::new()) }
}

} // verus!
