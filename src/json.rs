//! The structured values that cache entries and trace records carry, and the
//! few operations on them that this crate makes, all through `serde_json`.

use vstd::prelude::*;

verus! {

#[verifier::external_type_specification]
#[verifier::external_body]
pub struct ExJsonValue(serde_json::Value);

#[verifier::external_type_specification]
#[verifier::external_body]
pub struct ExJsonError(serde_json::Error);

#[verifier::external_type_specification]
#[verifier::external_body]
#[verifier::reject_recursive_types(K)]
#[verifier::reject_recursive_types(V)]
pub struct ExJsonMap<K, V>(serde_json::Map<K, V>);

/// A JSON object under construction.
pub type JsonObject = serde_json::Map<String, serde_json::Value>;

/// Whether `s` is a JSON document that `serde_json` reads as a value.
pub uninterp spec fn is_json_text(s: Seq<char>) -> bool;

/// The value `serde_json` reads from the JSON text `s`.
pub uninterp spec fn json_value_of(s: Seq<char>) -> serde_json::Value;

/// The member named `key` of a JSON object; `None` for a missing member or
/// a value that is not an object.
pub uninterp spec fn json_member_of(v: serde_json::Value, key: Seq<char>) -> Option<serde_json::Value>;

/// The text of a JSON string; `None` for any other value.
pub uninterp spec fn json_str_of(v: serde_json::Value) -> Option<Seq<char>>;

/// The members held by a JSON object under construction.
pub uninterp spec fn map_entries(m: serde_json::Map<String, serde_json::Value>) -> Map<Seq<char>, serde_json::Value>;

/// No members at all.
pub open spec fn no_members() -> Map<Seq<char>, serde_json::Value> {
    Map::empty()
}

/// The JSON object with the given members.
pub uninterp spec fn object_json(members: Map<Seq<char>, serde_json::Value>) -> serde_json::Value;

/// A JSON string holding the given text, or null for none.
pub uninterp spec fn opt_text_json(s: Option<Seq<char>>) -> serde_json::Value;

/// The JSON number `n`.
pub uninterp spec fn u64_json(n: u64) -> serde_json::Value;

/// The JSON array of the given strings.
pub uninterp spec fn strings_json(items: Seq<Seq<char>>) -> serde_json::Value;

/// The strings of a JSON array of strings; `None` for any other value.
pub uninterp spec fn strings_of_json(v: serde_json::Value) -> Option<Seq<Seq<char>>>;

/// The JSON text `serde_json` writes for a list of strings.
pub uninterp spec fn strings_json_text(items: Seq<Seq<char>>) -> Seq<char>;

/// The texts of a list of strings.
pub open spec fn texts(items: Seq<String>) -> Seq<Seq<char>> {
    items.map_values(|s: String| s@)
}

/// The text of an optional string.
pub open spec fn opt_text(s: Option<String>) -> Option<Seq<char>> {
    match s {
        Some(v) => Some(v@),
        None => None,
    }
}

/// Relies on `serde_json::from_str::<Value>`: whether it succeeds, and the
/// value read, depend on the text alone.
#[verifier::external_body]
pub(crate) fn parse_json(s: &str) -> (r: Result<serde_json::Value, serde_json::Error>)
    ensures
        r is Ok <==> is_json_text(s@),
        r matches Ok(v) ==> v == json_value_of(s@),
{
    serde_json::from_str::<serde_json::Value>(s)
}

/// Relies on `serde_json::Value::get` with a string index: the member named
/// `key` when `v` is an object that has one.
#[verifier::external_body]
pub(crate) fn json_member<'a>(v: &'a serde_json::Value, key: &str) -> (r: Option<&'a serde_json::Value>)
    ensures
        match r {
            Some(m) => json_member_of(*v, key@) == Some(*m),
            None => json_member_of(*v, key@) is None,
        },
{
    v.get(key)
}

/// Relies on `serde_json::Value::as_str`: the text of a JSON string, `None`
/// for any other value.
pub assume_specification[ serde_json::Value::as_str ](v: &serde_json::Value) -> (r: Option<&str>)
    ensures
        match r {
            Some(t) => json_str_of(*v) == Some(t@),
            None => json_str_of(*v) is None,
        },
;

/// Relies on `serde_json::Map::new`: an empty JSON object.
#[verifier::external_body]
pub(crate) fn json_map_new() -> (r: JsonObject)
    ensures
        map_entries(r) == no_members(),
{
    serde_json::Map::new()
}

/// Relies on `serde_json::Map::insert`: puts `v` under `k`, replacing what
/// `k` held.
#[verifier::external_body]
pub(crate) fn json_map_insert(m: &mut serde_json::Map<String, serde_json::Value>, k: String, v: serde_json::Value)
    ensures
        map_entries(*final(m)) == map_entries(*old(m)).insert(k@, v),
{
    m.insert(k, v);
}

/// Relies on `From<Map<String, Value>> for Value`: the object holding `m`.
#[verifier::external_body]
pub(crate) fn json_from_map(m: serde_json::Map<String, serde_json::Value>) -> (r: serde_json::Value)
    ensures
        r == object_json(map_entries(m)),
{
    serde_json::Value::from(m)
}

/// Relies on `From<Option<String>> for Value`: a JSON string, or null.
#[verifier::external_body]
pub(crate) fn json_from_opt_text(s: Option<String>) -> (r: serde_json::Value)
    ensures
        r == opt_text_json(opt_text(s)),
{
    serde_json::Value::from(s)
}

/// Relies on `From<u64> for Value`: a JSON number.
#[verifier::external_body]
pub(crate) fn json_from_u64(n: u64) -> (r: serde_json::Value)
    ensures
        r == u64_json(n),
{
    serde_json::Value::from(n)
}

/// Relies on `serde_json::to_value` on a list of strings: serialising
/// strings into a value cannot fail, and gives the JSON array of them, whose
/// strings read back as the same list.
#[verifier::external_body]
pub(crate) fn json_from_strings(items: &Vec<String>) -> (r: Result<serde_json::Value, serde_json::Error>)
    ensures
        r is Ok,
        r matches Ok(v) ==> v == strings_json(texts(items@)) && strings_of_json(v) == Some(texts(items@)),
{
    serde_json::to_value(items)
}

/// Relies on `serde_json::from_value::<Vec<String>>` on a copy of `v`: the
/// strings of a JSON array of strings, an error for any other value.
#[verifier::external_body]
pub(crate) fn json_to_strings(v: &serde_json::Value) -> (r: Result<Vec<String>, serde_json::Error>)
    ensures
        match r {
            Ok(x) => strings_of_json(*v) == Some(texts(x@)),
            Err(_) => strings_of_json(*v) is None,
        },
{
    serde_json::from_value::<Vec<String>>(v.clone())
}

/// Relies on `serde_json::to_string` on a list of strings: writing strings
/// into memory cannot fail, and gives the compact JSON array, which depends on
/// the strings alone.
#[verifier::external_body]
pub(crate) fn strings_to_json_text(items: &Vec<String>) -> (r: Result<String, serde_json::Error>)
    ensures
        r is Ok,
        r matches Ok(t) ==> t@ == strings_json_text(texts(items@)),
{
    serde_json::to_string(items)
}

} // verus!
