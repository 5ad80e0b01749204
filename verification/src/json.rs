use vstd::prelude::*;

verus! {

/// The string member `key` of the JSON document `json`, as serde_json reads it
/// (the last of repeated keys counts; members' values are checked for syntax at
/// any nesting depth): `None` where `json` is not a JSON object, has no member
/// `key`, or that member is not a string.
pub uninterp spec fn json_string_member(json: Seq<char>, key: Seq<char>) -> Option<Seq<char>>;

/// The JSON text serde_json writes for an object whose members are the given
/// (key, string value) pairs.
pub uninterp spec fn json_string_object(entries: Seq<(Seq<char>, Seq<char>)>) -> Seq<char>;

/// The character sequences of (key, value) string pairs.
pub open spec fn entry_views(entries: Seq<(String, String)>) -> Seq<(Seq<char>, Seq<char>)> {
    entries.map_values(|e: (String, String)| (e.0@, e.1@))
}

/// No key occurs twice.
pub open spec fn distinct_keys(entries: Seq<(Seq<char>, Seq<char>)>) -> bool {
    forall|i: int, j: int| 0 <= i < j < entries.len() ==> entries[i].0 != entries[j].0
}

/// The character sequence of an optional string.
pub open spec fn opt_string_view(o: Option<String>) -> Option<Seq<char>> {
    match o {
        Some(s) => Some(s@),
        None => None,
    }
}

/// Reads `json` with `serde_json::from_str` as an object whose members are kept
/// as unparsed `serde_json::value::RawValue`s (which serde_json skips without a
/// nesting limit), then reads member `key`, if any, with `serde_json::from_str::<String>`.
/// The contract names the result and claims nothing else of it.
#[verifier::external_body]
pub(crate) fn string_member(json: &str, key: &str) -> (r: Option<String>)
    ensures
        opt_string_view(r) == json_string_member(json@, key@),
{
    match serde_json::from_str::<std::collections::BTreeMap<String, Box<serde_json::value::RawValue>>>(json) {
        Ok(members) => match members.get(key) {
            Some(raw) => serde_json::from_str::<String>(raw.get()).ok(),
            None => None,
        },
        Err(_) => None,
    }
}

/// Builds a `serde_json::Map` from the pairs (`Map::insert`, each value a
/// `Value::String`) and writes `Value::Object` of it with `to_string`. The result
/// is named; the contract also claims that reading a member of the written text
/// back gives the string that was written for its key, where no key is repeated.
#[verifier::external_body]
pub(crate) fn string_object(entries: &Vec<(String, String)>) -> (r: String)
    ensures
        r@ == json_string_object(entry_views(entries@)),
        distinct_keys(entry_views(entries@)) ==> forall|i: int| 0 <= i < entries@.len()
            ==> json_string_member(r@, #[trigger] entries@[i].0@) == Some(entries@[i].1@),
{
    let mut map = serde_json::Map::new();
    for (k, v) in entries.iter() {
        map.insert(k.clone(), serde_json::Value::String(v.clone()));
    }
    serde_json::Value::Object(map).to_string()
}

} // verus!
