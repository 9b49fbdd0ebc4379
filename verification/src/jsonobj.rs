//! Building the single-pair JSON object strings that serialization
//! cheatcodes store; the rendering itself is serde_json's.

use vstd::prelude::*;

verus! {

/// The JSON text of the one-pair object mapping `key` to boolean `value`,
/// as serde_json renders it.  JSON string escaping of the key is part of
/// the rendering, so the text is named rather than spelled out.
pub uninterp spec fn json_bool_object(key: Seq<char>, value: bool) -> Seq<char>;

/// Relies on `serde_json::to_string` on a one-entry map of a string key to
/// a boolean: the rendering depends on the key and value alone.  A string
/// map of primitives always serializes, so the error branch is
/// unreachable.
#[verifier::external_body]
pub fn json_object_with_bool(key: &String, value: bool) -> (r: String)
    ensures
        r@ == json_bool_object(key@, value),
{
    let mut map = std::collections::BTreeMap::new();
    map.insert(key.clone(), value);
    match serde_json::to_string(&map) {
        Ok(s) => s,
        Err(_) => String::new(),
    }
}

} // verus!
