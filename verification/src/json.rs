use vstd::prelude::*;

verus! {

/// A JSON object as `serde_json` holds it. Nothing is known of its inside; what it holds is
/// named by `object_entries`.
#[verifier::external_type_specification]
#[verifier::external_body]
#[verifier::reject_recursive_types(K)]
#[verifier::reject_recursive_types(V)]
pub struct ExJsonMap<K, V>(serde_json::Map<K, V>);

/// A JSON value as `serde_json` holds it. It is carried, never read.
#[verifier::external_type_specification]
#[verifier::external_body]
pub struct ExJsonValue(serde_json::Value);

/// The text entries of a JSON object: each key whose value is a JSON string, with that
/// string.
pub uninterp spec fn object_entries(object: serde_json::Map<String, serde_json::Value>) -> Map<
    Seq<char>,
    Seq<char>,
>;

/// Calls `serde_json::Map::new`, which makes an object without entries.
#[verifier::external_body]
pub(crate) fn new_object() -> (object: serde_json::Map<String, serde_json::Value>)
    ensures
        (object_entries(object) == Map::<Seq<char>, Seq<char>>::empty()),
{
    serde_json::Map::new()
}

/// Turns `text` into a JSON string with `serde_json::to_value`, which does not fail on
/// text, and calls `serde_json::Map::insert` with it. The contract claims that afterwards
/// the object holds `text` under `key`, in place of what it held there, and its other
/// entries as before.
#[verifier::external_body]
pub(crate) fn insert_text(
    object: &mut serde_json::Map<String, serde_json::Value>,
    key: String,
    text: &str,
)
    ensures
        object_entries(*final(object)) == object_entries(*old(object)).insert(key@, text@),
{
    if let Ok(value) = serde_json::to_value(text) {
        object.insert(key, value);
    }
}

} // verus!
