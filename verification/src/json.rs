//! JSON documents, as `serde_json` holds them.
use serde_json::Value;
use vstd::prelude::*;

verus! {

/// A JSON object: keys and the documents under them.
pub type Object = serde_json::Map<String, Value>;

/// A JSON document of `serde_json`, taken as it is: `fields` and `as_str` say what it holds.
#[verifier::external_type_specification]
#[verifier::external_body]
pub struct ExValue(serde_json::Value);

/// A JSON object of `serde_json`, taken as it is: `object_entries` says what it holds.
#[verifier::external_type_specification]
#[verifier::external_body]
#[verifier::reject_recursive_types(K)]
#[verifier::reject_recursive_types(V)]
pub struct ExObject<K, V>(serde_json::Map<K, V>);

/// The key-value pairs that a JSON object holds.
pub uninterp spec fn object_entries(object: Object) -> Map<Seq<char>, Value>;

/// The key-value pairs of the object that a document is; `None` where it is no object.
pub uninterp spec fn fields(document: Value) -> Option<Map<Seq<char>, Value>>;

/// The text of the JSON string that a document is; `None` where it is no string.
pub uninterp spec fn as_str(document: Value) -> Option<Seq<char>>;

/// The pairs of an object that holds none.
pub open spec fn no_entries() -> Map<Seq<char>, Value> {
    Map::empty()
}

/// `serde_json::Map::new`: a new object holds no pair.
#[verifier::external_body]
pub(crate) fn empty_object() -> (object: Object)
    ensures
        object_entries(object) == no_entries(),
{
    serde_json::Map::new()
}

/// `serde_json::Map::insert`: the pair is set, replacing the document that was
/// under the key, which is returned; every other pair stays.
#[verifier::external_body]
pub(crate) fn set_entry(object: &mut Object, key: String, document: Value) -> (previous: Option<
    Value,
>)
    ensures
        object_entries(*final(object)) == object_entries(*old(object)).insert(key@, document),
        previous == if object_entries(*old(object)).contains_key(key@) {
            Some(object_entries(*old(object))[key@])
        } else {
            None
        },
{
    object.insert(key, document)
}

/// `Clone` of `serde_json::Map`: the copy is the same object.
pub assume_specification[ <serde_json::Map<String, Value> as Clone>::clone ](
    object: &serde_json::Map<String, Value>,
) -> (copy: serde_json::Map<String, Value>)
    ensures
        copy == *object,
;

/// `Clone` of `serde_json::Value`: the copy is the same document.
pub assume_specification[ <Value as Clone>::clone ](document: &Value) -> (copy: Value)
    ensures
        copy == *document,
;

/// `serde_json::Value::as_object`: the object that the document is, with the pairs of the
/// document, or `None` where the document is no object.
#[verifier::external_body]
pub(crate) fn inner_object(document: &Value) -> (object: Option<&Object>)
    ensures
        match object {
            Some(inner) => fields(*document) == Some(object_entries(*inner)),
            None => fields(*document) is None,
        },
{
    document.as_object()
}

/// `From<Map<String, Value>>` of `serde_json::Value`: the document that is an object with
/// the pairs of the given one.
#[verifier::external_body]
pub(crate) fn object_document(object: Object) -> (document: Value)
    ensures
        fields(document) == Some(object_entries(object)),
{
    Value::from(object)
}

/// `From<String>` of `serde_json::Value`: the document that is the JSON string of the
/// given text.
#[verifier::external_body]
pub(crate) fn text_document(text: String) -> (document: Value)
    ensures
        as_str(document) == Some(text@),
{
    Value::from(text)
}

} // verus!
