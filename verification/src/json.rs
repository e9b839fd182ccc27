//! The trusted boundary around serde_json.
//!
//! Response bodies arrive as text and leave this module as plain values;
//! outgoing bodies are assembled from plain values. serde_json's parse
//! and its rendering are deterministic in their input (objects are kept
//! in a sorted map), so what each extraction returns is a function of
//! the text and the key alone; each such result is given a name below,
//! and the extraction wrapper's contract equates its result with that
//! name. The verified walkers compose these wrappers, which is how the
//! library's contracts connect a response body to what comes out of it.

use vstd::prelude::*;

verus! {

/// Declares serde_json's JSON document type so it can stand in
/// signatures; the verifier sees nothing inside a value of it.
#[verifier::external_type_specification]
#[verifier::external_body]
pub struct ExValue(serde_json::Value);

/// Whether a text is a well-formed JSON document (serde_json's parse
/// accepts it; the parse is depth-limited and deterministic).
pub uninterp spec fn json_parses(body: Seq<char>) -> bool;

/// The string under `key` of the document's top-level object; `None`
/// when the text does not parse to an object holding a string there.
pub uninterp spec fn string_at(text: Seq<char>, key: Seq<char>) -> Option<Seq<char>>;

/// The unsigned integer under `key`, when it fits in u64.
pub uninterp spec fn u64_at(text: Seq<char>, key: Seq<char>) -> Option<u64>;

/// The boolean under `key`.
pub uninterp spec fn bool_at(text: Seq<char>, key: Seq<char>) -> Option<bool>;

/// The array of strings under `key`, in array order.
pub uninterp spec fn string_list_at(text: Seq<char>, key: Seq<char>) -> Option<Seq<Seq<char>>>;

/// The string-or-null under `key`: `Some(None)` where the key is absent
/// or null, `Some(Some(s))` for a string, `None` for any other value.
pub uninterp spec fn nullable_string_at(text: Seq<char>, key: Seq<char>) -> Option<
    Option<Seq<char>>,
>;

/// The value under `key`, re-rendered as its own JSON text.
pub uninterp spec fn raw_text_at(text: Seq<char>, key: Seq<char>) -> Option<Seq<char>>;

/// The first element of the array under `key`, re-rendered as its own
/// JSON text.
pub uninterp spec fn first_item_text_at(text: Seq<char>, key: Seq<char>) -> Option<Seq<char>>;

/// Every element of the array under `key`, each re-rendered as its own
/// JSON text, in array order.
pub uninterp spec fn item_texts_at(text: Seq<char>, key: Seq<char>) -> Option<Seq<Seq<char>>>;

/// Relies on serde_json::from_str::<serde_json::Value>: parses a JSON
/// document, `None` exactly on a syntax error.
#[verifier::external_body]
pub(crate) fn parse_json(body: &str) -> (r: Option<serde_json::Value>)
    ensures
        r is Some <==> json_parses(body@),
{
    serde_json::from_str(body).ok()
}

/// Relies on serde_json::from_str, Value::get and Value::as_str: the
/// string field of a document's top-level object.
#[verifier::external_body]
pub(crate) fn text_string_field(text: &str, key: &str) -> (r: Option<String>)
    ensures
        r matches Some(s) ==> string_at(text@, key@) == Some(s@),
        r is None ==> string_at(text@, key@) is None,
{
    let v: serde_json::Value = serde_json::from_str(text).ok()?;
    Some(v.get(key)?.as_str()?.to_string())
}

/// Relies on serde_json::from_str, Value::get and Value::as_u64: the
/// unsigned integer field of a document's top-level object.
#[verifier::external_body]
pub(crate) fn text_u64_field(text: &str, key: &str) -> (r: Option<u64>)
    ensures
        r == u64_at(text@, key@),
{
    let v: serde_json::Value = serde_json::from_str(text).ok()?;
    v.get(key)?.as_u64()
}

/// Relies on serde_json::from_str, Value::get and Value::as_bool: the
/// boolean field of a document's top-level object.
#[verifier::external_body]
pub(crate) fn text_bool_field(text: &str, key: &str) -> (r: Option<bool>)
    ensures
        r == bool_at(text@, key@),
{
    let v: serde_json::Value = serde_json::from_str(text).ok()?;
    v.get(key)?.as_bool()
}

/// Relies on serde_json::from_str, Value::get, Value::as_array and
/// Value::as_str: an array-of-strings field, in array order.
#[verifier::external_body]
pub(crate) fn text_string_list_field(text: &str, key: &str) -> (r: Option<Vec<String>>)
    ensures
        r matches Some(v) ==> string_list_at(text@, key@) == Some(crate::views_of(v@)),
        r is None ==> string_list_at(text@, key@) is None,
{
    let v: serde_json::Value = serde_json::from_str(text).ok()?;
    let mut out: Vec<String> = Vec::new();
    for x in v.get(key)?.as_array()? {
        out.push(x.as_str()?.to_string());
    }
    Some(out)
}

/// Relies on serde_json::from_str, Value::get, Value::is_null and
/// Value::as_str: a string field that may be absent or null.
#[verifier::external_body]
pub(crate) fn text_nullable_string_field(text: &str, key: &str) -> (r: Option<Option<String>>)
    ensures
        r is None ==> nullable_string_at(text@, key@) is None,
        r matches Some(inner) ==> nullable_string_at(text@, key@) == Some(crate::opt_view(inner)),
{
    let v: serde_json::Value = serde_json::from_str(text).ok()?;
    match v.get(key) {
        None => Some(None),
        Some(f) => {
            if f.is_null() {
                Some(None)
            } else {
                Some(Some(f.as_str()?.to_string()))
            }
        }
    }
}

/// Relies on serde_json::from_str, Value::get and Value's Display
/// (to_string): the value under a key, re-rendered as JSON text.
#[verifier::external_body]
pub(crate) fn text_raw_field(text: &str, key: &str) -> (r: Option<String>)
    ensures
        r matches Some(s) ==> raw_text_at(text@, key@) == Some(s@),
        r is None ==> raw_text_at(text@, key@) is None,
{
    let v: serde_json::Value = serde_json::from_str(text).ok()?;
    Some(v.get(key)?.to_string())
}

/// Relies on serde_json::from_str, Value::get, Value::as_array and
/// Value's Display: the first element of an array field, re-rendered as
/// JSON text.
#[verifier::external_body]
pub(crate) fn text_first_item(text: &str, key: &str) -> (r: Option<String>)
    ensures
        r matches Some(s) ==> first_item_text_at(text@, key@) == Some(s@),
        r is None ==> first_item_text_at(text@, key@) is None,
{
    let v: serde_json::Value = serde_json::from_str(text).ok()?;
    Some(v.get(key)?.as_array()?.first()?.to_string())
}

/// Relies on serde_json::from_str, Value::get, Value::as_array and
/// Value's Display: every element of an array field, re-rendered as
/// JSON text, in array order.
#[verifier::external_body]
pub(crate) fn text_item_list(text: &str, key: &str) -> (r: Option<Vec<String>>)
    ensures
        r matches Some(v) ==> item_texts_at(text@, key@) == Some(crate::views_of(v@)),
        r is None ==> item_texts_at(text@, key@) is None,
{
    let v: serde_json::Value = serde_json::from_str(text).ok()?;
    let mut out: Vec<String> = Vec::new();
    for x in v.get(key)?.as_array()? {
        out.push(x.to_string());
    }
    Some(out)
}

/// Relies on serde_json::to_string: renders a JSON document as text,
/// yielding `None` if serialization fails.
#[verifier::external_body]
pub(crate) fn json_to_string(v: &serde_json::Value) -> (r: Option<String>) {
    serde_json::to_string(v).ok()
}

/// Relies on the Value::String constructor: wraps a string as a JSON
/// string.
#[verifier::external_body]
pub(crate) fn json_string(s: String) -> (r: serde_json::Value) {
    serde_json::Value::String(s)
}

/// Relies on serde_json's From<u64> for Value: wraps an integer as a
/// JSON number.
#[verifier::external_body]
pub(crate) fn json_u64(n: u64) -> (r: serde_json::Value) {
    serde_json::Value::from(n)
}

/// Relies on the Value::Bool constructor: wraps a boolean as a JSON
/// boolean.
#[verifier::external_body]
pub(crate) fn json_bool(b: bool) -> (r: serde_json::Value) {
    serde_json::Value::Bool(b)
}

/// Relies on the Value::Null constructor: the JSON null value.
#[verifier::external_body]
pub(crate) fn json_null() -> (r: serde_json::Value) {
    serde_json::Value::Null
}

/// Relies on the Value::Array constructor: wraps a vector of JSON values
/// as a JSON array.
#[verifier::external_body]
pub(crate) fn json_array(items: Vec<serde_json::Value>) -> (r: serde_json::Value) {
    serde_json::Value::Array(items)
}

/// Relies on the Value::Object constructor and serde_json::Map's
/// FromIterator: builds a JSON object from key/value pairs; on equal
/// keys the later pair wins.
#[verifier::external_body]
pub(crate) fn json_object(pairs: Vec<(String, serde_json::Value)>) -> (r: serde_json::Value) {
    serde_json::Value::Object(pairs.into_iter().collect())
}

} // verus!
