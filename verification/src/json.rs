//! JSON values, and the calls into `serde_json` that the library makes.
//!
//! A [`serde_json::Value`] is opaque to the proofs; what it holds is the
//! [`Json`] tree that [`json_of`] names. Reading and writing text goes through
//! [`parsed_json`] and [`json_text`], the names for what `serde_json` computes.

use vstd::prelude::*;

verus! {

/// The content of a JSON value.
///
/// A number is an integer of the `u64` or `i64` range, or a float, which is
/// kept as the bits of its double-precision form.
pub enum Json {
    Null,
    Bool(bool),
    Int(int),
    Float(u64),
    Text(Seq<char>),
    Array(Seq<Json>),
    Object(Map<Seq<char>, Json>),
}

/// A JSON value of `serde_json`.
#[verifier::external_type_specification]
#[verifier::external_body]
pub struct ExValue(serde_json::Value);

/// A JSON object of `serde_json`: an ordered map from keys to values.
#[verifier::external_type_specification]
#[verifier::external_body]
#[verifier::reject_recursive_types(K)]
#[verifier::reject_recursive_types(V)]
pub struct ExMap<K, V>(serde_json::Map<K, V>);

/// The error of a `serde_json` call.
#[verifier::external_type_specification]
#[verifier::external_body]
pub struct ExJsonError(serde_json::Error);

/// What a JSON value holds.
pub uninterp spec fn json_of(value: serde_json::Value) -> Json;

/// What a JSON object holds.
pub uninterp spec fn fields_of(object: serde_json::Map<String, serde_json::Value>) -> Map<
    Seq<char>,
    Json,
>;

/// The compact text that `serde_json::to_string` writes for a value.
pub uninterp spec fn json_text(json: Json) -> Seq<char>;

/// The value that `serde_json::from_str::<Value>` reads from a text, if the text
/// is a JSON document.
pub uninterp spec fn parsed_json(text: Seq<char>) -> Option<Json>;

/// The error of `serde_json::from_str::<Value>` on a text that it refuses.
pub uninterp spec fn value_error(text: Seq<char>) -> serde_json::Error;

/// The error of `serde_json::from_str::<Map<String, Value>>` on a text that it refuses.
pub uninterp spec fn object_error(text: Seq<char>) -> serde_json::Error;

/// The error of `serde_json::from_str::<Vec<String>>` on a text that it refuses.
pub uninterp spec fn strings_error(text: Seq<char>) -> serde_json::Error;

/// The error of `serde_json::from_str::<Vec<(String, u64)>>` on a text that it refuses.
pub uninterp spec fn pairs_error(text: Seq<char>) -> serde_json::Error;

/// The text that an error of `serde_json` displays.
pub uninterp spec fn json_error_text(error: serde_json::Error) -> Seq<char>;

/// The object that a text holds, if it holds one.
pub open spec fn parsed_object(text: Seq<char>) -> Option<Map<Seq<char>, Json>> {
    match parsed_json(text) {
        Some(Json::Object(fields)) => Some(fields),
        _ => None,
    }
}

/// The string that a JSON value is, if it is one.
pub open spec fn as_text(json: Json) -> Option<Seq<char>> {
    match json {
        Json::Text(text) => Some(text),
        _ => None,
    }
}

/// The strings that a text holds, if it holds an array of strings.
pub open spec fn parsed_strings(text: Seq<char>) -> Option<Seq<Seq<char>>> {
    match parsed_json(text) {
        Some(Json::Array(items)) => if forall|i: int|
            0 <= i < items.len() ==> as_text(#[trigger] items[i]) is Some {
            Some(items.map_values(|item: Json| as_text(item)->0))
        } else {
            None
        },
        _ => None,
    }
}

/// The string and the number that a JSON value pairs, if it is an array of
/// exactly a string and an integer of the `u64` range.
pub open spec fn as_pair(json: Json) -> Option<(Seq<char>, u64)> {
    match json {
        Json::Array(items) => if items.len() == 2 {
            match (items[0], items[1]) {
                (Json::Text(text), Json::Int(number)) => if 0 <= number <= u64::MAX {
                    Some((text, number as u64))
                } else {
                    None
                },
                _ => None,
            }
        } else {
            None
        },
        _ => None,
    }
}

/// The pairs that a text holds, if it holds an array of `[string, number]` pairs.
pub open spec fn parsed_pairs(text: Seq<char>) -> Option<Seq<(Seq<char>, u64)>> {
    match parsed_json(text) {
        Some(Json::Array(items)) => if forall|i: int|
            0 <= i < items.len() ==> as_pair(#[trigger] items[i]) is Some {
            Some(items.map_values(|item: Json| as_pair(item)->0))
        } else {
            None
        },
        _ => None,
    }
}

/// The fields of an object that has none.
pub open spec fn no_fields() -> Map<Seq<char>, Json> {
    Map::empty()
}

/// The contents of some strings.
pub open spec fn texts(strings: Seq<String>) -> Seq<Seq<char>> {
    strings.map_values(|string: String| string@)
}

/// The contents of some strings, each with its number.
pub open spec fn pairs(pairs: Seq<(String, u64)>) -> Seq<(Seq<char>, u64)> {
    pairs.map_values(|pair: (String, u64)| (pair.0@, pair.1))
}

/// The contents of some JSON values.
pub open spec fn jsons(values: Seq<serde_json::Value>) -> Seq<Json> {
    values.map_values(|value: serde_json::Value| json_of(value))
}

/// Whether `a` comes before `b` in the order of strings: they first differ where
/// `a` has the smaller character, or `a` is a proper prefix of `b`.
pub open spec fn text_before(a: Seq<char>, b: Seq<char>) -> bool {
    exists|k: int|
        0 <= k <= a.len() && k < b.len() && a.take(k) == #[trigger] b.take(k) && (k == a.len()
            || a[k] < b[k])
}

/// Whether `listing` is what `fields` holds, each key once, in the order of keys.
pub open spec fn is_listing(
    listing: Seq<(Seq<char>, Json)>,
    fields: Map<Seq<char>, Json>,
) -> bool {
    &&& forall|i: int, j: int|
        #![trigger listing[i], listing[j]]
        0 <= i < j < listing.len() ==> text_before(listing[i].0, listing[j].0)
    &&& forall|i: int|
        0 <= i < listing.len() ==> fields.contains_key((#[trigger] listing[i]).0)
            && fields[listing[i].0] == listing[i].1
    &&& forall|key: Seq<char>| #[trigger]
        fields.contains_key(key) ==> exists|i: int|
            0 <= i < listing.len() && (#[trigger] listing[i]).0 == key
}

/// Whether a value comes back from its own text.
pub open spec fn survives(json: Json) -> bool {
    parsed_json(json_text(json)) == Some(json)
}

/// Whether a value nests at most `depth` arrays and objects, and each float in it comes
/// back from its own text.
pub open spec fn is_readable_within(json: Json, depth: nat) -> bool
    decreases depth,
{
    match json {
        Json::Float(_) => survives(json),
        Json::Array(items) => depth > 0 && forall|i: int|
            0 <= i < items.len() ==> is_readable_within(#[trigger] items[i], (depth - 1) as nat),
        Json::Object(fields) => depth > 0 && forall|key: Seq<char>| #[trigger]
            fields.contains_key(key) ==> is_readable_within(fields[key], (depth - 1) as nat),
        _ => true,
    }
}

/// Whether a value is one that the reader gives back from the text that the writer makes
/// of it: nested no deeper than the reader follows, with floats that come back.
pub open spec fn is_readable(json: Json) -> bool {
    is_readable_within(json, 127)
}

/// Whether `text` is read back as `json`, if `json` is readable.
pub open spec fn reads_back(json: Json, text: Seq<char>) -> bool {
    is_readable(json) ==> parsed_json(text) == Some(json)
}

/// `serde_json::from_str::<Value>`: reads a JSON document.
#[verifier::external_body]
pub(crate) fn parse_value(text: &str) -> (value: Result<serde_json::Value, serde_json::Error>)
    ensures
        match value {
            Ok(value) => parsed_json(text@) == Some(json_of(value)),
            Err(error) => parsed_json(text@) is None && error == value_error(text@),
        },
{
    serde_json::from_str(text)
}

/// `serde_json::from_str::<Map<String, Value>>`: reads the documents whose
/// outermost value is an object, and refuses all others.
#[verifier::external_body]
pub(crate) fn parse_object(text: &str) -> (object: Result<
    serde_json::Map<String, serde_json::Value>,
    serde_json::Error,
>)
    ensures
        match object {
            Ok(object) => parsed_object(text@) == Some(fields_of(object)),
            Err(error) => parsed_object(text@) is None && error == object_error(text@),
        },
{
    serde_json::from_str(text)
}

/// `serde_json::from_str::<Vec<String>>`: reads the documents that are an array
/// of strings, and refuses all others.
#[verifier::external_body]
pub(crate) fn parse_strings(text: &str) -> (strings: Result<Vec<String>, serde_json::Error>)
    ensures
        match strings {
            Ok(strings) => parsed_strings(text@) == Some(texts(strings@)),
            Err(error) => parsed_strings(text@) is None && error == strings_error(text@),
        },
{
    serde_json::from_str(text)
}

/// `serde_json::from_str::<Vec<(String, u64)>>`: reads the documents that are an
/// array of two-element arrays of a string and an unsigned integer, and refuses
/// all others.
#[verifier::external_body]
pub(crate) fn parse_pairs(text: &str) -> (read: Result<Vec<(String, u64)>, serde_json::Error>)
    ensures
        match read {
            Ok(read) => parsed_pairs(text@) == Some(pairs(read@)),
            Err(error) => parsed_pairs(text@) is None && error == pairs_error(text@),
        },
{
    serde_json::from_str(text)
}

/// `ToString::to_string` of a `serde_json::Error`: the text it displays.
#[verifier::external_body]
pub(crate) fn error_text(error: &serde_json::Error) -> (text: String)
    ensures
        text@ == json_error_text(*error),
{
    error.to_string()
}

/// `serde_json::to_string::<Value>`: writes a value as compact text.
///
/// Writing never fails: the only map keys in a value are strings. A value is read back as
/// it was if it has at most 127 levels of nesting, the deepest that the reader follows,
/// and each float in it is read back, alone, as it was: the reader takes a number alike
/// wherever it stands. Of which floats that holds nothing is said; the reader may round
/// some of them.
#[verifier::external_body]
pub(crate) fn value_text(value: &serde_json::Value) -> (text: Result<String, serde_json::Error>)
    ensures
        text is Ok,
        text->Ok_0@ == json_text(json_of(*value)),
        reads_back(json_of(*value), text->Ok_0@),
{
    serde_json::to_string(value)
}

/// `serde_json::Map::new`: an object without fields.
#[verifier::external_body]
pub(crate) fn new_object() -> (object: serde_json::Map<String, serde_json::Value>)
    ensures
        fields_of(object) == no_fields(),
{
    serde_json::Map::new()
}

/// `serde_json::Map::insert`: sets the field `key`, replacing what it held.
#[verifier::external_body]
pub(crate) fn insert_field(
    object: &mut serde_json::Map<String, serde_json::Value>,
    key: String,
    value: serde_json::Value,
)
    ensures
        fields_of(*final(object)) == fields_of(*old(object)).insert(key@, json_of(value)),
{
    object.insert(key, value);
}

/// `IntoIterator::into_iter` of `serde_json::Map`: hands out the fields in the
/// order of their keys, in which the map keeps them.
#[verifier::external_body]
pub(crate) fn object_fields(object: serde_json::Map<String, serde_json::Value>) -> (fields: Vec<
    (String, serde_json::Value),
>)
    ensures
        is_listing(
            fields@.map_values(|field: (String, serde_json::Value)| (field.0@, json_of(field.1))),
            fields_of(object),
        ),
{
    object.into_iter().collect()
}

/// `From<Map<String, Value>>` for `serde_json::Value`: an object as a value.
#[verifier::external_body]
pub(crate) fn object_value(object: serde_json::Map<String, serde_json::Value>) -> (value:
    serde_json::Value)
    ensures
        json_of(value) == Json::Object(fields_of(object)),
{
    serde_json::Value::from(object)
}

/// `From<Vec<Value>>` for `serde_json::Value`: an array as a value.
#[verifier::external_body]
pub(crate) fn array_value(items: Vec<serde_json::Value>) -> (value: serde_json::Value)
    ensures
        json_of(value) == Json::Array(jsons(items@)),
{
    serde_json::Value::from(items)
}

/// `From<&str>` for `serde_json::Value`: a string as a value.
#[verifier::external_body]
pub(crate) fn string_value(text: &str) -> (value: serde_json::Value)
    ensures
        json_of(value) == Json::Text(text@),
{
    serde_json::Value::from(text)
}

/// `From<bool>` for `serde_json::Value`: a boolean as a value.
#[verifier::external_body]
pub(crate) fn bool_value(flag: bool) -> (value: serde_json::Value)
    ensures
        json_of(value) == Json::Bool(flag),
{
    serde_json::Value::from(flag)
}

/// `Clone::clone` of `serde_json::Value`: a value that holds the same.
pub assume_specification[ <serde_json::Value as Clone>::clone ](value: &serde_json::Value) -> (copy:
    serde_json::Value)
    ensures
        json_of(copy) == json_of(*value),
;

/// Writes a value as compact text.
pub fn render(value: &serde_json::Value) -> (text: String)
    ensures
        text@ == json_text(json_of(*value)),
        reads_back(json_of(*value), text@),
{
    match value_text(value) {
        Ok(text) => text,
        Err(_) => vstd::pervasive::unreached(),
    }
}

} // verus!
