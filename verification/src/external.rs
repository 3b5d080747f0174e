//! What the join takes on trust of the crates that hold a feature.
//!
//! The property bag of a feature is a `serde_json::Map`, and the values in it
//! are `serde_json::Value`s; its outline and identifier are types of
//! `geojson`. The verifier does not look inside any of them: what it knows of
//! them is what this module states, and none of it is proved.

use vstd::prelude::*;

verus! {

/// `serde_json::Map`, the type of a property bag. Its contents are spoken of
/// through `properties`.
#[verifier::external_type_specification]
#[verifier::external_body]
#[verifier::reject_recursive_types(K)]
#[verifier::reject_recursive_types(V)]
pub struct ExJsonMap<K, V>(serde_json::Map<K, V>);

/// `serde_json::Value`, any JSON value.
#[verifier::external_type_specification]
#[verifier::external_body]
pub struct ExJsonValue(serde_json::Value);

/// `geojson::Geometry`, the outline of a feature. The join carries it along
/// and never looks inside.
#[verifier::external_type_specification]
#[verifier::external_body]
pub struct ExGeometry(geojson::Geometry);

/// `geojson::feature::Id`, the identifier of a feature. The join carries it
/// along and never looks inside.
#[verifier::external_type_specification]
#[verifier::external_body]
pub struct ExFeatureId(geojson::feature::Id);

/// `geojson::Error`, what is wrong with a text that is no GeoJSON document.
#[verifier::external_type_specification]
#[verifier::external_body]
pub struct ExGeoJsonError(geojson::Error);

/// The properties that a bag holds: the value under each key.
pub uninterp spec fn properties(bag: serde_json::Map<String, serde_json::Value>) -> Map<
    Seq<char>,
    serde_json::Value,
>;

/// The text of a JSON value: what `serde_json::Value::as_str` gives for it.
/// A value that is no string has none.
pub uninterp spec fn text_of(value: serde_json::Value) -> Option<Seq<char>>;

/// The JSON value that stands for a whole number: what
/// `serde_json::Value::from` gives for it.
pub uninterp spec fn integer_value(n: u32) -> serde_json::Value;

/// `serde_json::Map::get` with a string key: the value under `key`, or
/// `None` where the bag has no such key.
#[verifier::external_body]
pub(crate) fn property<'a>(
    bag: &'a serde_json::Map<String, serde_json::Value>,
    key: &str,
) -> (value: Option<&'a serde_json::Value>)
    ensures
        value == (if properties(*bag).contains_key(key@) {
            Some(&properties(*bag)[key@])
        } else {
            None
        }),
{
    bag.get(key)
}

/// `serde_json::Value::as_str`: the string that a JSON string holds, and
/// `None` for any other value.
pub assume_specification[ serde_json::Value::as_str ](value: &serde_json::Value) -> (text: Option<
    &str,
>)
    ensures
        match text {
            Some(t) => text_of(*value) == Some(t@),
            None => text_of(*value) is None,
        },
;

/// `serde_json::Map::insert`: afterwards the bag holds `v` under `k` and is
/// otherwise as before. It hands back the value that stood under `k`, if
/// there was one.
pub assume_specification[ serde_json::Map::<String, serde_json::Value>::insert ](
    bag: &mut serde_json::Map<String, serde_json::Value>,
    k: String,
    v: serde_json::Value,
) -> (previous: Option<serde_json::Value>)
    ensures
        properties(*final(bag)) == properties(*old(bag)).insert(k@, v),
        previous == (if properties(*old(bag)).contains_key(k@) {
            Some(properties(*old(bag))[k@])
        } else {
            None
        }),
;

/// `serde_json::Value::from` on a `u32`: the JSON number for `n`.
#[verifier::external_body]
pub(crate) fn integer(n: u32) -> (value: serde_json::Value)
    ensures
        value == integer_value(n),
{
    serde_json::Value::from(n)
}

} // verus!
