//! The JSON values that the lowering produces, and what each of them holds.
//!
//! Values are `serde_json::Value`. The verifier cannot look inside one, so this
//! module gives its contents a mathematical name, [`json_of`], and states for
//! each constructor used by the lowering what the constructed value holds.
//! Those statements are assumed, not proved.
use vstd::prelude::*;

verus! {

#[verifier::external_type_specification]
#[verifier::external_body]
pub struct ExValue(serde_json::Value);

#[verifier::external_type_specification]
#[verifier::external_body]
#[verifier::reject_recursive_types(K)]
#[verifier::reject_recursive_types(V)]
pub struct ExMap<K, V>(serde_json::Map<K, V>);

/// The contents of a JSON value.
pub enum Json {
    Null,
    Bool(bool),
    Num(int),
    Str(Seq<char>),
    Arr(Seq<Json>),
    Obj(Map<Seq<char>, Json>),
}

/// What a `serde_json::Value` holds.
pub uninterp spec fn json_of(v: serde_json::Value) -> Json;

/// The members of a `serde_json::Map`, by key.
pub uninterp spec fn fields_of(m: serde_json::Map<String, serde_json::Value>) -> Map<Seq<char>, Json>;

/// The members of an object without members.
pub open spec fn no_fields() -> Map<Seq<char>, Json> {
    Map::empty()
}

/// The contents of each value of a list, in order.
pub open spec fn jsons_of(vs: Seq<serde_json::Value>) -> Seq<Json> {
    vs.map_values(|v: serde_json::Value| json_of(v))
}

/// `serde_json::Value::from(())`, which is `Value::Null`.
#[verifier::external_body]
pub(crate) fn json_null() -> (v: serde_json::Value)
    ensures
        json_of(v) == Json::Null,
{
    serde_json::Value::from(())
}

/// `serde_json::Value::from(u64)`: the JSON number with that value.
#[verifier::external_body]
pub(crate) fn json_number(n: u64) -> (v: serde_json::Value)
    ensures
        json_of(v) == Json::Num(n as int),
{
    serde_json::Value::from(n)
}

/// `serde_json::Value::from(String)`: the JSON string with that text.
#[verifier::external_body]
pub(crate) fn json_string(s: String) -> (v: serde_json::Value)
    ensures
        json_of(v) == Json::Str(s@),
{
    serde_json::Value::from(s)
}

/// `serde_json::Value::from(Vec<Value>)`: the JSON array of the given values,
/// in their order.
#[verifier::external_body]
pub(crate) fn json_array(items: Vec<serde_json::Value>) -> (v: serde_json::Value)
    ensures
        json_of(v) == Json::Arr(jsons_of(items@)),
{
    serde_json::Value::from(items)
}

/// `serde_json::Map::new`: a map without members.
#[verifier::external_body]
pub(crate) fn fields_new() -> (m: serde_json::Map<String, serde_json::Value>)
    ensures
        fields_of(m) == no_fields(),
{
    serde_json::Map::new()
}

/// `serde_json::Map::insert`: the member `key` now holds `value`, whether or
/// not the key was present; the other members are as before.
#[verifier::external_body]
pub(crate) fn fields_insert(
    m: &mut serde_json::Map<String, serde_json::Value>,
    key: String,
    value: serde_json::Value,
)
    ensures
        fields_of(*final(m)) == fields_of(*old(m)).insert(key@, json_of(value)),
{
    m.insert(key, value);
}

/// `serde_json::Value::from(Map<String, Value>)`: the JSON object with the
/// map's members.
#[verifier::external_body]
pub(crate) fn json_object(m: serde_json::Map<String, serde_json::Value>) -> (v: serde_json::Value)
    ensures
        json_of(v) == Json::Obj(fields_of(m)),
{
    serde_json::Value::from(m)
}

/// The JSON string holding the text of `s`.
pub fn json_str(s: &str) -> (v: serde_json::Value)
    ensures
        json_of(v) == Json::Str(s@),
{
    json_string(String::from_str(s))
}

/// Adds the member `key`, holding `value`, to a map under construction.
pub fn put(m: &mut serde_json::Map<String, serde_json::Value>, key: &str, value: serde_json::Value)
    ensures
        fields_of(*final(m)) == fields_of(*old(m)).insert(key@, json_of(value)),
{
    fields_insert(m, String::from_str(key), value);
}

/// The object whose only member is `"kind"`, holding the string `kind`.
pub open spec fn kind_only(kind: Seq<char>) -> Json {
    Json::Obj(no_fields().insert("kind"@, Json::Str(kind)))
}

/// Builds the object `{"kind": kind}`.
pub fn json_kind(kind: &str) -> (v: serde_json::Value)
    ensures
        json_of(v) == kind_only(kind@),
{
    let mut m = fields_new();
    put(&mut m, "kind", json_str(kind));
    json_object(m)
}

/// The empty JSON array.
pub open spec fn empty_array() -> Json {
    Json::Arr(Seq::<Json>::empty())
}

/// The empty JSON array.
pub fn json_empty_array() -> (j: serde_json::Value)
    ensures
        json_of(j) == empty_array(),
{
    let items: Vec<serde_json::Value> = Vec::new();
    assert(jsons_of(items@) =~= Seq::<Json>::empty());
    json_array(items)
}

} // verus!
