use vstd::prelude::*;
use serde_json::Value;

verus! {

/// A number as a JSON document holds it.
pub enum JsonNumber {
    /// An integer that is not negative.
    Unsigned(u64),
    /// An integer below zero.
    Negative(i64),
    /// Any other number, given by the bits of its binary encoding.
    Fraction(u64),
}

/// The mathematical model of a JSON document: what a `serde_json::Value` is
/// in contracts.
pub enum Json {
    Null,
    Bool(bool),
    Number(JsonNumber),
    Text(Seq<char>),
    Array(Seq<Json>),
    Object(Map<Seq<char>, Json>),
}

/// `serde_json::Value`: a JSON document in memory.
#[verifier::external_type_specification]
#[verifier::external_body]
pub struct ExValue(Value);

/// `serde_json::Map`: the members of a JSON object in memory.
#[verifier::external_type_specification]
#[verifier::external_body]
#[verifier::reject_recursive_types(K)]
#[verifier::reject_recursive_types(V)]
pub struct ExMembers<K, V>(serde_json::Map<K, V>);

/// `serde_json::Error`: why a text was not read.
#[verifier::external_type_specification]
#[verifier::external_body]
pub struct ExParseError(serde_json::Error);

/// The members of a JSON object, as `serde_json` holds them.
pub type Members = serde_json::Map<String, Value>;

/// The document that a `serde_json::Value` holds.
pub uninterp spec fn json_of(v: Value) -> Json;

/// The members that a `serde_json::Map` holds, by key.
pub uninterp spec fn members_of(m: Members) -> Map<Seq<char>, Json>;

/// The document that `serde_json::from_str` reads from a text, where it
/// reads one.
pub uninterp spec fn parsed(text: Seq<char>) -> Option<Json>;

/// The compact text that `serde_json` writes for a document.
pub uninterp spec fn printed(doc: Json) -> Seq<char>;

/// The members of an object that has none.
pub open spec fn no_members() -> Map<Seq<char>, Json> {
    Map::empty()
}

/// The documents of a sequence of values, in order.
pub open spec fn jsons_of(items: Seq<Value>) -> Seq<Json> {
    items.map_values(|v: Value| json_of(v))
}

/// Calls `serde_json::from_str` for a `Value`. Whether a text is read, and
/// as which document, depends on the text alone; the contract gives that
/// outcome the name `parsed`.
#[verifier::external_body]
pub(crate) fn parse_text(text: &str) -> (r: Result<Value, serde_json::Error>)
    ensures
        match r {
            Ok(v) => parsed(text@) == Some(json_of(v)),
            Err(_) => parsed(text@) is None,
        },
{
    serde_json::from_str::<Value>(text)
}

/// Calls `to_string` on a `Value`, which writes it through its `Display`
/// impl in the compact form. With the map that the default features give, the
/// members come out in the order of their keys, so the text depends on the
/// document alone; the contract gives it the name `printed`.
#[verifier::external_body]
pub(crate) fn print_value(v: &Value) -> (r: String)
    ensures
        r@ == printed(json_of(*v)),
{
    v.to_string()
}

/// Calls `to_string` on a `serde_json::Error`: the message with line and
/// column. Nothing is claimed of the text.
#[verifier::external_body]
pub(crate) fn parse_error_text(e: &serde_json::Error) -> String {
    e.to_string()
}

/// Calls `Value::get` with a string key: the member under that key where the
/// value is an object that has one, nothing otherwise.
#[verifier::external_body]
pub(crate) fn value_get<'a>(v: &'a Value, key: &str) -> (r: Option<&'a Value>)
    ensures
        match json_of(*v) {
            Json::Object(members) => if members.contains_key(key@) {
                r is Some && json_of(*r.unwrap()) == members[key@]
            } else {
                r is None
            },
            _ => r is None,
        },
{
    v.get(key)
}

/// Calls `Value::as_str`: the characters where the value is a string.
#[verifier::external_body]
pub(crate) fn value_as_str<'a>(v: &'a Value) -> (r: Option<&'a str>)
    ensures
        match json_of(*v) {
            Json::Text(s) => r is Some && r.unwrap()@ == s,
            _ => r is None,
        },
{
    v.as_str()
}

/// Calls `Value::as_u64`: the number where the value is an integer that is
/// not negative.
#[verifier::external_body]
pub(crate) fn value_as_u64(v: &Value) -> (r: Option<u64>)
    ensures
        match json_of(*v) {
            Json::Number(JsonNumber::Unsigned(n)) => r == Some(n),
            _ => r is None,
        },
{
    v.as_u64()
}

/// Calls `Value::as_array`: the items where the value is an array.
#[verifier::external_body]
pub(crate) fn value_as_array<'a>(v: &'a Value) -> (r: Option<&'a Vec<Value>>)
    ensures
        match json_of(*v) {
            Json::Array(items) => r is Some && jsons_of(r.unwrap()@) == items,
            _ => r is None,
        },
{
    v.as_array()
}

/// Builds `Value::String` from a string.
#[verifier::external_body]
pub(crate) fn value_from_string(s: String) -> (r: Value)
    ensures
        json_of(r) == Json::Text(s@),
{
    Value::String(s)
}

/// Calls `Value::from` on a `u64`, which gives a number that holds it as a
/// non-negative integer.
#[verifier::external_body]
pub(crate) fn value_from_u64(n: u64) -> (r: Value)
    ensures
        json_of(r) == Json::Number(JsonNumber::Unsigned(n)),
{
    Value::from(n)
}

/// Builds `Value::Array` from its items.
#[verifier::external_body]
pub(crate) fn value_from_array(items: Vec<Value>) -> (r: Value)
    ensures
        json_of(r) == Json::Array(jsons_of(items@)),
{
    Value::Array(items)
}

/// Builds `Value::Object` from its members.
#[verifier::external_body]
pub(crate) fn value_from_members(members: Members) -> (r: Value)
    ensures
        json_of(r) == Json::Object(members_of(members)),
{
    Value::Object(members)
}

/// Calls `serde_json::Map::new`: a map without members.
#[verifier::external_body]
pub(crate) fn members_new() -> (r: Members)
    ensures
        members_of(r) == no_members(),
{
    serde_json::Map::new()
}

/// Calls `serde_json::Map::insert`: the value stands under the key
/// afterwards, in place of what stood there, and the other members stay.
#[verifier::external_body]
pub(crate) fn members_insert(members: &mut Members, key: String, v: Value)
    ensures
        members_of(*final(members)) == members_of(*old(members)).insert(key@, json_of(v)),
{
    members.insert(key, v);
}

} // verus!
