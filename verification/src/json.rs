//! JSON values of `serde_json`: what they hold, and the few operations on them that the
//! configuration loader performs.
use serde_json::Value;
use vstd::prelude::*;

verus! {

/// `serde_json::Value`, carried as an opaque value; `json_contents` says what it holds.
#[verifier::external_type_specification]
#[verifier::external_body]
pub struct ExValue(serde_json::Value);

/// `serde_json::Error`, carried as an opaque value.
#[verifier::external_type_specification]
#[verifier::external_body]
pub struct ExJsonError(serde_json::Error);

/// What one level of a JSON value holds.
pub enum Json {
    Flag(bool),
    Integer(int),
    Text(Seq<char>),
    /// An object: the value of every key.
    Object(Map<Seq<char>, Value>),
    /// Null, an array, or a number that is not an integer.
    Other,
}

/// The contents of a `serde_json::Value`.
pub uninterp spec fn json_contents(value: Value) -> Json;

/// Whether a JSON value is an object.
pub open spec fn is_object(value: Value) -> bool {
    json_contents(value) is Object
}

/// The members of a JSON object.
pub open spec fn fields(value: Value) -> Map<Seq<char>, Value>
    recommends
        is_object(value),
{
    json_contents(value)->Object_0
}

/// Whether two JSON values are the same: the very same value, or the same flag, integer, text or
/// object.
pub open spec fn same_json(first: Value, second: Value) -> bool {
    ||| first == second
    ||| json_contents(first) == json_contents(second) && json_contents(first) !is Other
}

/// Whether two JSON objects have the same keys with the same values.
pub open spec fn same_members(first: Map<Seq<char>, Value>, second: Map<Seq<char>, Value>) -> bool {
    &&& first.dom() == second.dom()
    &&& forall|key: Seq<char>| first.contains_key(key) ==> same_json(#[trigger] first[key], second[key])
}

/// `Value::get` with a string key, reduced to whether it found something. An object answers by its
/// members, whatever the member's value is (null included); any other value has no members.
#[verifier::external_body]
pub(crate) fn has_field(value: &Value, key: &str) -> (present: bool)
    ensures
        present == (is_object(*value) && fields(*value).contains_key(key@)),
{
    value.get(key).is_some()
}

/// Assignment through `Value`'s `IndexMut` with a string key. On an object it inserts the member,
/// or replaces the value of one that is there, and leaves every other member alone. On anything
/// else but null it panics, so an object is asked for.
#[verifier::external_body]
pub(crate) fn set_field(value: &mut Value, key: &str, member: Value)
    requires
        is_object(*old(value)),
    ensures
        json_contents(*final(value)) == Json::Object(fields(*old(value)).insert(key@, member)),
{
    value[key] = member;
}

/// `Value::from` on a string slice: a JSON string with that text.
#[verifier::external_body]
pub(crate) fn json_text(text: &str) -> (value: Value)
    ensures
        json_contents(value) == Json::Text(text@),
{
    Value::from(text)
}

/// `Value::from` on a boolean: that JSON boolean.
#[verifier::external_body]
pub(crate) fn json_flag(flag: bool) -> (value: Value)
    ensures
        json_contents(value) == Json::Flag(flag),
{
    Value::from(flag)
}

/// `Value::from` on a 32-bit integer: that JSON number.
#[verifier::external_body]
pub(crate) fn json_integer(number: i32) -> (value: Value)
    ensures
        json_contents(value) == Json::Integer(number as int),
{
    Value::from(number)
}

} // verus!
