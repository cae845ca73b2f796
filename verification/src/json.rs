//! JSON values. The values themselves are `serde_json`'s; this module gives
//! them a mathematical model and states, without proof, what the few
//! `serde_json` operations that the library calls do to that model.
//!
//! The statements hold for `serde_json` as it is built by default: objects
//! keep their members sorted by name, and numbers have machine precision.

use vstd::prelude::*;

verus! {

/// `serde_json::Value`, taken as it is: what a value holds is known to the
/// verifier only as `value_model`.
#[verifier::external_type_specification]
#[verifier::external_body]
pub struct ExValue(serde_json::Value);

/// The model of a JSON value.
pub enum JsonView {
    Null,
    Bool(bool),
    /// A number that is held as an integer.
    Int(int),
    /// Any other number, identified by the bits of its binary64 form.
    Real(u64),
    Str(Seq<char>),
    Array(Seq<JsonView>),
    Object(Map<Seq<char>, JsonView>),
}

/// The JSON value that a `serde_json::Value` holds.
pub uninterp spec fn value_model(v: serde_json::Value) -> JsonView;

/// What `serde_json::from_str` reads from `text`: the value that the text
/// denotes, or `None` where it rejects the text.
pub uninterp spec fn json_parse(text: Seq<char>) -> Option<JsonView>;

/// The compact text that `serde_json::to_string` writes for a value.
pub uninterp spec fn json_text(json: JsonView) -> Seq<char>;

/// The names of the members of an object, in the order in which
/// `serde_json` walks them; empty for a value that is no object.
pub uninterp spec fn member_order(json: JsonView) -> Seq<Seq<char>>;

/// The member `key` of `json`: present only when `json` is an object that
/// has a member of that name.
pub open spec fn member_of(json: JsonView, key: Seq<char>) -> Option<JsonView> {
    match json {
        JsonView::Object(members) => if members.contains_key(key) {
            Some(members[key])
        } else {
            None
        },
        _ => None,
    }
}

/// `json` with the member `key` set to `value`, when `json` is an object;
/// any other value is left as it is.
pub open spec fn with_member(json: JsonView, key: Seq<char>, value: JsonView) -> JsonView {
    match json {
        JsonView::Object(members) => JsonView::Object(members.insert(key, value)),
        _ => json,
    }
}

/// Trusted: `serde_json::from_str::<Value>` is a function of the text alone;
/// its result is named by `json_parse`. A rejection comes back as the
/// message of `serde_json`'s error, of which nothing is claimed.
#[verifier::external_body]
pub(crate) fn parse(text: &str) -> (r: Result<serde_json::Value, String>)
    ensures
        match r {
            Ok(v) => json_parse(text@) == Some(value_model(v)),
            Err(_) => json_parse(text@) is None,
        },
{
    match serde_json::from_str::<serde_json::Value>(text) {
        Ok(v) => Ok(v),
        Err(e) => Err(e.to_string()),
    }
}

/// Trusted: `serde_json::to_string` of a `Value` is a function of the value
/// alone and does not fail; its result is named by `json_text`.
#[verifier::external_body]
pub(crate) fn to_text(v: &serde_json::Value) -> (r: String)
    ensures
        r@ == json_text(value_model(*v)),
{
    serde_json::to_string(v).unwrap_or_default()
}

/// Trusted: `Value::get` with a string index returns the member of that
/// name when the value is an object that has one, and `None` otherwise.
#[verifier::external_body]
pub(crate) fn member<'a>(v: &'a serde_json::Value, key: &str) -> (r: Option<&'a serde_json::Value>)
    ensures
        match r {
            Some(m) => member_of(value_model(*v), key@) == Some(value_model(*m)),
            None => member_of(value_model(*v), key@) is None,
        },
{
    v.get(key)
}

/// Trusted: `Value::as_str` returns the characters of a string value, and
/// `None` for a value of any other type.
#[verifier::external_body]
pub(crate) fn as_text<'a>(v: &'a serde_json::Value) -> (r: Option<&'a str>)
    ensures
        match r {
            Some(s) => value_model(*v) == JsonView::Str(s@),
            None => !(value_model(*v) is Str),
        },
{
    v.as_str()
}

/// Trusted: `Value::as_i64` returns the number when the value is an integer
/// that fits `i64`, and `None` otherwise.
#[verifier::external_body]
pub(crate) fn as_integer(v: &serde_json::Value) -> (r: Option<i64>)
    ensures
        match r {
            Some(n) => value_model(*v) == JsonView::Int(n as int),
            None => !(value_model(*v) matches JsonView::Int(n) && i64::MIN <= n <= i64::MAX),
        },
{
    v.as_i64()
}

/// Trusted: `Value::is_null` tells whether the value is `null`.
#[verifier::external_body]
pub(crate) fn is_null(v: &serde_json::Value) -> (r: bool)
    ensures
        r == (value_model(*v) is Null),
{
    v.is_null()
}

/// Trusted: `Value::is_object` tells whether the value is an object.
#[verifier::external_body]
pub(crate) fn is_object(v: &serde_json::Value) -> (r: bool)
    ensures
        r == (value_model(*v) is Object),
{
    v.is_object()
}

/// Trusted: `Value::from` of a string slice is the string value with those
/// characters.
#[verifier::external_body]
pub(crate) fn text_value(s: &str) -> (v: serde_json::Value)
    ensures
        value_model(v) == JsonView::Str(s@),
{
    serde_json::Value::from(s)
}

/// Trusted: `Value::from` of an `i64` is the integer number of that value.
#[verifier::external_body]
pub(crate) fn integer_value(n: i64) -> (v: serde_json::Value)
    ensures
        value_model(v) == JsonView::Int(n as int),
{
    serde_json::Value::from(n)
}

/// Trusted: `Value::from` of a `bool` is the boolean value.
#[verifier::external_body]
pub(crate) fn bool_value(b: bool) -> (v: serde_json::Value)
    ensures
        value_model(v) == JsonView::Bool(b),
{
    serde_json::Value::from(b)
}

/// Trusted: a `Value::Object` made of `Map::new()` is the object without
/// members.
#[verifier::external_body]
pub(crate) fn empty_object() -> (v: serde_json::Value)
    ensures
        value_model(v) == JsonView::Object(Map::empty()),
{
    serde_json::Value::Object(serde_json::Map::new())
}

/// Trusted: `Map::insert`, reached through `Value::as_object_mut`, sets the
/// member `key` of an object to `value`, replacing a member of that name;
/// a value that is no object has no map and stays as it is.
#[verifier::external_body]
pub(crate) fn set_member(v: &mut serde_json::Value, key: &str, value: serde_json::Value)
    ensures
        value_model(*final(v)) == with_member(value_model(*old(v)), key@, value_model(value)),
{
    if let Some(members) = v.as_object_mut() {
        members.insert(key.to_owned(), value);
    }
}

/// Trusted: `Map::keys`, reached through `Value::as_object`, walks the
/// names of an object's members, each once, in an order that the object
/// alone fixes; a value that is no object has no names.
#[verifier::external_body]
pub(crate) fn member_names(v: &serde_json::Value) -> (r: Vec<String>)
    ensures
        r@.len() == member_order(value_model(*v)).len(),
        forall|i: int|
            0 <= i < r@.len() ==> (#[trigger] r@[i])@ == member_order(value_model(*v))[i],
        forall|i: int, j: int| 0 <= i < j < r@.len() ==> (#[trigger] r@[i])@ != (#[trigger] r@[j])@,
        forall|i: int|
            0 <= i < r@.len() ==> member_of(value_model(*v), (#[trigger] r@[i])@) is Some,
        forall|key: Seq<char>| #[trigger]
            member_of(value_model(*v), key) is Some ==> exists|i: int|
                0 <= i < r@.len() && (#[trigger] r@[i])@ == key,
{
    match v.as_object() {
        Some(members) => members.keys().cloned().collect(),
        None => Vec::new(),
    }
}

} // verus!
