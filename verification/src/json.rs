//! JSON values, which `serde_json` parses and writes.
//!
//! A value of `serde_json` cannot be looked into by the verifier. What it holds
//! is named by [`json_view`], and every function here says what it does over
//! that name.

use vstd::prelude::*;
use crate::keys::position;
use crate::text::texts_view;

verus! {

/// A JSON value of `serde_json`: no verified function looks into one.
#[verifier::external_type_specification]
#[verifier::external_body]
pub struct ExJsonValue(serde_json::Value);

/// A JSON value as a mathematical value.
pub ghost enum JsonModel {
    Null,
    Bool(bool),
    /// A number without fraction or exponent.
    Number(int),
    /// Any other number, by the text that stands for it.
    Real(Seq<char>),
    Text(Seq<char>),
    List(Seq<JsonModel>),
    /// An object, by its members in the order in which it holds them.
    Object(Seq<(Seq<char>, JsonModel)>),
}

/// What a value of `serde_json` holds.
pub uninterp spec fn json_view(value: serde_json::Value) -> JsonModel;

/// What `serde_json` reads from a text: the value it stands for, or the
/// message that says where the text is no JSON.
pub uninterp spec fn json_parsed(text: Seq<char>) -> Result<JsonModel, Seq<char>>;

/// The text that `serde_json` writes for a value, indented by two spaces.
pub uninterp spec fn json_pretty_text(value: JsonModel) -> Seq<char>;

/// What each value of `values` holds.
pub open spec fn json_views(values: Seq<serde_json::Value>) -> Seq<JsonModel> {
    values.map_values(|v: serde_json::Value| json_view(v))
}

/// `serde_json::from_str` for a `Value`, with the error turned into its
/// message. The contract only names the result: the same text is read the
/// same way.
#[verifier::external_body]
pub(crate) fn json_parse(text: &str) -> (result: Result<serde_json::Value, String>)
    ensures
        match result {
            Ok(value) => json_parsed(text@) == Ok::<JsonModel, Seq<char>>(json_view(value)),
            Err(message) => json_parsed(text@) == Err::<JsonModel, Seq<char>>(message@),
        },
{
    match serde_json::from_str::<serde_json::Value>(text) {
        Ok(value) => Ok(value),
        Err(error) => Err(error.to_string()),
    }
}

/// `serde_json::to_string_pretty` on a `Value`, which cannot fail: the keys of
/// a `Value` are strings and its numbers are finite. The contract only names
/// the result: values that hold the same are written the same way.
#[verifier::external_body]
pub(crate) fn json_pretty(value: &serde_json::Value) -> (text: String)
    ensures
        text@ == json_pretty_text(json_view(*value)),
{
    serde_json::to_string_pretty(value).unwrap()
}

/// `Value::Null`.
#[verifier::external_body]
pub(crate) fn json_null() -> (value: serde_json::Value)
    ensures
        json_view(value) == JsonModel::Null,
{
    serde_json::Value::Null
}

/// `Value::from` on a `bool`: the value `Value::Bool(b)`.
#[verifier::external_body]
pub(crate) fn json_from_bool(b: bool) -> (value: serde_json::Value)
    ensures
        json_view(value) == JsonModel::Bool(b),
{
    serde_json::Value::from(b)
}

/// `Value::from` on an `i64`: the number `x`, without fraction.
#[verifier::external_body]
pub(crate) fn json_from_i64(x: i64) -> (value: serde_json::Value)
    ensures
        json_view(value) == JsonModel::Number(x as int),
{
    serde_json::Value::from(x)
}

/// `Value::from` on a `u64`: the number `x`, without fraction.
#[verifier::external_body]
pub(crate) fn json_from_u64(x: u64) -> (value: serde_json::Value)
    ensures
        json_view(value) == JsonModel::Number(x as int),
{
    serde_json::Value::from(x)
}

/// `Value::from` on a `&str`: the value `Value::String` with the same characters.
#[verifier::external_body]
pub(crate) fn json_from_text(text: &str) -> (value: serde_json::Value)
    ensures
        json_view(value) == JsonModel::Text(text@),
{
    serde_json::Value::from(text)
}

/// `Value::from` on a `Vec<Value>`: the value `Value::Array` of the same items.
#[verifier::external_body]
pub(crate) fn json_from_list(items: Vec<serde_json::Value>) -> (value: serde_json::Value)
    ensures
        json_view(value) == JsonModel::List(json_views(items@)),
{
    serde_json::Value::from(items)
}

/// `Value::is_null`.
#[verifier::external_body]
pub(crate) fn json_is_null(value: &serde_json::Value) -> (r: bool)
    ensures
        r == (json_view(*value) is Null),
{
    value.is_null()
}

/// `Value::as_bool`: the boolean of a `Value::Bool`, `None` for any other value.
#[verifier::external_body]
pub(crate) fn json_as_bool(value: &serde_json::Value) -> (r: Option<bool>)
    ensures
        r == match json_view(*value) {
            JsonModel::Bool(b) => Some(b),
            _ => None,
        },
{
    value.as_bool()
}

/// `Value::as_i64`: a number without fraction that fits in `i64`, `None` for
/// any other value.
#[verifier::external_body]
pub(crate) fn json_as_i64(value: &serde_json::Value) -> (r: Option<i64>)
    ensures
        r == match json_view(*value) {
            JsonModel::Number(n) => if i64::MIN <= n <= i64::MAX {
                Some(n as i64)
            } else {
                None
            },
            _ => None,
        },
{
    value.as_i64()
}

/// `Value::as_u64`: a number without fraction that fits in `u64`, `None` for
/// any other value.
#[verifier::external_body]
pub(crate) fn json_as_u64(value: &serde_json::Value) -> (r: Option<u64>)
    ensures
        r == match json_view(*value) {
            JsonModel::Number(n) => if 0 <= n <= u64::MAX {
                Some(n as u64)
            } else {
                None
            },
            _ => None,
        },
{
    value.as_u64()
}

/// `Value::as_str`, copied into a `String`: the characters of a
/// `Value::String`, `None` for any other value.
#[verifier::external_body]
pub(crate) fn json_as_text(value: &serde_json::Value) -> (r: Option<String>)
    ensures
        match r {
            Some(text) => json_view(*value) == JsonModel::Text(text@),
            None => !(json_view(*value) is Text),
        },
{
    match value.as_str() {
        Some(text) => Some(text.to_string()),
        None => None,
    }
}

/// `Value::as_array`, cloned: the items of a `Value::Array`, `None` for any
/// other value.
#[verifier::external_body]
pub(crate) fn json_as_list(value: &serde_json::Value) -> (r: Option<Vec<serde_json::Value>>)
    ensures
        match r {
            Some(items) => json_view(*value) == JsonModel::List(json_views(items@)),
            None => !(json_view(*value) is List),
        },
{
    match value.as_array() {
        Some(items) => Some(items.clone()),
        None => None,
    }
}

/// The members of an object: each name with its value.
pub open spec fn json_members(names: Seq<Seq<char>>, values: Seq<JsonModel>) -> Seq<
    (Seq<char>, JsonModel),
> {
    Seq::new(names.len(), |i: int| (names[i], values[i]))
}

/// The names of the members `members`.
pub open spec fn member_names(members: Seq<(Seq<char>, JsonModel)>) -> Seq<Seq<char>> {
    members.map_values(|member: (Seq<char>, JsonModel)| member.0)
}

/// The values of the members `members`.
pub open spec fn member_values(members: Seq<(Seq<char>, JsonModel)>) -> Seq<JsonModel> {
    members.map_values(|member: (Seq<char>, JsonModel)| member.1)
}

/// The value of the member `name` of a JSON object; none where the value
/// is no object or has no such member.
pub open spec fn member_of(value: JsonModel, name: Seq<char>) -> Option<JsonModel> {
    match value {
        JsonModel::Object(members) => match position(member_names(members), name) {
            Some(i) => Some(members[i].1),
            None => None,
        },
        _ => None,
    }
}

/// `Value::Object` of a map that is collected from the names and the values:
/// the object with these members, in this order. (The map keeps the order in
/// which it is filled, which is the feature `preserve_order` of `serde_json`.)
#[verifier::external_body]
pub(crate) fn json_from_members(names: Vec<String>, values: Vec<serde_json::Value>) -> (value:
    serde_json::Value)
    requires
        names@.len() == values@.len(),
        texts_view(names@).no_duplicates(),
    ensures
        json_view(value) == JsonModel::Object(
            json_members(texts_view(names@), json_views(values@)),
        ),
{
    serde_json::Value::Object(names.into_iter().zip(values).collect())
}

/// `Value::as_object`, with the names and the values of the map cloned: the
/// members of a `Value::Object` in the order in which the map holds them, no
/// two of them with the same name; `None` for any other value.
#[verifier::external_body]
pub(crate) fn json_as_members(value: &serde_json::Value) -> (r: Option<
    (Vec<String>, Vec<serde_json::Value>),
>)
    ensures
        match r {
            Some(members) => json_view(*value) == JsonModel::Object(
                json_members(texts_view(members.0@), json_views(members.1@)),
            ) && members.0@.len() == members.1@.len() && texts_view(members.0@).no_duplicates(),
            None => !(json_view(*value) is Object),
        },
{
    match value.as_object() {
        Some(map) => Some((map.keys().cloned().collect(), map.values().cloned().collect())),
        None => None,
    }
}

/// `Value::clone`: a value that holds the same.
#[verifier::external_body]
pub(crate) fn json_copy(value: &serde_json::Value) -> (copy: serde_json::Value)
    ensures
        json_view(copy) == json_view(*value),
{
    value.clone()
}

} // verus!
