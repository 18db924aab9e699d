//! JSON values.
//!
//! `serde_json` reads, holds and prints JSON. Its `Value` is opaque here: the
//! contracts speak of what a value holds, as a tree of plain values. They are
//! true of the crate without its features `preserve_order`,
//! `arbitrary_precision` and `unbounded_depth`: members are kept sorted by name,
//! numbers in 64 bits, and deeply nested text is refused.

use serde_json::Value;
use vstd::prelude::*;

verus! {

#[verifier::external_type_specification]
#[verifier::external_body]
pub struct ExValue(Value);

#[verifier::external_type_specification]
#[verifier::external_body]
pub struct ExJsonError(serde_json::Error);

/// What a JSON value holds. A number is a whole one that fits in 64 bits, or a
/// double, given by its bits.
pub enum Json {
    Null,
    Bool(bool),
    Unsigned(u64),
    Negative(i64),
    Double(u64),
    Text(Seq<char>),
    Array(Seq<Json>),
    Object(Map<Seq<char>, Json>),
}

/// The member of an object that has the name `key`.
pub open spec fn member(json: Json, key: Seq<char>) -> Option<Json> {
    match json {
        Json::Object(members) => if members.contains_key(key) {
            Some(members[key])
        } else {
            None
        },
        _ => None,
    }
}

/// The member `inner` of the member `outer`.
pub open spec fn member_at(json: Json, outer: Seq<char>, inner: Seq<char>) -> Option<Json> {
    match member(json, outer) {
        Some(part) => member(part, inner),
        None => None,
    }
}

/// The text of a string.
pub open spec fn text_in(json: Json) -> Option<Seq<char>> {
    match json {
        Json::Text(text) => Some(text),
        _ => None,
    }
}

/// What a value holds.
pub uninterp spec fn json_of(value: Value) -> Json;

/// What a value holds, where there is one.
pub open spec fn json_of_option(value: Option<&Value>) -> Option<Json> {
    match value {
        Some(value) => Some(json_of(*value)),
        None => None,
    }
}

/// What `serde_json::from_str` reads from a text, unless it fails.
pub uninterp spec fn json_from_text(text: Seq<char>) -> Option<Json>;

/// What `serde_json::from_slice` reads from bytes, unless it fails.
pub uninterp spec fn json_from_bytes(bytes: Seq<u8>) -> Option<Json>;

/// What `serde_json::to_string_pretty` prints for a value, unless it fails.
pub uninterp spec fn json_printed(json: Json) -> Option<Seq<char>>;

/// Whether arrays and objects are nested at most `depth` deep.
pub open spec fn is_nested_within(json: Json, depth: nat) -> bool
    decreases depth,
{
    match json {
        Json::Array(items) => depth > 0 && forall|i: int|
            0 <= i < items.len() ==> is_nested_within(#[trigger] items[i], (depth - 1) as nat),
        Json::Object(members) => depth > 0 && forall|key: Seq<char>|
            members.contains_key(key) ==> is_nested_within(
                #[trigger] members[key],
                (depth - 1) as nat,
            ),
        _ => true,
    }
}

/// Whether a double, printed by itself, is read back as the same double. The
/// reader of `serde_json` may be off in the last place, so that not all are.
pub open spec fn double_reads_back(bits: u64) -> bool {
    json_printed(Json::Double(bits)) matches Some(text) && json_from_text(text) == Some(
        Json::Double(bits),
    )
}

/// Whether all doubles that are nested at most `depth` deep are read back.
pub open spec fn doubles_read_back(json: Json, depth: nat) -> bool
    decreases depth,
{
    match json {
        Json::Double(bits) => double_reads_back(bits),
        Json::Array(items) => depth > 0 ==> forall|i: int|
            0 <= i < items.len() ==> doubles_read_back(#[trigger] items[i], (depth - 1) as nat),
        Json::Object(members) => depth > 0 ==> forall|key: Seq<char>|
            members.contains_key(key) ==> doubles_read_back(
                #[trigger] members[key],
                (depth - 1) as nat,
            ),
        _ => true,
    }
}

/// `serde_json::from_str`: whether it succeeds, and what it reads, rests on the
/// text alone. It follows arrays and objects 127 deep and fails on deeper ones.
#[verifier::external_body]
pub(crate) fn parse_text(text: &str) -> (r: Result<Value, serde_json::Error>)
    ensures
        match r {
            Ok(value) => {
                &&& json_from_text(text@) == Some(json_of(value))
                &&& is_nested_within(json_of(value), 127)
            },
            Err(_) => json_from_text(text@) is None,
        },
{
    serde_json::from_str(text)
}

/// `serde_json::from_slice`: whether it succeeds, and what it reads, rests on
/// the bytes alone.
#[verifier::external_body]
pub(crate) fn parse_bytes(bytes: &[u8]) -> (r: Result<Value, serde_json::Error>)
    ensures
        match r {
            Ok(value) => json_from_bytes(bytes@) == Some(json_of(value)),
            Err(_) => json_from_bytes(bytes@) is None,
        },
{
    serde_json::from_slice(bytes)
}

/// `serde_json::to_string_pretty`: whether it succeeds, and what it prints,
/// rests on what the value holds alone. With a line feed behind it,
/// `serde_json::from_str` reads the same value back from that text, where the
/// value is nested no deeper than that function follows and each of its doubles
/// is read back when printed by itself.
#[verifier::external_body]
pub(crate) fn print(value: &Value) -> (r: Result<String, serde_json::Error>)
    ensures
        match r {
            Ok(text) => {
                &&& json_printed(json_of(*value)) == Some(text@)
                &&& is_nested_within(json_of(*value), 127) && doubles_read_back(
                    json_of(*value),
                    127,
                ) ==> json_from_text(text@ + "\n"@) == Some(json_of(*value))
            },
            Err(_) => json_printed(json_of(*value)) is None,
        },
{
    serde_json::to_string_pretty(value)
}

/// `Value::get` with a string finds the member of that name, and nothing where
/// the value is no object or has no such member.
#[verifier::external_body]
pub(crate) fn get<'a>(value: &'a Value, key: &str) -> (r: Option<&'a Value>)
    ensures
        json_of_option(r) == member(json_of(*value), key@),
{
    value.get(key)
}

/// Whether `key` is made of letters and underscores, so that a JSON pointer
/// needs no escape for it and it is no array index.
pub open spec fn is_plain_key(key: Seq<char>) -> bool {
    &&& key.len() > 0
    &&& forall|i: int|
        0 <= i < key.len() ==> 'a' <= #[trigger] key[i] <= 'z' || 'A' <= key[i] <= 'Z' || key[i]
            == '_'
}

/// `Value::pointer` with a pointer of two plain keys finds the member of the
/// second name in the member of the first name, where both are there.
#[verifier::external_body]
pub(crate) fn pointer<'a>(value: &'a Value, outer: &str, inner: &str) -> (r: Option<&'a Value>)
    requires
        is_plain_key(outer@),
        is_plain_key(inner@),
    ensures
        json_of_option(r) == member_at(json_of(*value), outer@, inner@),
{
    value.pointer(&format!("/{outer}/{inner}"))
}

/// `Value::as_str` gives the text of a string, and nothing for other values.
#[verifier::external_body]
pub(crate) fn as_str(value: &Value) -> (r: Option<&str>)
    ensures
        match r {
            Some(text) => text_in(json_of(*value)) == Some(text@),
            None => text_in(json_of(*value)) is None,
        },
{
    value.as_str()
}

/// `Value::as_u64` gives a whole number from zero on, and nothing for other
/// values.
#[verifier::external_body]
pub(crate) fn as_u64(value: &Value) -> (r: Option<u64>)
    ensures
        match r {
            Some(n) => json_of(*value) == Json::Unsigned(n),
            None => !(json_of(*value) is Unsigned),
        },
{
    value.as_u64()
}

/// `Value::as_i64` gives a whole number that an `i64` can hold, and nothing for
/// other values. Whole numbers from zero on are held as unsigned ones.
#[verifier::external_body]
pub(crate) fn as_i64(value: &Value) -> (r: Option<i64>)
    ensures
        match r {
            Some(n) => json_of(*value) == if n < 0 {
                Json::Negative(n)
            } else {
                Json::Unsigned(n as u64)
            },
            None => match json_of(*value) {
                Json::Unsigned(n) => n > i64::MAX,
                Json::Negative(_) => false,
                _ => true,
            },
        },
{
    value.as_i64()
}

/// `Value::is_object` tells objects from other values.
#[verifier::external_body]
pub(crate) fn is_object(value: &Value) -> (r: bool)
    ensures
        r == (json_of(*value) is Object),
{
    value.is_object()
}

/// `Value::is_null` tells null from other values.
#[verifier::external_body]
pub(crate) fn is_null(value: &Value) -> (r: bool)
    ensures
        r == (json_of(*value) is Null),
{
    value.is_null()
}

/// `serde_json::Map::new` makes an object without members.
#[verifier::external_body]
pub(crate) fn empty_object() -> (r: Value)
    ensures
        json_of(r) == Json::Object(Map::empty()),
{
    Value::Object(serde_json::Map::new())
}

/// `Value::from` on a string slice makes a string of the same text.
#[verifier::external_body]
pub(crate) fn string_value(text: &str) -> (r: Value)
    ensures
        json_of(r) == Json::Text(text@),
{
    Value::from(text)
}

/// The members of an object, where null counts as an object without members.
pub open spec fn members(json: Json) -> Map<Seq<char>, Json> {
    match json {
        Json::Object(members) => members,
        _ => Map::empty(),
    }
}

/// Assigning to `Value::index_mut` with a string puts a member into an object,
/// in place of one of that name. Null becomes an object first; the call panics
/// on any other value.
#[verifier::external_body]
pub(crate) fn set(value: &mut Value, key: &str, part: Value)
    requires
        json_of(*old(value)) is Object || json_of(*old(value)) is Null,
    ensures
        json_of(*final(value)) == Json::Object(
            members(json_of(*old(value))).insert(key@, json_of(part)),
        ),
{
    value[key] = part;
}

/// `serde_json::Map::remove` takes the member of a name out of an object. A
/// value that is no object has no such map and stays as it is.
#[verifier::external_body]
pub(crate) fn remove(value: &mut Value, key: &str) -> (r: Option<Value>)
    ensures
        match json_of(*old(value)) {
            Json::Object(members) => json_of(*final(value)) == Json::Object(members.remove(key@)),
            other => json_of(*final(value)) == other,
        },
        match r {
            Some(part) => member(json_of(*old(value)), key@) == Some(json_of(part)),
            None => member(json_of(*old(value)), key@) is None,
        },
{
    match value {
        Value::Object(map) => map.remove(key),
        _ => None,
    }
}

} // verus!
