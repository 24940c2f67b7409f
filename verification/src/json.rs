//! JSON values as `serde_json` holds them, and what the decoders read of them.
//!
//! A `serde_json::Value` is opaque to the verifier. [`value_json`] names the
//! mathematical value that it holds, the accessors of `serde_json` are given
//! contracts over that name, and the readers below are proved against the
//! spec functions of the same names with `_of` at the end.

use crate::error::{outcome, BeaErr, ErrorView, Origin};
use vstd::prelude::*;

verus! {

/// `serde_json::Value`. The verifier sees nothing inside one: what it holds
/// is known through [`value_json`] alone.
#[verifier::external_type_specification]
#[verifier::external_body]
pub struct ExValue(serde_json::Value);

/// `serde_json::Map`. The verifier sees nothing inside one: what it holds is
/// known through [`object_entries`] alone.
#[verifier::external_type_specification]
#[verifier::external_body]
#[verifier::reject_recursive_types(K)]
#[verifier::reject_recursive_types(V)]
pub struct ExObject<K, V>(serde_json::Map<K, V>);

/// `serde_json::Error`. It is carried from the call that failed to the
/// function that reports the failure, and never read.
#[verifier::external_type_specification]
#[verifier::external_body]
pub struct ExError(serde_json::Error);

/// A JSON value as mathematics sees it. A number is held as the text that
/// stands for it in JSON: no decoder of this crate reads one.
pub enum Json {
    Null,
    Bool(bool),
    Number(Seq<char>),
    String(Seq<char>),
    Array(Seq<Json>),
    Object(Map<Seq<char>, Json>),
}

/// The JSON value that a `serde_json::Value` holds.
pub uninterp spec fn value_json(v: serde_json::Value) -> Json;

/// The entries that a `serde_json::Map` holds, each value as [`value_json`]
/// gives it.
pub uninterp spec fn object_entries(m: serde_json::Map<String, serde_json::Value>) -> Map<
    Seq<char>,
    Json,
>;

/// `serde_json::Value::as_object`: the map of an object, and `None` for every
/// other kind of value.
pub assume_specification[ serde_json::Value::as_object ](v: &serde_json::Value) -> (r: Option<
    &serde_json::Map<String, serde_json::Value>,
>)
    ensures
        match r {
            Some(m) => value_json(*v) == Json::Object(object_entries(*m)),
            None => !(value_json(*v) is Object),
        },
;

/// `serde_json::Value::as_array`: the items of an array, and `None` for every
/// other kind of value.
pub assume_specification[ serde_json::Value::as_array ](v: &serde_json::Value) -> (r: Option<
    &Vec<serde_json::Value>,
>)
    ensures
        match r {
            Some(items) => value_json(*v) == Json::Array(items_json(items@)),
            None => !(value_json(*v) is Array),
        },
;

/// `serde_json::Value::as_str`: the text of a string, and `None` for every
/// other kind of value.
pub assume_specification[ serde_json::Value::as_str ](v: &serde_json::Value) -> (r: Option<&str>)
    ensures
        match r {
            Some(s) => value_json(*v) == Json::String(s@),
            None => !(value_json(*v) is String),
        },
;

/// `serde_json::Map::get`: the value under `key`, and `None` where the map
/// has no such key.
#[verifier::external_body]
fn get<'a>(m: &'a serde_json::Map<String, serde_json::Value>, key: &str) -> (r: Option<
    &'a serde_json::Value,
>)
    ensures
        match r {
            Some(v) => object_entries(*m).contains_key(key@) && object_entries(*m)[key@]
                == value_json(*v),
            None => !object_entries(*m).contains_key(key@),
        },
{
    m.get(key)
}

/// The JSON value that `serde_json::from_slice` reads from bytes, or `None`
/// where the bytes are not the text of one JSON value.
pub uninterp spec fn parsed_json(bytes: Seq<u8>) -> Option<Json>;

/// The bytes that `serde_json::to_vec` writes for a JSON value.
pub uninterp spec fn json_bytes(j: Json) -> Seq<u8>;

/// `serde_json::from_slice` for a value: the JSON value that it reads is a
/// function of the bytes.
#[verifier::external_body]
pub(crate) fn from_slice(bytes: &[u8]) -> (r: Result<serde_json::Value, serde_json::Error>)
    ensures
        match r {
            Ok(v) => parsed_json(bytes@) == Some(value_json(v)),
            Err(_) => parsed_json(bytes@) is None,
        },
{
    serde_json::from_slice(bytes)
}

/// `serde_json::to_vec` on a value. It does not fail on one: it writes into
/// a vector, and the keys of every object of a value are strings. The bytes
/// that it writes are a function of the JSON value that the value holds.
#[verifier::external_body]
pub(crate) fn to_vec(value: &serde_json::Value) -> (r: Result<Vec<u8>, serde_json::Error>)
    ensures
        r is Ok,
        r matches Ok(bytes) ==> bytes@ == json_bytes(value_json(*value)),
{
    serde_json::to_vec(value)
}

/// The JSON values that a sequence of `serde_json` values holds.
pub open spec fn items_json(items: Seq<serde_json::Value>) -> Seq<Json> {
    items.map_values(|v: serde_json::Value| value_json(v))
}

/// The entries of `j`, which must be an object.
pub open spec fn object_of(j: Json, origin: Origin) -> Result<Map<Seq<char>, Json>, ErrorView> {
    match j {
        Json::Object(m) => Ok(m),
        _ => Err(ErrorView::NotObject { origin }),
    }
}

/// The items of `j`, which must be an array.
pub open spec fn array_of(j: Json, origin: Origin) -> Result<Seq<Json>, ErrorView> {
    match j {
        Json::Array(items) => Ok(items),
        _ => Err(ErrorView::NotArray { origin }),
    }
}

/// The value under `key`, which the object must have.
pub open spec fn member_of(m: Map<Seq<char>, Json>, key: Seq<char>, origin: Origin) -> Result<
    Json,
    ErrorView,
> {
    if m.contains_key(key) {
        Ok(m[key])
    } else {
        Err(ErrorView::KeyMissing { key, origin })
    }
}

/// The text of `j`, which was found under `key` and must be a string.
pub open spec fn text_of(j: Json, key: Seq<char>, origin: Origin) -> Result<Seq<char>, ErrorView> {
    match j {
        Json::String(s) => Ok(s),
        _ => Err(ErrorView::NotString { key, origin }),
    }
}

/// The text under `key`: the key must be there and hold a string.
pub open spec fn map_to_string_of(key: Seq<char>, m: Map<Seq<char>, Json>, origin: Origin) -> Result<
    Seq<char>,
    ErrorView,
> {
    match member_of(m, key, origin) {
        Ok(j) => text_of(j, key, origin),
        Err(e) => Err(e),
    }
}

/// The texts under two keys that an object must have. Both keys are looked
/// for, the first one first, before either value is read.
pub open spec fn text_pair_of(
    m: Map<Seq<char>, Json>,
    first: Seq<char>,
    second: Seq<char>,
    origin: Origin,
) -> Result<(Seq<char>, Seq<char>), ErrorView> {
    match member_of(m, first, origin) {
        Err(e) => Err(e),
        Ok(a) => match member_of(m, second, origin) {
            Err(e) => Err(e),
            Ok(b) => match text_of(a, first, origin) {
                Err(e) => Err(e),
                Ok(x) => match text_of(b, second, origin) {
                    Err(e) => Err(e),
                    Ok(y) => Ok((x, y)),
                },
            },
        },
    }
}

/// The text under a key that an object may leave out: `None` where it does,
/// and a value that is there must be a string.
pub open spec fn optional_text_of(m: Map<Seq<char>, Json>, key: Seq<char>, origin: Origin) -> Result<
    Option<Seq<char>>,
    ErrorView,
> {
    if m.contains_key(key) {
        match text_of(m[key], key, origin) {
            Ok(s) => Ok(Some(s)),
            Err(e) => Err(e),
        }
    } else {
        Ok(None)
    }
}

/// The map of `value`, or `NotObject` where it is no object.
pub fn object<'a>(value: &'a serde_json::Value, origin: Origin) -> (r: Result<
    &'a serde_json::Map<String, serde_json::Value>,
    BeaErr,
>)
    ensures
        match r {
            Ok(m) => object_of(value_json(*value), origin) == Ok::<_, ErrorView>(
                object_entries(*m),
            ),
            Err(e) => object_of(value_json(*value), origin) == Err::<Map<Seq<char>, Json>, _>(e@),
        },
{
    match value.as_object() {
        Some(m) => Ok(m),
        None => Err(BeaErr::NotObject { origin }),
    }
}

/// The items of `value`, or `NotArray` where it is no array.
pub fn array<'a>(value: &'a serde_json::Value, origin: Origin) -> (r: Result<
    &'a Vec<serde_json::Value>,
    BeaErr,
>)
    ensures
        match r {
            Ok(items) => array_of(value_json(*value), origin) == Ok::<_, ErrorView>(
                items_json(items@),
            ),
            Err(e) => array_of(value_json(*value), origin) == Err::<Seq<Json>, _>(e@),
        },
{
    match value.as_array() {
        Some(items) => Ok(items),
        None => Err(BeaErr::NotArray { origin }),
    }
}

/// The value under `key`, or `KeyMissing` where the object has no such key.
pub fn member<'a>(
    m: &'a serde_json::Map<String, serde_json::Value>,
    key: &str,
    origin: Origin,
) -> (r: Result<&'a serde_json::Value, BeaErr>)
    ensures
        match r {
            Ok(v) => member_of(object_entries(*m), key@, origin) == Ok::<_, ErrorView>(
                value_json(*v),
            ),
            Err(e) => member_of(object_entries(*m), key@, origin) == Err::<Json, _>(e@),
        },
{
    match get(m, key) {
        Some(v) => Ok(v),
        None => Err(BeaErr::KeyMissing { key: key.to_owned(), origin }),
    }
}

/// The text of `value`, which was found under `key`, or `NotString` where it
/// is no string.
pub fn text(value: &serde_json::Value, key: &str, origin: Origin) -> (r: Result<String, BeaErr>)
    ensures
        outcome(r) == text_of(value_json(*value), key@, origin),
{
    match value.as_str() {
        Some(s) => Ok(s.to_owned()),
        None => Err(BeaErr::NotString { key: key.to_owned(), origin }),
    }
}

/// The text under `key`: `KeyMissing` where the object has no such key,
/// `NotString` where the value is no string.
pub fn map_to_string(
    key: &str,
    m: &serde_json::Map<String, serde_json::Value>,
    origin: Origin,
) -> (r: Result<String, BeaErr>)
    ensures
        outcome(r) == map_to_string_of(key@, object_entries(*m), origin),
{
    match member(m, key, origin) {
        Ok(v) => text(v, key, origin),
        Err(e) => Err(e),
    }
}

/// The texts under two keys that the object must have.
pub fn text_pair(
    m: &serde_json::Map<String, serde_json::Value>,
    first: &str,
    second: &str,
    origin: Origin,
) -> (r: Result<(String, String), BeaErr>)
    ensures
        match r {
            Ok(pair) => text_pair_of(object_entries(*m), first@, second@, origin) == Ok::<
                _,
                ErrorView,
            >((pair.0@, pair.1@)),
            Err(e) => text_pair_of(object_entries(*m), first@, second@, origin) == Err::<
                (Seq<char>, Seq<char>),
                _,
            >(e@),
        },
{
    let a = member(m, first, origin)?;
    let b = member(m, second, origin)?;
    let x = text(a, first, origin)?;
    let y = text(b, second, origin)?;
    Ok((x, y))
}

/// The text under a key that the object may leave out.
pub fn optional_text(
    m: &serde_json::Map<String, serde_json::Value>,
    key: &str,
    origin: Origin,
) -> (r: Result<Option<String>, BeaErr>)
    ensures
        match r {
            Ok(Some(s)) => optional_text_of(object_entries(*m), key@, origin) == Ok::<
                _,
                ErrorView,
            >(Some(s@)),
            Ok(None) => optional_text_of(object_entries(*m), key@, origin) == Ok::<_, ErrorView>(
                None::<Seq<char>>,
            ),
            Err(e) => optional_text_of(object_entries(*m), key@, origin) == Err::<
                Option<Seq<char>>,
                _,
            >(e@),
        },
{
    match get(m, key) {
        Some(v) => match text(v, key, origin) {
            Ok(s) => Ok(Some(s)),
            Err(e) => Err(e),
        },
        None => Ok(None),
    }
}

} // verus!
