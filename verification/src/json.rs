//! JSON values, as `serde_json` holds them.
//!
//! `serde_json::Value` is opaque to the verifier. What a value holds is named by
//! [`json_model`], a tree of plain mathematical values, and every function of
//! this module states over that model what the call it makes is documented to
//! do. None of these statements is proved: they are the assumptions that the
//! rest of the library builds on.

use vstd::prelude::*;

verus! {

/// What a JSON number holds.
pub enum JsonNumber {
    /// An integer that is not negative.
    PosInt(u64),
    /// An integer below zero.
    NegInt(i64),
    /// Any other number, by the bits of its 64-bit floating-point value.
    Float(u64),
}

/// What a JSON value holds.
pub enum Json {
    Null,
    Bool(bool),
    Number(JsonNumber),
    String(Seq<char>),
    Array(Seq<Json>),
    Object(Map<Seq<char>, Json>),
}

impl Json {
    /// The member `key` of an object; `None` for a missing member and for
    /// anything that is not an object.
    pub open spec fn field(self, key: Seq<char>) -> Option<Json> {
        match self {
            Json::Object(m) => if m.contains_key(key) {
                Some(m[key])
            } else {
                None
            },
            _ => None,
        }
    }

    /// The text of a string value.
    pub open spec fn as_str(self) -> Option<Seq<char>> {
        match self {
            Json::String(s) => Some(s),
            _ => None,
        }
    }

    /// The truth value of a boolean.
    pub open spec fn as_bool(self) -> Option<bool> {
        match self {
            Json::Bool(b) => Some(b),
            _ => None,
        }
    }

    /// The value of an integer that is not negative.
    pub open spec fn as_u64(self) -> Option<u64> {
        match self {
            Json::Number(JsonNumber::PosInt(n)) => Some(n),
            _ => None,
        }
    }

    /// A member that is a string where it is present. Absent and `null` both mean
    /// that there is none; the outer `None` stands for a member of another kind.
    pub open spec fn optional_str(self, key: Seq<char>) -> Option<Option<Seq<char>>> {
        match self.field(key) {
            None => Some(None),
            Some(x) => if x is Null {
                Some(None)
            } else {
                match x.as_str() {
                    Some(s) => Some(Some(s)),
                    None => None,
                }
            },
        }
    }

    /// A member that is a boolean where it is present, read like `optional_str`.
    pub open spec fn optional_bool(self, key: Seq<char>) -> Option<Option<bool>> {
        match self.field(key) {
            None => Some(None),
            Some(x) => if x is Null {
                Some(None)
            } else {
                match x.as_bool() {
                    Some(b) => Some(Some(b)),
                    None => None,
                }
            },
        }
    }

    /// A member that is an integer that is not negative where it is present,
    /// read like `optional_str`.
    pub open spec fn optional_u64(self, key: Seq<char>) -> Option<Option<u64>> {
        match self.field(key) {
            None => Some(None),
            Some(x) => if x is Null {
                Some(None)
            } else {
                match x.as_u64() {
                    Some(n) => Some(Some(n)),
                    None => None,
                }
            },
        }
    }

    /// A member that must be a string.
    pub open spec fn required_str(self, key: Seq<char>) -> Option<Seq<char>> {
        match self.field(key) {
            Some(x) => x.as_str(),
            None => None,
        }
    }

    /// An object with the member `key` set to `value` where there is one; any
    /// other value unchanged.
    pub open spec fn with_optional(self, key: Seq<char>, value: Option<Json>) -> Json {
        match value {
            Some(x) => self.with_field(key, x),
            None => self,
        }
    }

    /// An object with the member `key` set to `value`; any other value unchanged.
    pub open spec fn with_field(self, key: Seq<char>, value: Json) -> Json {
        match self {
            Json::Object(m) => Json::Object(m.insert(key, value)),
            _ => self,
        }
    }

    /// An object without the member `key`; any other value unchanged.
    pub open spec fn without_field(self, key: Seq<char>) -> Json {
        match self {
            Json::Object(m) => Json::Object(m.remove(key)),
            _ => self,
        }
    }

    /// The object with no members.
    pub open spec fn empty_object() -> Json {
        Json::Object(Map::empty())
    }
}

#[verifier::external_type_specification]
#[verifier::external_body]
pub struct ExJsonValue(serde_json::Value);

#[verifier::external_type_specification]
#[verifier::external_body]
pub struct ExJsonError(serde_json::Error);

/// The tree of plain values that a `serde_json::Value` holds.
pub uninterp spec fn json_model(v: serde_json::Value) -> Json;

/// What `serde_json::from_slice` reads from a text as a `Value`; `None` where it
/// reports an error.
pub uninterp spec fn json_decoded(text: Seq<u8>) -> Option<Json>;

/// The compact text that `serde_json::to_string` writes for a value.
pub uninterp spec fn json_encoded(value: Json) -> Seq<char>;

/// `serde_json::from_slice::<Value>`: the value read from `text`. The result
/// depends on the bytes alone, so it is named `json_decoded`.
#[verifier::external_body]
pub(crate) fn parse_json(text: &[u8]) -> (r: Result<serde_json::Value, serde_json::Error>)
    ensures
        match r {
            Ok(v) => json_decoded(text@) == Some(json_model(v)),
            Err(_) => json_decoded(text@) is None,
        },
{
    serde_json::from_slice::<serde_json::Value>(text)
}

/// `serde_json::to_string` on a `Value`: the compact text of the value. Members
/// of an object are kept in a sorted map, so the text depends on what the value
/// holds alone, and is named `json_encoded`.
///
/// The call succeeds on every `Value`. Its documentation names two ways to fail:
/// a `Serialize` impl that decides to fail, and a map whose keys are no strings.
/// The impl of `Value` only hands on what the serializer reports, the names of
/// its members are strings, and the serializer reports nothing but the errors of
/// its writer, which here is a `Vec<u8>` in memory.
#[verifier::external_body]
pub(crate) fn json_to_string(v: &serde_json::Value) -> (r: Result<String, serde_json::Error>)
    ensures
        r is Ok,
        r matches Ok(s) ==> s@ == json_encoded(json_model(*v)),
{
    serde_json::to_string(v)
}

/// `Value::get` with a string index: the member `key` of an object, `None` for
/// a missing member and for a value that is no object.
#[verifier::external_body]
pub(crate) fn json_get<'a>(v: &'a serde_json::Value, key: &str) -> (r: Option<&'a serde_json::Value>)
    ensures
        match r {
            Some(x) => json_model(*v).field(key@) == Some(json_model(*x)),
            None => json_model(*v).field(key@) is None,
        },
{
    v.get(key)
}

/// `Value::as_str`: the text of a string value, `None` for any other value.
#[verifier::external_body]
pub(crate) fn json_as_str<'a>(v: &'a serde_json::Value) -> (r: Option<&'a str>)
    ensures
        match r {
            Some(s) => json_model(*v).as_str() == Some(s@),
            None => json_model(*v).as_str() is None,
        },
{
    v.as_str()
}

/// `Value::as_bool`: the truth value of a boolean, `None` for any other value.
#[verifier::external_body]
pub(crate) fn json_as_bool(v: &serde_json::Value) -> (r: Option<bool>)
    ensures
        r == json_model(*v).as_bool(),
{
    v.as_bool()
}

/// `Value::as_u64`: the value of an integer that is not negative, `None` for any
/// other value.
#[verifier::external_body]
pub(crate) fn json_as_u64(v: &serde_json::Value) -> (r: Option<u64>)
    ensures
        r == json_model(*v).as_u64(),
{
    v.as_u64()
}

/// `Value::from(u64)`: the number with that value.
#[verifier::external_body]
pub(crate) fn json_u64(n: u64) -> (r: serde_json::Value)
    ensures
        json_model(r) == Json::Number(JsonNumber::PosInt(n)),
{
    serde_json::Value::from(n)
}

/// `Value::is_null`.
#[verifier::external_body]
pub(crate) fn json_is_null(v: &serde_json::Value) -> (r: bool)
    ensures
        r == (json_model(*v) is Null),
{
    v.is_null()
}

/// `Value::is_object`.
#[verifier::external_body]
pub(crate) fn json_is_object(v: &serde_json::Value) -> (r: bool)
    ensures
        r == (json_model(*v) is Object),
{
    v.is_object()
}

/// `serde::de::Error::custom` for `serde_json::Error`: an error that carries the
/// message. Nothing is stated of it.
#[verifier::external_body]
pub(crate) fn json_error(msg: &str) -> serde_json::Error {
    <serde_json::Error as serde::de::Error>::custom(msg)
}

/// `ToString::to_string` on a `serde_json::Error`: the message of the error, as
/// its `Display` writes it. Nothing is stated of it.
#[verifier::external_body]
pub(crate) fn json_error_text(e: &serde_json::Error) -> String {
    e.to_string()
}

/// `Value::clone`: a value that holds the same.
#[verifier::external_body]
pub(crate) fn json_clone(v: &serde_json::Value) -> (r: serde_json::Value)
    ensures
        json_model(r) == json_model(*v),
{
    v.clone()
}

/// `Value::from(String)`: the string value with that text.
#[verifier::external_body]
pub(crate) fn json_string(s: String) -> (r: serde_json::Value)
    ensures
        json_model(r) == Json::String(s@),
{
    serde_json::Value::from(s)
}

/// `Value::from(bool)`: the boolean value.
#[verifier::external_body]
pub(crate) fn json_bool(b: bool) -> (r: serde_json::Value)
    ensures
        json_model(r) == Json::Bool(b),
{
    serde_json::Value::from(b)
}

/// `Map::new`, as a value: the object with no members.
#[verifier::external_body]
pub(crate) fn json_object() -> (r: serde_json::Value)
    ensures
        json_model(r) == Json::empty_object(),
{
    serde_json::Value::Object(serde_json::Map::new())
}

/// `Map::insert` on the members of an object: `key` holds `value` afterwards and
/// the other members are as before. A value that is no object is left as it is.
#[verifier::external_body]
pub(crate) fn json_insert(obj: &mut serde_json::Value, key: String, value: serde_json::Value)
    ensures
        json_model(*final(obj)) == json_model(*old(obj)).with_field(key@, json_model(value)),
{
    match obj {
        serde_json::Value::Object(m) => {
            m.insert(key, value);
        },
        _ => {},
    }
}

/// `Map::remove` on the members of an object: the member `key` is taken out and
/// returned, if there was one. A value that is no object is left as it is.
#[verifier::external_body]
pub(crate) fn json_remove(obj: &mut serde_json::Value, key: &str) -> (r: Option<serde_json::Value>)
    ensures
        json_model(*final(obj)) == json_model(*old(obj)).without_field(key@),
        match r {
            Some(x) => json_model(*old(obj)).field(key@) == Some(json_model(x)),
            None => json_model(*old(obj)).field(key@) is None,
        },
{
    match obj {
        serde_json::Value::Object(m) => m.remove(key),
        _ => None,
    }
}

/// `Map::len`: how many members an object has; `None` for a value that is no
/// object. An object has finitely many members.
#[verifier::external_body]
pub(crate) fn json_len(v: &serde_json::Value) -> (r: Option<usize>)
    ensures
        match r {
            Some(n) => json_model(*v) matches Json::Object(m) && m.dom().finite() && m.dom().len()
                == n,
            None => !(json_model(*v) is Object),
        },
{
    match v {
        serde_json::Value::Object(m) => Some(m.len()),
        _ => None,
    }
}

/// The first entry that `Map::into_iter` hands out: a member of the object with
/// its value; `None` for an object without members and for a value that is no
/// object.
#[verifier::external_body]
pub(crate) fn json_into_first(v: serde_json::Value) -> (r: Option<(String, serde_json::Value)>)
    ensures
        match r {
            Some((k, x)) => json_model(v).field(k@) == Some(json_model(x)),
            None => forall|k: Seq<char>| json_model(v).field(k) is None,
        },
{
    match v {
        serde_json::Value::Object(m) => m.into_iter().next(),
        _ => None,
    }
}

} // verus!
