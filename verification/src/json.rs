//! A mathematical model of JSON documents, the access to `serde_json` values
//! that the codec is written against, and the readers for single members.
//!
//! The codec never looks at JSON text itself: `serde_json` parses and prints,
//! and everything here speaks of the document that a `serde_json::Value`
//! holds, named by [`value_view`].

use vstd::prelude::*;

verus! {

/// A JSON document as a mathematical value.
///
/// `Int` covers the integers between `i64::MIN` and `u64::MAX`; any other
/// number is a `Float`, identified by its IEEE-754 bit pattern. The members
/// of an object are kept in document order.
pub enum JsonValue {
    Null,
    Bool(bool),
    Int(int),
    Float(u64),
    Str(Seq<char>),
    Array(Seq<JsonValue>),
    Object(Seq<(Seq<char>, JsonValue)>),
}

/// The value of the last member named `key`, if there is one.
pub open spec fn members_get(members: Seq<(Seq<char>, JsonValue)>, key: Seq<char>) -> Option<
    JsonValue,
>
    decreases members.len(),
{
    if members.len() == 0 {
        None
    } else if members.last().0 == key {
        Some(members.last().1)
    } else {
        members_get(members.drop_last(), key)
    }
}

/// `members` with the value of the last member named `key` replaced.
pub open spec fn members_replace(
    members: Seq<(Seq<char>, JsonValue)>,
    key: Seq<char>,
    value: JsonValue,
) -> Seq<(Seq<char>, JsonValue)>
    decreases members.len(),
{
    if members.len() == 0 {
        members
    } else if members.last().0 == key {
        members.drop_last().push((key, value))
    } else {
        members_replace(members.drop_last(), key, value).push(members.last())
    }
}

/// `members` after setting `key` to `value`: an existing member keeps its
/// place and takes the new value, a new member goes to the end.
pub open spec fn members_insert(
    members: Seq<(Seq<char>, JsonValue)>,
    key: Seq<char>,
    value: JsonValue,
) -> Seq<(Seq<char>, JsonValue)> {
    if members_get(members, key) is Some {
        members_replace(members, key, value)
    } else {
        members.push((key, value))
    }
}

impl JsonValue {
    /// The object without members.
    pub open spec fn object() -> JsonValue {
        JsonValue::Object(Seq::empty())
    }

    /// The member `key` of an object; `None` for a missing member and for
    /// anything that is not an object.
    pub open spec fn get(self, key: Seq<char>) -> Option<JsonValue> {
        match self {
            JsonValue::Object(members) => members_get(members, key),
            _ => None,
        }
    }

    /// An object with the member `key` set to `value`; anything else is left
    /// as it is.
    pub open spec fn with(self, key: Seq<char>, value: JsonValue) -> JsonValue {
        match self {
            JsonValue::Object(members) => JsonValue::Object(members_insert(members, key, value)),
            _ => self,
        }
    }

    /// The text of a string.
    pub open spec fn as_text(self) -> Option<Seq<char>> {
        match self {
            JsonValue::Str(s) => Some(s),
            _ => None,
        }
    }

    /// A truth value.
    pub open spec fn as_bool(self) -> Option<bool> {
        match self {
            JsonValue::Bool(b) => Some(b),
            _ => None,
        }
    }

    /// An integer that fits `u64`.
    pub open spec fn as_u64(self) -> Option<u64> {
        match self {
            JsonValue::Int(i) => if 0 <= i <= u64::MAX {
                Some(i as u64)
            } else {
                None
            },
            _ => None,
        }
    }

    /// An integer that fits `i64`.
    pub open spec fn as_i64(self) -> Option<i64> {
        match self {
            JsonValue::Int(i) => if i64::MIN <= i <= i64::MAX {
                Some(i as i64)
            } else {
                None
            },
            _ => None,
        }
    }

    /// An integer that fits `u8`.
    pub open spec fn as_u8(self) -> Option<u8> {
        match self {
            JsonValue::Int(i) => if 0 <= i <= u8::MAX {
                Some(i as u8)
            } else {
                None
            },
            _ => None,
        }
    }

    /// An array of exactly two integers that fit `u8`.
    pub open spec fn as_u8_pair(self) -> Option<(u8, u8)> {
        match self {
            JsonValue::Array(items) => if items.len() == 2 && items[0].as_u8() is Some
                && items[1].as_u8() is Some {
                Some((items[0].as_u8()->Some_0, items[1].as_u8()->Some_0))
            } else {
                None
            },
            _ => None,
        }
    }

    /// The string for `Some` text, `null` for `None`.
    pub open spec fn text_or_null(text: Option<Seq<char>>) -> JsonValue {
        match text {
            Some(s) => JsonValue::Str(s),
            None => JsonValue::Null,
        }
    }

    /// The number for `Some` byte, `null` for `None`.
    pub open spec fn u8_or_null(n: Option<u8>) -> JsonValue {
        match n {
            Some(n) => JsonValue::Int(n as int),
            None => JsonValue::Null,
        }
    }

    /// The two-element array of a pair of bytes.
    pub open spec fn u8_pair(pair: (u8, u8)) -> JsonValue {
        JsonValue::Array(seq![JsonValue::Int(pair.0 as int), JsonValue::Int(pair.1 as int)])
    }
}

/// Looking a key up in the members after an insertion finds the inserted
/// value under the inserted key and the old answer under every other key.
pub proof fn lemma_members_get_insert(
    members: Seq<(Seq<char>, JsonValue)>,
    key: Seq<char>,
    value: JsonValue,
    other: Seq<char>,
)
    ensures
        members_get(members_insert(members, key, value), other) == if other == key {
            Some(value)
        } else {
            members_get(members, other)
        },
{
    if members_get(members, key) is Some {
        lemma_members_get_replace(members, key, value, other);
    } else {
        assert(members.push((key, value)).drop_last() == members);
    }
}

proof fn lemma_members_get_replace(
    members: Seq<(Seq<char>, JsonValue)>,
    key: Seq<char>,
    value: JsonValue,
    other: Seq<char>,
)
    requires
        members_get(members, key) is Some,
    ensures
        members_get(members_replace(members, key, value), other) == if other == key {
            Some(value)
        } else {
            members_get(members, other)
        },
    decreases members.len(),
{
    if members.len() == 0 {
    } else if members.last().0 == key {
        assert(members.drop_last().push((key, value)).drop_last() == members.drop_last());
    } else {
        lemma_members_get_replace(members.drop_last(), key, value, other);
        let replaced = members_replace(members.drop_last(), key, value);
        assert(replaced.push(members.last()).drop_last() == replaced);
    }
}

/// Reading a member back from an object it was set on gives the value that
/// was set; every other member reads as before.
pub broadcast proof fn lemma_get_with(j: JsonValue, key: Seq<char>, value: JsonValue, other: Seq<char>)
    requires
        j is Object,
    ensures
        #[trigger] j.with(key, value).get(other) == if other == key {
            Some(value)
        } else {
            j.get(other)
        },
        j.with(key, value) is Object,
{
    lemma_members_get_insert(j->Object_0, key, value, other);
}

/// The empty object has no members.
pub broadcast proof fn lemma_get_empty(key: Seq<char>)
    ensures
        #[trigger] JsonValue::object().get(key) is None,
{
}

/// `serde_json::Value`, a JSON document. Nothing of its inside is known
/// here but what [`value_view`] names.
#[verifier::external_type_specification]
#[verifier::external_body]
pub struct ExValue(serde_json::Value);

/// `serde_json::Error`, the diagnostic of the parser and of the printer. It
/// is carried along and never looked into.
#[verifier::external_type_specification]
#[verifier::external_body]
pub struct ExJsonError(serde_json::Error);

/// The document that a `serde_json::Value` holds: its variants one for one,
/// a number as `Int` where `serde_json` keeps it as an integer and as `Float`
/// where it keeps it as a float, the members of an object in the order in
/// which its map hands them out.
pub uninterp spec fn value_view(v: serde_json::Value) -> JsonValue;

/// The document that `serde_json` reads from a text, `None` where it
/// reports an error.
pub uninterp spec fn json_parse(text: Seq<char>) -> Option<JsonValue>;

/// The text that `serde_json` prints for a document, `None` where it reports
/// an error.
pub uninterp spec fn json_text(j: JsonValue) -> Option<Seq<char>>;

/// The documents of a sequence of values, in order.
pub open spec fn values_view(values: Seq<serde_json::Value>) -> Seq<JsonValue> {
    Seq::new(values.len(), |i: int| value_view(values[i]))
}

/// `str`'s `==`: two string slices are equal when they hold the same text.
pub assume_specification[ <str as PartialEq>::eq ](a: &str, b: &str) -> (r: bool)
    ensures
        r == (a@ == b@),
;

/// `serde_json::from_str` for a `Value`: the parsed document, or the
/// parser's error.
#[verifier::external_body]
pub(crate) fn parse_value(text: &str) -> (r: Result<serde_json::Value, serde_json::Error>)
    ensures
        match r {
            Ok(v) => json_parse(text@) == Some(value_view(v)),
            Err(_) => json_parse(text@) is None,
        },
{
    serde_json::from_str::<serde_json::Value>(text)
}

/// `serde_json::to_string` for a `Value`: the compact text of the document,
/// or the printer's error.
#[verifier::external_body]
pub(crate) fn print_value(v: &serde_json::Value) -> (r: Result<String, serde_json::Error>)
    ensures
        match r {
            Ok(text) => json_text(value_view(*v)) == Some(text@),
            Err(_) => json_text(value_view(*v)) is None,
        },
{
    serde_json::to_string(v)
}

/// `Value::get` with a string key: the member of that name where the value
/// is an object that has one.
#[verifier::external_body]
pub(crate) fn value_get<'a>(v: &'a serde_json::Value, key: &str) -> (r: Option<
    &'a serde_json::Value,
>)
    ensures
        match r {
            Some(member) => value_view(*v).get(key@) == Some(value_view(*member)),
            None => value_view(*v).get(key@) is None,
        },
{
    v.get(key)
}

/// `Value::is_object`.
#[verifier::external_body]
pub(crate) fn value_is_object(v: &serde_json::Value) -> (r: bool)
    ensures
        r == (value_view(*v) is Object),
{
    v.is_object()
}

/// `Value::is_null`.
#[verifier::external_body]
pub(crate) fn value_is_null(v: &serde_json::Value) -> (r: bool)
    ensures
        r == (value_view(*v) is Null),
{
    v.is_null()
}

/// `Value::as_str`: the text of a string value.
#[verifier::external_body]
pub(crate) fn value_as_str<'a>(v: &'a serde_json::Value) -> (r: Option<&'a str>)
    ensures
        match r {
            Some(s) => value_view(*v).as_text() == Some(s@),
            None => value_view(*v).as_text() is None,
        },
{
    v.as_str()
}

/// `Value::as_bool`.
#[verifier::external_body]
pub(crate) fn value_as_bool(v: &serde_json::Value) -> (r: Option<bool>)
    ensures
        r == value_view(*v).as_bool(),
{
    v.as_bool()
}

/// `Value::as_u64`: an integer that fits `u64`.
#[verifier::external_body]
pub(crate) fn value_as_u64(v: &serde_json::Value) -> (r: Option<u64>)
    ensures
        r == value_view(*v).as_u64(),
{
    v.as_u64()
}

/// `Value::as_i64`: an integer that fits `i64`.
#[verifier::external_body]
pub(crate) fn value_as_i64(v: &serde_json::Value) -> (r: Option<i64>)
    ensures
        r == value_view(*v).as_i64(),
{
    v.as_i64()
}

/// `Value::as_array`: the elements of an array value.
#[verifier::external_body]
pub(crate) fn value_as_array<'a>(v: &'a serde_json::Value) -> (r: Option<
    &'a Vec<serde_json::Value>,
>)
    ensures
        match r {
            Some(items) => value_view(*v) == JsonValue::Array(values_view(items@)),
            None => !(value_view(*v) is Array),
        },
{
    v.as_array()
}

/// `Value::clone`: a second value that holds the same document.
#[verifier::external_body]
pub(crate) fn value_clone(v: &serde_json::Value) -> (r: serde_json::Value)
    ensures
        value_view(r) == value_view(*v),
{
    v.clone()
}

/// `Value::Null`.
#[verifier::external_body]
pub(crate) fn value_null() -> (r: serde_json::Value)
    ensures
        value_view(r) == JsonValue::Null,
{
    serde_json::Value::Null
}

/// `Value::from(bool)`.
#[verifier::external_body]
pub(crate) fn value_bool(b: bool) -> (r: serde_json::Value)
    ensures
        value_view(r) == JsonValue::Bool(b),
{
    serde_json::Value::from(b)
}

/// `Value::from(u64)`: the number `n`.
#[verifier::external_body]
pub(crate) fn value_u64(n: u64) -> (r: serde_json::Value)
    ensures
        value_view(r) == JsonValue::Int(n as int),
{
    serde_json::Value::from(n)
}

/// `Value::from(i64)`: the number `n`.
#[verifier::external_body]
pub(crate) fn value_i64(n: i64) -> (r: serde_json::Value)
    ensures
        value_view(r) == JsonValue::Int(n as int),
{
    serde_json::Value::from(n)
}

/// `Value::from(&str)`: the string with that text.
#[verifier::external_body]
pub(crate) fn value_str(s: &str) -> (r: serde_json::Value)
    ensures
        value_view(r) == JsonValue::Str(s@),
{
    serde_json::Value::from(s)
}

/// `Value::from(Vec<Value>)`: the array of the given elements.
#[verifier::external_body]
pub(crate) fn value_array(items: Vec<serde_json::Value>) -> (r: serde_json::Value)
    ensures
        value_view(r) == JsonValue::Array(values_view(items@)),
{
    serde_json::Value::from(items)
}

/// `Value::Object` of `Map::new()`: the object without members.
#[verifier::external_body]
pub(crate) fn value_object() -> (r: serde_json::Value)
    ensures
        value_view(r) == JsonValue::object(),
{
    serde_json::Value::Object(serde_json::Map::new())
}

/// `Map::insert` on the map of an object. The map keeps the order of
/// insertion (`serde_json` is built with `preserve_order`): an existing
/// member keeps its place and takes the new value, a new member goes to the
/// end. A value that is not an object is left alone.
#[verifier::external_body]
pub(crate) fn object_insert(obj: &mut serde_json::Value, key: &str, member: serde_json::Value)
    ensures
        value_view(*final(obj)) == value_view(*old(obj)).with(key@, value_view(member)),
{
    if let Some(members) = obj.as_object_mut() {
        members.insert(key.to_owned(), member);
    }
}

/// Why a document is not the wire form of a value.
#[derive(Debug, Clone, Copy, PartialEq, Eq)]
pub enum DecodeError {
    /// The document is not an object.
    NotAnObject,
    /// A required member is absent.
    Missing(&'static str),
    /// A member holds a value of the wrong kind or outside its range.
    Invalid(&'static str),
}

/// Why a text is not a message, or a message could not be made a text.
#[derive(Debug)]
pub enum BadMessage {
    /// The text is not JSON; holds the parser's diagnostic.
    Syntax(serde_json::Error),
    /// The text is JSON, but the document is not the wire form of a message.
    Field(DecodeError),
    /// The document could not be printed; holds the printer's diagnostic.
    Print(serde_json::Error),
}

/// A member that has to be there.
pub open spec fn field(j: JsonValue, key: &'static str) -> Result<JsonValue, DecodeError> {
    match j.get(key@) {
        Some(member) => Ok(member),
        None => Err(DecodeError::Missing(key)),
    }
}

/// A member that may be absent or `null`; both read as `None`.
pub open spec fn optional_field(j: JsonValue, key: &'static str) -> Option<JsonValue> {
    match j.get(key@) {
        Some(JsonValue::Null) => None,
        other => other,
    }
}

/// What a leaf reader makes of a required member.
pub open spec fn leaf<T>(j: JsonValue, key: &'static str, read: spec_fn(JsonValue) -> Option<T>) -> Result<
    T,
    DecodeError,
> {
    match j.get(key@) {
        Some(member) => match read(member) {
            Some(x) => Ok(x),
            None => Err(DecodeError::Invalid(key)),
        },
        None => Err(DecodeError::Missing(key)),
    }
}

/// What a leaf reader makes of a member that may be absent or `null`.
pub open spec fn optional_leaf<T>(
    j: JsonValue,
    key: &'static str,
    read: spec_fn(JsonValue) -> Option<T>,
) -> Result<Option<T>, DecodeError> {
    match optional_field(j, key) {
        Some(member) => match read(member) {
            Some(x) => Ok(Some(x)),
            None => Err(DecodeError::Invalid(key)),
        },
        None => Ok(None),
    }
}

/// What a reader of nested objects makes of a required member.
pub open spec fn node<T>(
    j: JsonValue,
    key: &'static str,
    read: spec_fn(JsonValue) -> Result<T, DecodeError>,
) -> Result<T, DecodeError> {
    match j.get(key@) {
        Some(member) => read(member),
        None => Err(DecodeError::Missing(key)),
    }
}

/// What a reader of nested objects makes of a member that may be absent or
/// `null`.
pub open spec fn optional_node<T>(
    j: JsonValue,
    key: &'static str,
    read: spec_fn(JsonValue) -> Result<T, DecodeError>,
) -> Result<Option<T>, DecodeError> {
    match optional_field(j, key) {
        Some(member) => match read(member) {
            Ok(x) => Ok(Some(x)),
            Err(e) => Err(e),
        },
        None => Ok(None),
    }
}

/// What a reader returns, as a mathematical value: the view of what was
/// read, or the error.
pub open spec fn decoded<T: View>(r: Result<T, DecodeError>) -> Result<T::V, DecodeError> {
    match r {
        Ok(x) => Ok(x@),
        Err(e) => Err(e),
    }
}

/// The text of an optional string.
pub open spec fn text_of(s: Option<String>) -> Option<Seq<char>> {
    match s {
        Some(s) => Some(s@),
        None => None,
    }
}

/// The required member `key`.
pub fn member<'a>(v: &'a serde_json::Value, key: &'static str) -> (r: Result<
    &'a serde_json::Value,
    DecodeError,
>)
    ensures
        match r {
            Ok(m) => field(value_view(*v), key) == Ok::<JsonValue, DecodeError>(value_view(*m)),
            Err(e) => field(value_view(*v), key) == Err::<JsonValue, DecodeError>(e),
        },
{
    match value_get(v, key) {
        Some(m) => Ok(m),
        None => Err(DecodeError::Missing(key)),
    }
}

/// The member `key` unless it is absent or `null`.
pub fn optional_member<'a>(v: &'a serde_json::Value, key: &'static str) -> (r: Option<
    &'a serde_json::Value,
>)
    ensures
        match r {
            Some(m) => optional_field(value_view(*v), key) == Some(value_view(*m)),
            None => optional_field(value_view(*v), key) is None,
        },
{
    match value_get(v, key) {
        Some(m) => if value_is_null(m) {
            None
        } else {
            Some(m)
        },
        None => None,
    }
}

/// An integer that fits `u8`.
pub fn read_u8(v: &serde_json::Value) -> (r: Option<u8>)
    ensures
        r == value_view(*v).as_u8(),
{
    match value_as_u64(v) {
        Some(n) => if n <= 255 {
            Some(n as u8)
        } else {
            None
        },
        None => None,
    }
}

/// An array of exactly two integers that fit `u8`.
pub fn read_u8_pair(v: &serde_json::Value) -> (r: Option<(u8, u8)>)
    ensures
        r == value_view(*v).as_u8_pair(),
{
    match value_as_array(v) {
        Some(items) => {
            if items.len() != 2 {
                return None;
            }
            match (read_u8(&items[0]), read_u8(&items[1])) {
                (Some(a), Some(b)) => Some((a, b)),
                _ => None,
            }
        },
        None => None,
    }
}

/// The required string member `key`.
pub fn text_field(v: &serde_json::Value, key: &'static str) -> (r: Result<String, DecodeError>)
    ensures
        match r {
            Ok(s) => leaf(value_view(*v), key, |m: JsonValue| m.as_text()) == Ok::<
                Seq<char>,
                DecodeError,
            >(s@),
            Err(e) => leaf(value_view(*v), key, |m: JsonValue| m.as_text()) == Err::<
                Seq<char>,
                DecodeError,
            >(e),
        },
{
    match value_as_str(member(v, key)?) {
        Some(s) => Ok(s.to_owned()),
        None => Err(DecodeError::Invalid(key)),
    }
}

/// The string member `key`, which may be absent or `null`.
pub fn optional_text_field(v: &serde_json::Value, key: &'static str) -> (r: Result<
    Option<String>,
    DecodeError,
>)
    ensures
        match r {
            Ok(s) => optional_leaf(value_view(*v), key, |m: JsonValue| m.as_text()) == Ok::<
                Option<Seq<char>>,
                DecodeError,
            >(text_of(s)),
            Err(e) => optional_leaf(value_view(*v), key, |m: JsonValue| m.as_text()) == Err::<
                Option<Seq<char>>,
                DecodeError,
            >(e),
        },
{
    match optional_member(v, key) {
        Some(m) => match value_as_str(m) {
            Some(s) => Ok(Some(s.to_owned())),
            None => Err(DecodeError::Invalid(key)),
        },
        None => Ok(None),
    }
}

/// The required member `key`, an integer that fits `u8`.
pub fn u8_field(v: &serde_json::Value, key: &'static str) -> (r: Result<u8, DecodeError>)
    ensures
        r == leaf(value_view(*v), key, |m: JsonValue| m.as_u8()),
{
    match read_u8(member(v, key)?) {
        Some(n) => Ok(n),
        None => Err(DecodeError::Invalid(key)),
    }
}

/// The member `key`, an integer that fits `u8`, which may be absent or
/// `null`.
pub fn optional_u8_field(v: &serde_json::Value, key: &'static str) -> (r: Result<
    Option<u8>,
    DecodeError,
>)
    ensures
        r == optional_leaf(value_view(*v), key, |m: JsonValue| m.as_u8()),
{
    match optional_member(v, key) {
        Some(m) => match read_u8(m) {
            Some(n) => Ok(Some(n)),
            None => Err(DecodeError::Invalid(key)),
        },
        None => Ok(None),
    }
}

/// The required member `key`, an integer that fits `i64`.
pub fn i64_field(v: &serde_json::Value, key: &'static str) -> (r: Result<i64, DecodeError>)
    ensures
        r == leaf(value_view(*v), key, |m: JsonValue| m.as_i64()),
{
    match value_as_i64(member(v, key)?) {
        Some(n) => Ok(n),
        None => Err(DecodeError::Invalid(key)),
    }
}

/// The required member `key`, a truth value.
pub fn bool_field(v: &serde_json::Value, key: &'static str) -> (r: Result<bool, DecodeError>)
    ensures
        r == leaf(value_view(*v), key, |m: JsonValue| m.as_bool()),
{
    match value_as_bool(member(v, key)?) {
        Some(b) => Ok(b),
        None => Err(DecodeError::Invalid(key)),
    }
}

/// The required member `key`, whatever document it holds.
pub fn any_field(v: &serde_json::Value, key: &'static str) -> (r: Result<
    serde_json::Value,
    DecodeError,
>)
    ensures
        match r {
            Ok(m) => field(value_view(*v), key) == Ok::<JsonValue, DecodeError>(value_view(m)),
            Err(e) => field(value_view(*v), key) == Err::<JsonValue, DecodeError>(e),
        },
{
    Ok(value_clone(member(v, key)?))
}

/// The value for an optional string: the string, or `null`.
pub fn text_or_null(s: &Option<String>) -> (r: serde_json::Value)
    ensures
        value_view(r) == JsonValue::text_or_null(text_of(*s)),
{
    match s {
        Some(s) => value_str(s.as_str()),
        None => value_null(),
    }
}

/// The value for an optional byte: the number, or `null`.
pub fn u8_or_null(n: Option<u8>) -> (r: serde_json::Value)
    ensures
        value_view(r) == JsonValue::u8_or_null(n),
{
    match n {
        Some(n) => value_u64(n as u64),
        None => value_null(),
    }
}

/// The two-element array for a pair of bytes.
pub fn u8_pair(pair: (u8, u8)) -> (r: serde_json::Value)
    ensures
        value_view(r) == JsonValue::u8_pair(pair),
{
    let mut items: Vec<serde_json::Value> = Vec::new();
    items.push(value_u64(pair.0 as u64));
    items.push(value_u64(pair.1 as u64));
    let r = value_array(items);
    assert(values_view(items@) =~= seq![
        JsonValue::Int(pair.0 as int),
        JsonValue::Int(pair.1 as int),
    ]);
    r
}

} // verus!
