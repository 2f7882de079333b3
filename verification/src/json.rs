//! JSON values as `serde_json` holds them, with a mathematical model of what
//! they contain.
//!
//! `serde_json::Value` and `serde_json::Map` are opaque to the verifier.
//! Their contents are named by [`value_view`] and [`object_view`], and every
//! function of this module is one call into `serde_json` whose contract is
//! taken on trust: it says, over the model [`Json`], what the source of
//! `serde_json` shows that call to do. Nothing here is proved, and nothing
//! else in the crate is taken on trust.
//!
//! The contracts are those of `serde_json` as it is built by default: objects
//! are kept in a `BTreeMap` (feature `preserve_order` off), so an object is
//! its set of members and nothing more, and numbers are kept as `u64`, `i64`
//! or `f64` (feature `arbitrary_precision` off).

use vstd::prelude::*;

verus! {

/// What a JSON value holds.
pub enum Json {
    Null,
    Bool(bool),
    /// A number held as an integer. `serde_json` holds integers from
    /// `i64::MIN` up to `u64::MAX` in this form.
    Int(int),
    /// A number held as a 64-bit float, named by its bit pattern.
    Float(u64),
    Str(Seq<char>),
    Array(Seq<Json>),
    /// An object: its members by key. No key occurs twice.
    Object(Map<Seq<char>, Json>),
}

impl Json {
    /// The member stored under `key`, when this is an object that has one.
    pub open spec fn field(self, key: Seq<char>) -> Option<Json> {
        match self {
            Json::Object(members) => if members.contains_key(key) {
                Some(members[key])
            } else {
                None
            },
            _ => None,
        }
    }

    /// The text of a string value.
    pub open spec fn as_str(self) -> Option<Seq<char>> {
        match self {
            Json::Str(s) => Some(s),
            _ => None,
        }
    }

    /// The number, when it is an integer that fits `i64`.
    pub open spec fn as_i64(self) -> Option<i64> {
        match self {
            Json::Int(i) => if i64::MIN <= i <= i64::MAX {
                Some(i as i64)
            } else {
                None
            },
            _ => None,
        }
    }

    /// The truth value of a boolean.
    pub open spec fn as_bool(self) -> Option<bool> {
        match self {
            Json::Bool(b) => Some(b),
            _ => None,
        }
    }

    /// The items of an array.
    pub open spec fn as_array(self) -> Option<Seq<Json>> {
        match self {
            Json::Array(items) => Some(items),
            _ => None,
        }
    }
}

/// `serde_json::Value`, carried through verified code as an opaque value.
#[verifier::external_type_specification]
#[verifier::external_body]
pub struct ExValue(serde_json::Value);

/// `serde_json::Map`, carried through verified code as an opaque value.
#[verifier::external_type_specification]
#[verifier::external_body]
#[verifier::reject_recursive_types(K)]
#[verifier::reject_recursive_types(V)]
pub struct ExMap<K, V>(serde_json::Map<K, V>);

/// What a `serde_json::Value` holds, variant for variant: `Null`, `Bool`,
/// `Number` (as [`Json::Int`] or [`Json::Float`]), `String`, `Array`,
/// `Object`.
pub uninterp spec fn value_view(v: serde_json::Value) -> Json;

/// The members of a `serde_json::Map`, by key.
pub uninterp spec fn object_view(m: serde_json::Map<String, serde_json::Value>) -> Map<
    Seq<char>,
    Json,
>;

/// What `serde_json` reads from a text: the one JSON value that the whole
/// text is, or the description of the first fault it finds.
pub uninterp spec fn json_parsed(text: Seq<char>) -> Result<Json, Seq<char>>;

/// The compact text `serde_json` writes for a value, or the description of
/// why it writes none.
pub uninterp spec fn json_text(j: Json) -> Result<Seq<char>, Seq<char>>;

/// The indented text `serde_json` writes for a value, or the description of
/// why it writes none.
pub uninterp spec fn json_pretty_text(j: Json) -> Result<Seq<char>, Seq<char>>;

/// The members of an object that has none.
pub open spec fn no_members() -> Map<Seq<char>, Json> {
    Map::empty()
}

/// The views of a run of values, in order.
pub open spec fn values_view(items: Seq<serde_json::Value>) -> Seq<Json> {
    items.map_values(|v: serde_json::Value| value_view(v))
}

/// `serde_json::from_str` at type `Value`. Claims that the outcome depends on
/// the text alone: the whole text read as one JSON value, or the fault as
/// `serde_json` words it (`Display` of its error, which ends in the line and
/// column of the fault).
#[verifier::external_body]
pub(crate) fn parse(text: &str) -> (r: Result<serde_json::Value, String>)
    ensures
        match r {
            Ok(v) => json_parsed(text@) == Ok::<Json, Seq<char>>(value_view(v)),
            Err(d) => json_parsed(text@) == Err::<Json, Seq<char>>(d@),
        },
{
    match serde_json::from_str::<serde_json::Value>(text) {
        Ok(v) => Ok(v),
        Err(e) => Err(e.to_string()),
    }
}

/// `serde_json::to_string` on a `Value`. Claims that the outcome depends on
/// what the value holds alone: the value as compact JSON text, or the fault
/// as `serde_json` words it (`Display` of its error). Does not claim that
/// there is a text.
#[verifier::external_body]
pub(crate) fn to_text(v: &serde_json::Value) -> (r: Result<String, String>)
    ensures
        match r {
            Ok(s) => json_text(value_view(*v)) == Ok::<Seq<char>, Seq<char>>(s@),
            Err(d) => json_text(value_view(*v)) == Err::<Seq<char>, Seq<char>>(d@),
        },
{
    match serde_json::to_string(v) {
        Ok(s) => Ok(s),
        Err(e) => Err(e.to_string()),
    }
}

/// `serde_json::to_string_pretty` on a `Value`. Claims that the outcome
/// depends on what the value holds alone: the value as indented JSON text, or
/// the fault as `serde_json` words it (`Display` of its error). Does not
/// claim that there is a text.
#[verifier::external_body]
pub(crate) fn to_pretty_text(v: &serde_json::Value) -> (r: Result<String, String>)
    ensures
        match r {
            Ok(s) => json_pretty_text(value_view(*v)) == Ok::<Seq<char>, Seq<char>>(s@),
            Err(d) => json_pretty_text(value_view(*v)) == Err::<Seq<char>, Seq<char>>(d@),
        },
{
    match serde_json::to_string_pretty(v) {
        Ok(s) => Ok(s),
        Err(e) => Err(e.to_string()),
    }
}

/// `Value::get` with a string index. Claims that it gives the member under
/// `key` when the value is an object that has one, and `None` for a missing
/// key and for every value that is not an object.
#[verifier::external_body]
pub(crate) fn field<'a>(v: &'a serde_json::Value, key: &str) -> (r: Option<&'a serde_json::Value>)
    ensures
        match r {
            Some(x) => value_view(*v).field(key@) == Some(value_view(*x)),
            None => value_view(*v).field(key@).is_none(),
        },
{
    v.get(key)
}

/// `Value::is_object`. Claims that it tells whether the value is an object.
#[verifier::external_body]
pub(crate) fn is_object(v: &serde_json::Value) -> (r: bool)
    ensures
        r == (value_view(*v) is Object),
{
    v.is_object()
}

/// `Value::is_null`. Claims that it tells whether the value is `null`.
#[verifier::external_body]
pub(crate) fn is_null(v: &serde_json::Value) -> (r: bool)
    ensures
        r == (value_view(*v) is Null),
{
    v.is_null()
}

/// `Value::as_str`. Claims that it gives the text of a string value and
/// `None` for any other value.
#[verifier::external_body]
pub(crate) fn as_str<'a>(v: &'a serde_json::Value) -> (r: Option<&'a str>)
    ensures
        match r {
            Some(s) => value_view(*v).as_str() == Some(s@),
            None => value_view(*v).as_str().is_none(),
        },
{
    v.as_str()
}

/// `Value::as_i64`. Claims that it gives a number that is held as an integer
/// and fits `i64`, and `None` for a larger integer, for a float and for any
/// value that is not a number.
#[verifier::external_body]
pub(crate) fn as_i64(v: &serde_json::Value) -> (r: Option<i64>)
    ensures
        r == value_view(*v).as_i64(),
{
    v.as_i64()
}

/// `Value::as_bool`. Claims that it gives the truth value of a boolean and
/// `None` for any other value.
#[verifier::external_body]
pub(crate) fn as_bool(v: &serde_json::Value) -> (r: Option<bool>)
    ensures
        r == value_view(*v).as_bool(),
{
    v.as_bool()
}

/// `Value::as_array`. Claims that it gives the items of an array, in order,
/// and `None` for any other value.
#[verifier::external_body]
pub(crate) fn as_array<'a>(v: &'a serde_json::Value) -> (r: Option<&'a Vec<serde_json::Value>>)
    ensures
        match r {
            Some(items) => value_view(*v).as_array() == Some(values_view(items@)),
            None => value_view(*v).as_array().is_none(),
        },
{
    v.as_array()
}

/// The variant `Value::Null`.
#[verifier::external_body]
pub(crate) fn null() -> (r: serde_json::Value)
    ensures
        value_view(r) == Json::Null,
{
    serde_json::Value::Null
}

/// `Value::from(&str)`. Claims that it gives a string value with the same
/// text.
#[verifier::external_body]
pub(crate) fn string(s: &str) -> (r: serde_json::Value)
    ensures
        value_view(r) == Json::Str(s@),
{
    serde_json::Value::from(s)
}

/// `Value::from(i64)`. Claims that it gives the number `n`, held as an
/// integer.
#[verifier::external_body]
pub(crate) fn integer(n: i64) -> (r: serde_json::Value)
    ensures
        value_view(r) == Json::Int(n as int),
{
    serde_json::Value::from(n)
}

/// `Value::from(bool)`. Claims that it gives the boolean `b`.
#[verifier::external_body]
pub(crate) fn boolean(b: bool) -> (r: serde_json::Value)
    ensures
        value_view(r) == Json::Bool(b),
{
    serde_json::Value::from(b)
}

/// The variant `Value::Array` around the given items, in their order.
#[verifier::external_body]
pub(crate) fn array(items: Vec<serde_json::Value>) -> (r: serde_json::Value)
    ensures
        value_view(r) == Json::Array(values_view(items@)),
{
    serde_json::Value::Array(items)
}

/// `Map::new`. Claims that it gives a map without members.
#[verifier::external_body]
pub(crate) fn members() -> (r: serde_json::Map<String, serde_json::Value>)
    ensures
        object_view(r) == no_members(),
{
    serde_json::Map::new()
}

/// `Map::insert`. Claims that afterwards `key` holds `value`, whatever it
/// held before, and that every other key holds what it held.
#[verifier::external_body]
pub(crate) fn insert(
    m: &mut serde_json::Map<String, serde_json::Value>,
    key: &str,
    value: serde_json::Value,
)
    ensures
        object_view(*final(m)) == object_view(*old(m)).insert(key@, value_view(value)),
{
    m.insert(key.to_owned(), value);
}

/// The variant `Value::Object` around the given members.
#[verifier::external_body]
pub(crate) fn object(m: serde_json::Map<String, serde_json::Value>) -> (r: serde_json::Value)
    ensures
        value_view(r) == Json::Object(object_view(m)),
{
    serde_json::Value::Object(m)
}

} // verus!
