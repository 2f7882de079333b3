//! Reading resources from JSON values and writing them as JSON values.
//!
//! A resource is read member by member, in the order of its record, and the
//! first member that cannot be read decides the fault. A member may be
//! required, optional (absent and `null` both mean "not given") or defaulted;
//! members that the record does not know are passed over.
//!
//! A resource is written as an object. A member of a request that was not
//! given is left out of the object. A member of a shown resource that was not
//! given is written as `null`.
//!
//! Each reader and writer comes as a pair: a function on [`Json`] that says
//! what is read or written, and the executable function on
//! `serde_json::Value` that does it.

use vstd::prelude::*;
use vstd::string::*;
use crate::error::{ParseError, ParseErrorView};
use crate::json::{self, object_view, value_view, values_view, Json};

verus! {

/// The result of a read as mathematical values.
pub open spec fn outcome<T: DeepView>(r: Result<T, ParseError>) -> Result<T::V, ParseErrorView> {
    match r {
        Ok(x) => Ok(x.deep_view()),
        Err(e) => Err(e@),
    }
}

/// A resource that can be read from a JSON value.
pub trait FromJson: Sized + DeepView {
    /// The resource that a JSON value stands for, or the first fault in it.
    spec fn decoded(j: Json) -> Result<Self::V, ParseErrorView>;

    /// Reads the resource from `v`.
    fn from_json(v: &serde_json::Value) -> (r: Result<Self, ParseError>)
        ensures
            outcome(r) == Self::decoded(value_view(*v)),
    ;
}

/// A resource that can be written as a JSON value.
pub trait ToJson: Sized + DeepView {
    /// The JSON value that stands for the resource.
    spec fn encoded(x: Self::V) -> Json;

    /// Writes the resource as a JSON value.
    fn to_json(&self) -> (v: serde_json::Value)
        ensures
            value_view(v) == Self::encoded(self.deep_view()),
    ;
}

/// A required string member.
pub open spec fn read_str(j: Json, key: Seq<char>) -> Result<Seq<char>, ParseErrorView> {
    match j.field(key) {
        None => Err(ParseErrorView::MissingField(key)),
        Some(Json::Str(s)) => Ok(s),
        Some(_) => Err(ParseErrorView::InvalidField(key)),
    }
}

/// Reads a required string member.
pub fn take_str(v: &serde_json::Value, key: &str) -> (r: Result<String, ParseError>)
    ensures
        outcome(r) == read_str(value_view(*v), key@),
{
    match json::field(v, key) {
        None => Err(ParseError::MissingField(String::from_str(key))),
        Some(member) => match json::as_str(member) {
            Some(s) => Ok(String::from_str(s)),
            None => Err(ParseError::InvalidField(String::from_str(key))),
        },
    }
}

/// An optional string member.
pub open spec fn read_opt_str(j: Json, key: Seq<char>) -> Result<
    Option<Seq<char>>,
    ParseErrorView,
> {
    match j.field(key) {
        None => Ok(None),
        Some(Json::Null) => Ok(None),
        Some(Json::Str(s)) => Ok(Some(s)),
        Some(_) => Err(ParseErrorView::InvalidField(key)),
    }
}

/// Reads an optional string member.
pub fn take_opt_str(v: &serde_json::Value, key: &str) -> (r: Result<Option<String>, ParseError>)
    ensures
        outcome(r) == read_opt_str(value_view(*v), key@),
{
    match json::field(v, key) {
        None => Ok(None),
        Some(member) => {
            if json::is_null(member) {
                Ok(None)
            } else {
                match json::as_str(member) {
                    Some(s) => Ok(Some(String::from_str(s))),
                    None => Err(ParseError::InvalidField(String::from_str(key))),
                }
            }
        },
    }
}

/// A required integer member that fits `i64`.
pub open spec fn read_i64(j: Json, key: Seq<char>) -> Result<i64, ParseErrorView> {
    match j.field(key) {
        None => Err(ParseErrorView::MissingField(key)),
        Some(v) => match v.as_i64() {
            Some(n) => Ok(n),
            None => Err(ParseErrorView::InvalidField(key)),
        },
    }
}

/// Reads a required integer member.
pub fn take_i64(v: &serde_json::Value, key: &str) -> (r: Result<i64, ParseError>)
    ensures
        outcome(r) == read_i64(value_view(*v), key@),
{
    match json::field(v, key) {
        None => Err(ParseError::MissingField(String::from_str(key))),
        Some(member) => match json::as_i64(member) {
            Some(n) => Ok(n),
            None => Err(ParseError::InvalidField(String::from_str(key))),
        },
    }
}

/// An integer member that counts as zero when absent.
pub open spec fn read_i64_or_zero(j: Json, key: Seq<char>) -> Result<i64, ParseErrorView> {
    match j.field(key) {
        None => Ok(0i64),
        Some(v) => match v.as_i64() {
            Some(n) => Ok(n),
            None => Err(ParseErrorView::InvalidField(key)),
        },
    }
}

/// Reads an integer member that counts as zero when absent.
pub fn take_i64_or_zero(v: &serde_json::Value, key: &str) -> (r: Result<i64, ParseError>)
    ensures
        outcome(r) == read_i64_or_zero(value_view(*v), key@),
{
    match json::field(v, key) {
        None => Ok(0),
        Some(member) => match json::as_i64(member) {
            Some(n) => Ok(n),
            None => Err(ParseError::InvalidField(String::from_str(key))),
        },
    }
}

/// An optional integer member that fits `i64`.
pub open spec fn read_opt_i64(j: Json, key: Seq<char>) -> Result<Option<i64>, ParseErrorView> {
    match j.field(key) {
        None => Ok(None),
        Some(Json::Null) => Ok(None),
        Some(v) => match v.as_i64() {
            Some(n) => Ok(Some(n)),
            None => Err(ParseErrorView::InvalidField(key)),
        },
    }
}

/// Reads an optional integer member.
pub fn take_opt_i64(v: &serde_json::Value, key: &str) -> (r: Result<Option<i64>, ParseError>)
    ensures
        outcome(r) == read_opt_i64(value_view(*v), key@),
{
    match json::field(v, key) {
        None => Ok(None),
        Some(member) => {
            if json::is_null(member) {
                Ok(None)
            } else {
                match json::as_i64(member) {
                    Some(n) => Ok(Some(n)),
                    None => Err(ParseError::InvalidField(String::from_str(key))),
                }
            }
        },
    }
}

/// A required integer member that fits `i32`.
pub open spec fn read_i32(j: Json, key: Seq<char>) -> Result<i32, ParseErrorView> {
    match j.field(key) {
        None => Err(ParseErrorView::MissingField(key)),
        Some(v) => match v.as_i64() {
            Some(n) => if i32::MIN <= n <= i32::MAX {
                Ok(n as i32)
            } else {
                Err(ParseErrorView::InvalidField(key))
            },
            None => Err(ParseErrorView::InvalidField(key)),
        },
    }
}

/// Reads a required integer member that must fit `i32`.
pub fn take_i32(v: &serde_json::Value, key: &str) -> (r: Result<i32, ParseError>)
    ensures
        outcome(r) == read_i32(value_view(*v), key@),
{
    match json::field(v, key) {
        None => Err(ParseError::MissingField(String::from_str(key))),
        Some(member) => match json::as_i64(member) {
            Some(n) => {
                if -2147483648 <= n && n <= 2147483647 {
                    Ok(n as i32)
                } else {
                    Err(ParseError::InvalidField(String::from_str(key)))
                }
            },
            None => Err(ParseError::InvalidField(String::from_str(key))),
        },
    }
}

/// A required boolean member.
pub open spec fn read_bool(j: Json, key: Seq<char>) -> Result<bool, ParseErrorView> {
    match j.field(key) {
        None => Err(ParseErrorView::MissingField(key)),
        Some(Json::Bool(b)) => Ok(b),
        Some(_) => Err(ParseErrorView::InvalidField(key)),
    }
}

/// Reads a required boolean member.
pub fn take_bool(v: &serde_json::Value, key: &str) -> (r: Result<bool, ParseError>)
    ensures
        outcome(r) == read_bool(value_view(*v), key@),
{
    match json::field(v, key) {
        None => Err(ParseError::MissingField(String::from_str(key))),
        Some(member) => match json::as_bool(member) {
            Some(b) => Ok(b),
            None => Err(ParseError::InvalidField(String::from_str(key))),
        },
    }
}

/// An optional boolean member.
pub open spec fn read_opt_bool(j: Json, key: Seq<char>) -> Result<Option<bool>, ParseErrorView> {
    match j.field(key) {
        None => Ok(None),
        Some(Json::Null) => Ok(None),
        Some(Json::Bool(b)) => Ok(Some(b)),
        Some(_) => Err(ParseErrorView::InvalidField(key)),
    }
}

/// Reads an optional boolean member.
pub fn take_opt_bool(v: &serde_json::Value, key: &str) -> (r: Result<Option<bool>, ParseError>)
    ensures
        outcome(r) == read_opt_bool(value_view(*v), key@),
{
    match json::field(v, key) {
        None => Ok(None),
        Some(member) => {
            if json::is_null(member) {
                Ok(None)
            } else {
                match json::as_bool(member) {
                    Some(b) => Ok(Some(b)),
                    None => Err(ParseError::InvalidField(String::from_str(key))),
                }
            }
        },
    }
}

/// An optional member that is a resource.
pub open spec fn read_opt_resource<T: FromJson>(j: Json, key: Seq<char>) -> Result<
    Option<T::V>,
    ParseErrorView,
> {
    match j.field(key) {
        None => Ok(None),
        Some(Json::Null) => Ok(None),
        Some(v) => match T::decoded(v) {
            Ok(resource) => Ok(Some(resource)),
            Err(fault) => Err(fault),
        },
    }
}

/// Reads an optional member that is a resource.
pub fn take_opt_resource<T: FromJson>(
    v: &serde_json::Value,
    key: &str,
) -> (r: Result<Option<T>, ParseError>)
    ensures
        outcome(r) == read_opt_resource::<T>(value_view(*v), key@),
{
    match json::field(v, key) {
        None => Ok(None),
        Some(member) => {
            if json::is_null(member) {
                Ok(None)
            } else {
                match T::from_json(member) {
                    Ok(resource) => Ok(Some(resource)),
                    Err(fault) => Err(fault),
                }
            }
        },
    }
}

/// The resources that a run of JSON values stands for. The first value that
/// is not a resource decides the fault.
pub open spec fn decoded_all<T: FromJson>(items: Seq<Json>) -> Result<Seq<T::V>, ParseErrorView>
    decreases items.len(),
{
    if items.len() == 0 {
        Ok(Seq::empty())
    } else {
        match decoded_all::<T>(items.drop_last()) {
            Err(fault) => Err(fault),
            Ok(front) => match T::decoded(items.last()) {
                Err(fault) => Err(fault),
                Ok(x) => Ok(front.push(x)),
            },
        }
    }
}

/// A fault in the front of a run is the fault of the whole run.
pub proof fn lemma_decoded_all_fault<T: FromJson>(items: Seq<Json>, n: int)
    requires
        0 <= n <= items.len(),
        decoded_all::<T>(items.take(n)) is Err,
    ensures
        decoded_all::<T>(items) == decoded_all::<T>(items.take(n)),
    decreases items.len() - n,
{
    if n < items.len() {
        assert(items.take(n + 1).drop_last() =~= items.take(n));
        lemma_decoded_all_fault::<T>(items, n + 1);
    } else {
        assert(items.take(n) =~= items);
    }
}

/// Reads a run of resources from the items of a JSON array.
pub fn take_all<T: FromJson>(items: &Vec<serde_json::Value>) -> (r: Result<Vec<T>, ParseError>)
    ensures
        outcome(r) == decoded_all::<T>(values_view(items@)),
{
    let ghost all = values_view(items@);
    let mut resources: Vec<T> = Vec::new();
    let mut i: usize = 0;
    assert(resources.deep_view() =~= Seq::empty());
    while i < items.len()
        invariant
            0 <= i <= items.len(),
            all == values_view(items@),
            decoded_all::<T>(all.take(i as int)) == Ok::<Seq<T::V>, ParseErrorView>(
                resources.deep_view(),
            ),
        decreases items.len() - i,
    {
        proof {
            assert(all.take(i + 1).drop_last() =~= all.take(i as int));
        }
        match T::from_json(&items[i]) {
            Ok(resource) => {
                let ghost before = resources.deep_view();
                resources.push(resource);
                assert(resources.deep_view() =~= before.push(resource.deep_view()));
            },
            Err(fault) => {
                proof {
                    lemma_decoded_all_fault::<T>(all, i + 1);
                }
                return Err(fault);
            },
        }
        i = i + 1;
    }
    assert(all.take(i as int) =~= all);
    Ok(resources)
}

/// An optional member that is a list of resources.
pub open spec fn read_opt_list<T: FromJson>(j: Json, key: Seq<char>) -> Result<
    Option<Seq<T::V>>,
    ParseErrorView,
> {
    match j.field(key) {
        None => Ok(None),
        Some(Json::Null) => Ok(None),
        Some(Json::Array(items)) => match decoded_all::<T>(items) {
            Ok(resources) => Ok(Some(resources)),
            Err(fault) => Err(fault),
        },
        Some(_) => Err(ParseErrorView::InvalidField(key)),
    }
}

/// Reads an optional member that is a list of resources.
pub fn take_opt_list<T: FromJson>(
    v: &serde_json::Value,
    key: &str,
) -> (r: Result<Option<Vec<T>>, ParseError>)
    ensures
        outcome(r) == read_opt_list::<T>(value_view(*v), key@),
{
    match json::field(v, key) {
        None => Ok(None),
        Some(member) => {
            if json::is_null(member) {
                Ok(None)
            } else {
                match json::as_array(member) {
                    Some(items) => match take_all::<T>(items) {
                        Ok(resources) => Ok(Some(resources)),
                        Err(fault) => Err(fault),
                    },
                    None => Err(ParseError::InvalidField(String::from_str(key))),
                }
            }
        },
    }
}

/// The JSON values that stand for a run of resources, in order.
pub open spec fn encoded_all<T: ToJson>(items: Seq<T::V>) -> Seq<Json> {
    items.map_values(|x: T::V| T::encoded(x))
}

/// Writes a run of resources as a JSON array.
pub fn list_to_json<T: ToJson>(items: &Vec<T>) -> (v: serde_json::Value)
    ensures
        value_view(v) == Json::Array(encoded_all::<T>(items.deep_view())),
{
    let mut values: Vec<serde_json::Value> = Vec::new();
    let mut i: usize = 0;
    while i < items.len()
        invariant
            0 <= i <= items.len(),
            values_view(values@) =~= encoded_all::<T>(items.deep_view().take(i as int)),
        decreases items.len() - i,
    {
        let value = items[i].to_json();
        values.push(value);
        proof {
            let all = items.deep_view();
            assert(encoded_all::<T>(all.take(i + 1)) =~= encoded_all::<T>(all.take(i as int)).push(
                T::encoded(items[i as int].deep_view()),
            ));
        }
        i = i + 1;
    }
    assert(items.deep_view().take(i as int) =~= items.deep_view());
    json::array(values)
}

/// The members `m` with `key` added when a value was given for it.
pub open spec fn with_optional(
    m: Map<Seq<char>, Json>,
    key: Seq<char>,
    value: Option<Json>,
) -> Map<Seq<char>, Json> {
    match value {
        Some(v) => m.insert(key, v),
        None => m,
    }
}

/// A string value, when a text was given.
pub open spec fn opt_str_json(value: Option<Seq<char>>) -> Option<Json> {
    match value {
        Some(s) => Some(Json::Str(s)),
        None => None,
    }
}

/// Adds a string member when a text was given, and nothing otherwise.
pub fn put_opt_str(
    m: &mut serde_json::Map<String, serde_json::Value>,
    key: &str,
    value: &Option<String>,
)
    ensures
        object_view(*final(m)) == with_optional(
            object_view(*old(m)),
            key@,
            opt_str_json(value.deep_view()),
        ),
{
    match value {
        Some(s) => json::insert(m, key, json::string(s.as_str())),
        None => {},
    }
}

/// A boolean value, when a flag was given.
pub open spec fn opt_bool_json(value: Option<bool>) -> Option<Json> {
    match value {
        Some(b) => Some(Json::Bool(b)),
        None => None,
    }
}

/// Adds a boolean member when a flag was given, and nothing otherwise.
pub fn put_opt_bool(
    m: &mut serde_json::Map<String, serde_json::Value>,
    key: &str,
    value: Option<bool>,
)
    ensures
        object_view(*final(m)) == with_optional(object_view(*old(m)), key@, opt_bool_json(value)),
{
    match value {
        Some(b) => json::insert(m, key, json::boolean(b)),
        None => {},
    }
}

/// An integer value, when a number was given.
pub open spec fn opt_int_json(value: Option<i64>) -> Option<Json> {
    match value {
        Some(n) => Some(Json::Int(n as int)),
        None => None,
    }
}

/// Adds an integer member when a number was given, and nothing otherwise.
pub fn put_opt_int(
    m: &mut serde_json::Map<String, serde_json::Value>,
    key: &str,
    value: Option<i64>,
)
    ensures
        object_view(*final(m)) == with_optional(object_view(*old(m)), key@, opt_int_json(value)),
{
    match value {
        Some(n) => json::insert(m, key, json::integer(n)),
        None => {},
    }
}

/// A JSON array of resources, when a list was given.
pub open spec fn opt_list_json<T: ToJson>(value: Option<Seq<T::V>>) -> Option<Json> {
    match value {
        Some(items) => Some(Json::Array(encoded_all::<T>(items))),
        None => None,
    }
}

/// Adds a member that is a list of resources when a list was given, and
/// nothing otherwise.
pub fn put_opt_list<T: ToJson>(
    m: &mut serde_json::Map<String, serde_json::Value>,
    key: &str,
    value: &Option<Vec<T>>,
)
    ensures
        object_view(*final(m)) == with_optional(
            object_view(*old(m)),
            key@,
            opt_list_json::<T>(value.deep_view()),
        ),
{
    match value {
        Some(items) => json::insert(m, key, list_to_json::<T>(items)),
        None => {},
    }
}

/// The value given, or `null` in its place.
pub open spec fn or_null(value: Option<Json>) -> Json {
    match value {
        Some(v) => v,
        None => Json::Null,
    }
}

/// A string value for a text that was given, `null` for one that was not.
pub fn str_or_null(value: &Option<String>) -> (v: serde_json::Value)
    ensures
        value_view(v) == or_null(opt_str_json(value.deep_view())),
{
    match value {
        Some(s) => json::string(s.as_str()),
        None => json::null(),
    }
}

/// A boolean value for a flag that was given, `null` for one that was not.
pub fn bool_or_null(value: Option<bool>) -> (v: serde_json::Value)
    ensures
        value_view(v) == or_null(opt_bool_json(value)),
{
    match value {
        Some(b) => json::boolean(b),
        None => json::null(),
    }
}

/// The JSON value of a resource, when one was given.
pub open spec fn opt_resource_json<T: ToJson>(value: Option<T::V>) -> Option<Json> {
    match value {
        Some(x) => Some(T::encoded(x)),
        None => None,
    }
}

/// The JSON value of a resource that was given, `null` for one that was not.
pub fn resource_or_null<T: ToJson>(value: &Option<T>) -> (v: serde_json::Value)
    ensures
        value_view(v) == or_null(opt_resource_json::<T>(value.deep_view())),
{
    match value {
        Some(x) => x.to_json(),
        None => json::null(),
    }
}

/// A JSON array for a list that was given, `null` for one that was not.
pub fn list_or_null<T: ToJson>(value: &Option<Vec<T>>) -> (v: serde_json::Value)
    ensures
        value_view(v) == or_null(opt_list_json::<T>(value.deep_view())),
{
    match value {
        Some(items) => list_to_json::<T>(items),
        None => json::null(),
    }
}

/// Whether `key` stands in `members` with the given value.
pub open spec fn holds(members: Map<Seq<char>, Json>, key: Seq<char>, value: Json) -> bool {
    members.contains_key(key) && members[key] == value
}

/// Whether `key` stands in `members` exactly when a value was given for it,
/// and then with that value.
pub open spec fn present_iff_given(
    members: Map<Seq<char>, Json>,
    key: Seq<char>,
    value: Option<Json>,
) -> bool {
    match value {
        Some(v) => members.contains_key(key) && members[key] == v,
        None => !members.contains_key(key),
    }
}

/// Whether a reply repeats what was sent, as far as the given keys go: a
/// member that was sent comes back with the same value, and one that was not
/// sent is absent from the reply or `null` in it.
pub open spec fn echoes(
    reply: Map<Seq<char>, Json>,
    sent: Map<Seq<char>, Json>,
    keys: Set<Seq<char>>,
) -> bool {
    forall|k: Seq<char>| #[trigger]
        keys.contains(k) ==> if sent.contains_key(k) {
            reply.contains_key(k) && reply[k] == sent[k]
        } else {
            !reply.contains_key(k) || reply[k] == Json::Null
        }
}

/// Where writing a resource and reading it back gives the resource, writing
/// a run of them and reading it back gives the run.
pub proof fn lemma_list_round_trip<T: FromJson + ToJson>(items: Seq<<T as DeepView>::V>)
    requires
        forall|x: <T as DeepView>::V| #[trigger] T::decoded(T::encoded(x)) == Ok::<
            <T as DeepView>::V,
            ParseErrorView,
        >(x),
    ensures
        decoded_all::<T>(encoded_all::<T>(items)) == Ok::<Seq<<T as DeepView>::V>, ParseErrorView>(
            items,
        ),
    decreases items.len(),
{
    if items.len() > 0 {
        lemma_list_round_trip::<T>(items.drop_last());
        assert(encoded_all::<T>(items).drop_last() =~= encoded_all::<T>(items.drop_last()));
        assert(items.drop_last().push(items.last()) =~= items);
    } else {
        assert(items =~= Seq::empty());
    }
}

} // verus!
