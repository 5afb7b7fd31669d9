use vstd::prelude::*;

verus! {

/// A mathematical model of a parsed JSON document, as far as this client
/// reads one.  Numbers keep only their value as an unsigned 64-bit
/// integer, which is all the record schema asks of them; every other
/// number is `InexactNum`.
pub enum JsonModel {
    /// JSON null.
    Null,
    /// A boolean.
    Bool(bool),
    /// A number whose value is exactly an unsigned 64-bit integer.
    UInt(u64),
    /// Any other number: negative, or not an integer.
    InexactNum,
    /// A string.
    Text(Seq<char>),
    /// An array.
    Arr(Seq<JsonModel>),
    /// An object, keyed by its member names.
    Obj(Map<Seq<char>, JsonModel>),
}

#[verifier::external_type_specification]
#[verifier::external_body]
pub struct ExValue(serde_json::Value);

/// What a `serde_json::Value` holds, as a `JsonModel`.
pub uninterp spec fn json_view(v: serde_json::Value) -> JsonModel;

/// What `serde_json::from_str::<Value>` yields on a text: `None` where the
/// text is not a single well-formed JSON document.
pub uninterp spec fn json_of(s: Seq<char>) -> Option<JsonModel>;

/// Relies on `serde_json::from_str::<Value>`: parses the text as one JSON
/// document; the result is a function of the text alone.
#[verifier::external_body]
pub(crate) fn parse_json(s: &str) -> (r: Option<serde_json::Value>)
    ensures
        r is Some <==> json_of(s@) is Some,
        r matches Some(v) ==> json_view(v) == json_of(s@).unwrap(),
{
    serde_json::from_str::<serde_json::Value>(s).ok()
}

/// Relies on `serde_json::Value::as_array`: `Some` exactly on an array,
/// holding the array's elements in order.
#[verifier::external_body]
pub(crate) fn value_as_array(v: &serde_json::Value) -> (r: Option<&Vec<serde_json::Value>>)
    ensures
        r is Some <==> json_view(*v) is Arr,
        r matches Some(a) ==> {
            &&& json_view(*v) matches JsonModel::Arr(es)
            &&& a@.len() == es.len()
            &&& forall|i: int| 0 <= i < es.len() ==> json_view(a@[i]) == es[i]
        },
{
    v.as_array()
}

/// Relies on `serde_json::Value::get` with a string index: on an object it
/// looks the member up by name; on anything else it yields `None`.
#[verifier::external_body]
pub(crate) fn value_get<'a>(v: &'a serde_json::Value, key: &str) -> (r: Option<&'a serde_json::Value>)
    ensures
        r matches Some(f) ==> {
            &&& json_view(*v) matches JsonModel::Obj(m)
            &&& m.contains_key(key@)
            &&& json_view(*f) == m[key@]
        },
        r is None ==> (json_view(*v) matches JsonModel::Obj(m) ==> !m.contains_key(key@)),
{
    v.get(key)
}

/// Relies on `serde_json::Value::as_u64`: `Some` exactly on a number that
/// is representable as a u64, with its value.
#[verifier::external_body]
pub(crate) fn value_as_u64(v: &serde_json::Value) -> (r: Option<u64>)
    ensures
        r is Some <==> json_view(*v) is UInt,
        r matches Some(n) ==> json_view(*v) == JsonModel::UInt(n),
{
    v.as_u64()
}

/// Relies on `serde_json::Value::as_str`: `Some` exactly on a string, with
/// its characters.
#[verifier::external_body]
pub(crate) fn value_as_str<'a>(v: &'a serde_json::Value) -> (r: Option<&'a str>)
    ensures
        r is Some <==> json_view(*v) is Text,
        r matches Some(s) ==> (json_view(*v) matches JsonModel::Text(t) && s@ == t),
{
    v.as_str()
}

/// Relies on `serde_json::Value::as_bool`: `Some` exactly on a boolean.
#[verifier::external_body]
pub(crate) fn value_as_bool(v: &serde_json::Value) -> (r: Option<bool>)
    ensures
        r is Some <==> json_view(*v) is Bool,
        r matches Some(b) ==> json_view(*v) == JsonModel::Bool(b),
{
    v.as_bool()
}

} // verus!
