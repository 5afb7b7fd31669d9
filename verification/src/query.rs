use vstd::prelude::*;

use crate::commands::SpaceInfo;
use crate::errors::YabaiError;
use crate::json::parse_json;
use crate::json::value_as_array;
use crate::json::value_as_bool;
use crate::json::value_as_str;
use crate::json::value_as_u64;
use crate::json::value_get;
use crate::json::json_of;
use crate::json::json_view;
use crate::json::JsonModel;

verus! {

/// The object `m` has member `key` as a number that fits a u32.
pub open spec fn uint_field(m: Map<Seq<char>, JsonModel>, key: Seq<char>) -> bool {
    m.contains_key(key) && (m[key] matches JsonModel::UInt(n) && n <= u32::MAX)
}

/// The number held at `key`.
pub open spec fn uint_val(m: Map<Seq<char>, JsonModel>, key: Seq<char>) -> u64 {
    m[key]->UInt_0
}

/// The object `m` has member `key` as a string.
pub open spec fn str_field(m: Map<Seq<char>, JsonModel>, key: Seq<char>) -> bool {
    m.contains_key(key) && m[key] is Text
}

/// The characters held at `key`.
pub open spec fn str_val(m: Map<Seq<char>, JsonModel>, key: Seq<char>) -> Seq<char> {
    m[key]->Text_0
}

/// The object `m` has member `key` as a boolean.
pub open spec fn bool_field(m: Map<Seq<char>, JsonModel>, key: Seq<char>) -> bool {
    m.contains_key(key) && m[key] is Bool
}

/// The boolean held at `key`.
pub open spec fn bool_val(m: Map<Seq<char>, JsonModel>, key: Seq<char>) -> bool {
    m[key]->Bool_0
}

/// The object `m` has member `key` as an array of numbers that fit a u32.
pub open spec fn u32_list_field(m: Map<Seq<char>, JsonModel>, key: Seq<char>) -> bool {
    m.contains_key(key) && (m[key] matches JsonModel::Arr(es) && forall|i: int|
        0 <= i < es.len() ==> (#[trigger] es[i] matches JsonModel::UInt(n) && n <= u32::MAX))
}

/// The array held at `key`, still as model values.
pub open spec fn u32_list_val(m: Map<Seq<char>, JsonModel>, key: Seq<char>) -> Seq<JsonModel> {
    m[key]->Arr_0
}

/// The JSON object carries every member of the space record with the type
/// and range the record asks for.
pub open spec fn space_schema_ok(j: JsonModel) -> bool {
    j matches JsonModel::Obj(m) && {
        &&& uint_field(m, "id"@)
        &&& str_field(m, "uuid"@)
        &&& uint_field(m, "index"@)
        &&& str_field(m, "label"@)
        &&& str_field(m, "type"@)
        &&& uint_field(m, "display"@)
        &&& u32_list_field(m, "windows"@)
        &&& uint_field(m, "first-window"@)
        &&& uint_field(m, "last-window"@)
        &&& bool_field(m, "has-focus"@)
        &&& bool_field(m, "is-visible"@)
        &&& bool_field(m, "is-native-fullscreen"@)
    }
}

/// Record `s` holds exactly the values of the JSON object `j`, member by
/// member.
pub open spec fn space_record_matches(j: JsonModel, s: SpaceInfo) -> bool {
    j matches JsonModel::Obj(m) && {
        &&& s.id as u64 == uint_val(m, "id"@)
        &&& s.uuid@ == str_val(m, "uuid"@)
        &&& s.index as u64 == uint_val(m, "index"@)
        &&& s.label@ == str_val(m, "label"@)
        &&& s.space_type@ == str_val(m, "type"@)
        &&& s.display as u64 == uint_val(m, "display"@)
        &&& s.windows@.len() == u32_list_val(m, "windows"@).len()
        &&& forall|i: int|
            0 <= i < s.windows@.len() ==> #[trigger] s.windows@[i] as u64 == u32_list_val(
                m,
                "windows"@,
            )[i]->UInt_0
        &&& s.first_window as u64 == uint_val(m, "first-window"@)
        &&& s.last_window as u64 == uint_val(m, "last-window"@)
        &&& s.has_focus == bool_val(m, "has-focus"@)
        &&& s.is_visible == bool_val(m, "is-visible"@)
        &&& s.is_native_fullscreen == bool_val(m, "is-native-fullscreen"@)
    }
}

/// Reads member `key` of `v` as a u32.
fn get_u32(v: &serde_json::Value, key: &str) -> (r: Option<u32>)
    ensures
        r is Some <==> (json_view(*v) matches JsonModel::Obj(m) && uint_field(m, key@)),
        r matches Some(n) ==> (json_view(*v) matches JsonModel::Obj(m) && n as u64 == uint_val(
            m,
            key@,
        )),
{
    match value_get(v, key) {
        Some(f) => match value_as_u64(f) {
            Some(n) => if n <= u32::MAX as u64 {
                Some(n as u32)
            } else {
                None
            },
            None => None,
        },
        None => None,
    }
}

/// Reads member `key` of `v` as an owned string.
fn get_string(v: &serde_json::Value, key: &str) -> (r: Option<String>)
    ensures
        r is Some <==> (json_view(*v) matches JsonModel::Obj(m) && str_field(m, key@)),
        r matches Some(s) ==> (json_view(*v) matches JsonModel::Obj(m) && s@ == str_val(m, key@)),
{
    match value_get(v, key) {
        Some(f) => match value_as_str(f) {
            Some(s) => Some(s.to_owned()),
            None => None,
        },
        None => None,
    }
}

/// Reads member `key` of `v` as a boolean.
fn get_bool(v: &serde_json::Value, key: &str) -> (r: Option<bool>)
    ensures
        r is Some <==> (json_view(*v) matches JsonModel::Obj(m) && bool_field(m, key@)),
        r matches Some(b) ==> (json_view(*v) matches JsonModel::Obj(m) && b == bool_val(m, key@)),
{
    match value_get(v, key) {
        Some(f) => value_as_bool(f),
        None => None,
    }
}

/// Reads member `key` of `v` as a list of u32.
fn get_u32_list(v: &serde_json::Value, key: &str) -> (r: Option<Vec<u32>>)
    ensures
        r is Some <==> (json_view(*v) matches JsonModel::Obj(m) && u32_list_field(m, key@)),
        r matches Some(ws) ==> (json_view(*v) matches JsonModel::Obj(m) && {
            &&& ws@.len() == u32_list_val(m, key@).len()
            &&& forall|i: int|
                0 <= i < ws@.len() ==> #[trigger] ws@[i] as u64 == u32_list_val(m, key@)[i]->UInt_0
        }),
{
    let field = match value_get(v, key) {
        Some(f) => f,
        None => {
            return None;
        },
    };
    let arr = match value_as_array(field) {
        Some(a) => a,
        None => {
            return None;
        },
    };
    let ghost es = json_view(*field)->Arr_0;
    let mut out: Vec<u32> = Vec::new();
    let n = arr.len();
    let mut i: usize = 0;
    while i < n
        invariant
            0 <= i <= n,
            n == arr@.len(),
            n == es.len(),
            json_view(*v) is Obj,
            json_view(*v)->Obj_0.contains_key(key@),
            json_view(*v)->Obj_0[key@] == json_view(*field),
            json_view(*field) == JsonModel::Arr(es),
            forall|k: int| 0 <= k < n ==> json_view(arr@[k]) == es[k],
            out@.len() == i,
            forall|k: int|
                0 <= k < i ==> (#[trigger] es[k] matches JsonModel::UInt(w) && w <= u32::MAX),
            forall|k: int| 0 <= k < i ==> #[trigger] out@[k] as u64 == es[k]->UInt_0,
        decreases n - i,
    {
        let e = match value_as_u64(&arr[i]) {
            Some(w) => w,
            None => {
                proof {
                    let m = json_view(*v)->Obj_0;
                    assert(u32_list_val(m, key@) == es);
                    assert(!(es[i as int] is UInt));
                    assert(!u32_list_field(m, key@));
                }
                return None;
            },
        };
        if e > u32::MAX as u64 {
            proof {
                let m = json_view(*v)->Obj_0;
                assert(u32_list_val(m, key@) == es);
                assert(es[i as int] == JsonModel::UInt(e));
                assert(!u32_list_field(m, key@));
            }
            return None;
        }
        out.push(e as u32);
        i = i + 1;
    }
    Some(out)
}

/// Reads one JSON value as a space record: `Some` exactly where the value
/// matches the schema, and then every field carries the member's value.
pub fn parse_space(v: &serde_json::Value) -> (r: Option<SpaceInfo>)
    ensures
        r is Some <==> space_schema_ok(json_view(*v)),
        r matches Some(s) ==> space_record_matches(json_view(*v), s),
{
    let id = match get_u32(v, "id") {
        Some(x) => x,
        None => {
            return None;
        },
    };
    let uuid = match get_string(v, "uuid") {
        Some(x) => x,
        None => {
            return None;
        },
    };
    let index = match get_u32(v, "index") {
        Some(x) => x,
        None => {
            return None;
        },
    };
    let label = match get_string(v, "label") {
        Some(x) => x,
        None => {
            return None;
        },
    };
    let space_type = match get_string(v, "type") {
        Some(x) => x,
        None => {
            return None;
        },
    };
    let display = match get_u32(v, "display") {
        Some(x) => x,
        None => {
            return None;
        },
    };
    let windows = match get_u32_list(v, "windows") {
        Some(x) => x,
        None => {
            return None;
        },
    };
    let first_window = match get_u32(v, "first-window") {
        Some(x) => x,
        None => {
            return None;
        },
    };
    let last_window = match get_u32(v, "last-window") {
        Some(x) => x,
        None => {
            return None;
        },
    };
    let has_focus = match get_bool(v, "has-focus") {
        Some(x) => x,
        None => {
            return None;
        },
    };
    let is_visible = match get_bool(v, "is-visible") {
        Some(x) => x,
        None => {
            return None;
        },
    };
    let is_native_fullscreen = match get_bool(v, "is-native-fullscreen") {
        Some(x) => x,
        None => {
            return None;
        },
    };
    Some(
        SpaceInfo {
            id,
            uuid,
            index,
            label,
            space_type,
            display,
            windows,
            first_window,
            last_window,
            has_focus,
            is_visible,
            is_native_fullscreen,
        },
    )
}

/// The response text parses as a JSON array whose every element matches
/// the space record schema.
pub open spec fn spaces_payload_ok(s: Seq<char>) -> bool {
    json_of(s) matches Some(j) && (j matches JsonModel::Arr(es) && forall|i: int|
        0 <= i < es.len() ==> space_schema_ok(#[trigger] es[i]))
}

/// Parses the text of a `query --spaces` response: a JSON array of space
/// records.  Succeeds exactly on a well-formed array whose every element
/// matches the schema, and then returns one record per element, in order,
/// member for member.
pub fn parse_spaces(text: &str) -> (r: Result<Vec<SpaceInfo>, YabaiError>)
    ensures
        r is Ok <==> spaces_payload_ok(text@),
        r matches Ok(v) ==> (json_of(text@) matches Some(j) && (j matches JsonModel::Arr(es)
            && v@.len() == es.len() && forall|i: int|
            0 <= i < es.len() ==> space_record_matches(#[trigger] es[i], v@[i]))),
        r matches Err(e) ==> e is DeserializationError,
{
    let doc = match parse_json(text) {
        Some(d) => d,
        None => {
            return Err(
                YabaiError::DeserializationError(
                    String::from_str("response is not well-formed JSON"),
                ),
            );
        },
    };
    let arr = match value_as_array(&doc) {
        Some(a) => a,
        None => {
            return Err(
                YabaiError::DeserializationError(String::from_str("response is not a JSON array")),
            );
        },
    };
    let ghost es = json_view(doc)->Arr_0;
    let mut out: Vec<SpaceInfo> = Vec::new();
    let n = arr.len();
    let mut i: usize = 0;
    while i < n
        invariant
            0 <= i <= n,
            n == arr@.len(),
            n == es.len(),
            json_of(text@) == Some(json_view(doc)),
            json_view(doc) == JsonModel::Arr(es),
            forall|k: int| 0 <= k < n ==> json_view(arr@[k]) == es[k],
            out@.len() == i,
            forall|k: int| 0 <= k < i ==> space_schema_ok(#[trigger] es[k]),
            forall|k: int| 0 <= k < i ==> space_record_matches(#[trigger] es[k], out@[k]),
        decreases n - i,
    {
        let record = match parse_space(&arr[i]) {
            Some(s) => s,
            None => {
                proof {
                    assert(json_view(arr@[i as int]) == es[i as int]);
                    assert(!space_schema_ok(es[i as int]));
                    assert(!spaces_payload_ok(text@));
                }
                return Err(
                    YabaiError::DeserializationError(
                        String::from_str("array element does not match the space record schema"),
                    ),
                );
            },
        };
        out.push(record);
        i = i + 1;
    }
    Ok(out)
}

/// The decision every query makes on the raw send result: zero bytes from
/// the daemon are an explicit empty-result error carrying the query text,
/// distinct from any valid payload; a present response is handed on
/// unchanged.
pub fn require_response(query: &str, result: Option<String>) -> (r: Result<String, YabaiError>)
    ensures
        result is None ==> (r matches Err(e) && (e matches YabaiError::EmptyResult(q) && q@
            == query@)),
        result matches Some(text) ==> (r matches Ok(t) && t == text),
{
    match result {
        None => Err(YabaiError::EmptyResult(query.to_owned())),
        Some(text) => Ok(text),
    }
}

/// Turns the raw send result of `query --spaces` into records.  A missing
/// response is an explicit empty-result error carrying the query text,
/// distinct from the valid empty array `[]`; a present response goes
/// through [`parse_spaces`].
pub fn parse_spaces_response(result: Option<String>) -> (r: Result<Vec<SpaceInfo>, YabaiError>)
    ensures
        result is None ==> (r matches Err(e) && (e matches YabaiError::EmptyResult(q) && q@
            == "query --spaces"@)),
        result matches Some(text) ==> (r is Ok <==> spaces_payload_ok(text@)),
        result matches Some(text) ==> (r matches Ok(v) ==> (json_of(text@) matches Some(j) && (
        j matches JsonModel::Arr(es) && v@.len() == es.len() && forall|i: int|
            0 <= i < es.len() ==> space_record_matches(#[trigger] es[i], v@[i])))),
        result matches Some(text) ==> (r matches Err(e) ==> e is DeserializationError),
{
    let text = match require_response("query --spaces", result) {
        Ok(t) => t,
        Err(e) => {
            return Err(e);
        },
    };
    parse_spaces(text.as_str())
}

} // verus!
