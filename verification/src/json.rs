//! Reading JSON response bodies.
//!
//! The parser is serde_json's; this crate never reimplements the JSON
//! grammar.  A parsed document is carried as an opaque `serde_json::Value`,
//! and what such a value holds is named by the uninterpreted `json_model`.
//! Each accessor the decoding logic calls is a small trusted wrapper whose
//! contract says, over that model, exactly what serde_json's source shows.
//! Everything that turns a document into a domain entity is then verified
//! against those contracts.

use vstd::prelude::*;

verus! {

/// The mathematical shape of a JSON document.
pub ghost enum JsonData {
    /// JSON `null`.
    Null,
    /// A boolean.
    Bool(bool),
    /// A number representable as a signed 64-bit integer.
    Int(i64),
    /// A number not representable as a signed 64-bit integer (too large,
    /// or not an integer).
    NumOther,
    /// A string.
    Str(Seq<char>),
    /// An array.
    Arr(Seq<JsonData>),
    /// An object: a finite map from field name to field value.
    Obj(Map<Seq<char>, JsonData>),
}

#[verifier::external_type_specification]
#[verifier::external_body]
pub struct ExValue(serde_json::Value);

/// What a parsed JSON value holds.
pub uninterp spec fn json_model(v: serde_json::Value) -> JsonData;

/// What serde_json's parser yields on a given text: `None` when the text
/// is not a JSON document, else the document it denotes.
pub uninterp spec fn json_of(s: Seq<char>) -> Option<JsonData>;

/// Relies on serde_json::from_str::<Value>: the parse is a function of the
/// text alone, and the documented grammar parses the text `null` to the
/// null value.
#[verifier::external_body]
pub fn parse_json(s: &str) -> (r: Option<serde_json::Value>)
    ensures
        match r {
            Some(v) => json_of(s@) == Some(json_model(v)) && (s@ == "null"@ ==> json_model(v)
                == JsonData::Null),
            None => json_of(s@) is None && s@ != "null"@,
        },
{
    serde_json::from_str::<serde_json::Value>(s).ok()
}

/// Relies on Value::is_null: true exactly on JSON null.
#[verifier::external_body]
pub fn value_is_null(v: &serde_json::Value) -> (r: bool)
    ensures
        r == (json_model(*v) == JsonData::Null),
{
    v.is_null()
}

/// Relies on Value::is_object: true exactly on a JSON object.
#[verifier::external_body]
pub fn value_is_obj(v: &serde_json::Value) -> (r: bool)
    ensures
        r == (json_model(*v) is Obj),
{
    v.is_object()
}

/// Relies on Value::as_bool: the boolean a JSON boolean holds, `None` on
/// every other shape.
#[verifier::external_body]
pub fn value_as_bool(v: &serde_json::Value) -> (r: Option<bool>)
    ensures
        r == match json_model(*v) {
            JsonData::Bool(b) => Some(b),
            _ => None::<bool>,
        },
{
    v.as_bool()
}

/// Relies on Value::as_i64: the value of a JSON number when it is an
/// integer fitting in an `i64`, `None` otherwise.
#[verifier::external_body]
pub fn value_as_i64(v: &serde_json::Value) -> (r: Option<i64>)
    ensures
        r == match json_model(*v) {
            JsonData::Int(i) => Some(i),
            _ => None::<i64>,
        },
{
    v.as_i64()
}

/// Relies on Value::as_str: the contents of a JSON string, `None` on every
/// other shape.
#[verifier::external_body]
pub fn value_as_str<'a>(v: &'a serde_json::Value) -> (r: Option<&'a str>)
    ensures
        r is Some <==> json_model(*v) is Str,
        r matches Some(s) ==> json_model(*v) == JsonData::Str(s@),
{
    v.as_str()
}

/// Relies on Value::get with a string index: on an object, the field under
/// the key if present; `None` on a missing key or any other shape.
#[verifier::external_body]
pub fn value_get<'a>(v: &'a serde_json::Value, key: &str) -> (r: Option<&'a serde_json::Value>)
    ensures
        match json_model(*v) {
            JsonData::Obj(m) => (r is Some <==> m.contains_key(key@)) && (r matches Some(f)
                ==> m.contains_key(key@) && json_model(*f) == m[key@]),
            _ => r is None,
        },
{
    v.get(key)
}

/// Relies on Value::as_array: the elements of a JSON array, `None` on
/// every other shape.
#[verifier::external_body]
pub fn value_as_array<'a>(v: &'a serde_json::Value) -> (r: Option<&'a Vec<serde_json::Value>>)
    ensures
        r is Some <==> json_model(*v) is Arr,
        r matches Some(a) ==> json_model(*v) matches JsonData::Arr(items) && a@.len()
            == items.len() && (forall|i: int|
            0 <= i < items.len() ==> json_model(#[trigger] a@[i]) == items[i]),
{
    v.as_array()
}

// ---------------------------------------------------------------------------
// Reading fields out of an object, with the meaning each read has over the
// model.
// ---------------------------------------------------------------------------

/// A required integer field: present and an integer, else nothing.
pub open spec fn field_i64(m: Map<Seq<char>, JsonData>, k: Seq<char>) -> Option<i64> {
    if m.contains_key(k) {
        match m[k] {
            JsonData::Int(i) => Some(i),
            _ => None,
        }
    } else {
        None
    }
}

/// A required string field: present and a string, else nothing.
pub open spec fn field_str(m: Map<Seq<char>, JsonData>, k: Seq<char>) -> Option<Seq<char>> {
    if m.contains_key(k) {
        match m[k] {
            JsonData::Str(s) => Some(s),
            _ => None,
        }
    } else {
        None
    }
}

/// A required boolean field: present and a boolean, else nothing.
pub open spec fn field_bool(m: Map<Seq<char>, JsonData>, k: Seq<char>) -> Option<bool> {
    if m.contains_key(k) {
        match m[k] {
            JsonData::Bool(b) => Some(b),
            _ => None,
        }
    } else {
        None
    }
}

/// An optional integer field: absent or null reads as "no value"; present
/// with any other non-integer shape is a type error.
pub open spec fn opt_field_i64(m: Map<Seq<char>, JsonData>, k: Seq<char>) -> Option<Option<i64>> {
    if !m.contains_key(k) || m[k] == JsonData::Null {
        Some(None)
    } else {
        match m[k] {
            JsonData::Int(i) => Some(Some(i)),
            _ => None,
        }
    }
}

/// An optional string field: absent or null reads as "no value"; present
/// with any other non-string shape is a type error.
pub open spec fn opt_field_str(m: Map<Seq<char>, JsonData>, k: Seq<char>) -> Option<
    Option<Seq<char>>,
> {
    if !m.contains_key(k) || m[k] == JsonData::Null {
        Some(None)
    } else {
        match m[k] {
            JsonData::Str(s) => Some(Some(s)),
            _ => None,
        }
    }
}

/// Read a required integer field of the object `v`.
pub fn get_i64(v: &serde_json::Value, key: &str) -> (r: Option<i64>)
    requires
        json_model(*v) is Obj,
    ensures
        r == field_i64(json_model(*v)->Obj_0, key@),
{
    match value_get(v, key) {
        None => None,
        Some(f) => value_as_i64(f),
    }
}

/// Read a required string field of the object `v`.
pub fn get_string(v: &serde_json::Value, key: &str) -> (r: Option<String>)
    requires
        json_model(*v) is Obj,
    ensures
        r matches Some(s) ==> field_str(json_model(*v)->Obj_0, key@) == Some(s@),
        r is None ==> field_str(json_model(*v)->Obj_0, key@) is None,
{
    match value_get(v, key) {
        None => None,
        Some(f) => match value_as_str(f) {
            None => None,
            Some(s) => Some(s.to_owned()),
        },
    }
}

/// Read a required boolean field of the object `v`.
pub fn get_bool(v: &serde_json::Value, key: &str) -> (r: Option<bool>)
    requires
        json_model(*v) is Obj,
    ensures
        r == field_bool(json_model(*v)->Obj_0, key@),
{
    match value_get(v, key) {
        None => None,
        Some(f) => value_as_bool(f),
    }
}

/// Read an optional integer field of the object `v`.
pub fn get_opt_i64(v: &serde_json::Value, key: &str) -> (r: Option<Option<i64>>)
    requires
        json_model(*v) is Obj,
    ensures
        r == opt_field_i64(json_model(*v)->Obj_0, key@),
{
    match value_get(v, key) {
        None => Some(None),
        Some(f) => {
            if value_is_null(f) {
                Some(None)
            } else {
                match value_as_i64(f) {
                    None => None,
                    Some(i) => Some(Some(i)),
                }
            }
        },
    }
}

/// Read an optional string field of the object `v`.
pub fn get_opt_string(v: &serde_json::Value, key: &str) -> (r: Option<Option<String>>)
    requires
        json_model(*v) is Obj,
    ensures
        match r {
            Some(Some(s)) => opt_field_str(json_model(*v)->Obj_0, key@) == Some(Some(s@)),
            Some(None) => opt_field_str(json_model(*v)->Obj_0, key@) == Some(
                None::<Seq<char>>,
            ),
            None => opt_field_str(json_model(*v)->Obj_0, key@) is None,
        },
{
    match value_get(v, key) {
        None => Some(None),
        Some(f) => {
            if value_is_null(f) {
                Some(None)
            } else {
                match value_as_str(f) {
                    None => None,
                    Some(s) => Some(Some(s.to_owned())),
                }
            }
        },
    }
}

} // verus!
