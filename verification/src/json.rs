//! The boundary to serde_json: the ingest path parses serialized payloads
//! with it, and the keyed payload fields of the state are carried through
//! as opaque JSON values.
//!
//! A JSON value is abstracted by `value_rep`, the canonical text that
//! serde_json renders it to. With its default features serde_json backs
//! objects with an ordered map (keys sorted), so the rendering is one fixed
//! text per value: equal renderings mean semantically equal values, and
//! every observation below is a function of the rendering.

use vstd::prelude::*;

verus! {

#[verifier::external_type_specification]
#[verifier::external_body]
pub struct ExValue(serde_json::Value);

/// The canonical text that serde_json::to_string renders a value to; the
/// abstraction through which all contracts speak of an opaque JSON value.
pub uninterp spec fn value_rep(v: serde_json::Value) -> Seq<char>;

/// What serde_json::from_str makes of a text: the canonical rendering of the
/// value it parses to, or None where the text is not accepted as JSON.
pub uninterp spec fn json_canon(s: Seq<char>) -> Option<Seq<char>>;

/// Field lookup as serde_json::Value::get sees it, over renderings: the
/// rendering of the field's value, or None where the value is not an object
/// or has no such field.
pub uninterp spec fn rep_field(rep: Seq<char>, key: Seq<char>) -> Option<Seq<char>>;

/// String extraction as serde_json::Value::as_str sees it, over renderings:
/// the character content of a JSON string value, None for any other value.
pub uninterp spec fn rep_as_str(rep: Seq<char>) -> Option<Seq<char>>;

/// Whether a rendering is that of a JSON object, as serde_json::Value::is_object
/// sees it.
pub uninterp spec fn rep_is_object(rep: Seq<char>) -> bool;

/// Boolean extraction over renderings: only the two boolean values render to
/// the texts `true` and `false` (a JSON string renders with quotes), so this
/// is exactly what serde_json::Value::as_bool returns.
pub open spec fn rep_as_bool(rep: Seq<char>) -> Option<bool> {
    if rep == "true"@ {
        Some(true)
    } else if rep == "false"@ {
        Some(false)
    } else {
        None
    }
}

/// Relies on serde_json::from_str::<Value>: the outcome depends on the text
/// alone, and is an error exactly where `json_canon` is None.
#[verifier::external_body]
pub(crate) fn parse_json(s: &str) -> (r: Option<serde_json::Value>)
    ensures
        match r {
            Some(v) => json_canon(s@) == Some(value_rep(v)),
            None => json_canon(s@) is None,
        },
{
    match serde_json::from_str::<serde_json::Value>(s) {
        Ok(v) => Some(v),
        Err(_) => None,
    }
}

/// Relies on serde_json::Value::get with a string index: Some exactly on an
/// object with that field, and the field's value is determined by the value
/// and the key alone.
#[verifier::external_body]
pub(crate) fn get_field<'a>(v: &'a serde_json::Value, key: &str) -> (r: Option<
    &'a serde_json::Value,
>)
    ensures
        match r {
            Some(f) => rep_field(value_rep(*v), key@) == Some(value_rep(*f)),
            None => rep_field(value_rep(*v), key@) is None,
        },
{
    v.get(key)
}

/// Relies on serde_json::Value::as_bool: Some(b) exactly on the boolean value
/// b, which renders to `true` or `false` and nothing else does.
#[verifier::external_body]
pub(crate) fn value_as_bool(v: &serde_json::Value) -> (r: Option<bool>)
    ensures
        r == rep_as_bool(value_rep(*v)),
{
    v.as_bool()
}

/// Relies on serde_json::Value::as_str: Some exactly on a JSON string value,
/// handing out its character content.
#[verifier::external_body]
pub(crate) fn value_as_str<'a>(v: &'a serde_json::Value) -> (r: Option<&'a str>)
    ensures
        match r {
            Some(t) => rep_as_str(value_rep(*v)) == Some(t@),
            None => rep_as_str(value_rep(*v)) is None,
        },
{
    v.as_str()
}

/// Relies on serde_json::Value::is_object: true exactly on a JSON object.
#[verifier::external_body]
pub(crate) fn value_is_object(v: &serde_json::Value) -> (r: bool)
    ensures
        r == rep_is_object(value_rep(*v)),
{
    v.is_object()
}

/// Relies on serde_json::Value::clone: an equal value, hence the same
/// canonical rendering.
#[verifier::external_body]
pub(crate) fn clone_value(v: &serde_json::Value) -> (r: serde_json::Value)
    ensures
        value_rep(r) == value_rep(*v),
{
    v.clone()
}

/// Relies on serde_json::to_string: renders the canonical text of a value;
/// serializing a Value never fails (its maps are string-keyed and its
/// Serialize implementation reports no errors), so the unwrap cannot panic.
#[verifier::external_body]
pub(crate) fn json_text(v: &serde_json::Value) -> (r: String)
    ensures
        r@ == value_rep(*v),
{
    serde_json::to_string(v).unwrap()
}

/// Relies on serde_json::Map::new inside Value::Object: a fresh empty object,
/// which renders as `{}`.
#[verifier::external_body]
pub(crate) fn empty_object() -> (r: serde_json::Value)
    ensures
        value_rep(r) == "{}"@,
        rep_is_object(value_rep(r)),
{
    serde_json::Value::Object(serde_json::Map::new())
}

/// The canonical JSON rendering of a value, as text: the one observation a
/// caller outside the library has of an opaque payload field.
pub fn rendered(v: &serde_json::Value) -> (r: String)
    ensures
        r@ == value_rep(*v),
{
    json_text(v)
}

} // verus!
