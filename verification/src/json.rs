//! The trusted boundary around serde_json.
//!
//! A decoded JSON value is opaque here; everything the library states about
//! one goes through `json_text`, its canonical (compact) serialization. The
//! wrappers below each hold exactly one serde_json call; the normalizer's
//! verified logic decides on what they return.

use vstd::prelude::*;

verus! {

#[verifier::external_type_specification]
#[verifier::external_body]
pub struct ExValue(serde_json::Value);

/// The canonical JSON text of a decoded value: what serde_json's compact
/// serialization prints for it. It determines the value, so the other named
/// results below are stated over it.
pub uninterp spec fn json_text(v: serde_json::Value) -> Seq<char>;

/// What parsing a text as JSON yields, in canonical form; `None` exactly when
/// the text is not valid JSON.
pub uninterp spec fn canon_json(s: Seq<char>) -> Option<Seq<char>>;

/// The canonical text of field `key` of the value whose canonical text is
/// `obj`; `None` when that value is not an object or lacks the key.
pub uninterp spec fn field_of(obj: Seq<char>, key: Seq<char>) -> Option<Seq<char>>;

/// The canonical texts of the elements of the value whose canonical text is
/// `arr`, in order; `None` when that value is not an array.
pub uninterp spec fn elems_of(arr: Seq<char>) -> Option<Seq<Seq<char>>>;

/// Relies on serde_json::from_str::<Value>: succeeds exactly on valid JSON
/// text and decodes the value that text denotes.
#[verifier::external_body]
pub(crate) fn parse_json(s: &str) -> (r: Option<serde_json::Value>)
    ensures
        r is Some <==> canon_json(s@) is Some,
        r matches Some(v) ==> canon_json(s@) == Some(json_text(v)),
{
    serde_json::from_str::<serde_json::Value>(s).ok()
}

/// Relies on serde_json::Value::get with a string index: `Some` exactly when
/// the value is an object holding the key, and then that field's value.
#[verifier::external_body]
pub(crate) fn get_field<'a>(v: &'a serde_json::Value, key: &str) -> (r: Option<
    &'a serde_json::Value,
>)
    ensures
        r is Some <==> field_of(json_text(*v), key@) is Some,
        r matches Some(f) ==> field_of(json_text(*v), key@) == Some(json_text(*f)),
{
    v.get(key)
}

/// Relies on serde_json::Value::as_array: `Some` exactly when the value is an
/// array, and then its elements in their order.
#[verifier::external_body]
pub(crate) fn as_array<'a>(v: &'a serde_json::Value) -> (r: Option<&'a Vec<serde_json::Value>>)
    ensures
        r is Some <==> elems_of(json_text(*v)) is Some,
        r matches Some(a) ==> elems_of(json_text(*v)) == Some(
            a@.map_values(|e: serde_json::Value| json_text(e)),
        ),
{
    v.as_array()
}

/// Relies on serde_json's Display for Value: prints the compact serialization.
#[verifier::external_body]
pub(crate) fn to_json_text(v: &serde_json::Value) -> (r: String)
    ensures
        r@ == json_text(*v),
{
    v.to_string()
}

} // verus!
