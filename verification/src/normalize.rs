//! The response normalizer: from a raw body to the list of output units the
//! sink will write, one canonical JSON text per unit.
//!
//! Each endpoint promises a shape for the `data` field of the envelope; the
//! functions here check exactly that shape and nothing more, and pass the
//! service's values through unchanged.

use vstd::prelude::*;
use vstd::string::*;

use crate::errors::ErrorKind;
use crate::json::as_array;
use crate::json::canon_json;
use crate::json::elems_of;
use crate::json::field_of;
use crate::json::get_field;
use crate::json::json_text;
use crate::json::parse_json;
use crate::json::to_json_text;

verus! {

/// The texts of a list of output units.
pub open spec fn unit_views(units: Seq<String>) -> Seq<Seq<char>> {
    units.map_values(|u: String| u@)
}

/// The `data` field of the response envelope, when the body is valid JSON
/// and carries one.
pub open spec fn spec_envelope_data(body: Seq<char>) -> Option<Seq<char>> {
    match canon_json(body) {
        Option::None => Option::None,
        Option::Some(env) => field_of(env, "data"@),
    }
}

/// Normalizing a single-IP response: the `data` object itself is the one
/// output unit, unchanged.
pub open spec fn spec_normalize_single(body: Seq<char>) -> Result<Seq<Seq<char>>, ErrorKind> {
    match spec_envelope_data(body) {
        Option::None => Result::Err(ErrorKind::Decode),
        Option::Some(d) => Result::Ok(seq![d]),
    }
}

/// Normalizing a CIDR block response: the elements of the `reportedAddress`
/// array inside `data`, in the service's order; a missing or non-array field
/// is a schema failure.
pub open spec fn spec_normalize_block(body: Seq<char>) -> Result<Seq<Seq<char>>, ErrorKind> {
    match spec_envelope_data(body) {
        Option::None => Result::Err(ErrorKind::Decode),
        Option::Some(d) => match field_of(d, "reportedAddress"@) {
            Option::None => Result::Err(ErrorKind::Schema),
            Option::Some(ra) => match elems_of(ra) {
                Option::None => Result::Err(ErrorKind::Schema),
                Option::Some(es) => Result::Ok(es),
            },
        },
    }
}

/// Normalizing a JSON-mode blacklist response: `data` must be an array, and
/// its elements are the units, in the service's order.
pub open spec fn spec_normalize_blacklist(body: Seq<char>) -> Result<Seq<Seq<char>>, ErrorKind> {
    match spec_envelope_data(body) {
        Option::None => Result::Err(ErrorKind::Decode),
        Option::Some(d) => match elems_of(d) {
            Option::None => Result::Err(ErrorKind::Schema),
            Option::Some(es) => Result::Ok(es),
        },
    }
}

/// How an executable normalizer's result realizes a specified one: the same
/// error, or units whose texts are exactly the specified ones.
pub open spec fn units_match(
    r: Result<Vec<String>, ErrorKind>,
    s: Result<Seq<Seq<char>>, ErrorKind>,
) -> bool {
    match r {
        Result::Ok(units) => s matches Ok(su) && unit_views(units@) == su,
        Result::Err(e) => s matches Err(se) && e == se,
    }
}

/// Serializes every element of a decoded array, in order.
fn texts_of(arr: &Vec<serde_json::Value>) -> (units: Vec<String>)
    ensures
        unit_views(units@) == arr@.map_values(|e: serde_json::Value| json_text(e)),
{
    let mut units: Vec<String> = Vec::new();
    let mut i: usize = 0;
    while i < arr.len()
        invariant
            i <= arr@.len(),
            units@.len() == i,
            forall|j: int| 0 <= j < i ==> units@[j]@ == json_text(arr@[j]),
        decreases arr@.len() - i,
    {
        units.push(to_json_text(&arr[i]));
        i = i + 1;
    }
    proof {
        assert(unit_views(units@) =~= arr@.map_values(|e: serde_json::Value| json_text(e)));
    }
    units
}

/// Normalizes a single-IP response body.
pub fn normalize_single(body: &str) -> (r: Result<Vec<String>, ErrorKind>)
    ensures
        units_match(r, spec_normalize_single(body@)),
{
    match parse_json(body) {
        Option::None => Result::Err(ErrorKind::Decode),
        Option::Some(v) => match get_field(&v, "data") {
            Option::None => Result::Err(ErrorKind::Decode),
            Option::Some(d) => {
                let mut units: Vec<String> = Vec::new();
                units.push(to_json_text(d));
                proof {
                    assert(unit_views(units@) =~= seq![json_text(*d)]);
                }
                Result::Ok(units)
            },
        },
    }
}

/// Normalizes a CIDR block response body.
pub fn normalize_block(body: &str) -> (r: Result<Vec<String>, ErrorKind>)
    ensures
        units_match(r, spec_normalize_block(body@)),
{
    match parse_json(body) {
        Option::None => Result::Err(ErrorKind::Decode),
        Option::Some(v) => match get_field(&v, "data") {
            Option::None => Result::Err(ErrorKind::Decode),
            Option::Some(d) => match get_field(d, "reportedAddress") {
                Option::None => Result::Err(ErrorKind::Schema),
                Option::Some(ra) => match as_array(ra) {
                    Option::None => Result::Err(ErrorKind::Schema),
                    Option::Some(arr) => Result::Ok(texts_of(arr)),
                },
            },
        },
    }
}

/// Normalizes a JSON-mode blacklist response body.
pub fn normalize_blacklist(body: &str) -> (r: Result<Vec<String>, ErrorKind>)
    ensures
        units_match(r, spec_normalize_blacklist(body@)),
{
    match parse_json(body) {
        Option::None => Result::Err(ErrorKind::Decode),
        Option::Some(v) => match get_field(&v, "data") {
            Option::None => Result::Err(ErrorKind::Decode),
            Option::Some(d) => match as_array(d) {
                Option::None => Result::Err(ErrorKind::Schema),
                Option::Some(arr) => Result::Ok(texts_of(arr)),
            },
        },
    }
}

/// A plaintext blacklist body passes through as the one output unit,
/// verbatim.
pub fn normalize_plaintext(body: &str) -> (r: Vec<String>)
    ensures
        unit_views(r@) == seq![body@],
{
    let mut units: Vec<String> = Vec::new();
    units.push(String::from_str(body));
    proof {
        assert(unit_views(units@) =~= seq![body@]);
    }
    units
}

} // verus!
