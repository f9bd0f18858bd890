//! Reading JSON text. The grammar is `serde_json`'s; this module turns what
//! it reads into the library's own values.

use vstd::prelude::*;
use crate::json::{Json, JsonV, Member};

verus! {

#[verifier::external_type_specification]
#[verifier::external_body]
pub struct ExValue(serde_json::Value);

/// What `serde_json::from_str` reads out of a text as a `serde_json::Value`,
/// in the library's model: nothing where the text is not one JSON value.
pub uninterp spec fn parsed(text: Seq<char>) -> Option<JsonV>;

/// Turns a `serde_json::Value` into a [`Json`], variant by variant: a
/// number that `Number::as_i128` gives as an integer becomes an `Int`, any
/// other number keeps the text that `Number` displays as, and an object's
/// fields come in the order in which its map hands them out. Nothing is
/// claimed of the result here.
#[verifier::external_body]
fn lift_value(v: serde_json::Value) -> Json {
    match v {
        serde_json::Value::Null => Json::Null,
        serde_json::Value::Bool(b) => Json::Bool(b),
        serde_json::Value::Number(n) => match n.as_i128() {
            Some(i) => Json::Int(i),
            None => Json::Real(n.to_string()),
        },
        serde_json::Value::String(s) => Json::Str(s),
        serde_json::Value::Array(items) => Json::Array(items.into_iter().map(lift_value).collect()),
        serde_json::Value::Object(fields) => Json::Object(
            fields.into_iter().map(|(name, value)| Member { name, value: lift_value(value) }).collect(),
        ),
    }
}

/// Calls `serde_json::from_str` for a `serde_json::Value`. The result is a
/// function of the text alone, which the contract names: the value read,
/// or nothing where `from_str` reports an error.
#[verifier::external_body]
fn parse_value(text: &str) -> (r: Option<Json>)
    ensures
        match r {
            Some(j) => parsed(text@) == Some(j@),
            None => parsed(text@) is None,
        },
{
    match serde_json::from_str::<serde_json::Value>(text) {
        Ok(v) => Some(lift_value(v)),
        Err(_) => None,
    }
}

/// Reads one JSON value out of a text.
pub fn parse(text: &str) -> (r: Option<Json>)
    ensures
        match r {
            Some(j) => parsed(text@) == Some(j@),
            None => parsed(text@) is None,
        },
{
    parse_value(text)
}

} // verus!
