//! JSON values as the protocol sees them.
//!
//! Payloads (parameters, results, error data) are carried as
//! `serde_json` values that the protocol never looks into. Where the protocol
//! does look at a value, it looks only at its outermost shape, which
//! [`JsonValue`] holds as plain data.
use vstd::prelude::*;

use serde_json::Error as JsonError;

verus! {

#[verifier::external_type_specification]
#[verifier::external_body]
pub struct ExJsonValue(serde_json::Value);

#[verifier::external_type_specification]
#[verifier::external_body]
#[verifier::reject_recursive_types(K)]
#[verifier::reject_recursive_types(V)]
pub struct ExJsonMap<K, V>(serde_json::Map<K, V>);

#[verifier::external_type_specification]
#[verifier::external_body]
pub struct ExJsonNumber(serde_json::Number);

#[verifier::external_type_specification]
#[verifier::external_body]
pub struct ExJsonError(JsonError);

/// `Clone` for `serde_json::Value`, which serde_json derives: the copy is the
/// same value.
pub assume_specification[ <serde_json::Value as Clone>::clone ](v: &serde_json::Value) -> (r:
    serde_json::Value)
    ensures
        r == *v,
;

/// `Clone` for `serde_json::Map`, which copies the underlying ordered map: the
/// copy is the same map.
pub assume_specification[ <serde_json::Map<String, serde_json::Value> as Clone>::clone ](
    m: &serde_json::Map<String, serde_json::Value>,
) -> (r: serde_json::Map<String, serde_json::Value>)
    ensures
        r == *m,
;

/// `Clone` for `serde_json::Number`, which serde_json derives: the copy is the
/// same number.
pub assume_specification[ <serde_json::Number as Clone>::clone ](n: &serde_json::Number) -> (r:
    serde_json::Number)
    ensures
        r == *n,
;

/// The outermost layer of a JSON value: its kind, with the nested values
/// left as they are.
#[derive(Debug, Clone, PartialEq)]
pub enum JsonValue {
    Null,
    Bool(bool),
    Number(serde_json::Number),
    String(String),
    Array(Vec<serde_json::Value>),
    Object(serde_json::Map<String, serde_json::Value>),
}

/// One line read from the transport, after JSON parsing: not JSON at all, a
/// JSON array (a batch) with its items, or any other JSON value.
#[derive(Debug)]
pub enum ParsedLine {
    Malformed,
    Batch(Vec<serde_json::Value>),
    Single(serde_json::Value),
}

/// What `serde_json` makes of a line of text: not JSON, a JSON array with its
/// items in order, or another JSON value. The JSON grammar lies with
/// `serde_json`; the result depends on the text alone.
pub uninterp spec fn json_line(line: Seq<char>) -> ParsedLine;

/// Parses one line of text as a JSON value with `serde_json::from_str` and
/// tells an array apart from any other value. The contract claims only that
/// the outcome is a function of the text.
#[verifier::external_body]
pub(crate) fn parse_json_line(line: &str) -> (parsed: ParsedLine)
    ensures
        parsed == json_line(line@),
{
    match serde_json::from_str::<serde_json::Value>(line) {
        Err(_) => ParsedLine::Malformed,
        Ok(serde_json::Value::Array(items)) => ParsedLine::Batch(items),
        Ok(serde_json::Value::Null) => ParsedLine::Single(serde_json::Value::Null),
        Ok(serde_json::Value::Bool(b)) => ParsedLine::Single(serde_json::Value::Bool(b)),
        Ok(serde_json::Value::Number(n)) => ParsedLine::Single(serde_json::Value::Number(n)),
        Ok(serde_json::Value::String(s)) => ParsedLine::Single(serde_json::Value::String(s)),
        Ok(serde_json::Value::Object(m)) => ParsedLine::Single(serde_json::Value::Object(m)),
    }
}

} // verus!
