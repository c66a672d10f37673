//! A plain model of the semi-structured documents the analysis routine
//! returns.
//!
//! The bridge never interprets the `data` or `metrics` subtrees; it only
//! reads the top-level shape. A document is therefore held as a plain
//! recursive value: numbers keep the textual form the parser saw, so no
//! precision is lost on values the bridge never looks into.

use vstd::prelude::*;

verus! {

/// A semi-structured value: the tagged "any structured value" the bridge
/// carries through without interpreting.
#[derive(Debug, PartialEq)]
pub enum JsonVal {
    Null,
    Bool(bool),
    /// A number, kept in the textual form the document spelled it in.
    Num(String),
    Str(String),
    Arr(Vec<JsonVal>),
    Obj(Vec<(String, JsonVal)>),
}

/// The value under the first entry of `entries` whose key reads `key`, if
/// any.
pub open spec fn lookup(entries: Seq<(String, JsonVal)>, key: Seq<char>) -> Option<JsonVal>
    decreases entries.len(),
{
    if entries.len() == 0 {
        None
    } else if entries[0].0@ == key {
        Some(entries[0].1)
    } else {
        lookup(entries.drop_first(), key)
    }
}

/// The document that the given text parses to, if it parses.
pub uninterp spec fn parsed_doc(text: Seq<char>) -> Option<JsonVal>;

/// Declares serde_json::Value so the conversion below can take it; the
/// bridge never holds such a value itself.
#[verifier::external_type_specification]
#[verifier::external_body]
pub struct ExValue(serde_json::Value);

/// Relies on serde_json::Value: each variant is mapped to the matching
/// JsonVal variant, one arm each; numbers keep their textual form.
#[verifier::external_body]
fn value_to_json(v: serde_json::Value) -> JsonVal {
    match v {
        serde_json::Value::Null => JsonVal::Null,
        serde_json::Value::Bool(b) => JsonVal::Bool(b),
        serde_json::Value::Number(n) => JsonVal::Num(n.to_string()),
        serde_json::Value::String(s) => JsonVal::Str(s),
        serde_json::Value::Array(a) => JsonVal::Arr(a.into_iter().map(value_to_json).collect()),
        serde_json::Value::Object(m) => JsonVal::Obj(m.into_iter().map(|(k, x)| (k, value_to_json(x))).collect()),
    }
}

/// Relies on serde_json::from_str: whether the text parses, and the document
/// it parses to, depend on the text alone.
#[verifier::external_body]
pub(crate) fn parse_text(text: &str) -> (r: Result<JsonVal, String>)
    ensures
        r matches Ok(v) ==> parsed_doc(text@) == Some(v),
        r is Err ==> parsed_doc(text@) is None,
{
    match serde_json::from_str::<serde_json::Value>(text) {
        Ok(v) => Ok(value_to_json(v)),
        Err(e) => Err(e.to_string()),
    }
}

} // verus!
