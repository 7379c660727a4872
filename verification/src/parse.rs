//! The boundary to the structured-value parser.
//!
//! Turning wire text into a keyed-value tree is the parser's job, not this
//! codec's; the codec only fixes how a parsed tree maps into its own
//! [`Json`] nodes: integer literals in the signed 64-bit range become
//! [`Json::Int`], every other numeric literal keeps its exact decimal text.

use vstd::prelude::*;

use crate::tree::{Json, JsonV};

verus! {

#[verifier::external_type_specification]
#[verifier::external_body]
pub struct ExValue(serde_json::Value);

/// Relies on `serde_json::Value`: each node of a parsed tree is mapped one
/// for one onto the matching [`Json`] node.  A number becomes `Int` when
/// `Number::as_i64` reads its literal as a signed 64-bit integer, and
/// otherwise keeps its literal text, which `Number`'s `Display` prints
/// verbatim under the `arbitrary_precision` feature.
#[verifier::external_body]
fn value_to_tree(v: serde_json::Value) -> Json {
    match v {
        serde_json::Value::Null => Json::Null,
        serde_json::Value::Bool(b) => Json::Bool(b),
        serde_json::Value::Number(n) => match n.as_i64() {
            Some(i) => Json::Int(i),
            None => Json::Num(n.to_string()),
        },
        serde_json::Value::String(s) => Json::Str(s),
        serde_json::Value::Array(a) => Json::Arr(a.into_iter().map(value_to_tree).collect()),
        serde_json::Value::Object(m) => (Json::Obj(
            m.into_iter().map(|p| (p.0, value_to_tree(p.1))).collect(),
        )),
    }
}

/// The tree a given text parses to, if it parses: what
/// `serde_json::from_str::<serde_json::Value>` returns, mapped onto this
/// codec's nodes.  The result depends on the text alone.
pub uninterp spec fn parsed_tree(s: Seq<char>) -> Option<JsonV>;

/// Relies on `serde_json::from_str::<serde_json::Value>`: whether a text
/// parses, and to which tree, is a function of the text alone.
#[verifier::external_body]
pub(crate) fn parse_frame(s: &str) -> (r: Option<Json>)
    ensures
        r matches Some(t) ==> parsed_tree(s@) == Some(t.deep_view()),
        r is None ==> parsed_tree(s@) is None,
{
    match serde_json::from_str::<serde_json::Value>(s) {
        Ok(v) => Some(value_to_tree(v)),
        Err(_) => None,
    }
}

} // verus!
