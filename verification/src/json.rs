//! Reading JSON text with `serde_json`.
//!
//! The library never looks inside a JSON document. What it needs of one is
//! whether `serde_json` accepts it, the kind of its top-level value, and the
//! compact text that `serde_json` writes for the value it read; tool results
//! carry that text.
use vstd::prelude::*;

use crate::request::{pairs_map, pairs_view};

verus! {

/// The kind of a JSON value.
#[derive(PartialEq, Eq, Structural, Clone, Copy, Debug)]
pub enum JsonKind {
    Null,
    Bool,
    Number,
    Str,
    Array,
    Object,
}

/// A JSON document that was read: its kind and the compact text of its value.
#[derive(Clone, Debug)]
pub struct JsonText {
    pub kind: JsonKind,
    pub text: String,
}

/// What `serde_json` makes of a JSON text: the kind of the value it reads and
/// the text that it writes for that value, or the message of its error.
pub uninterp spec fn serde_json_read(text: Seq<char>) -> Result<(JsonKind, Seq<char>), Seq<char>>;

/// Reads `text` with `serde_json::from_str` into a `serde_json::Value`.
/// On success, returns the kind of the value and the value's `Display` text
/// (the compact form that `serde_json::to_string` writes); on failure, the
/// `Display` text of the `serde_json::Error`. The contract only names this
/// outcome: `serde_json`'s grammar and its error texts are not restated here.
#[verifier::external_body]
pub(crate) fn read_json(text: &str) -> (r: Result<JsonText, String>)
    ensures
        serde_json_read(text@) == match r {
            Ok(j) => Ok((j.kind, j.text@)),
            Err(e) => Err(e@),
        },
{
    match serde_json::from_str::<serde_json::Value>(text) {
        Ok(v) => {
            let kind = match &v {
                serde_json::Value::Null => JsonKind::Null,
                serde_json::Value::Bool(_) => JsonKind::Bool,
                serde_json::Value::Number(_) => JsonKind::Number,
                serde_json::Value::String(_) => JsonKind::Str,
                serde_json::Value::Array(_) => JsonKind::Array,
                serde_json::Value::Object(_) => JsonKind::Object,
            };
            Ok(JsonText { kind, text: v.to_string() })
        },
        Err(e) => Err(e.to_string()),
    }
}


/// What `serde_json` makes of a credentials input: the JSON object of
/// strings it reads (a key given twice holding the value given last), or the
/// message of its error.
pub uninterp spec fn serde_json_credentials(input: Seq<u8>) -> Result<Map<Seq<char>, Seq<char>>, Seq<char>>;

/// Reads the credentials input with `serde_json::from_slice` into a
/// `HashMap<String, String>` and lists its entries; on failure, the
/// `Display` text of the `serde_json::Error`. The entries come in the map's
/// iteration order, of which nothing is claimed; each key stands once.
#[verifier::external_body]
pub(crate) fn read_credentials(input: &[u8]) -> (r: Result<Vec<(String, String)>, String>)
    ensures
        match r {
            Ok(c) => serde_json_credentials(input@) == Ok::<Map<Seq<char>, Seq<char>>, Seq<char>>(
                pairs_map(pairs_view(c@)),
            ) && forall|i: int, j: int| 0 <= i < j < c@.len() ==> c@[i].0@ != c@[j].0@,
            Err(e) => serde_json_credentials(input@) == Err::<Map<Seq<char>, Seq<char>>, Seq<char>>(e@),
        },
{
    match serde_json::from_slice::<std::collections::HashMap<String, String>>(input) {
        Ok(m) => Ok(m.into_iter().collect()),
        Err(e) => Err(e.to_string()),
    }
}

/// What `serde_json` reads as the string member `key` of the JSON text:
/// the member's string when the text is an object whose `key` member is a
/// string, and nothing otherwise.
pub uninterp spec fn json_str_member(text: Seq<char>, key: Seq<char>) -> Option<Seq<char>>;

/// Reads `text` with `serde_json::from_str` into a `serde_json::Value`, then
/// takes `Value::get(key)` when it is a `Value::String`. The contract names
/// the outcome; `serde_json`'s grammar is not restated.
#[verifier::external_body]
pub(crate) fn str_member(text: &str, key: &str) -> (r: Option<String>)
    ensures
        json_str_member(text@, key@) == match r {
            Some(s) => Some(s@),
            None => None::<Seq<char>>,
        },
{
    match serde_json::from_str::<serde_json::Value>(text) {
        Ok(v) => match v.get(key) {
            Some(serde_json::Value::String(s)) => Some(s.clone()),
            _ => None,
        },
        Err(_) => None,
    }
}

} // verus!
