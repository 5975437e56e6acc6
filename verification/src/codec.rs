//! The encodings that call payloads arrive in: base64 around JSON text.
//!
//! Decoding base64, parsing JSON and writing JSON are done by the `base64`
//! and `serde_json` crates. Their results are named here, and the rest of the
//! library is proved against those names.

use crate::json::{JsonTree, JsonValue};
use vstd::prelude::*;
use vstd::string::StringSliceAdditionalSpecFns;
use vstd::utf8::encode_utf8;

verus! {

/// `serde_json::Value`, which the verifier knows by name only: values of it
/// pass between the `serde_json` parser and writer and the conversions
/// below, and nothing is read from them in verified code.
#[verifier::external_type_specification]
#[verifier::external_body]
pub struct ExJsonDocument(serde_json::Value);

/// The bytes that standard, padded base64 text stands for; `None` where the
/// text is no such encoding.
pub uninterp spec fn base64_bytes(text: Seq<char>) -> Option<Seq<u8>>;

/// The JSON value that a document of bytes holds; `None` where the bytes are
/// no single JSON document.
pub uninterp spec fn json_document(bytes: Seq<u8>) -> Option<JsonTree>;

/// The compact JSON text of a value.
pub uninterp spec fn json_text(tree: JsonTree) -> Seq<char>;

/// Calls `base64::decode`, which decodes with the standard alphabet and
/// padding. The contract only names the outcome: the bytes on success, `None`
/// on any decoding error.
#[verifier::external_body]
pub(crate) fn base64_decode(text: &str) -> (r: Option<Vec<u8>>)
    ensures
        base64_bytes(text@) == match r {
            Some(bytes) => Some(bytes@),
            None => None,
        },
{
    base64::decode(text).ok()
}

/// Turns a `serde_json::Value` into a `JsonValue`, variant by variant: a
/// number becomes the text `serde_json` writes for it, an object its entries
/// in the order `serde_json` keeps them, which is sorted by key. Nothing is
/// claimed of the result here; `parse_json` names it.
#[verifier::external_body]
fn from_document(v: &serde_json::Value) -> JsonValue {
    match v {
        serde_json::Value::Null => JsonValue::Null,
        serde_json::Value::Bool(b) => JsonValue::Boolean(*b),
        serde_json::Value::Number(n) => JsonValue::Number(n.to_string()),
        serde_json::Value::String(s) => JsonValue::Text(s.clone()),
        serde_json::Value::Array(a) => JsonValue::Array(a.iter().map(from_document).collect()),
        serde_json::Value::Object(m) => JsonValue::Object(
            m.iter().map(|(k, x)| (k.clone(), from_document(x))).collect(),
        ),
    }
}

/// Turns a `JsonValue` into a `serde_json::Value`, variant by variant: the
/// text of a number is read back by `serde_json::from_str` and becomes `null`
/// where it is no JSON number, and of entries with the same key the last
/// stays. Nothing is claimed of the result here; `render_json` names what is
/// written from it.
#[verifier::external_body]
fn to_document(v: &JsonValue) -> serde_json::Value {
    match v {
        JsonValue::Null => serde_json::Value::Null,
        JsonValue::Boolean(b) => serde_json::Value::Bool(*b),
        JsonValue::Number(n) => serde_json::from_str::<serde_json::Number>(n).map_or(
            serde_json::Value::Null,
            serde_json::Value::Number,
        ),
        JsonValue::Text(s) => serde_json::Value::String(s.clone()),
        JsonValue::Array(a) => serde_json::Value::Array(a.iter().map(to_document).collect()),
        JsonValue::Object(m) => serde_json::Value::Object(
            m.iter().map(|(k, x)| (k.clone(), to_document(x))).collect(),
        ),
    }
}

/// Calls `serde_json::from_slice` for a `serde_json::Value` and converts
/// what it returns. The contract only names the outcome, which depends on
/// the bytes alone: the value on success, `None` on any parse error.
#[verifier::external_body]
pub(crate) fn parse_json(bytes: &[u8]) -> (r: Option<JsonValue>)
    ensures
        json_document(bytes@) == match r {
            Some(v) => Some(v@),
            None => None,
        },
{
    match serde_json::from_slice::<serde_json::Value>(bytes) {
        Ok(v) => Some(from_document(&v)),
        Err(_) => None,
    }
}

/// Calls `to_string` on the `serde_json::Value` that `v` converts to, which
/// writes compact JSON text. The contract only names that text, which
/// depends on the content of `v` alone.
#[verifier::external_body]
pub(crate) fn render_json(v: &JsonValue) -> (r: String)
    ensures
        r@ == json_text(v@),
{
    to_document(v).to_string()
}

/// What a payload that did not decode is replaced by: the empty string.
pub open spec fn undecoded() -> JsonTree {
    JsonTree::Text(Seq::empty())
}

/// The value a parse attempt stands for: what was parsed, or the
/// replacement for an undecoded payload.
pub open spec fn parsed_or_undecoded(parsed: Option<JsonTree>) -> JsonTree {
    match parsed {
        Some(tree) => tree,
        None => undecoded(),
    }
}

/// The arguments that a base64 payload holds: the JSON document in its
/// bytes, or the replacement where either layer fails to decode.
pub open spec fn decoded(raw: Seq<char>) -> JsonTree {
    match base64_bytes(raw) {
        Some(bytes) => parsed_or_undecoded(json_document(bytes)),
        None => undecoded(),
    }
}

/// Keeps a parsed value and replaces a failed parse by the empty string.
pub fn value_or_undecoded(parsed: Option<JsonValue>) -> (r: JsonValue)
    ensures
        r@ == parsed_or_undecoded(
            match parsed {
                Some(v) => Some(v@),
                None => None,
            },
        ),
{
    match parsed {
        Some(v) => v,
        None => JsonValue::Text(String::new()),
    }
}

/// Decodes the arguments of a call: base64 text around a JSON document.
///
/// Never fails: a payload that is not base64, or whose bytes are no JSON
/// document, gives the empty string.
pub fn decode(raw: &str) -> (r: JsonValue)
    ensures
        r@ == decoded(raw@),
        base64_bytes(raw@) is None ==> r@ == undecoded(),
        base64_bytes(raw@) matches Some(bytes) ==> (json_document(bytes) is None ==> r@
            == undecoded()),
        base64_bytes(raw@) matches Some(bytes) ==> (json_document(bytes) matches Some(tree)
            ==> r@ == tree),
{
    match base64_decode(raw) {
        Some(bytes) => value_or_undecoded(parse_json(bytes.as_slice())),
        None => value_or_undecoded(None),
    }
}

/// The JSON value that a document of text holds: that of its UTF-8 bytes.
pub open spec fn text_document(text: Seq<char>) -> Option<JsonTree> {
    json_document(encode_utf8(text))
}

/// Parses a JSON document held in text.
pub fn parse_text(text: &str) -> (r: Option<JsonValue>)
    ensures
        text_document(text@) == match r {
            Some(v) => Some(v@),
            None => None,
        },
{
    parse_json(text.as_bytes())
}

} // verus!
