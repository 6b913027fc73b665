//! The little JSON that the library writes and reads: string literals on the
//! way out, one text at a known place on the way in.

use crate::fields::text_of;
use vstd::prelude::*;

verus! {

/// The JSON string literal for a text, quotes included, as serde_json writes
/// it.
pub uninterp spec fn json_literal(text: Seq<char>) -> Seq<char>;

/// The text found in a JSON document at a JSON Pointer (RFC 6901), as
/// serde_json parses the document and resolves the pointer: `None` where the
/// document is not JSON, where nothing lies at the pointer, or where what lies
/// there is not a string.
pub uninterp spec fn json_text_at(document: Seq<char>, pointer: Seq<char>) -> Option<Seq<char>>;

/// Builds a `serde_json::Value::String` and formats it with its `Display`
/// impl. Trusted: the result is the named `json_literal`.
#[verifier::external_body]
pub(crate) fn quote(text: &str) -> (r: String)
    ensures
        r@ == json_literal(text@),
{
    serde_json::Value::String(text.to_owned()).to_string()
}

/// Calls `serde_json::from_str`, then `Value::pointer` and `Value::as_str` on
/// what it parsed. Trusted: the result is the named `json_text_at`.
#[verifier::external_body]
pub(crate) fn text_at(document: &str, pointer: &str) -> (r: Option<String>)
    ensures
        text_of(r) == json_text_at(document@, pointer@),
{
    match serde_json::from_str::<serde_json::Value>(document) {
        Ok(value) => match value.pointer(pointer) {
            Some(found) => match found.as_str() {
                Some(text) => Some(text.to_owned()),
                None => None,
            },
            None => None,
        },
        Err(_) => None,
    }
}

} // verus!
