//! Decoded JSON documents, as far as the reporter reads them.
//!
//! Decoding is done by `serde_json`. A decoded document is carried around as
//! an opaque `serde_json::Value`; the reporter reads only those members of
//! the top-level object that hold a string.

use vstd::prelude::*;

verus! {

#[verifier::external_type_specification]
#[verifier::external_body]
pub struct ExJsonValue(serde_json::Value);

/// The string members of a decoded document: where the document is an object,
/// each of its members whose value is a string, by name; empty for a document
/// of any other kind.
pub uninterp spec fn text_members(doc: serde_json::Value) -> Map<Seq<char>, Seq<char>>;

/// What decoding the bytes `body` as one JSON document gives: the string
/// members of the decoded document, or the decoder's message where the bytes
/// are not one well-formed JSON document.
pub uninterp spec fn json_decoding(body: Seq<u8>) -> Result<Map<Seq<char>, Seq<char>>, Seq<char>>;

/// The member named `key` among `members`, if there is one.
pub open spec fn member(members: Map<Seq<char>, Seq<char>>, key: Seq<char>) -> Option<Seq<char>> {
    if members.contains_key(key) {
        Some(members[key])
    } else {
        None
    }
}

/// The view of an optional string.
pub open spec fn text_view(text: Option<String>) -> Option<Seq<char>> {
    match text {
        Some(held) => Some(held@),
        None => None,
    }
}

/// Decodes `body` as one JSON document.
///
/// Trusted: calls `serde_json::from_slice` for a `serde_json::Value` and turns
/// a decoding error into its display text. The result depends on the bytes
/// alone; the contract names it `json_decoding` and ties the string members
/// of the returned document to that name.
#[verifier::external_body]
pub(crate) fn decode_document(body: &[u8]) -> (decoded: Result<serde_json::Value, String>)
    ensures
        match decoded {
            Ok(doc) => json_decoding(body@) == Ok::<Map<Seq<char>, Seq<char>>, Seq<char>>(
                text_members(doc),
            ),
            Err(reason) => json_decoding(body@) == Err::<Map<Seq<char>, Seq<char>>, Seq<char>>(
                reason@,
            ),
        },
{
    match serde_json::from_slice::<serde_json::Value>(body) {
        Ok(doc) => Ok(doc),
        Err(error) => Err(error.to_string()),
    }
}

/// The string held by the member `key` of a decoded document.
///
/// Trusted: indexes the `serde_json::Value` by `key`, which yields JSON null
/// unless the value is an object with such a member, and calls
/// `Value::as_str` on what was found, which yields the text of a JSON string
/// and nothing for any other kind of value.
#[verifier::external_body]
pub(crate) fn text_member(doc: &serde_json::Value, key: &str) -> (text: Option<String>)
    ensures
        text_view(text) == member(text_members(*doc), key@),
{
    match doc[key].as_str() {
        Some(text) => Some(text.to_owned()),
        None => None,
    }
}

} // verus!
