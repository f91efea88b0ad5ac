//! JSON, as `serde_json` reads and writes it.
//!
//! Nothing in this file is proved. It declares the two `serde_json` types
//! that pass through the library, gives names to what `serde_json` computes,
//! and wraps the three calls that the library makes. The rest of the crate is
//! verified against the contracts written here.

use vstd::prelude::*;

verus! {

/// `serde_json::Value`, a parsed JSON document. Opaque to the verifier.
#[verifier::external_type_specification]
#[verifier::external_body]
pub struct ExValue(serde_json::Value);

/// `serde_json::Error`. Opaque to the verifier.
#[verifier::external_type_specification]
#[verifier::external_body]
pub struct ExError(serde_json::Error);

/// The text members of a JSON document: for each key of a JSON object whose
/// value is a JSON string, that string. A document that is not an object has
/// no text members, and a member whose value is not a string is not among
/// them.
pub uninterp spec fn text_members(doc: serde_json::Value) -> Map<Seq<char>, Seq<char>>;

/// What `serde_json::from_slice` makes of `bytes`: `None` where it reports an
/// error, else the text members of the document that it returns.
pub uninterp spec fn json_text_members(bytes: Seq<u8>) -> Option<Map<Seq<char>, Seq<char>>>;

/// The JSON string literal that `serde_json::to_string` writes for `text`:
/// the text between double quotes, with the escapes that JSON asks for.
pub uninterp spec fn json_string_literal(text: Seq<char>) -> Seq<char>;

/// Calls `serde_json::from_slice` for a `serde_json::Value`.
///
/// Trusted: the call succeeds exactly where `json_text_members` is `Some`,
/// and the document that it returns has those text members. This says that
/// the outcome depends on the bytes alone.
#[verifier::external_body]
pub(crate) fn parse_document(bytes: &[u8]) -> (r: Result<serde_json::Value, serde_json::Error>)
    ensures
        r is Ok <==> json_text_members(bytes@) is Some,
        r matches Ok(doc) ==> json_text_members(bytes@) == Some(text_members(doc)),
{
    serde_json::from_slice::<serde_json::Value>(bytes)
}

/// Indexes a `serde_json::Value` by a key and takes the member as a string,
/// as `doc[key].as_str()` does.
///
/// Trusted: indexing yields the member of that key where the document is an
/// object that has one, and JSON `null` otherwise; `as_str` yields the text
/// where the member is a JSON string. So the result is `Some` exactly for the
/// keys of the text members, with the text that belongs to the key.
#[verifier::external_body]
pub(crate) fn text_member<'a>(doc: &'a serde_json::Value, key: &str) -> (r: Option<&'a str>)
    ensures
        r is Some <==> text_members(*doc).contains_key(key@),
        r matches Some(text) ==> text@ == text_members(*doc)[key@],
{
    doc[key].as_str()
}

/// Calls `serde_json::to_string` on a string slice.
///
/// Trusted: for a string slice the call cannot fail, since a string is
/// written into a byte vector and nothing else is serialised; what it
/// returns is the JSON string literal of the text.
#[verifier::external_body]
pub(crate) fn string_literal(text: &str) -> (r: Result<String, serde_json::Error>)
    ensures
        r is Ok,
        r matches Ok(literal) ==> literal@ == json_string_literal(text@),
{
    serde_json::to_string(text)
}

} // verus!
