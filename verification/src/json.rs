//! The JSON reading and writing that `serde_json` does for this library.
//!
//! Nothing in this file is proved. Each item states what the library takes
//! on trust from `serde_json`.

use vstd::prelude::*;

verus! {

/// A parsed JSON document, `serde_json::Value`. Verified code carries it and
/// never looks inside.
#[verifier::external_type_specification]
#[verifier::external_body]
pub struct ExValue(serde_json::Value);

/// Why `serde_json` refused a text, `serde_json::Error`.
#[verifier::external_type_specification]
#[verifier::external_body]
pub struct ExError(serde_json::Error);

/// The document that `serde_json::from_str` reads from `text`; `None` where
/// it refuses the text.
pub uninterp spec fn json_document(text: Seq<char>) -> Option<serde_json::Value>;

/// The member that `serde_json::Value::get` finds in `doc` under `name`;
/// `None` where `doc` is no object or has no such member.
pub uninterp spec fn json_member(doc: serde_json::Value, name: Seq<char>) -> Option<
    serde_json::Value,
>;

/// The text that `serde_json::Value::as_str` finds in `doc`; `None` where
/// `doc` is no JSON string.
pub uninterp spec fn json_string(doc: serde_json::Value) -> Option<Seq<char>>;

/// The JSON string literal, quotes and escapes included, that
/// `serde_json::to_string` writes for `text`.
pub uninterp spec fn json_quoted(text: Seq<char>) -> Seq<char>;

/// Calls `serde_json::from_str` for a `serde_json::Value`. Taken on trust:
/// whether the call accepts a text, and the document it then returns,
/// depend on the text alone.
#[verifier::external_body]
pub(crate) fn parse_document(text: &str) -> (r: Result<serde_json::Value, serde_json::Error>)
    ensures
        match r {
            Ok(doc) => json_document(text@) == Some(doc),
            Err(_) => json_document(text@).is_none(),
        },
{
    serde_json::from_str::<serde_json::Value>(text)
}

/// Calls `serde_json::Value::get` with a member's name. Taken on trust:
/// whether a member is found, and which, depend on the document and the
/// name alone.
#[verifier::external_body]
pub(crate) fn member<'a>(doc: &'a serde_json::Value, name: &str) -> (r: Option<
    &'a serde_json::Value,
>)
    ensures
        match r {
            Some(found) => json_member(*doc, name@) == Some(*found),
            None => json_member(*doc, name@).is_none(),
        },
{
    doc.get(name)
}

/// Calls `serde_json::Value::as_str`. Taken on trust: whether a text is
/// returned, and which, depend on the document alone.
#[verifier::external_body]
pub(crate) fn string_of<'a>(doc: &'a serde_json::Value) -> (r: Option<&'a str>)
    ensures
        match r {
            Some(text) => json_string(*doc) == Some(text@),
            None => json_string(*doc).is_none(),
        },
{
    doc.as_str()
}

/// Calls `serde_json::to_string` on a `str`. Taken on trust: the call
/// succeeds (it writes into memory, and a `str` is always serialisable),
/// and what it writes depends on the text alone.
#[verifier::external_body]
pub(crate) fn quote(text: &str) -> (r: Result<String, serde_json::Error>)
    ensures
        match r {
            Ok(quoted) => quoted@ == json_quoted(text@),
            Err(_) => false,
        },
{
    serde_json::to_string(text)
}

} // verus!
