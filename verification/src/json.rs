//! The JSON documents that `gitquarry` prints, read and written by `serde_json`.

use vstd::prelude::*;

verus! {

/// A JSON document held by `serde_json`; carried through the library unread.
#[verifier::external_type_specification]
#[verifier::external_body]
pub struct ExJsonValue(serde_json::Value);

/// The error `serde_json` reports when text is not one JSON document.
#[verifier::external_type_specification]
#[verifier::external_body]
pub struct ExJsonError(serde_json::Error);

/// What `serde_json::from_str::<serde_json::Value>` gives for `text`: the
/// document it holds, or the error. Parsing depends on the text alone.
pub uninterp spec fn json_parse(text: Seq<char>) -> Result<serde_json::Value, serde_json::Error>;

/// The message that a `serde_json::Error` displays.
pub uninterp spec fn json_error_display(error: serde_json::Error) -> Seq<char>;

/// The text that `serde_json::to_string_pretty` writes for a value.
pub uninterp spec fn pretty_text(value: serde_json::Value) -> Seq<char>;

/// Calls `serde_json::from_str::<serde_json::Value>`. The contract claims that
/// its result is the one named by `json_parse` for the same text.
#[verifier::external_body]
pub(crate) fn parse_json(text: &str) -> (r: Result<serde_json::Value, serde_json::Error>)
    ensures
        r == json_parse(text@),
{
    serde_json::from_str(text)
}

/// Calls `ToString::to_string` on a `serde_json::Error` (its `Display`). The
/// contract claims that the message is the one named by `json_error_display`.
#[verifier::external_body]
pub(crate) fn json_error_text(error: &serde_json::Error) -> (r: String)
    ensures
        r@ == json_error_display(*error),
{
    error.to_string()
}

/// Calls `serde_json::to_string_pretty` on a value. The contract claims that it
/// succeeds (a `Value`'s map keys are strings and writing to a `Vec` cannot
/// fail, the only two ways it can fail) and that its text is the one named by
/// `pretty_text`.
#[verifier::external_body]
pub(crate) fn pretty_json(value: &serde_json::Value) -> (r: Result<String, serde_json::Error>)
    ensures
        r is Ok,
        r matches Ok(t) ==> t@ == pretty_text(*value),
{
    serde_json::to_string_pretty(value)
}

/// Calls `ToString::to_string` on a `serde_json::Value`, its compact JSON
/// text. Nothing is claimed of the text: it is only the fallback for a pretty
/// rendering that does not fail.
#[verifier::external_body]
pub(crate) fn compact_json(value: &serde_json::Value) -> String {
    value.to_string()
}

} // verus!
