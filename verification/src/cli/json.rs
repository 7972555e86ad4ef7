//! JSON text.
use vstd::prelude::*;

verus! {

/// `serde_json::Error`: why a text cannot be read as JSON, or as what it should be.
#[verifier::external_type_specification]
#[verifier::external_body]
pub struct ExJsonError(serde_json::Error);

/// What `serde_json::to_string_pretty` writes of the JSON value that `serde_json::from_str`
/// reads from a text. `None` if it reads none: the text is no JSON, or nests too deeply.
pub uninterp spec fn pretty(text: Seq<char>) -> Option<Seq<char>>;

/// Calls `serde_json::to_string_pretty` on the `serde_json::Value` in a text. The
/// result is named by `pretty`.
#[verifier::external_body]
pub(crate) fn pretty_json(text: &str) -> (r: Result<String, serde_json::Error>)
    ensures
        match r {
            Ok(json) => pretty(text@) == Some(json@),
            Err(_) => pretty(text@) is None,
        },
{
    let value: serde_json::Value = serde_json::from_str(text)?;
    serde_json::to_string_pretty(&value)
}

} // verus!
