use vstd::prelude::*;

verus! {

/// A JSON value as serde_json holds it; the library carries such values
/// through without looking inside.
#[verifier::external_type_specification]
#[verifier::external_body]
pub struct ExJsonValue(serde_json::Value);

/// What serde_json says of `text` read as one JSON document: `None` when
/// `serde_json::from_str::<serde_json::Value>` accepts it, otherwise the text
/// of the error that it reports.
pub uninterp spec fn json_rejection(text: Seq<char>) -> Option<Seq<char>>;

/// Calls `serde_json::from_str::<serde_json::Value>` on `text`.
/// Trusted: the result is `Ok` exactly when serde_json accepts the text, and
/// an `Err` carries the `Display` text of serde_json's error; both are named
/// by `json_rejection`, which depends on the text alone.
#[verifier::external_body]
pub(crate) fn check_json(text: &str) -> (r: Result<(), String>)
    ensures
        match r {
            Ok(()) => json_rejection(text@) is None,
            Err(m) => json_rejection(text@) == Some(m@),
        },
{
    match serde_json::from_str::<serde_json::Value>(text) {
        Ok(_) => Ok(()),
        Err(e) => Err(e.to_string()),
    }
}

} // verus!
