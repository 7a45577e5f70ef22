//! The JSON check applied to a fallback response's body.

use vstd::prelude::*;

verus! {

/// Whether `text` is one complete JSON document, as serde_json reads it.
pub uninterp spec fn json_document(text: Seq<char>) -> bool;

/// Relies on `serde_json::from_str::<serde_json::Value>`: it reads one JSON
/// value, allows only whitespace after it, and fails otherwise; its outcome
/// depends on the text alone.
#[verifier::external_body]
pub(crate) fn is_json_document(text: &str) -> (r: bool)
    ensures
        r == json_document(text@),
{
    serde_json::from_str::<serde_json::Value>(text).is_ok()
}

} // verus!
