//! The serializer: `serde_json`, called on the caller's text.
//!
//! Nothing in this file is proved. The contract of [`to_json_literal`] is an
//! assumption about `serde_json`, and the rest of the library is verified
//! against it.

use vstd::prelude::*;

verus! {

/// `serde_json::Error`, carried from the serializer to the place that maps it
/// to a failure of this library's own.
#[verifier::external_type_specification]
#[verifier::external_body]
pub struct ExJsonError(serde_json::Error);

/// What `serde_json::to_string` returns for the string `text`: the JSON text
/// that it writes, or `None` where it returns an error.
pub uninterp spec fn json_string_literal(text: Seq<char>) -> Option<Seq<char>>;

/// Calls `serde_json::to_string` on a string slice.
///
/// Assumed: what the call returns depends on the characters of `text` alone,
/// so it is `json_string_literal` of them, a literal or an error alike.
/// Nothing is assumed about when the call succeeds, nor about what the
/// literal looks like.
#[verifier::external_body]
pub(crate) fn to_json_literal(text: &str) -> (written: Result<String, serde_json::Error>)
    ensures
        match written {
            Ok(literal) => json_string_literal(text@) == Some(literal@),
            Err(_) => json_string_literal(text@) is None,
        },
{
    serde_json::to_string(text)
}

} // verus!
