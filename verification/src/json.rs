//! Decoding of JSON bodies whose value is a plain integer.

use vstd::prelude::*;

verus! {

/// `serde_json::Error`, carried through as an opaque value.
#[verifier::external_type_specification]
#[verifier::external_body]
pub struct ExJsonError(serde_json::Error);

/// The height that `serde_json::from_str::<u32>` reads from `text`, or `None`
/// where it rejects the text.
pub uninterp spec fn json_u32(text: Seq<char>) -> Option<u32>;

/// Calls `serde_json::from_str::<u32>`. Trusted: the call succeeds exactly
/// where [`json_u32`] names a value, and then returns that value.
#[verifier::external_body]
pub(crate) fn parse_u32(text: &str) -> (r: Result<u32, serde_json::Error>)
    ensures
        match r {
            Ok(n) => json_u32(text@) == Some(n),
            Err(_) => json_u32(text@) is None,
        },
{
    serde_json::from_str::<u32>(text)
}

/// Renders a `serde_json::Error` through its `Display` impl. Trusted; nothing
/// is claimed of the text.
#[verifier::external_body]
pub(crate) fn error_text(e: &serde_json::Error) -> (s: String) {
    e.to_string()
}

} // verus!
