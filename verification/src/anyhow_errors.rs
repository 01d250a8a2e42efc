//! Bridging plain string errors into `anyhow`'s error type, for callers that
//! collect the engine's collaborator errors into one causal chain.

use vstd::prelude::*;

verus! {

#[verifier::external_type_specification]
#[verifier::external_body]
pub struct ExAnyhowError(anyhow::Error);

/// Relies on `anyhow::Error::msg`: wraps an owned string as an `anyhow`
/// error whose display text is that string.
#[verifier::external_body]
fn anyhow_msg(e: String) -> anyhow::Error {
    anyhow::Error::msg(e)
}

/// Turns a plain string error into an `anyhow` error carrying it as the
/// message.
pub fn anyhow_from_string(e: String) -> anyhow::Error {
    anyhow_msg(e)
}

} // verus!
