//! The per-session bearer token.

use vstd::prelude::*;

verus! {

/// Relies on uuid::Uuid::new_v4 and its `Display`: a random version-4 UUID,
/// written in its hyphenated form of 36 characters.
#[verifier::external_body]
fn random_uuid_text() -> (r: String)
    ensures
        r@.len() == 36,
{
    uuid::Uuid::new_v4().to_string()
}

/// Generates a fresh random session token.
pub fn generate_token() -> (r: String)
    ensures
        r@.len() == 36,
{
    random_uuid_text()
}

} // verus!
