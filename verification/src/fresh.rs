//! What each call makes anew: random ids, the time, salted password hashes.
//! Nothing is promised of these values; the rules that use them hold
//! whatever comes back.

use vstd::prelude::*;

verus! {

/// `Uuid::new_v4` of `uuid`, written out by its `Display`: a random id.
#[verifier::external_body]
pub(crate) fn fresh_id() -> String {
    uuid::Uuid::new_v4().to_string()
}

/// `Uuid::new_v4` of `uuid`, written out by `as_simple`: a random id without hyphens.
#[verifier::external_body]
pub(crate) fn fresh_simple_id() -> String {
    uuid::Uuid::new_v4().as_simple().to_string()
}

/// `Utc::now` of `chrono`, written out by `to_rfc3339`: the time of the call.
#[verifier::external_body]
pub(crate) fn timestamp_now() -> String {
    chrono::Utc::now().to_rfc3339()
}

/// `bcrypt::hash` at `bcrypt::DEFAULT_COST`: a hash of the password under a
/// random salt, or nothing where the crate reports an error.
#[verifier::external_body]
pub(crate) fn salted_hash(password: &str) -> Option<String> {
    bcrypt::hash(password, bcrypt::DEFAULT_COST).ok()
}

} // verus!
