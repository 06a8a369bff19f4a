//! The outside collaborators the engine leans on: the credential hasher,
//! the random identifier source, and the clock.  Each is reached through
//! one trusted wrapper; everything downstream of their results is
//! verified for every value they could hand back.

use vstd::prelude::*;
use sha2::Digest;
use sha2::Sha256;

verus! {

/// The salted credential digest: what hashing a password together with
/// a salt yields, rendered as hex.  It depends on the two strings alone.
pub uninterp spec fn pw_digest(password: Seq<char>, salt: Seq<char>) -> Seq<char>;

/// Relies on sha2::Sha256 (update, finalize): the digest of the password
/// followed by the salt, a deterministic function of those two strings,
/// rendered as 32 bytes in lowercase hex — 64 characters.
#[verifier::external_body]
pub(crate) fn hash_password(password: &str, salt: &str) -> (r: String)
    ensures
        r@ == pw_digest(password@, salt@),
        r@.len() == 64,
{
    let mut hasher = Sha256::new();
    hasher.update(password);
    hasher.update(salt);
    format!("{:x}", hasher.finalize())
}

/// Relies on uuid::Uuid::new_v4 and its hyphenated Display form: a
/// random identifier, always rendered as 36 characters.  Two calls are
/// unrelated; every outcome is possible each time.
#[verifier::external_body]
pub(crate) fn fresh_uuid() -> (r: String)
    ensures
        r@.len() == 36,
{
    uuid::Uuid::new_v4().to_string()
}

/// Relies on chrono::Utc::now: the wall clock, in whole seconds since
/// the epoch.  Nothing is promised of the value; callers must hold for
/// every reading.
#[verifier::external_body]
pub(crate) fn now_secs() -> u64 {
    chrono::Utc::now().timestamp() as u64
}

} // verus!
