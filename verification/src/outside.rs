use vstd::prelude::*;

verus! {

/// Whether bcrypt accepts `password` against the stored `hash` string.
///
/// This names the result of `bcrypt::verify` with errors collapsed to
/// `false`: a deterministic function of the two strings alone (the crate
/// parses the cost and salt out of `hash` and recomputes the digest).
/// Nothing more is assumed of it than what the wrappers below state.
pub uninterp spec fn bcrypt_matches(password: Seq<char>, hash: Seq<char>) -> bool;

/// Relies on `bcrypt::verify`: parsing the hash and recomputing the digest
/// depend on the two arguments alone, so the outcome is named
/// `bcrypt_matches`.  A malformed hash makes `verify` return an error,
/// which counts as a mismatch here — exactly how sign-in must treat it.
#[verifier::external_body]
pub(crate) fn bcrypt_verify(password: &String, hash: &String) -> (r: bool)
    ensures
        r == bcrypt_matches(password@, hash@),
{
    bcrypt::verify(password, hash).unwrap_or(false)
}

/// Relies on `bcrypt::hash`: with the crate's own `DEFAULT_COST` the only
/// failures are refused costs and the operating system's randomness, and a
/// produced hash verifies against the password it was made from (the salt
/// and cost are recomputed from the hash string itself).
#[verifier::external_body]
pub(crate) fn bcrypt_hash(password: &String) -> (r: Option<String>)
    ensures
        r is Some ==> bcrypt_matches(password@, r.unwrap()@),
{
    bcrypt::hash(password, bcrypt::DEFAULT_COST).ok()
}

/// Relies on `uuid::Uuid::new_v4` and its `Display` form: a random
/// version-4 identifier, rendered as the 36-character hyphenated string.
/// Nothing else — in particular not uniqueness — is assumed of it.
#[verifier::external_body]
pub(crate) fn fresh_uuid() -> (r: String)
    ensures
        r@.len() == 36,
{
    uuid::Uuid::new_v4().to_string()
}

/// Relies on `chrono::Utc::now`: the current instant in microseconds since
/// the epoch.  The clock may move any way it likes, so nothing is assumed
/// of the value.
#[verifier::external_body]
pub(crate) fn now_timestamp() -> (r: i64) {
    chrono::Utc::now().timestamp_micros()
}

} // verus!
