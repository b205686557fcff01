use vstd::prelude::*;

use rand::Rng;

verus! {

/// The encoded hash (algorithm, parameters, salt and digest) that Argon2 with
/// its default parameters gives for a password and a salt.
pub uninterp spec fn argon2_encoding(password: Seq<u8>, salt: Seq<u8>) -> Seq<char>;

/// Whether a password matches an encoded Argon2 hash; `None` where the
/// encoded hash cannot be decoded.
pub uninterp spec fn argon2_verdict(encoded: Seq<char>, password: Seq<u8>) -> Option<bool>;

/// Number of random salt bytes drawn for each hash.
pub const SALT_LEN: usize = 32;

#[verifier::external_type_specification]
#[verifier::external_body]
pub struct ExArgon2Error(argon2::Error);

/// Relies on rand's thread-local generator: a fresh array of 32 random bytes.
#[verifier::external_body]
fn random_salt() -> (r: [u8; 32]) {
    rand::thread_rng().gen::<[u8; 32]>()
}

/// Relies on argon2::hash_encoded with `Config::default()`: the encoded hash
/// depends on the password and the salt alone, and the call succeeds for any
/// salt of at least 8 bytes and any password of at most `u32::MAX` bytes. The
/// encoding carries the variant, version, parameters, salt and digest, so
/// argon2::verify_encoded accepts the same password against it.
#[verifier::external_body]
fn argon2_hash(password: &[u8], salt: &[u8]) -> (r: String)
    requires
        salt@.len() >= 8,
        password@.len() <= u32::MAX,
    ensures
        r@ == argon2_encoding(password@, salt@),
        argon2_verdict(r@, password@) == Some(true),
{
    argon2::hash_encoded(password, salt, &argon2::Config::default()).unwrap()
}

/// Relies on argon2::verify_encoded: decodes the parameters and salt from the
/// encoded hash, re-derives the digest and compares it in constant time.
#[verifier::external_body]
fn argon2_verify(encoded: &str, password: &[u8]) -> (r: Result<bool, argon2::Error>)
    ensures
        r is Ok <==> argon2_verdict(encoded@, password@) is Some,
        r matches Ok(b) ==> argon2_verdict(encoded@, password@) == Some(b),
{
    argon2::verify_encoded(encoded, password)
}

/// The encoded hashes that `hash_password` may return for a password: one for
/// each salt of `SALT_LEN` bytes.
pub open spec fn is_salted_hash_of(encoded: Seq<char>, password: Seq<u8>) -> bool {
    exists|salt: Seq<u8>| salt.len() == SALT_LEN && encoded == argon2_encoding(password, salt)
}

/// Hashes a password with a freshly drawn random salt; the salt and the
/// parameters are embedded in the returned string, and checking the same
/// password against it succeeds.
pub fn hash_password(password: &[u8]) -> (r: String)
    requires
        password@.len() <= u32::MAX,
    ensures
        is_salted_hash_of(r@, password@),
        password_outcome(argon2_verdict(r@, password@)) == Ok::<bool, crate::error::ApiError>(true),
{
    let salt = random_salt();
    let salt_bytes: &[u8] = salt.as_slice();
    let r = argon2_hash(password, salt_bytes);
    assert(salt_bytes@.len() == SALT_LEN);
    r
}

/// Checks a password against an encoded hash: `Ok(false)` on a mismatch,
/// `HashingError` where the encoded hash is malformed.
pub fn verify_password(hash: &str, password: &[u8]) -> (r: Result<bool, crate::error::ApiError>)
    ensures
        r == password_outcome(argon2_verdict(hash@, password@)),
{
    match argon2_verify(hash, password) {
        Ok(b) => Ok(b),
        Err(_) => Err(crate::error::ApiError::HashingError),
    }
}

/// What `verify_password` reports for a verdict of the hashing function.
pub open spec fn password_outcome(verdict: Option<bool>) -> Result<bool, crate::error::ApiError> {
    match verdict {
        Some(b) => Ok(b),
        None => Err(crate::error::ApiError::HashingError),
    }
}

} // verus!
