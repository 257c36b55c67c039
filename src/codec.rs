use vstd::prelude::*;

verus! {

#[verifier::external_type_specification]
#[verifier::external_body]
pub struct ExBcryptError(bcrypt::BcryptError);

/// What `bcrypt::verify` answers for a password and a stored digest:
/// `Some(matches)`, or `None` where the digest cannot be decoded.
pub uninterp spec fn bcrypt_verdict(password: Seq<char>, digest: Seq<char>) -> Option<bool>;

/// The password is accepted by the digest.
pub open spec fn password_matches(password: Seq<char>, digest: Seq<char>) -> bool {
    bcrypt_verdict(password, digest) == Some(true)
}

/// A failure of the credential codec. Both kinds are internal faults, kept
/// apart from a wrong password.
#[derive(PartialEq, Eq, Structural, Clone, Copy, Debug)]
pub enum CodecError {
    /// No digest could be produced (the salt source failed).
    HashFailed,
    /// The stored digest is malformed or names an unusable cost.
    MalformedDigest,
}

/// Relies on bcrypt::hash at bcrypt's default cost: each call draws a fresh
/// random salt, and the digest it returns is one that bcrypt::verify accepts
/// for the same password.
#[verifier::external_body]
fn bcrypt_hash(password: &str) -> (r: Result<String, bcrypt::BcryptError>)
    ensures
        r is Ok ==> bcrypt_verdict(password@, r->Ok_0@) == Some(true),
{
    bcrypt::hash(password, bcrypt::DEFAULT_COST)
}

/// Relies on bcrypt::verify: the answer depends on the password and the
/// digest alone, and it is an error exactly where the digest is unusable.
#[verifier::external_body]
fn bcrypt_verify(password: &str, digest: &str) -> (r: Result<bool, bcrypt::BcryptError>)
    ensures
        match bcrypt_verdict(password@, digest@) {
            Some(b) => r matches Ok(x) && x == b,
            None => r is Err,
        },
{
    bcrypt::verify(password, digest)
}

/// Hashes a password for storage. Each call draws a fresh salt, which the
/// digest carries; every digest returned verifies against the password.
pub fn hash_password(password: &str) -> (r: Result<String, CodecError>)
    ensures
        r matches Ok(d) ==> password_matches(password@, d@),
        r matches Err(e) ==> e == CodecError::HashFailed,
{
    match bcrypt_hash(password) {
        Ok(d) => Ok(d),
        Err(_) => Err(CodecError::HashFailed),
    }
}

/// Checks a password against a stored digest. A malformed digest is an
/// error, never a match.
pub fn verify_password(password: &str, digest: &str) -> (r: Result<bool, CodecError>)
    ensures
        r == match bcrypt_verdict(password@, digest@) {
            Some(b) => Ok::<bool, CodecError>(b),
            None => Err(CodecError::MalformedDigest),
        },
{
    match bcrypt_verify(password, digest) {
        Ok(b) => Ok(b),
        Err(_) => Err(CodecError::MalformedDigest),
    }
}

} // verus!
