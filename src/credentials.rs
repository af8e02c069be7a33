//! Password credentials: salted bcrypt hashes and their verification.

use vstd::prelude::*;

verus! {

#[verifier::external_type_specification]
#[verifier::external_body]
pub struct ExBcryptError(bcrypt::BcryptError);

/// What `bcrypt::verify` answers for a password and a stored hash: `None`
/// where the hash is malformed.
pub uninterp spec fn bcrypt_verdict(password: Seq<char>, hash: Seq<char>) -> Option<bool>;

/// Shape of a bcrypt hash of this library: sixty characters beginning `$2b$`.
pub open spec fn is_bcrypt_hash(h: Seq<char>) -> bool {
    h.len() == 60 && h.subrange(0, 4) == seq!['$', '2', 'b', '$']
}

/// Relies on `bcrypt::hash`: refuses a cost outside 4..=31 (and fails when the
/// OS gives no randomness); otherwise returns `$2b$`, two cost digits, `$`, 22
/// salt and 31 hash characters, a string that `bcrypt::verify` accepts for the
/// same password.
#[verifier::external_body]
fn bcrypt_hash(password: &str, cost: u32) -> (r: Result<String, bcrypt::BcryptError>)
    ensures
        cost < 4 || cost > 31 ==> r is Err,
        r matches Ok(h) ==> is_bcrypt_hash(h@) && bcrypt_verdict(password@, h@) == Some(true),
{
    bcrypt::hash(password, cost)
}

/// Relies on `bcrypt::verify`: rehashes the password with the salt and cost
/// read from `hash` and compares; fails when `hash` is malformed.
#[verifier::external_body]
fn bcrypt_verify(password: &str, hash: &str) -> (r: Result<bool, bcrypt::BcryptError>)
    ensures
        r is Err <==> bcrypt_verdict(password@, hash@) is None,
        r matches Ok(b) ==> bcrypt_verdict(password@, hash@) == Some(b),
{
    bcrypt::verify(password, hash)
}

/// Failure of a credential operation.
#[derive(Clone, Copy, Debug, PartialEq, Eq, Structural)]
pub enum CredentialError {
    /// The hash could not be computed (cost out of range, no randomness).
    HashingError,
    /// The stored hash is malformed.
    VerificationError,
}

/// One-way salted hash of `plain` at the given cost.
pub fn hash_password(plain: &str, cost: u32) -> (r: Result<String, CredentialError>)
    ensures
        cost < 4 || cost > 31 ==> r == Err::<String, CredentialError>(CredentialError::HashingError),
        r matches Err(e) ==> e == CredentialError::HashingError,
        r matches Ok(h) ==> is_bcrypt_hash(h@) && bcrypt_verdict(plain@, h@) == Some(true),
{
    match bcrypt_hash(plain, cost) {
        Ok(h) => Ok(h),
        Err(_) => Err(CredentialError::HashingError),
    }
}

/// Whether `plain` is the password that `hash` was made from.
pub fn verify_password(plain: &str, hash: &str) -> (r: Result<bool, CredentialError>)
    ensures
        r is Err <==> bcrypt_verdict(plain@, hash@) is None,
        r matches Err(e) ==> e == CredentialError::VerificationError,
        r matches Ok(b) ==> bcrypt_verdict(plain@, hash@) == Some(b),
{
    match bcrypt_verify(plain, hash) {
        Ok(b) => Ok(b),
        Err(_) => Err(CredentialError::VerificationError),
    }
}

/// A stored hash, which verifies against the plaintext it was made from,
/// never equals that plaintext unless the plaintext itself has the shape of
/// a bcrypt hash.
pub proof fn lemma_hash_hides_password(plain: Seq<char>, stored: Seq<char>)
    requires
        is_bcrypt_hash(stored),
        bcrypt_verdict(plain, stored) == Some(true),
        !is_bcrypt_hash(plain),
    ensures
        stored != plain,
{
}

} // verus!
