use vstd::prelude::*;

verus! {

#[verifier::external_type_specification]
#[verifier::external_body]
pub struct ExBcryptError(bcrypt::BcryptError);

/// The work factor of every hash that this service stores.
pub const DEFAULT_COST: u32 = 12;

/// The hash string that bcrypt derives from a password, a work factor and a
/// 16-byte salt. It depends on nothing else.
pub uninterp spec fn bcrypt_digest(password: Seq<char>, cost: u32, salt: Seq<u8>) -> Seq<char>;

/// What bcrypt answers when asked whether a password belongs to a hash
/// string: `Some(true)` or `Some(false)`, or `None` where it cannot read the
/// hash string.
pub uninterp spec fn bcrypt_verdict(password: Seq<char>, hash: Seq<char>) -> Option<bool>;

/// A stored hash could not be read as a bcrypt hash. An internal fault of the
/// service, not an answer about the password.
#[derive(Clone, Copy, Debug, PartialEq, Eq, Structural)]
pub enum HashError {
    Malformed,
}

/// `hash` is the stored form of `password` under `salt`: bcrypt derived it at
/// the service's work factor, and accepts the password for it.
pub open spec fn is_hash_of(hash: Seq<char>, password: Seq<char>, salt: Seq<u8>) -> bool {
    &&& hash == bcrypt_digest(password, DEFAULT_COST, salt)
    &&& bcrypt_verdict(password, hash) == Some(true)
}

/// The verifier's answer for each verdict of bcrypt.
pub open spec fn check_outcome(verdict: Option<bool>) -> Result<bool, HashError> {
    match verdict {
        Some(accepted) => Ok(accepted),
        None => Err(HashError::Malformed),
    }
}

/// `bcrypt::hash_with_salt`, its parts formatted as a version 2b hash string
/// by `HashParts::format_for_version`. Trusted: the call fails exactly on a
/// work factor outside 4..=31; the string depends on the three arguments
/// alone; and `bcrypt::verify` accepts the same password for it.
#[verifier::external_body]
fn hash_with_salt(password: &str, cost: u32, salt: &[u8; 16]) -> (res: Result<
    String,
    bcrypt::BcryptError,
>)
    ensures
        res.is_ok() <==> 4 <= cost <= 31,
        res matches Ok(hash) ==> hash@ == bcrypt_digest(password@, cost, salt@),
        res matches Ok(hash) ==> bcrypt_verdict(password@, hash@) == Some(true),
{
    match bcrypt::hash_with_salt(password, cost, *salt) {
        Ok(parts) => Ok(parts.format_for_version(bcrypt::Version::TwoB)),
        Err(e) => Err(e),
    }
}

/// `bcrypt::verify`. Trusted: the answer depends on the password and the hash
/// string alone.
#[verifier::external_body]
fn verify(password: &str, hash: &str) -> (res: Result<bool, bcrypt::BcryptError>)
    ensures
        res matches Ok(accepted) ==> bcrypt_verdict(password@, hash@) == Some(accepted),
        res is Err ==> bcrypt_verdict(password@, hash@) is None,
{
    bcrypt::verify(password, hash)
}

/// Hashes a password under the service's fixed salt. The same password and
/// salt always give the same hash, so two users with one password share a
/// hash: the price of a salt that is not drawn per user.
pub fn hash_password(password: &str, salt: &[u8; 16]) -> (hash: String)
    ensures
        is_hash_of(hash@, password@, salt@),
{
    match hash_with_salt(password, DEFAULT_COST, salt) {
        Ok(hash) => hash,
        Err(_) => unreached(),
    }
}

/// Turns bcrypt's answer into the verifier's: an accepted or refused
/// password, or a hash that could not be read.
pub fn checked(answer: Result<bool, bcrypt::BcryptError>) -> (res: Result<bool, HashError>)
    ensures
        answer matches Ok(accepted) ==> res == Ok::<bool, HashError>(accepted),
        answer is Err ==> res == Err::<bool, HashError>(HashError::Malformed),
{
    match answer {
        Ok(accepted) => Ok(accepted),
        Err(_) => Err(HashError::Malformed),
    }
}

/// Checks a password against a stored hash. A wrong password is `Ok(false)`;
/// a hash that is no bcrypt hash is an error of its own and never a panic.
pub fn verify_password(text: &str, hash: &str) -> (res: Result<bool, HashError>)
    ensures
        res == check_outcome(bcrypt_verdict(text@, hash@)),
{
    checked(verify(text, hash))
}

/// Whether a password belongs to a stored hash. False for a wrong password
/// and for a hash that cannot be read.
pub fn check_hash(text: &str, hash: &str) -> (matches: bool)
    ensures
        matches == (bcrypt_verdict(text@, hash@) == Some(true)),
{
    match verify_password(text, hash) {
        Ok(accepted) => accepted,
        Err(_) => false,
    }
}

/// A password is accepted for the hash that was made from it.
pub proof fn lemma_own_hash_accepted(password: Seq<char>, salt: Seq<u8>, hash: Seq<char>)
    ensures
        is_hash_of(hash, password, salt) ==> check_outcome(bcrypt_verdict(password, hash)) == Ok::<
            bool,
            HashError,
        >(true),
{
}

/// Against the hash of one password, another password is never reported as
/// accepted, unless bcrypt itself accepts it: it reads only the first 72
/// bytes of a password, so two long passwords may share a hash.
pub proof fn lemma_other_password_refused(
    password: Seq<char>,
    other: Seq<char>,
    salt: Seq<u8>,
    hash: Seq<char>,
)
    ensures
        is_hash_of(hash, password, salt) && other != password && bcrypt_verdict(other, hash)
            != Some(true) ==> check_outcome(bcrypt_verdict(other, hash)) != Ok::<bool, HashError>(
            true,
        ),
{
}

} // verus!
