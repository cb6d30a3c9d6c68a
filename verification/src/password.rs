//! Password credentials: hashing with a random salt and a fixed work factor,
//! and verification against an encoded hash.

use bcrypt::BcryptError;
use vstd::prelude::*;

verus! {

/// Why a password could not be hashed or checked. One variant for each error
/// that `bcrypt` reports.
#[derive(Clone, Copy, Debug, PartialEq, Eq, Structural)]
pub enum HashingError {
    /// An I/O error inside the primitive.
    Io,
    /// The work factor in the hash is outside the range the primitive allows.
    CostNotAllowed,
    /// The work factor in the hash is not a number.
    InvalidCost,
    /// The hash names an algorithm version that is not supported.
    InvalidPrefix,
    /// The hash does not have the three parts of an encoded hash.
    InvalidHash,
    /// The salt in the hash does not have sixteen bytes.
    InvalidSaltLen,
    /// The salt or the digest in the hash is not valid base64.
    InvalidBase64,
    /// The system gave no random bytes for the salt.
    Rand,
}

impl HashingError {
    /// True of the errors that blame the encoded hash handed in, false of
    /// those that come from the primitive itself.
    pub open spec fn malformed_hash(self) -> bool {
        !(self is Io || self is Rand)
    }

    /// The text of `message`.
    pub open spec fn message_text(self) -> Seq<char> {
        match self {
            HashingError::Io => "I/O error"@,
            HashingError::CostNotAllowed => "cost is not allowed"@,
            HashingError::InvalidCost => "invalid cost"@,
            HashingError::InvalidPrefix => "invalid prefix"@,
            HashingError::InvalidHash => "invalid hash"@,
            HashingError::InvalidSaltLen => "invalid salt length"@,
            HashingError::InvalidBase64 => "invalid base64"@,
            HashingError::Rand => "no random bytes"@,
        }
    }

    /// Whether the error blames the encoded hash rather than the primitive.
    pub fn is_malformed_hash(&self) -> (r: bool)
        ensures
            r == self.malformed_hash(),
    {
        match self {
            HashingError::Io => false,
            HashingError::Rand => false,
            _ => true,
        }
    }

    /// A short description, free of the password and of the hash.
    pub fn message(&self) -> (r: String)
        ensures
            r@ == self.message_text(),
    {
        match self {
            HashingError::Io => String::from_str("I/O error"),
            HashingError::CostNotAllowed => String::from_str("cost is not allowed"),
            HashingError::InvalidCost => String::from_str("invalid cost"),
            HashingError::InvalidPrefix => String::from_str("invalid prefix"),
            HashingError::InvalidHash => String::from_str("invalid hash"),
            HashingError::InvalidSaltLen => String::from_str("invalid salt length"),
            HashingError::InvalidBase64 => String::from_str("invalid base64"),
            HashingError::Rand => String::from_str("no random bytes"),
        }
    }
}

/// What `bcrypt::verify` answers for a password and an encoded hash: whether
/// the digest recomputed from the password, with the salt and the work factor
/// read from the hash, equals the digest in the hash; or the error, when the
/// hash cannot be read.
pub uninterp spec fn bcrypt_verdict(password: Seq<char>, hashed: Seq<char>) -> Result<
    bool,
    HashingError,
>;

/// Whether a character belongs to the alphabet in which bcrypt writes a salt
/// and a digest: `.`, `/`, the letters and the digits.
pub open spec fn is_bcrypt64(c: char) -> bool {
    c == '.' || c == '/' || ('A' <= c <= 'Z') || ('a' <= c <= 'z') || ('0' <= c <= '9')
}

/// Whether a text has the form of a hash of version `2b` with work factor
/// 12: the fields `2b` and `12`, each led by a `$`, a third `$`, and then the
/// 22 characters of the salt and the 31 of the digest, all in bcrypt's
/// alphabet. Such a text is ASCII, sixty characters long, and holds no `$`
/// but the three that lead its fields.
pub open spec fn encoded_hash(hashed: Seq<char>) -> bool {
    &&& hashed.len() == 60
    &&& hashed.subrange(0, 7) == "$2b$12$"@
    &&& forall|i: int| 7 <= i < 60 ==> is_bcrypt64(#[trigger] hashed[i])
}

/// Whether `hashed` may come back from hashing `password`: it has the form
/// of a version `2b` hash with work factor 12, it accepts `password`, and it
/// answers for every other password too, with yes or no and never with an
/// error.
pub open spec fn hash_of(password: Seq<char>, hashed: Seq<char>) -> bool {
    &&& encoded_hash(hashed)
    &&& bcrypt_verdict(password, hashed) == Ok::<bool, HashingError>(true)
    &&& forall|other: Seq<char>| (#[trigger] bcrypt_verdict(other, hashed)) is Ok
}

/// Calls `bcrypt::hash` with `bcrypt::DEFAULT_COST`. The salt is random, so
/// nothing names the string that comes back. Assumed of every string that
/// does: it is a well-formed version `2b` hash with work factor 12, the
/// prefix `$2b$12$` and then 53 characters in bcrypt's alphabet for the salt
/// and the digest, so that `bcrypt::verify` reads it without error whatever
/// the password, and accepts the password that was hashed. Assumed of an
/// error: it is `Rand`, since the salt is all that can fail.
#[verifier::external_body]
fn bcrypt_hash(password: &str) -> (r: Result<String, HashingError>)
    ensures
        match r {
            Ok(hashed) => hash_of(password@, hashed@),
            Err(cause) => cause == HashingError::Rand,
        },
{
    match bcrypt::hash(password, bcrypt::DEFAULT_COST) {
        Ok(hashed) => Ok(hashed),
        Err(BcryptError::Io(_)) => Err(HashingError::Io),
        Err(BcryptError::CostNotAllowed(_)) => Err(HashingError::CostNotAllowed),
        Err(BcryptError::InvalidCost(_)) => Err(HashingError::InvalidCost),
        Err(BcryptError::InvalidPrefix(_)) => Err(HashingError::InvalidPrefix),
        Err(BcryptError::InvalidHash(_)) => Err(HashingError::InvalidHash),
        Err(BcryptError::InvalidSaltLen(_)) => Err(HashingError::InvalidSaltLen),
        Err(BcryptError::InvalidBase64(_)) => Err(HashingError::InvalidBase64),
        Err(BcryptError::Rand(_)) => Err(HashingError::Rand),
    }
}

/// Calls `bcrypt::verify`. Its answer depends on the two strings alone and
/// is named `bcrypt_verdict`.
#[verifier::external_body]
fn bcrypt_verify(password: &str, hashed: &str) -> (r: Result<bool, HashingError>)
    ensures
        r == bcrypt_verdict(password@, hashed@),
{
    match bcrypt::verify(password, hashed) {
        Ok(matched) => Ok(matched),
        Err(BcryptError::Io(_)) => Err(HashingError::Io),
        Err(BcryptError::CostNotAllowed(_)) => Err(HashingError::CostNotAllowed),
        Err(BcryptError::InvalidCost(_)) => Err(HashingError::InvalidCost),
        Err(BcryptError::InvalidPrefix(_)) => Err(HashingError::InvalidPrefix),
        Err(BcryptError::InvalidHash(_)) => Err(HashingError::InvalidHash),
        Err(BcryptError::InvalidSaltLen(_)) => Err(HashingError::InvalidSaltLen),
        Err(BcryptError::InvalidBase64(_)) => Err(HashingError::InvalidBase64),
        Err(BcryptError::Rand(_)) => Err(HashingError::Rand),
    }
}

/// Hashes a password with a fresh random salt and the default work factor.
///
/// No length or strength rule is applied: the empty password is hashed like
/// any other. The salt is drawn anew at each call, so the string that comes
/// back is not fixed; whichever it is, `verify_password` accepts the password
/// against it, and answers `Ok` for any other password. Hashing fails only
/// where the system gives no random bytes for the salt.
pub fn hash_password(password: &str) -> (r: Result<String, HashingError>)
    ensures
        match r {
            Ok(hashed) => hash_of(password@, hashed@),
            Err(cause) => cause == HashingError::Rand,
        },
{
    bcrypt_hash(password)
}

/// Checks a password against an encoded hash.
///
/// `Ok(true)` only when the digests are equal, `Ok(false)` when they differ,
/// and an error, never `Ok(false)`, when the hash cannot be read.
pub fn verify_password(password: &str, hash: &str) -> (r: Result<bool, HashingError>)
    ensures
        r == bcrypt_verdict(password@, hash@),
{
    bcrypt_verify(password, hash)
}

} // verus!
