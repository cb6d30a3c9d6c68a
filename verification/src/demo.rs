//! The two demonstration round trips that the service offers over HTTP: hash
//! a password and check it, issue a token and verify it. Each returns plain
//! values for the caller to put into a response.

use crate::clock::unix_now;
use crate::jwt::{create_token, verify_token_when, Claims, TokenError, SECONDS_PER_HOUR};
use crate::password::{bcrypt_verdict, hash_of, hash_password, verify_password, HashingError};
use vstd::prelude::*;

verus! {

/// The password that is hashed where the request names none.
pub open spec fn default_password() -> Seq<char> {
    "default_password"@
}

/// What introduces the message of a failed hashing.
pub open spec fn hash_failure_prefix() -> Seq<char> {
    "Failed to hash password: "@
}

/// What introduces the message of a failed issuing.
pub open spec fn create_failure_prefix() -> Seq<char> {
    "Failed to create token: "@
}

/// What introduces the message of a failed verification.
pub open spec fn verify_failure_prefix() -> Seq<char> {
    "Failed to verify token: "@
}

/// What is said of a lifetime that ends after the last second a `u64` holds.
pub open spec fn lifetime_overflow_text() -> Seq<char> {
    "expiry time out of range"@
}

/// What is said where the system clock cannot be read.
pub open spec fn clock_failure_text() -> Seq<char> {
    "system clock unavailable"@
}

/// The outcome of the password round trip.
#[derive(Debug)]
pub enum PasswordDemo {
    /// The password was hashed; `verified` tells whether the hash accepted it.
    Hashed { password: String, hashed: String, verified: bool },
    /// The password could not be hashed.
    Failed { error: String },
}

/// The outcome of the token round trip.
#[derive(Debug)]
pub enum TokenDemo {
    /// The token was issued and verified; `claims` are those read back.
    Issued { token: String, claims: Claims },
    /// The token could not be issued, or was refused.
    Failed { error: String },
}

/// The second half of the password round trip: given the password and what
/// hashing it gave, checks the password against the hash. A check that fails
/// with an error counts as not verified.
pub fn password_checked(password: String, hashed: Result<String, HashingError>) -> (r: PasswordDemo)
    ensures
        match hashed {
            Ok(hash) => r matches PasswordDemo::Hashed { password: used, hashed: kept, verified }
                && used@ == password@ && kept@ == hash@ && verified == (bcrypt_verdict(
                password@,
                hash@,
            ) == Ok::<bool, HashingError>(true)),
            Err(cause) => r matches PasswordDemo::Failed { error } && error@
                == hash_failure_prefix() + cause.message_text(),
        },
{
    match hashed {
        Ok(hash) => {
            let verified = match verify_password(password.as_str(), hash.as_str()) {
                Ok(matched) => matched,
                Err(_) => false,
            };
            PasswordDemo::Hashed { password, hashed: hash, verified }
        },
        Err(cause) => {
            let message = cause.message();
            let error = String::from_str("Failed to hash password: ").concat(message.as_str());
            PasswordDemo::Failed { error }
        },
    }
}

/// Hashes the password of the request, or the default password where the
/// request names none, and checks it against the hash.
///
/// The salt is random, so the hash is not fixed; whichever it is, the
/// password verifies against it. The round trip fails only where the system
/// gives no random bytes for the salt.
pub fn password_demo(password: Option<&str>) -> (r: PasswordDemo)
    ensures
        match r {
            PasswordDemo::Hashed { password: used, hashed, verified } => {
                &&& used@ == match password {
                    Some(text) => text@,
                    None => default_password(),
                }
                &&& verified
                &&& hash_of(used@, hashed@)
            },
            PasswordDemo::Failed { error } => error@ == hash_failure_prefix()
                + HashingError::Rand.message_text(),
        },
{
    let chosen = match password {
        Some(text) => text,
        None => "default_password",
    };
    let hashed = hash_password(chosen);
    password_checked(String::from_str(chosen), hashed)
}

/// Whether the outcome is the failure with the given message.
pub open spec fn failed_with(outcome: TokenDemo, message: Seq<char>) -> bool {
    outcome matches TokenDemo::Failed { error } && error@ == message
}

/// Whether `outcome` is what the token round trip comes to, when the clock
/// gives `issued` for the moment of issue and `checked` for the moment of
/// verification, each `None` where the clock could not be read.
///
/// The round trip fails where the clock cannot be read, where the expiry
/// time does not fit in a `u64`, and where the token has expired by the
/// moment of verification; otherwise it succeeds, and returns the token
/// with the claims written.
pub open spec fn token_round_trip(
    outcome: TokenDemo,
    secret: Seq<char>,
    issued: Option<u64>,
    checked: Option<u64>,
) -> bool {
    match issued {
        None => failed_with(outcome, create_failure_prefix() + clock_failure_text()),
        Some(issued_at) => match Claims::dated(1, 1, "Viewer"@, 12, issued_at) {
            None => failed_with(outcome, create_failure_prefix() + lifetime_overflow_text()),
            Some(written) => match checked {
                None => failed_with(
                    outcome,
                    verify_failure_prefix() + TokenError::ClockUnavailable.message_text(),
                ),
                Some(checked_at) => if written.exp <= checked_at {
                    failed_with(
                        outcome,
                        verify_failure_prefix() + TokenError::Expired.message_text(),
                    )
                } else {
                    outcome matches TokenDemo::Issued { token, claims } && token@ == crate::jwt::issued(
                        written,
                        secret,
                    ) && claims@ == written
                },
            },
        },
    }
}

/// Issues a token for the demonstration claims (user 1 of tenant 1, role
/// `Viewer`, twelve hours) and verifies it, given what the clock gave at
/// issue and at verification, and returns the token with the claims read
/// back.
pub fn token_demo_when(secret: &str, issued: Option<u64>, checked: Option<u64>) -> (r: TokenDemo)
    ensures
        token_round_trip(r, secret@, issued, checked),
{
    let issued_at = match issued {
        Some(now) => now,
        None => {
            let error = String::from_str("Failed to create token: ").concat(
                "system clock unavailable",
            );
            return TokenDemo::Failed { error };
        },
    };
    let written = match Claims::issued_at(1, 1, String::from_str("Viewer"), 12, issued_at) {
        Some(claims) => claims,
        None => {
            let error = String::from_str("Failed to create token: ").concat(
                "expiry time out of range",
            );
            return TokenDemo::Failed { error };
        },
    };
    match create_token(&written, secret) {
        Ok(token) => match verify_token_when(token.as_str(), secret, checked) {
            Ok(claims) => TokenDemo::Issued { token, claims },
            Err(cause) => {
                let message = cause.message();
                let error = String::from_str("Failed to verify token: ").concat(message.as_str());
                TokenDemo::Failed { error }
            },
        },
        Err(cause) => {
            let message = cause.message();
            let error = String::from_str("Failed to create token: ").concat(message.as_str());
            TokenDemo::Failed { error }
        },
    }
}

/// Issues a token for the demonstration claims at the moment `issued_at`
/// and verifies it at the moment `checked_at`.
///
/// It succeeds exactly when the expiry time, twelve hours after
/// `issued_at`, fits in a `u64` and lies after `checked_at`.
pub fn token_demo_at(secret: &str, issued_at: u64, checked_at: u64) -> (r: TokenDemo)
    ensures
        token_round_trip(r, secret@, Some(issued_at), Some(checked_at)),
        r is Issued <==> issued_at + 12 * SECONDS_PER_HOUR <= u64::MAX && checked_at < issued_at + 12
            * SECONDS_PER_HOUR,
{
    token_demo_when(secret, Some(issued_at), Some(checked_at))
}

/// Issues the demonstration token now, by the system clock, and verifies it
/// at once.
///
/// The clock is read twice. Whatever it gives, the result is what
/// `token_demo_when` makes of the two readings; claims that come back are
/// the demonstration claims, with twelve hours between issue and expiry.
pub fn token_demo(secret: &str) -> (r: TokenDemo)
    ensures
        exists|issued: Option<u64>, checked: Option<u64>| #[trigger]
            token_round_trip(r, secret@, issued, checked),
        r matches TokenDemo::Issued { token, claims } ==> {
            &&& claims.user_id == 1
            &&& claims.tenant_id == 1
            &&& claims.role@ == "Viewer"@
            &&& claims.exp - claims.iat == 12 * SECONDS_PER_HOUR
            &&& token@ == crate::jwt::issued(claims@, secret@)
        },
{
    let issued = unix_now();
    let checked = unix_now();
    token_demo_when(secret, issued, checked)
}

} // verus!
