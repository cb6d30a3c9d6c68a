//! Signed, time-bounded identity tokens.
//!
//! A token is the standard three-part text: a header that names the signing
//! algorithm, the claims, and an HMAC-SHA-256 signature over both, each part
//! base64url-encoded and joined by dots. Signing and parsing are done by
//! `jsonwebtoken`; reading the claims out of the parsed payload and the rule
//! on expiry are this module's own and are verified.

use crate::clock::unix_now;
use jsonwebtoken::errors::ErrorKind;
use jsonwebtoken::{decode, encode, Algorithm, DecodingKey, EncodingKey, Header, Validation};
use vstd::prelude::*;

verus! {

/// The identity assertion that a token carries.
#[derive(Debug)]
pub struct Claims {
    /// The user that the token was issued to.
    pub user_id: i32,
    /// The tenant that scopes the user.
    pub tenant_id: i32,
    /// The name of the access level, such as `Viewer`.
    pub role: String,
    /// When the token was issued, in seconds since the Unix epoch.
    pub iat: u64,
    /// When the token expires, in seconds since the Unix epoch.
    pub exp: u64,
}

/// The mathematical value of a `Claims`.
pub struct ClaimsView {
    pub user_id: i32,
    pub tenant_id: i32,
    pub role: Seq<char>,
    pub iat: u64,
    pub exp: u64,
}

impl View for Claims {
    type V = ClaimsView;

    open spec fn view(&self) -> ClaimsView {
        ClaimsView {
            user_id: self.user_id,
            tenant_id: self.tenant_id,
            role: self.role@,
            iat: self.iat,
            exp: self.exp,
        }
    }
}

/// The number of seconds in an hour.
pub const SECONDS_PER_HOUR: u64 = 3600;

impl Claims {
    /// The claims issued at `now` for a lifetime of `expiration_hours`: they
    /// expire that many hours after `now`. There are none where that moment
    /// does not fit in a `u64`.
    pub open spec fn dated(
        user_id: i32,
        tenant_id: i32,
        role: Seq<char>,
        expiration_hours: u64,
        now: u64,
    ) -> Option<ClaimsView> {
        if now + expiration_hours * SECONDS_PER_HOUR <= u64::MAX {
            Some(
                ClaimsView {
                    user_id,
                    tenant_id,
                    role,
                    iat: now,
                    exp: (now + expiration_hours * SECONDS_PER_HOUR) as u64,
                },
            )
        } else {
            None
        }
    }

    /// The claims issued at the moment that the clock gave: those of `dated`
    /// for a reading, and none where the clock could not be read.
    pub open spec fn dated_by(
        user_id: i32,
        tenant_id: i32,
        role: Seq<char>,
        expiration_hours: u64,
        clock: Option<u64>,
    ) -> Option<ClaimsView> {
        match clock {
            Some(now) => Claims::dated(user_id, tenant_id, role, expiration_hours, now),
            None => None,
        }
    }

    /// Whether an optional `Claims` has the given optional value.
    pub open spec fn same(found: Option<Claims>, expected: Option<ClaimsView>) -> bool {
        match found {
            Some(claims) => expected == Some(claims@),
            None => expected is None,
        }
    }

    /// Claims issued at the moment `now`, given in seconds since the Unix
    /// epoch. `None` exactly when the expiry time does not fit in a `u64`.
    pub fn issued_at(
        user_id: i32,
        tenant_id: i32,
        role: String,
        expiration_hours: u64,
        now: u64,
    ) -> (r: Option<Claims>)
        ensures
            Claims::same(r, Claims::dated(user_id, tenant_id, role@, expiration_hours, now)),
            r matches Some(claims) ==> {
                &&& claims.exp - claims.iat == expiration_hours * SECONDS_PER_HOUR
                &&& expiration_hours > 0 ==> claims.exp > claims.iat
            },
    {
        match expiration_hours.checked_mul(SECONDS_PER_HOUR) {
            None => None,
            Some(lifetime) => match now.checked_add(lifetime) {
                None => None,
                Some(exp) => Some(Claims { user_id, tenant_id, role, iat: now, exp }),
            },
        }
    }

    /// Claims issued at the moment that the clock gave, in seconds since the
    /// Unix epoch, or `None` where the clock could not be read. There are no
    /// claims without a reading, nor where the expiry time does not fit in a
    /// `u64`.
    pub fn issued_when(
        user_id: i32,
        tenant_id: i32,
        role: String,
        expiration_hours: u64,
        clock: Option<u64>,
    ) -> (r: Option<Claims>)
        ensures
            Claims::same(r, Claims::dated_by(user_id, tenant_id, role@, expiration_hours, clock)),
    {
        match clock {
            Some(now) => Claims::issued_at(user_id, tenant_id, role, expiration_hours, now),
            None => None,
        }
    }

    /// Claims issued now, by the system clock, for a lifetime of
    /// `expiration_hours`.
    ///
    /// Whatever the clock gives, the result is what `issued_when` makes of
    /// it: `None` where the clock reads a moment before the Unix epoch or
    /// the expiry time does not fit in a `u64`.
    pub fn new(user_id: i32, tenant_id: i32, role: String, expiration_hours: u64) -> (r: Option<
        Claims,
    >)
        ensures
            exists|clock: Option<u64>|
                Claims::same(
                    r,
                    #[trigger] Claims::dated_by(user_id, tenant_id, role@, expiration_hours, clock),
                ),
            r matches Some(claims) ==> {
                &&& claims.user_id == user_id
                &&& claims.tenant_id == tenant_id
                &&& claims.role@ == role@
                &&& claims.exp - claims.iat == expiration_hours * SECONDS_PER_HOUR
                &&& expiration_hours > 0 ==> claims.exp > claims.iat
            },
    {
        let clock = unix_now();
        Claims::issued_when(user_id, tenant_id, role, expiration_hours, clock)
    }
}

/// Why a token could not be issued or was refused.
#[derive(Clone, Copy, Debug, PartialEq, Eq, Structural)]
pub enum TokenError {
    /// The text is not three base64url parts joined by dots.
    Malformed,
    /// The signature is not the one that the secret gives.
    InvalidSignature,
    /// The token expired at or before the moment of verification.
    Expired,
    /// The token does not hold the JSON of a `Claims`: a member is missing
    /// or of another type, or a part is no JSON at all.
    InvalidPayload,
    /// The token asks for what this verifier does not offer: another
    /// algorithm, an audience, or anything else that the parser refuses.
    Unsupported,
    /// The claims could not be written as a token. The signing primitive in
    /// use writes every claims, so `create_token` never returns this.
    Serialization,
    /// The token is well signed and holds claims, but the system clock reads
    /// a moment before the Unix epoch, so that its expiry cannot be judged.
    ClockUnavailable,
}

/// What `jsonwebtoken` reports when it refuses a token: one variant for each
/// kind of error that checking an HMAC token can end in, and `Other` for the
/// rest of its kinds.
#[derive(Clone, Copy, Debug, PartialEq, Eq, Structural)]
pub enum DecodeFault {
    /// The text does not have three parts.
    InvalidToken,
    /// The signature does not match.
    InvalidSignature,
    /// The header names another algorithm than HMAC-SHA-256.
    InvalidAlgorithm,
    /// The payload has no usable `exp`.
    MissingRequiredClaim,
    /// The payload names an audience.
    InvalidAudience,
    /// A part is not base64url.
    Base64,
    /// A part is not the JSON expected of it.
    Json,
    /// Any other kind.
    Other,
}

impl TokenError {
    /// The error that a caller sees for each fault of the parser.
    pub open spec fn of(fault: DecodeFault) -> TokenError {
        match fault {
            DecodeFault::InvalidToken | DecodeFault::Base64 => TokenError::Malformed,
            DecodeFault::InvalidSignature => TokenError::InvalidSignature,
            DecodeFault::MissingRequiredClaim | DecodeFault::Json => TokenError::InvalidPayload,
            DecodeFault::InvalidAlgorithm | DecodeFault::InvalidAudience | DecodeFault::Other =>
                TokenError::Unsupported,
        }
    }

    /// The text of `message`.
    pub open spec fn message_text(self) -> Seq<char> {
        match self {
            TokenError::Malformed => "malformed token"@,
            TokenError::InvalidSignature => "invalid signature"@,
            TokenError::Expired => "token expired"@,
            TokenError::InvalidPayload => "invalid payload"@,
            TokenError::Unsupported => "unsupported token"@,
            TokenError::Serialization => "claims cannot be serialized"@,
            TokenError::ClockUnavailable => "system clock unavailable"@,
        }
    }

    /// Groups the parser's faults into the errors that callers tell apart.
    pub fn from_fault(fault: DecodeFault) -> (r: TokenError)
        ensures
            r == TokenError::of(fault),
    {
        match fault {
            DecodeFault::InvalidToken => TokenError::Malformed,
            DecodeFault::Base64 => TokenError::Malformed,
            DecodeFault::InvalidSignature => TokenError::InvalidSignature,
            DecodeFault::MissingRequiredClaim => TokenError::InvalidPayload,
            DecodeFault::Json => TokenError::InvalidPayload,
            DecodeFault::InvalidAlgorithm => TokenError::Unsupported,
            DecodeFault::InvalidAudience => TokenError::Unsupported,
            DecodeFault::Other => TokenError::Unsupported,
        }
    }

    /// Whether the token was well signed and well formed but too old: the
    /// one refusal that a new login mends.
    pub fn is_expired(&self) -> (r: bool)
        ensures
            r == (*self == TokenError::Expired),
    {
        match self {
            TokenError::Expired => true,
            _ => false,
        }
    }

    /// A short description, free of the secret and of the token.
    pub fn message(&self) -> (r: String)
        ensures
            r@ == self.message_text(),
    {
        match self {
            TokenError::Malformed => String::from_str("malformed token"),
            TokenError::InvalidSignature => String::from_str("invalid signature"),
            TokenError::Expired => String::from_str("token expired"),
            TokenError::InvalidPayload => String::from_str("invalid payload"),
            TokenError::Unsupported => String::from_str("unsupported token"),
            TokenError::Serialization => String::from_str("claims cannot be serialized"),
            TokenError::ClockUnavailable => String::from_str("system clock unavailable"),
        }
    }
}

/// A parsed JSON value, as `serde_json` holds it.
#[verifier::external_type_specification]
#[verifier::external_body]
pub struct ExJsonValue(serde_json::Value);

/// The members of a JSON object that are integers, by key. Empty for a value
/// that is no object.
pub uninterp spec fn json_integers(value: serde_json::Value) -> Map<Seq<char>, int>;

/// The members of a JSON object that are strings, by key. Empty for a value
/// that is no object.
pub uninterp spec fn json_strings(value: serde_json::Value) -> Map<Seq<char>, Seq<char>>;

/// What the claims of a token hold, as far as this module reads them: the
/// integer members and the string members of the JSON object.
pub struct Payload {
    pub integers: Map<Seq<char>, int>,
    pub strings: Map<Seq<char>, Seq<char>>,
}

/// The payload that holds exactly the five members of a `Claims`.
pub open spec fn payload_of(claims: ClaimsView) -> Payload {
    Payload {
        integers: map![
            "user_id"@ => claims.user_id as int,
            "tenant_id"@ => claims.tenant_id as int,
            "iat"@ => claims.iat as int,
            "exp"@ => claims.exp as int,
        ],
        strings: map!["role"@ => claims.role],
    }
}

/// The payload of a parsed JSON value.
pub open spec fn payload_in(value: serde_json::Value) -> Payload {
    Payload { integers: json_integers(value), strings: json_strings(value) }
}

/// Whether `key` is an integer member of the payload within `low ..= high`.
pub open spec fn has_integer(payload: Payload, key: Seq<char>, low: int, high: int) -> bool {
    payload.integers.contains_key(key) && low <= payload.integers[key] <= high
}

/// The claims that a payload holds: it must have `user_id` and `tenant_id`
/// as integers that fit an `i32`, `iat` and `exp` as integers that fit a
/// `u64`, and `role` as a string. Other members are passed over.
pub open spec fn claims_in(payload: Payload) -> Option<ClaimsView> {
    if has_integer(payload, "user_id"@, i32::MIN as int, i32::MAX as int) && has_integer(
        payload,
        "tenant_id"@,
        i32::MIN as int,
        i32::MAX as int,
    ) && payload.strings.contains_key("role"@) && has_integer(payload, "iat"@, 0, u64::MAX as int)
        && has_integer(payload, "exp"@, 0, u64::MAX as int) {
        Some(
            ClaimsView {
                user_id: payload.integers["user_id"@] as i32,
                tenant_id: payload.integers["tenant_id"@] as i32,
                role: payload.strings["role"@],
                iat: payload.integers["iat"@] as u64,
                exp: payload.integers["exp"@] as u64,
            },
        )
    } else {
        None
    }
}

/// Reading the claims back out of the payload written for them gives the
/// same claims.
pub proof fn lemma_payload_round_trip(claims: ClaimsView)
    ensures
        claims_in(payload_of(claims)) == Some(claims),
{
    reveal_strlit("user_id");
    reveal_strlit("tenant_id");
    reveal_strlit("iat");
    reveal_strlit("exp");
    // The integer keys are four: `iat` and `exp` differ in their first
    // letter, the others in their lengths.
    assert("user_id"@.len() == 7 && "tenant_id"@.len() == 9);
    assert("iat"@.len() == 3 && "exp"@.len() == 3);
    assert("iat"@[0] != "exp"@[0]);
}

/// The token that `jsonwebtoken::encode` writes for the claims under the
/// secret, with an HMAC-SHA-256 header.
pub uninterp spec fn signed_hs256(claims: ClaimsView, secret: Seq<char>) -> Seq<char>;

/// What `jsonwebtoken::decode` finds in a token under the secret, when it
/// accepts HMAC-SHA-256 alone and leaves the expiry time unchecked: the
/// payload of a token that is well formed and well signed, or the fault.
pub uninterp spec fn decoded_hs256(token: Seq<char>, secret: Seq<char>) -> Result<
    Payload,
    DecodeFault,
>;

/// How many dots a text holds.
pub open spec fn dots(text: Seq<char>) -> nat {
    text.filter(|c: char| c == '.').len()
}

/// The fault that the number of dots alone decides: a text with fewer than
/// two does not split into three parts, and in one with more than two, all
/// before the last two is taken for the header, which holds no dot.
pub open spec fn misshapen(text: Seq<char>) -> Option<DecodeFault> {
    if dots(text) < 2 {
        Some(DecodeFault::InvalidToken)
    } else if dots(text) > 2 {
        Some(DecodeFault::Base64)
    } else {
        None
    }
}

/// Whether a character belongs to the base64url alphabet.
pub open spec fn is_base64url(c: char) -> bool {
    ('A' <= c <= 'Z') || ('a' <= c <= 'z') || ('0' <= c <= '9') || c == '-' || c == '_'
}

/// Whether a text has the shape of a token: three parts in the base64url
/// alphabet, none of them empty, joined by two dots. That no part is empty
/// is to say that the text neither starts nor ends with a dot and holds no
/// two dots side by side.
pub open spec fn three_parts(text: Seq<char>) -> bool {
    &&& dots(text) == 2
    &&& forall|i: int| 0 <= i < text.len() ==> #[trigger] text[i] == '.' || is_base64url(text[i])
    &&& text.len() > 0
    &&& text.first() != '.'
    &&& text.last() != '.'
    &&& forall|i: int| 0 <= i < text.len() - 1 ==> !(#[trigger] text[i] == '.' && text[i + 1] == '.')
}

/// Whether `token` is a token written for `claims` under `secret`: it has
/// three parts, under that secret the parser accepts it and finds the payload
/// of the claims, and under any other secret the parser either does the same
/// or refuses the token for its signature.
pub open spec fn token_of(claims: ClaimsView, secret: Seq<char>, token: Seq<char>) -> bool {
    &&& three_parts(token)
    &&& decoded_hs256(token, secret) == Ok::<Payload, DecodeFault>(payload_of(claims))
    &&& forall|other: Seq<char>|
        {
            ||| #[trigger] decoded_hs256(token, other) == Ok::<Payload, DecodeFault>(
                payload_of(claims),
            )
            ||| decoded_hs256(token, other) == Err::<Payload, DecodeFault>(
                DecodeFault::InvalidSignature,
            )
        }
}

/// Calls `jsonwebtoken::encode` on the five members of the claims, under an
/// HMAC-SHA-256 header and the secret as the key. Assumed of it: it reports
/// no error, since a header, integers and a string always serialise and an
/// HMAC takes any key; the token depends on the claims and the secret alone
/// and is named `signed_hs256`; it is the header, the payload and the
/// signature, each in base64url and none empty, joined by dots; and it is
/// well formed, so that `jsonwebtoken::decode` finds in it the payload that
/// was written wherever the signature matches, as it does under the same
/// secret, and reports a signature that does not match as nothing else.
#[verifier::external_body]
fn encode_hs256(claims: &Claims, secret: &str) -> (r: Option<String>)
    ensures
        r is Some,
        r matches Some(token) ==> token@ == signed_hs256(claims@, secret@) && token_of(
            claims@,
            secret@,
            token@,
        ),
{
    let mut payload = serde_json::Map::new();
    payload.insert("user_id".to_owned(), claims.user_id.into());
    payload.insert("tenant_id".to_owned(), claims.tenant_id.into());
    payload.insert("role".to_owned(), claims.role.as_str().into());
    payload.insert("iat".to_owned(), claims.iat.into());
    payload.insert("exp".to_owned(), claims.exp.into());
    let key = EncodingKey::from_secret(secret.as_bytes());
    encode(&Header::new(Algorithm::HS256), &payload, &key).ok()
}

/// Calls `jsonwebtoken::decode` with the secret as the key and a validation
/// that accepts HMAC-SHA-256 alone and does not look at the clock: the check
/// of the expiry time is left to `verdict_at`. The outcome then depends on
/// the token and the secret alone and is named `decoded_hs256`. Assumed of
/// it besides: a text with fewer than two dots is refused as `InvalidToken`,
/// and one with more than two as `Base64`.
#[verifier::external_body]
fn decode_hs256(token: &str, secret: &str) -> (r: Result<serde_json::Value, DecodeFault>)
    ensures
        match r {
            Ok(value) => {
                &&& decoded_hs256(token@, secret@) == Ok::<Payload, DecodeFault>(payload_in(value))
                &&& misshapen(token@) is None
            },
            Err(fault) => {
                &&& decoded_hs256(token@, secret@) == Err::<Payload, DecodeFault>(fault)
                &&& misshapen(token@) matches Some(shape) ==> fault == shape
            },
        },
{
    let mut rules = Validation::new(Algorithm::HS256);
    rules.validate_exp = false;
    match decode::<serde_json::Value>(token, &DecodingKey::from_secret(secret.as_bytes()), &rules) {
        Ok(data) => Ok(data.claims),
        Err(error) => Err(match error.kind() {
            ErrorKind::InvalidToken => DecodeFault::InvalidToken,
            ErrorKind::InvalidSignature => DecodeFault::InvalidSignature,
            ErrorKind::InvalidAlgorithm => DecodeFault::InvalidAlgorithm,
            ErrorKind::MissingRequiredClaim(_) => DecodeFault::MissingRequiredClaim,
            ErrorKind::InvalidAudience => DecodeFault::InvalidAudience,
            ErrorKind::Base64(_) => DecodeFault::Base64,
            ErrorKind::Json(_) => DecodeFault::Json,
            _ => DecodeFault::Other,
        }),
    }
}

/// Calls `serde_json::Value::get` and, on the member found,
/// `serde_json::Value::as_i64`: the member under `key` where it is an integer
/// that fits an `i64`.
#[verifier::external_body]
fn member_i64(value: &serde_json::Value, key: &str) -> (r: Option<i64>)
    ensures
        r == (if has_integer(payload_in(*value), key@, i64::MIN as int, i64::MAX as int) {
            Some(json_integers(*value)[key@] as i64)
        } else {
            None
        }),
{
    value.get(key).and_then(serde_json::Value::as_i64)
}

/// Calls `serde_json::Value::get` and, on the member found,
/// `serde_json::Value::as_u64`: the member under `key` where it is an integer
/// that fits a `u64`.
#[verifier::external_body]
fn member_u64(value: &serde_json::Value, key: &str) -> (r: Option<u64>)
    ensures
        r == (if has_integer(payload_in(*value), key@, 0, u64::MAX as int) {
            Some(json_integers(*value)[key@] as u64)
        } else {
            None
        }),
{
    value.get(key).and_then(serde_json::Value::as_u64)
}

/// Calls `serde_json::Value::get` and, on the member found,
/// `serde_json::Value::as_str`: a copy of the member under `key` where it is
/// a string.
#[verifier::external_body]
fn member_string(value: &serde_json::Value, key: &str) -> (r: Option<String>)
    ensures
        match r {
            Some(text) => json_strings(*value).contains_key(key@) && json_strings(*value)[key@]
                == text@,
            None => !json_strings(*value).contains_key(key@),
        },
{
    value.get(key).and_then(serde_json::Value::as_str).map(str::to_owned)
}

/// The member under `key` where it is an integer that fits an `i32`.
fn member_i32(value: &serde_json::Value, key: &str) -> (r: Option<i32>)
    ensures
        r == (if has_integer(payload_in(*value), key@, i32::MIN as int, i32::MAX as int) {
            Some(json_integers(*value)[key@] as i32)
        } else {
            None
        }),
{
    match member_i64(value, key) {
        Some(number) => if -2147483648 <= number && number <= 2147483647 {
            Some(number as i32)
        } else {
            None
        },
        None => None,
    }
}

impl Claims {
    /// Reads claims out of a parsed payload. `Some` exactly when the payload
    /// holds all five members with the types and ranges of a `Claims`.
    pub fn from_payload(value: &serde_json::Value) -> (r: Option<Claims>)
        ensures
            Claims::same(r, claims_in(payload_in(*value))),
    {
        let user_id = match member_i32(value, "user_id") {
            Some(number) => number,
            None => return None,
        };
        let tenant_id = match member_i32(value, "tenant_id") {
            Some(number) => number,
            None => return None,
        };
        let role = match member_string(value, "role") {
            Some(text) => text,
            None => return None,
        };
        let iat = match member_u64(value, "iat") {
            Some(number) => number,
            None => return None,
        };
        let exp = match member_u64(value, "exp") {
            Some(number) => number,
            None => return None,
        };
        Some(Claims { user_id, tenant_id, role, iat, exp })
    }
}

/// Whether a result of verification has the given value.
pub open spec fn same_verdict(
    found: Result<Claims, TokenError>,
    expected: Result<ClaimsView, TokenError>,
) -> bool {
    match found {
        Ok(claims) => expected == Ok::<ClaimsView, TokenError>(claims@),
        Err(error) => expected == Err::<ClaimsView, TokenError>(error),
    }
}

/// What verification makes of the parser's outcome, given what the clock
/// gave. A fault of the parser comes first, then a payload that holds no
/// claims, and last the expiry time: without a reading of the clock it
/// cannot be judged, and claims that expire at the reading or before are
/// refused as expired.
pub open spec fn verdict(decoded: Result<Payload, DecodeFault>, clock: Option<u64>) -> Result<
    ClaimsView,
    TokenError,
> {
    match decoded {
        Err(fault) => Err(TokenError::of(fault)),
        Ok(payload) => match claims_in(payload) {
            None => Err(TokenError::InvalidPayload),
            Some(claims) => judged(claims, clock),
        },
    }
}

/// What becomes of well-signed claims, given what the clock gave: without a
/// reading they are refused, and with one they are held against it.
pub open spec fn judged(claims: ClaimsView, clock: Option<u64>) -> Result<ClaimsView, TokenError> {
    match clock {
        Some(now) => in_time(claims, now),
        None => Err(TokenError::ClockUnavailable),
    }
}

/// What becomes of well-signed claims at the moment `now`: they are returned
/// before their expiry time, and refused as expired from then on.
pub open spec fn in_time(claims: ClaimsView, now: u64) -> Result<ClaimsView, TokenError> {
    if claims.exp <= now {
        Err(TokenError::Expired)
    } else {
        Ok(claims)
    }
}

/// The token that `create_token` returns for the claims under the secret.
pub open spec fn issued(claims: ClaimsView, secret: Seq<char>) -> Seq<char> {
    signed_hs256(claims, secret)
}

/// What verifying `token` under `secret` returns, given what the clock gave.
pub open spec fn verified_when(token: Seq<char>, secret: Seq<char>, clock: Option<u64>) -> Result<
    ClaimsView,
    TokenError,
> {
    verdict(decoded_hs256(token, secret), clock)
}

/// What verifying `token` under `secret` at the moment `now` returns.
pub open spec fn verified_at(token: Seq<char>, secret: Seq<char>, now: u64) -> Result<
    ClaimsView,
    TokenError,
> {
    verified_when(token, secret, Some(now))
}

/// The payload that the parser found, or its fault.
pub open spec fn found_in(decoded: Result<serde_json::Value, DecodeFault>) -> Result<
    Payload,
    DecodeFault,
> {
    match decoded {
        Ok(value) => Ok(payload_in(value)),
        Err(fault) => Err(fault),
    }
}

/// The verdict on what the parser made of a token, given what the clock
/// gave: the moment in seconds since the Unix epoch, or `None` where the
/// clock could not be read.
pub fn verdict_when(decoded: Result<serde_json::Value, DecodeFault>, clock: Option<u64>) -> (r:
    Result<Claims, TokenError>)
    ensures
        same_verdict(r, verdict(found_in(decoded), clock)),
{
    match decoded {
        Err(fault) => Err(TokenError::from_fault(fault)),
        Ok(value) => match Claims::from_payload(&value) {
            None => Err(TokenError::InvalidPayload),
            Some(claims) => match clock {
                None => Err(TokenError::ClockUnavailable),
                Some(now) => if claims.exp <= now {
                    Err(TokenError::Expired)
                } else {
                    Ok(claims)
                },
            },
        },
    }
}

/// The verdict at the moment `now` on what the parser made of a token.
pub fn verdict_at(decoded: Result<serde_json::Value, DecodeFault>, now: u64) -> (r: Result<
    Claims,
    TokenError,
>)
    ensures
        same_verdict(r, verdict(found_in(decoded), Some(now))),
{
    verdict_when(decoded, Some(now))
}

/// A token written for claims under a secret verifies under that secret at
/// every moment before the claims expire, and gives back the same claims.
pub proof fn lemma_token_round_trip(
    claims: ClaimsView,
    secret: Seq<char>,
    token: Seq<char>,
    now: u64,
)
    requires
        token_of(claims, secret, token),
        now < claims.exp,
    ensures
        verified_at(token, secret, now) == Ok::<ClaimsView, TokenError>(claims),
{
    lemma_payload_round_trip(claims);
}

/// A token written for claims under a secret is refused as expired, and as
/// nothing else, from the moment the claims expire: so it is for a lifetime
/// of zero hours at the very moment of issue.
pub proof fn lemma_token_expires(
    claims: ClaimsView,
    secret: Seq<char>,
    token: Seq<char>,
    now: u64,
)
    requires
        token_of(claims, secret, token),
        claims.exp <= now,
    ensures
        verified_at(token, secret, now) == Err::<ClaimsView, TokenError>(TokenError::Expired),
{
    lemma_payload_round_trip(claims);
}

/// A token written for claims under a secret gives back no claims where the
/// clock cannot be read: it is refused as `ClockUnavailable`.
pub proof fn lemma_token_without_clock(claims: ClaimsView, secret: Seq<char>, token: Seq<char>)
    requires
        token_of(claims, secret, token),
    ensures
        verified_when(token, secret, None) == Err::<ClaimsView, TokenError>(
            TokenError::ClockUnavailable,
        ),
{
    lemma_payload_round_trip(claims);
}

/// A token written for claims under one secret is refused for its signature
/// under any other, unless the other secret signs as the first does: then the
/// token fares under it as under the first.
pub proof fn lemma_token_under_another_secret(
    claims: ClaimsView,
    secret: Seq<char>,
    token: Seq<char>,
    other: Seq<char>,
    clock: Option<u64>,
)
    requires
        token_of(claims, secret, token),
    ensures
        verified_when(token, other, clock) == Err::<ClaimsView, TokenError>(
            TokenError::InvalidSignature,
        ) || verified_when(token, other, clock) == judged(claims, clock),
{
    lemma_payload_round_trip(claims);
    let found = decoded_hs256(token, other);
    assert(found == Ok::<Payload, DecodeFault>(payload_of(claims)) || found == Err::<
        Payload,
        DecodeFault,
    >(DecodeFault::InvalidSignature));
}

/// Writes the claims as a token signed with HMAC-SHA-256 under `secret`.
///
/// This succeeds for all claims and every secret: neither the expiry time
/// nor any member is looked at. The token is the one named by `issued`, and
/// has three parts, none empty. It verifies under the same secret at every
/// moment before `claims.exp`, and gives back the same claims; from
/// `claims.exp` on it is refused as expired, and where the clock cannot be
/// read as `ClockUnavailable`, and as nothing else. Under any other secret it
/// is refused for its signature, unless that secret signs as this one does:
/// then it fares as under this one.
pub fn create_token(claims: &Claims, secret: &str) -> (r: Result<String, TokenError>)
    ensures
        r matches Ok(token) && {
            &&& token@ == issued(claims@, secret@)
            &&& token@.len() > 0
            &&& token_of(claims@, secret@, token@)
            &&& forall|clock: Option<u64>| #[trigger]
                verified_when(token@, secret@, clock) == judged(claims@, clock)
            &&& forall|other: Seq<char>, clock: Option<u64>|
                {
                    ||| #[trigger] verified_when(token@, other, clock) == judged(claims@, clock)
                    ||| verified_when(token@, other, clock) == Err::<ClaimsView, TokenError>(
                        TokenError::InvalidSignature,
                    )
                }
        },
{
    match encode_hs256(claims, secret) {
        Some(token) => {
            proof {
                assert forall|clock: Option<u64>| #[trigger]
                    verified_when(token@, secret@, clock) == judged(claims@, clock) by {
                    match clock {
                        None => lemma_token_without_clock(claims@, secret@, token@),
                        Some(now) => if now < claims.exp {
                            lemma_token_round_trip(claims@, secret@, token@, now);
                        } else {
                            lemma_token_expires(claims@, secret@, token@, now);
                        },
                    }
                }
                assert forall|other: Seq<char>, clock: Option<u64>|
                    {
                        ||| #[trigger] verified_when(token@, other, clock) == judged(claims@, clock)
                        ||| verified_when(token@, other, clock) == Err::<ClaimsView, TokenError>(
                            TokenError::InvalidSignature,
                        )
                    } by {
                    lemma_token_under_another_secret(claims@, secret@, token@, other, clock);
                }
            }
            Ok(token)
        },
        None => Err(TokenError::Serialization),
    }
}

/// Verifies a token under `secret`, given what the clock gave: the moment in
/// seconds since the Unix epoch, or `None` where the clock could not be read.
///
/// The signature is checked first, then the payload is read, then the expiry
/// time is held against the moment. A text that does not have three parts is
/// refused as malformed. Without a reading of the clock no claims are
/// returned: a token that is well signed and holds claims is then refused as
/// `ClockUnavailable`.
pub fn verify_token_when(token: &str, secret: &str, clock: Option<u64>) -> (r: Result<
    Claims,
    TokenError,
>)
    ensures
        same_verdict(r, verified_when(token@, secret@, clock)),
        dots(token@) != 2 ==> (r matches Err(error) && error == TokenError::Malformed),
        clock is None ==> r is Err,
{
    verdict_when(decode_hs256(token, secret), clock)
}

/// Verifies a token under `secret` at the moment `now`, given in seconds
/// since the Unix epoch, and returns its claims.
///
/// The signature is checked first, then the payload is read, then the expiry
/// time is held against `now`. A text that does not have three parts is
/// refused as malformed.
pub fn verify_token_at(token: &str, secret: &str, now: u64) -> (r: Result<Claims, TokenError>)
    ensures
        same_verdict(r, verified_at(token@, secret@, now)),
        dots(token@) != 2 ==> (r matches Err(error) && error == TokenError::Malformed),
{
    verify_token_when(token, secret, Some(now))
}

/// Whether a refusal stands whatever the moment of verification.
pub open spec fn timeless(error: TokenError) -> bool {
    error != TokenError::Expired && error != TokenError::ClockUnavailable
}

/// Verifies a token under `secret` now, by the system clock, and returns its
/// claims.
///
/// Whatever the clock gives, the result is what `verify_token_when` makes of
/// it. A refusal that does not depend on the time is therefore fixed by the
/// token and the secret alone, and claims that come back had not expired
/// when the clock was read.
pub fn verify_token(token: &str, secret: &str) -> (r: Result<Claims, TokenError>)
    ensures
        exists|clock: Option<u64>|
            same_verdict(r, #[trigger] verified_when(token@, secret@, clock)),
        r matches Err(error) && timeless(error) ==> forall|clock: Option<u64>|
            same_verdict(r, #[trigger] verified_when(token@, secret@, clock)),
        dots(token@) != 2 ==> (r matches Err(error) && error == TokenError::Malformed),
{
    let clock = unix_now();
    verify_token_when(token, secret, clock)
}

} // verus!
