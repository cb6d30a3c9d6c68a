//! Credential primitives for a small multi-tenant service.
//!
//! - `password`: salted, deliberately slow password hashing and verification.
//! - `jwt`: signed identity tokens with an expiry time.
//! - `state`: the configuration that the request handlers share.
//! - `demo`: the two round trips that the service offers for demonstration.
//!
//! Hashing, signing and JSON parsing are done by the `bcrypt`, `jsonwebtoken`
//! and `serde_json` crates, and the time is read from the system clock. Their
//! results are believed, not proved: each call stands in a small function
//! marked `external_body`, whose doc comment says what is assumed of it.
//! Everything built on top of those calls is verified, and none of it
//! panics.

mod clock;
pub mod demo;
pub mod jwt;
pub mod password;
pub mod state;
