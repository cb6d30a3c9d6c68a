use backend::demo::{
    password_checked, password_demo, token_demo, token_demo_at, token_demo_when, PasswordDemo,
    TokenDemo,
};
use backend::jwt::verify_token_at;
use backend::password::{verify_password, HashingError};

const KNOWN_HASH: &str = "$2a$04$UuTkLRZZ6QofpDOlMz32MuuxEHA43WOemOYHPz6.SjsVsyO1tDU96";

#[test]
fn password_demo_hashes_and_verifies() {
    match password_demo(Some("open sesame")) {
        PasswordDemo::Hashed { password, hashed, verified } => {
            assert_eq!(password, "open sesame");
            assert_eq!(hashed.len(), 60);
            assert!(verified);
        }
        PasswordDemo::Failed { error } => panic!("{}", error),
    }
}

#[test]
fn password_demo_falls_back_to_the_default_password() {
    match password_demo(None) {
        PasswordDemo::Hashed { password, hashed, verified } => {
            assert_eq!(password, "default_password");
            assert!(verified);
            assert_eq!(verify_password("default_password", &hashed), Ok(true));
        }
        PasswordDemo::Failed { error } => panic!("{}", error),
    }
}

#[test]
fn password_checked_tells_whether_the_hash_accepts() {
    match password_checked("password".to_string(), Ok(KNOWN_HASH.to_string())) {
        PasswordDemo::Hashed { password, hashed, verified } => {
            assert_eq!(password, "password");
            assert_eq!(hashed, KNOWN_HASH);
            assert!(verified);
        }
        PasswordDemo::Failed { error } => panic!("{}", error),
    }
    match password_checked("other".to_string(), Ok(KNOWN_HASH.to_string())) {
        PasswordDemo::Hashed { verified, .. } => assert!(!verified),
        PasswordDemo::Failed { error } => panic!("{}", error),
    }
}

#[test]
fn password_checked_counts_an_unreadable_hash_as_not_verified() {
    match password_checked("password".to_string(), Ok("garbage".to_string())) {
        PasswordDemo::Hashed { hashed, verified, .. } => {
            assert_eq!(hashed, "garbage");
            assert!(!verified);
        }
        PasswordDemo::Failed { error } => panic!("{}", error),
    }
}

#[test]
fn password_checked_reports_a_failed_hashing() {
    match password_checked("password".to_string(), Err(HashingError::Rand)) {
        PasswordDemo::Failed { error } => {
            assert_eq!(error, "Failed to hash password: no random bytes")
        }
        PasswordDemo::Hashed { .. } => panic!("hashed"),
    }
}

#[test]
fn token_demo_issues_the_demonstration_claims() {
    match token_demo("demo secret") {
        TokenDemo::Issued { token, claims } => {
            assert_eq!(token.split('.').count(), 3);
            assert_eq!(claims.user_id, 1);
            assert_eq!(claims.tenant_id, 1);
            assert_eq!(claims.role, "Viewer");
            assert_eq!(claims.exp - claims.iat, 43200);
        }
        TokenDemo::Failed { error } => panic!("{}", error),
    }
}

#[test]
fn token_demo_at_reads_back_what_it_issued() {
    match token_demo_at("demo secret", 1_000, 2_000) {
        TokenDemo::Issued { token, claims } => {
            assert_eq!(claims.user_id, 1);
            assert_eq!(claims.tenant_id, 1);
            assert_eq!(claims.role, "Viewer");
            assert_eq!(claims.iat, 1_000);
            assert_eq!(claims.exp, 44_200);
            let again = verify_token_at(&token, "demo secret", 44_199).expect("verifies");
            assert_eq!(again.exp, 44_200);
        }
        TokenDemo::Failed { error } => panic!("{}", error),
    }
}

#[test]
fn token_demo_at_reports_an_expired_token() {
    match token_demo_at("demo secret", 1_000, 44_200) {
        TokenDemo::Failed { error } => assert_eq!(error, "Failed to verify token: token expired"),
        TokenDemo::Issued { .. } => panic!("issued"),
    }
}

#[test]
fn token_demo_at_reports_a_lifetime_that_does_not_fit() {
    match token_demo_at("demo secret", u64::MAX - 43_199, 0) {
        TokenDemo::Failed { error } => {
            assert_eq!(error, "Failed to create token: expiry time out of range")
        }
        TokenDemo::Issued { .. } => panic!("issued"),
    }
    match token_demo_at("demo secret", u64::MAX - 43_200, 0) {
        TokenDemo::Issued { claims, .. } => assert_eq!(claims.exp, u64::MAX),
        TokenDemo::Failed { error } => panic!("{}", error),
    }
}

#[test]
fn token_demo_succeeds_under_the_test_secret() {
    match token_demo("test_secret_key") {
        TokenDemo::Issued { token, claims } => {
            assert!(!token.is_empty());
            assert_eq!(claims.user_id, 1);
            assert_eq!(claims.tenant_id, 1);
            assert_eq!(claims.role, "Viewer");
            assert_eq!(claims.exp - claims.iat, 43200);
        }
        TokenDemo::Failed { error } => panic!("{}", error),
    }
}

#[test]
fn token_demo_when_reports_a_clock_that_cannot_be_read() {
    match token_demo_when("demo secret", None, Some(2_000)) {
        TokenDemo::Failed { error } => {
            assert_eq!(error, "Failed to create token: system clock unavailable")
        }
        TokenDemo::Issued { .. } => panic!("issued"),
    }
    match token_demo_when("demo secret", Some(1_000), None) {
        TokenDemo::Failed { error } => {
            assert_eq!(error, "Failed to verify token: system clock unavailable")
        }
        TokenDemo::Issued { .. } => panic!("issued"),
    }
}

#[test]
fn token_demo_when_reads_back_what_it_issued() {
    match token_demo_when("demo secret", Some(1_000), Some(44_199)) {
        TokenDemo::Issued { claims, .. } => {
            assert_eq!(claims.iat, 1_000);
            assert_eq!(claims.exp, 44_200);
        }
        TokenDemo::Failed { error } => panic!("{}", error),
    }
}
