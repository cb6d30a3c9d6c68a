use backend::password::{hash_password, verify_password, HashingError};

/// A bcrypt hash of `password` with work factor 4.
const KNOWN_HASH: &str = "$2a$04$UuTkLRZZ6QofpDOlMz32MuuxEHA43WOemOYHPz6.SjsVsyO1tDU96";

#[test]
fn test_hash_and_verify_password() {
    let password = "test_password_123";

    let hashed = hash_password(password).expect("Failed to hash password");
    assert!(!hashed.is_empty());

    let is_valid = verify_password(password, &hashed).expect("Failed to verify password");
    assert!(is_valid);

    let is_invalid = verify_password("wrong_password", &hashed).expect("Failed to verify password");
    assert!(!is_invalid);
}

#[test]
fn hash_is_an_encoded_hash_of_cost_twelve() {
    let hashed = hash_password("correct horse").expect("hashes");
    assert_eq!(hashed.len(), 60);
    assert!(hashed.starts_with("$2b$12$"));
    assert_ne!(hashed, "correct horse");
}

#[test]
fn hash_holds_its_salt_and_digest_in_the_bcrypt_alphabet() {
    let hashed = hash_password("alphabet").expect("hashes");
    assert!(hashed.is_ascii());
    let fields: Vec<&str> = hashed.split('$').collect();
    assert_eq!(fields.len(), 4);
    assert_eq!(fields[0], "");
    assert_eq!(fields[1], "2b");
    assert_eq!(fields[2], "12");
    assert_eq!(fields[3].len(), 53);
    assert!(fields[3].chars().all(|c| c == '.' || c == '/' || c.is_ascii_alphanumeric()));
}

#[test]
fn hash_verifies_its_own_password() {
    let hashed = hash_password("p\u{e4}ssw\u{f6}rd \u{1F512}").expect("hashes");
    assert_eq!(verify_password("p\u{e4}ssw\u{f6}rd \u{1F512}", &hashed), Ok(true));
}

#[test]
fn empty_password_is_hashed_like_any_other() {
    let hashed = hash_password("").expect("hashes");
    assert_eq!(hashed.len(), 60);
    assert_eq!(verify_password("", &hashed), Ok(true));
}

#[test]
fn another_password_is_false_not_an_error() {
    let hashed = hash_password("test_password_123").expect("hashes");
    assert_eq!(verify_password("wrong_password", &hashed), Ok(false));
}

#[test]
fn two_hashes_of_one_password_differ() {
    let first = hash_password("same password").expect("hashes");
    let second = hash_password("same password").expect("hashes");
    assert_ne!(first, second);
}

#[test]
fn known_hash_accepts_its_password_alone() {
    assert_eq!(verify_password("password", KNOWN_HASH), Ok(true));
    assert_eq!(verify_password("Password", KNOWN_HASH), Ok(false));
    assert_eq!(verify_password("", KNOWN_HASH), Ok(false));
}

#[test]
fn passwords_alike_in_their_first_seventy_two_bytes_hash_alike() {
    let stem = "a".repeat(72);
    let hashed = hash_password(&format!("{}x", stem)).expect("hashes");
    assert_eq!(verify_password(&format!("{}y", stem), &hashed), Ok(true));
}

#[test]
fn verify_rejects_a_hash_without_three_parts() {
    assert_eq!(verify_password("secret", "not-a-hash"), Err(HashingError::InvalidHash));
    assert_eq!(verify_password("secret", ""), Err(HashingError::InvalidHash));
    assert_eq!(verify_password("secret", "$2b$04$tooshort"), Err(HashingError::InvalidHash));
}

#[test]
fn verify_rejects_an_unknown_version() {
    let hash = KNOWN_HASH.replacen("$2a$", "$3z$", 1);
    assert_eq!(verify_password("password", &hash), Err(HashingError::InvalidPrefix));
}

#[test]
fn verify_rejects_a_cost_that_is_no_number() {
    let hash = KNOWN_HASH.replacen("$04$", "$xx$", 1);
    assert_eq!(verify_password("password", &hash), Err(HashingError::InvalidCost));
}

#[test]
fn verify_rejects_a_cost_out_of_range() {
    let hash = KNOWN_HASH.replacen("$04$", "$99$", 1);
    assert_eq!(verify_password("password", &hash), Err(HashingError::CostNotAllowed));
    let hash = KNOWN_HASH.replacen("$04$", "$03$", 1);
    assert_eq!(verify_password("password", &hash), Err(HashingError::CostNotAllowed));
}

#[test]
fn verify_rejects_a_salt_that_is_not_base64() {
    let hash = KNOWN_HASH.replacen("UuTk", "!!!!", 1);
    assert_eq!(verify_password("password", &hash), Err(HashingError::InvalidBase64));
}

#[test]
fn hashing_errors_describe_themselves() {
    assert_eq!(HashingError::Io.message(), "I/O error");
    assert_eq!(HashingError::CostNotAllowed.message(), "cost is not allowed");
    assert_eq!(HashingError::InvalidCost.message(), "invalid cost");
    assert_eq!(HashingError::InvalidPrefix.message(), "invalid prefix");
    assert_eq!(HashingError::InvalidHash.message(), "invalid hash");
    assert_eq!(HashingError::InvalidSaltLen.message(), "invalid salt length");
    assert_eq!(HashingError::InvalidBase64.message(), "invalid base64");
    assert_eq!(HashingError::Rand.message(), "no random bytes");
}

#[test]
fn hashing_errors_tell_a_bad_hash_from_a_failed_primitive() {
    assert!(HashingError::InvalidHash.is_malformed_hash());
    assert!(HashingError::InvalidPrefix.is_malformed_hash());
    assert!(HashingError::InvalidCost.is_malformed_hash());
    assert!(HashingError::CostNotAllowed.is_malformed_hash());
    assert!(HashingError::InvalidSaltLen.is_malformed_hash());
    assert!(HashingError::InvalidBase64.is_malformed_hash());
    assert!(!HashingError::Io.is_malformed_hash());
    assert!(!HashingError::Rand.is_malformed_hash());
}
