use paykit::hash::{generate_hex, generate_otp, generate_random, hash_sha256, HashError, Hasher};

#[test]
fn test_argon2_hash_and_verify() {
    let password = "secure_password_123";
    let hash = paykit::hash::Hash::argon2(password).unwrap();

    assert!(hash.verify(password).unwrap());
    assert!(!hash.verify("wrong_password").unwrap());
}

#[test]
fn test_bcrypt_hash_and_verify() {
    let password = "secure_password_123";
    let hash = paykit::hash::Hash::bcrypt(password).unwrap();

    assert!(hash.verify(password).unwrap());
    assert!(!hash.verify("wrong_password").unwrap());
}

#[test]
fn test_from_string() {
    let hash = paykit::hash::Hash::argon2("password").unwrap();
    let hash_str = hash.to_string();

    let parsed = paykit::hash::Hash::from_string(&hash_str).unwrap();
    assert!(parsed.verify("password").unwrap());
}

#[test]
fn test_hasher_trait() {
    let hash = "password".hash().unwrap();
    assert!(hash.verify("password").unwrap());
}

#[test]
fn test_generate_otp() {
    let otp = generate_otp(6);
    assert_eq!(otp.len(), 6);
    assert!(otp.chars().all(|c| c.is_ascii_digit()));
}

#[test]
fn test_generate_random() {
    let s = generate_random(16);
    assert_eq!(s.len(), 16);
}

#[test]
fn unknown_hash_prefix_is_invalid() {
    assert!(matches!(paykit::hash::Hash::from_string("plain"), Err(HashError::InvalidHash)));
}

#[test]
fn bcrypt_prefixes_are_recognised() {
    let h = paykit::hash::Hash::from_string("$2b$04$abcdefghijklmnopqrstuv").unwrap();
    assert_eq!(h.to_string(), "$2b$04$abcdefghijklmnopqrstuv");
}

#[test]
fn low_cost_bcrypt_round_trip() {
    let h = paykit::hash::Hash::bcrypt_cost("pw", 4).unwrap();
    assert!(h.verify("pw").unwrap());
    assert!(!h.verify("px").unwrap());
}

#[test]
fn custom_argon2_round_trip() {
    let h = paykit::hash::Hash::argon2_custom("pw", 1024, 1, 1).unwrap();
    assert!(h.to_string().starts_with("$argon2id$v=19$m=1024,t=1,p=1$"));
    assert!(h.verify("pw").unwrap());
}

#[test]
fn default_argon2_uses_documented_parameters() {
    let h = paykit::hash::Hash::argon2("pw").unwrap();
    assert!(h.to_string().starts_with("$argon2id$v=19$m=65536,t=3,p=4$"));
}

#[test]
fn invalid_argon2_parameters_are_refused() {
    assert!(matches!(paykit::hash::Hash::argon2_custom("pw", 7, 1, 1), Err(HashError::HashingFailed(_))));
    assert!(matches!(paykit::hash::Hash::argon2_custom("pw", 1024, 0, 1), Err(HashError::HashingFailed(_))));
    assert!(matches!(paykit::hash::Hash::argon2_custom("pw", 1024, 1, 0), Err(HashError::HashingFailed(_))));
    assert!(matches!(paykit::hash::Hash::argon2_custom("pw", 15, 1, 2), Err(HashError::HashingFailed(_))));
}

#[test]
fn bcrypt_text_carries_its_cost() {
    assert!(paykit::hash::Hash::bcrypt_cost("pw", 4).unwrap().to_string().starts_with("$2b$04$"));
    assert!(paykit::hash::Hash::bcrypt_cost("pw", 10).unwrap().to_string().starts_with("$2b$10$"));
    assert!(matches!(paykit::hash::Hash::bcrypt_cost("pw", 3), Err(HashError::HashingFailed(_))));
    assert!(matches!(paykit::hash::Hash::bcrypt_cost("pw", 32), Err(HashError::HashingFailed(_))));
}

#[test]
fn string_hasher_verifies() {
    let h = paykit::hash::Hash::argon2_custom("pw", 1024, 1, 1).unwrap();
    assert!(String::from("pw").verify(&h).unwrap());
    assert!(!"other".verify(&h).unwrap());
}

#[test]
fn hash_error_texts() {
    assert_eq!(HashError::HashingFailed("x".to_string()).to_string(), "Hashing failed: x");
    assert_eq!(HashError::VerificationFailed.to_string(), "Password verification failed");
    assert_eq!(HashError::InvalidHash.to_string(), "Invalid hash format");
}

#[test]
fn sha256_of_empty_text() {
    assert_eq!(hash_sha256(""), "e3b0c44298fc1c149afbf4c8996fb92427ae41e4649b934ca495991b7852b855");
}

#[test]
fn hex_and_random_lengths() {
    let h = generate_hex(8);
    assert_eq!(h.len(), 16);
    assert!(h.chars().all(|c| c.is_ascii_hexdigit()));
    assert!(generate_random(32).chars().all(|c| c.is_ascii_alphanumeric()));
}
