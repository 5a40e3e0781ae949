use paykit::jwt::{Claims, TokenInfo};
use paykit::token_validation::{validate_token_extraction, ExtractedTokenInfo, TokenValidationError};

#[test]
fn test_extracted_token_info_creation() {
    let token = "test_token_123".to_string();
    let user_id = "user_456".to_string();

    let info = ExtractedTokenInfo::new(token.clone(), user_id.clone());

    assert_eq!(info.raw_token, token);
    assert_eq!(info.user_id, user_id);
    assert_eq!(info.token_hash.len(), 64); // SHA256 produces 64 char hex
}

#[test]
fn test_token_validation_error_unauthorized() {
    let err = TokenValidationError::unauthorized("test message");
    assert_eq!(err.status_code, 401);
    assert_eq!(err.message, "test message");
}

#[test]
fn test_token_validation_error_display() {
    let err = TokenValidationError::bad_request("bad request");
    assert_eq!(err.to_string(), "bad request");
}

#[test]
fn internal_error_is_500() {
    let err = TokenValidationError::internal_error("boom");
    assert_eq!(err.status_code, 500);
    assert_eq!(err.message, "boom");
}

#[test]
fn token_hash_is_sha256_hex_of_token() {
    let info = ExtractedTokenInfo::new("abc".to_string(), "u".to_string());
    assert_eq!(info.token_hash, "ba7816bf8f01cfea414140de5dae2223b00361a396177a9cb410ff61f20015ad");
}

#[test]
fn missing_token_is_unauthorized() {
    let r = validate_token_extraction(None);
    let err = r.err().unwrap();
    assert_eq!(err.status_code, 401);
    assert_eq!(err.message, "Invalid or missing token");
}

#[test]
fn stored_token_is_extracted() {
    let info = TokenInfo {
        claims: Claims { sub: "user_1".to_string(), email: None, exp: 10, iat: 0 },
        token: "tok".to_string(),
    };
    let r = validate_token_extraction(Some(&info)).ok().unwrap();
    assert_eq!(r.raw_token, "tok");
    assert_eq!(r.user_id, "user_1");
    assert_eq!(r.token_hash.len(), 64);
}
