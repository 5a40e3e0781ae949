use base64::Engine;
use hmac::Mac;
use paykit::signature::{Signature, SignatureError, SignedRequest, Signer};

#[test]
fn test_sign_and_verify() {
    let key = Signer::generate_key();
    let message = "amount=100&to=account123";

    let signature = Signer::sign(message, &key).unwrap();

    // Should verify successfully
    assert!(signature.verify(message, &key, 5).unwrap());

    // Wrong message should fail
    assert!(!signature.verify("tampered message", &key, 5).unwrap());

    // Wrong key should fail
    let wrong_key = Signer::generate_key();
    assert!(!signature.verify(message, &wrong_key, 5).unwrap());
}

#[test]
fn test_signature_expired() {
    let key = Signer::generate_key();
    let message = "test";

    let mut signature = Signer::sign(message, &key).unwrap();
    signature.timestamp = chrono::Utc::now().timestamp() - 600; // 10 minutes ago

    // Should fail - expired
    assert!(matches!(signature.verify(message, &key, 5).unwrap_err(), SignatureError::SignatureExpired));
}

#[test]
fn test_signed_request() {
    let key = Signer::generate_key();

    let request = SignedRequest::new("POST", "/api/transfer")
        .with_query("lang=en")
        .with_body(r#"{"amount":100}"#)
        .sign(&key)
        .unwrap();

    assert!(request.verify(&key, 5).unwrap());
}

#[test]
fn short_key_is_refused() {
    assert!(matches!(Signer::sign("m", &[1u8, 2, 3]), Err(SignatureError::InvalidKey)));
}

#[test]
fn signing_at_a_time_verifies_at_that_time() {
    let key = [7u8; 32];
    let s = Signer::sign_at("hello", &key, 1_000).unwrap();
    assert_eq!(s.timestamp, 1_000);
    assert!(s.verify_at("hello", &key, 5, 1_200).unwrap());
    assert!(matches!(s.verify_at("hello", &key, 5, 1_301), Err(SignatureError::SignatureExpired)));
}

#[test]
fn foreign_signature_does_not_verify() {
    let key = [7u8; 32];
    let s = Signature::new("not base64!!".to_string(), 1_000);
    assert!(!s.verify_at("hello", &key, 5, 1_000).unwrap());
}

#[test]
fn signature_error_texts() {
    assert_eq!(SignatureError::InvalidKey.to_string(), "Invalid key length");
    assert_eq!(SignatureError::InvalidSignature.to_string(), "Invalid signature format");
    assert_eq!(SignatureError::SignatureExpired.to_string(), "Signature has expired");
    assert_eq!(SignatureError::VerificationFailed.to_string(), "Signature verification failed");
}

#[test]
fn request_method_is_upper_cased() {
    let r = SignedRequest::new("post", "/x");
    assert_eq!(r.method, "POST");
    assert!(r.signature.is_empty());
}

#[test]
fn signed_url_encodes_params_and_signature() {
    let key = [3u8; 32];
    let url = paykit::signature::create_signed_url_at("/pay", &[("to", "a b"), ("amt", "5&6")], &key, 1_000).unwrap();
    assert!(url.starts_with("to=a%20b&amt=5%266&signature="));
    assert!(url.ends_with("&timestamp=1000"));
    // The signature travels URL-encoded; the Base64 padding '=' becomes %3D.
    assert!(url.contains("%3D&timestamp="));
}

#[test]
fn signed_url_needs_signature_and_timestamp() {
    let key = [3u8; 32];
    assert!(matches!(
        paykit::signature::verify_signed_url_at("/pay", "to=x", &key, 5, 1_000),
        Err(SignatureError::InvalidSignature)
    ));
    assert!(matches!(
        paykit::signature::verify_signed_url_at("/pay", "to=x&signature=abc&timestamp=later", &key, 5, 1_000),
        Err(SignatureError::InvalidSignature)
    ));
}

#[test]
fn signature_is_hmac_of_message_then_timestamp() {
    let key = [9u8; 32];
    let sig = Signer::sign_at("m", &key, 5).unwrap();
    let mut mac = hmac::Hmac::<sha2::Sha256>::new_from_slice(&key).unwrap();
    mac.update(b"m5");
    let expected = base64::engine::general_purpose::STANDARD.encode(mac.finalize().into_bytes());
    assert_eq!(sig.signature, expected);
    assert_eq!(sig.timestamp, 5);
    assert!(sig.nonce.is_none());
}

#[test]
fn signed_url_round_trip() {
    let key = [3u8; 32];
    let url = paykit::signature::create_signed_url_at("/pay", &[("to", "a b"), ("amt", "5&6")], &key, 1_000).unwrap();
    assert!(matches!(paykit::signature::verify_signed_url_at("/pay", &url, &key, 5, 1_000), Ok(true)));
    assert!(matches!(paykit::signature::verify_signed_url_at("/pay", &url, &key, 5, 1_200), Ok(true)));
    let other = [4u8; 32];
    assert!(matches!(paykit::signature::verify_signed_url_at("/pay", &url, &other, 5, 1_000), Ok(false)));
    assert!(matches!(paykit::signature::verify_signed_url_at("/other", &url, &key, 5, 1_000), Ok(false)));
    let live = paykit::signature::create_signed_url("/pay", &[("a", "1")], &key).unwrap();
    assert!(matches!(paykit::signature::verify_signed_url("/pay", &live, &key, 5), Ok(true)));
}

#[test]
fn nonce_is_bound_into_the_signature() {
    let key = [7u8; 32];
    let sig = Signer::sign_with_nonce_at("m", &key, "n1", 100).unwrap();
    assert_eq!(sig.nonce.as_deref(), Some("n1"));
    assert!(matches!(sig.verify_at("m:100:n1", &key, 5, 100), Ok(true)));
    assert!(matches!(sig.verify_at("m", &key, 5, 100), Ok(false)));
}

#[test]
fn signer_and_signature_verify_alike() {
    let key = [5u8; 32];
    let sig = Signer::sign_at("hello", &key, 1_000).unwrap();
    for (msg, now) in [("hello", 1_000), ("hello", 1_000 + 10 * 60), ("other", 1_000), ("hello", 1_000 + 2)] {
        let a = Signer::verify_at(msg, &sig, &key, 5, now);
        let b = sig.verify_at(msg, &key, 5, now);
        assert_eq!(format!("{:?}", a), format!("{:?}", b));
    }
}
