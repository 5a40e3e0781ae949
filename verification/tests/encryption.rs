use paykit::encryption::{generate_key, generate_key_base64, generate_key_hex, AesGcmEncryption, EncryptionError};

#[test]
fn encrypt_then_decrypt_gives_back_the_text() {
    let key = generate_key();
    let enc = AesGcmEncryption::new(&key).unwrap();
    let c = enc.encrypt("card 4242").unwrap();
    assert_ne!(c, "card 4242");
    assert_eq!(enc.decrypt(&c).unwrap(), "card 4242");
}

#[test]
fn bytes_round_trip() {
    let enc = AesGcmEncryption::new(&[9u8; 32]).unwrap();
    let c = enc.encrypt_bytes(&[1, 2, 3]).unwrap();
    assert_eq!(enc.decrypt_bytes(&c).unwrap(), vec![1, 2, 3]);
}

#[test]
fn wrong_key_length_is_refused() {
    assert!(matches!(AesGcmEncryption::new(&[1u8; 16]), Err(EncryptionError::InvalidKeyLength)));
}

#[test]
fn short_or_malformed_ciphertext_is_refused() {
    let enc = AesGcmEncryption::new(&[9u8; 32]).unwrap();
    assert!(matches!(enc.decrypt("!!!"), Err(EncryptionError::InvalidCiphertext)));
    assert!(matches!(enc.decrypt("AAAA"), Err(EncryptionError::InvalidCiphertext)));
}

#[test]
fn tampered_ciphertext_fails() {
    let enc = AesGcmEncryption::new(&[9u8; 32]).unwrap();
    let other = AesGcmEncryption::new(&[8u8; 32]).unwrap();
    let c = enc.encrypt("secret").unwrap();
    assert!(matches!(other.decrypt(&c), Err(EncryptionError::DecryptionFailed)));
}

#[test]
fn key_texts_have_their_lengths() {
    assert_eq!(generate_key_hex().len(), 64);
    assert_eq!(generate_key_base64().len(), 44);
}

#[test]
fn encryption_error_texts() {
    assert_eq!(EncryptionError::InvalidKeyLength.to_string(), "Key must be exactly 32 bytes");
    assert_eq!(EncryptionError::InvalidCiphertext.to_string(), "Invalid ciphertext format");
    assert_eq!(EncryptionError::DecryptionFailed.to_string(), "Decryption failed - data may be tampered");
}
