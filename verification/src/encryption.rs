//! Symmetric encryption with AES-256-GCM.
//!
//! Each encryption draws a fresh 96-bit nonce; the output is the Base64 of
//! `[nonce (12 bytes)][ciphertext][authentication tag (16 bytes)]`.
use vstd::prelude::*;
use vstd::utf8::{encode_utf8, decode_utf8, valid_utf8};
use aes_gcm::aead::Aead;
use aes_gcm::aead::KeyInit;
use aes_gcm::aead::rand_core::RngCore;
use crate::codec::{base64_encode, base64_encode_spec, base64_decode, base64_decode_spec};
use crate::text::{hex_str, to_hex};

verus! {

broadcast use vstd::utf8::encode_utf8_decode_utf8, vstd::utf8::encode_utf8_valid_utf8;

/// What AES-256-GCM encryption (`Aes256Gcm::encrypt`, no associated data) gives
/// for a key, a nonce and a plaintext: the ciphertext followed by the tag.
pub uninterp spec fn aes_gcm_seal_spec(key: Seq<u8>, nonce: Seq<u8>, plaintext: Seq<u8>) -> Seq<u8>;

/// What AES-256-GCM decryption (`Aes256Gcm::decrypt`) gives: `None` where the
/// tag does not authenticate the ciphertext.
pub uninterp spec fn aes_gcm_open_spec(key: Seq<u8>, nonce: Seq<u8>, ciphertext: Seq<u8>) -> Option<Seq<u8>>;

#[verifier::external_type_specification]
#[verifier::external_body]
pub struct ExAeadError(aes_gcm::Error);

#[verifier::external_type_specification]
#[verifier::external_body]
pub struct ExFromUtf8Error(std::string::FromUtf8Error);

/// Twelve random bytes from the operating system through `OsRng::fill_bytes`.
/// Only the length is claimed.
#[verifier::external_body]
fn random_nonce() -> (r: [u8; 12])
    ensures
        r@.len() == 12,
{
    let mut nonce = [0u8; 12];
    aes_gcm::aead::OsRng.fill_bytes(&mut nonce);
    nonce
}

/// Thirty-two random bytes from the operating system through
/// `OsRng::fill_bytes`. Only the length is claimed.
#[verifier::external_body]
fn random_key32() -> (r: [u8; 32])
    ensures
        r@.len() == 32,
{
    let mut key = [0u8; 32];
    aes_gcm::aead::OsRng.fill_bytes(&mut key);
    key
}

/// AES-256-GCM encryption through `Aes256Gcm::encrypt` with a 32-byte key and a
/// 12-byte nonce (shorter or longer ones make `from_slice` panic). The source
/// refuses plaintexts longer than 2^36 bytes; otherwise the output is the
/// named sealing, 16 bytes (the tag) longer than the plaintext.
#[verifier::external_body]
fn aes_gcm_seal(key: &[u8], nonce: &[u8], plaintext: &[u8]) -> (r: Result<Vec<u8>, aes_gcm::Error>)
    requires
        key@.len() == 32,
        nonce@.len() == 12,
    ensures
        r is Ok <==> plaintext@.len() <= 0x10_0000_0000,
        r matches Ok(c) ==> c@ == aes_gcm_seal_spec(key@, nonce@, plaintext@) && c@.len() == plaintext@.len() + 16,
{
    let cipher = aes_gcm::Aes256Gcm::new(aes_gcm::Key::<aes_gcm::Aes256Gcm>::from_slice(key));
    cipher.encrypt(aes_gcm::Nonce::from_slice(nonce), plaintext)
}

/// AES-256-GCM decryption through `Aes256Gcm::decrypt`; the result is the named
/// opening. What was sealed under a key and nonce opens to its plaintext under
/// the same key and nonce, as AEAD decryption is documented to do.
#[verifier::external_body]
fn aes_gcm_open(key: &[u8], nonce: &[u8], ciphertext: &[u8]) -> (r: Result<Vec<u8>, aes_gcm::Error>)
    requires
        key@.len() == 32,
        nonce@.len() == 12,
    ensures
        r is Ok <==> aes_gcm_open_spec(key@, nonce@, ciphertext@) is Some,
        r matches Ok(p) ==> aes_gcm_open_spec(key@, nonce@, ciphertext@) == Some(p@),
        (forall|p: Seq<u8>| ciphertext@ == #[trigger] aes_gcm_seal_spec(key@, nonce@, p) ==> r is Ok),
        r is Ok ==> (forall|p: Seq<u8>| ciphertext@ == #[trigger] aes_gcm_seal_spec(key@, nonce@, p)
            ==> aes_gcm_open_spec(key@, nonce@, ciphertext@) == Some(p)),
{
    let cipher = aes_gcm::Aes256Gcm::new(aes_gcm::Key::<aes_gcm::Aes256Gcm>::from_slice(key));
    cipher.decrypt(aes_gcm::Nonce::from_slice(nonce), ciphertext)
}

/// `String::from_utf8`: the bytes are accepted exactly when they are valid
/// UTF-8, and then the text is their decoding.
#[verifier::external_body]
fn string_from_utf8(bytes: Vec<u8>) -> (r: Result<String, std::string::FromUtf8Error>)
    ensures
        r is Ok <==> valid_utf8(bytes@),
        r matches Ok(s) ==> s@ == decode_utf8(bytes@),
{
    String::from_utf8(bytes)
}

/// Errors that can occur during encryption/decryption
#[derive(Debug, Clone, Copy, PartialEq, Eq, Structural)]
pub enum EncryptionError {
    InvalidKeyLength,
    InvalidCiphertext,
    DecryptionFailed,
}

impl EncryptionError {
    pub open spec fn describe(self) -> Seq<char> {
        match self {
            EncryptionError::InvalidKeyLength => "Key must be exactly 32 bytes"@,
            EncryptionError::InvalidCiphertext => "Invalid ciphertext format"@,
            EncryptionError::DecryptionFailed => "Decryption failed - data may be tampered"@,
        }
    }

    /// The human-readable description of the error.
    pub fn to_string(&self) -> (r: String)
        ensures
            r@ == self.describe(),
    {
        match self {
            EncryptionError::InvalidKeyLength => String::from_str("Key must be exactly 32 bytes"),
            EncryptionError::InvalidCiphertext => String::from_str("Invalid ciphertext format"),
            EncryptionError::DecryptionFailed => String::from_str("Decryption failed - data may be tampered"),
        }
    }
}

/// The encrypted form of `plaintext` under `key` with `nonce`: the Base64 of
/// the nonce followed by the sealed plaintext.
pub open spec fn encrypted_text(key: Seq<u8>, nonce: Seq<u8>, plaintext: Seq<u8>) -> Seq<char> {
    base64_encode_spec(nonce + aes_gcm_seal_spec(key, nonce, plaintext))
}

/// The outcome of decrypting a Base64 text to bytes under `key`.
pub open spec fn decrypt_bytes_spec(key: Seq<u8>, text: Seq<char>) -> Result<Seq<u8>, EncryptionError> {
    match base64_decode_spec(text) {
        None => Err(EncryptionError::InvalidCiphertext),
        Some(combined) => if combined.len() < 28 {
            Err(EncryptionError::InvalidCiphertext)
        } else {
            match aes_gcm_open_spec(key, combined.take(12), combined.skip(12)) {
                Some(p) => Ok(p),
                None => Err(EncryptionError::DecryptionFailed),
            }
        },
    }
}

/// The outcome of decrypting a Base64 text to a UTF-8 text under `key`.
pub open spec fn decrypt_text_spec(key: Seq<u8>, text: Seq<char>) -> Result<Seq<char>, EncryptionError> {
    match decrypt_bytes_spec(key, text) {
        Ok(p) => if valid_utf8(p) { Ok(decode_utf8(p)) } else { Err(EncryptionError::DecryptionFailed) },
        Err(e) => Err(e),
    }
}

/// AES-256-GCM Encryptor: provides symmetric encryption with a 32-byte key.
/// Each encryption generates a new random nonce.
pub struct AesGcmEncryption {
    key: Vec<u8>,
}

impl View for AesGcmEncryption {
    /// The key.
    type V = Seq<u8>;

    closed spec fn view(&self) -> Seq<u8> {
        self.key@
    }
}

impl AesGcmEncryption {
    #[verifier::type_invariant]
    spec fn key_has_32_bytes(self) -> bool {
        self.key@.len() == 32
    }

    /// Create a new encryptor with a 32-byte key
    pub fn new(key: &[u8]) -> (r: Result<Self, EncryptionError>)
        ensures
            r is Ok <==> key@.len() == 32,
            r matches Ok(e) ==> e@ == key@,
            r matches Err(e) ==> e == EncryptionError::InvalidKeyLength,
    {
        if key.len() != 32 {
            return Err(EncryptionError::InvalidKeyLength);
        }
        let mut k: Vec<u8> = Vec::new();
        k.extend_from_slice(key);
        assert(k@ =~= key@);
        Ok(AesGcmEncryption { key: k })
    }

    /// Encrypt bytes and return the base64 of nonce, ciphertext and tag.
    fn seal_bytes(&self, plaintext: &[u8]) -> (r: Result<String, EncryptionError>)
        ensures
            r is Ok <==> plaintext@.len() <= 0x10_0000_0000,
            r matches Ok(c) ==> exists|nonce: Seq<u8>| {
                &&& nonce.len() == 12
                &&& #[trigger] aes_gcm_seal_spec(self@, nonce, plaintext@).len() == plaintext@.len() + 16
                &&& c@ == encrypted_text(self@, nonce, plaintext@)
            },
            r matches Err(e) ==> e == EncryptionError::DecryptionFailed,
    {
        proof { use_type_invariant(self); }
        let nonce = random_nonce();
        let sealed = match aes_gcm_seal(self.key.as_slice(), &nonce, plaintext) {
            Ok(c) => c,
            Err(_) => return Err(EncryptionError::DecryptionFailed),
        };
        let mut combined: Vec<u8> = Vec::new();
        combined.extend_from_slice(&nonce);
        combined.extend_from_slice(sealed.as_slice());
        assert(combined@ =~= nonce@ + sealed@);
        let out = base64_encode(combined.as_slice());
        assert(out@ == encrypted_text(self@, nonce@, plaintext@));
        Ok(out)
    }

    /// Encrypt plaintext and return base64-encoded ciphertext.
    pub fn encrypt(&self, plaintext: &str) -> (r: Result<String, EncryptionError>)
        ensures
            r is Ok <==> encode_utf8(plaintext@).len() <= 0x10_0000_0000,
            r matches Ok(c) ==> exists|nonce: Seq<u8>| {
                &&& nonce.len() == 12
                &&& #[trigger] aes_gcm_seal_spec(self@, nonce, encode_utf8(plaintext@)).len() == encode_utf8(plaintext@).len() + 16
                &&& c@ == encrypted_text(self@, nonce, encode_utf8(plaintext@))
            },
            r matches Err(e) ==> e == EncryptionError::DecryptionFailed,
    {
        self.seal_bytes(plaintext.as_bytes())
    }

    /// Encrypt plaintext from bytes
    pub fn encrypt_bytes(&self, plaintext: &[u8]) -> (r: Result<String, EncryptionError>)
        ensures
            r is Ok <==> plaintext@.len() <= 0x10_0000_0000,
            r matches Ok(c) ==> exists|nonce: Seq<u8>| {
                &&& nonce.len() == 12
                &&& #[trigger] aes_gcm_seal_spec(self@, nonce, plaintext@).len() == plaintext@.len() + 16
                &&& c@ == encrypted_text(self@, nonce, plaintext@)
            },
            r matches Err(e) ==> e == EncryptionError::DecryptionFailed,
    {
        self.seal_bytes(plaintext)
    }

    /// Decrypt base64-encoded ciphertext to bytes. A text that encryption under
    /// this key produced decrypts to the encrypted bytes.
    pub fn decrypt_bytes(&self, ciphertext: &str) -> (r: Result<Vec<u8>, EncryptionError>)
        ensures
            r matches Ok(p) ==> decrypt_bytes_spec(self@, ciphertext@) == Ok::<Seq<u8>, EncryptionError>(p@),
            r matches Err(e) ==> decrypt_bytes_spec(self@, ciphertext@) == Err::<Seq<u8>, EncryptionError>(e),
            forall|nonce: Seq<u8>, p: Seq<u8>|
                nonce.len() == 12 && #[trigger] aes_gcm_seal_spec(self@, nonce, p).len() == p.len() + 16
                && ciphertext@ == encrypted_text(self@, nonce, p)
                ==> (r matches Ok(q) && q@ == p),
    {
        proof { use_type_invariant(self); }
        let combined = match base64_decode(ciphertext) {
            Ok(c) => c,
            Err(_) => return Err(EncryptionError::InvalidCiphertext),
        };
        if combined.len() < 28 {
            proof {
                assert forall|nonce: Seq<u8>, p: Seq<u8>|
                    nonce.len() == 12 && #[trigger] aes_gcm_seal_spec(self@, nonce, p).len() == p.len() + 16
                    && ciphertext@ == encrypted_text(self@, nonce, p) implies false by {
                    assert(combined@ == nonce + aes_gcm_seal_spec(self@, nonce, p));
                }
            }
            return Err(EncryptionError::InvalidCiphertext);
        }
        let (nonce, sealed) = combined.as_slice().split_at(12);
        assert(nonce@ =~= combined@.take(12));
        assert(sealed@ =~= combined@.skip(12));
        proof {
            assert forall|n: Seq<u8>, p: Seq<u8>|
                n.len() == 12 && #[trigger] aes_gcm_seal_spec(self@, n, p).len() == p.len() + 16
                && ciphertext@ == encrypted_text(self@, n, p) implies
                    nonce@ == n && sealed@ == aes_gcm_seal_spec(self@, n, p) by {
                assert(combined@ == n + aes_gcm_seal_spec(self@, n, p));
                assert(combined@.take(12) =~= n);
                assert(combined@.skip(12) =~= aes_gcm_seal_spec(self@, n, p));
            }
        }
        match aes_gcm_open(self.key.as_slice(), nonce, sealed) {
            Ok(p) => Ok(p),
            Err(_) => Err(EncryptionError::DecryptionFailed),
        }
    }

    /// Decrypt base64-encoded ciphertext to a UTF-8 text. A text that `encrypt`
    /// under this key produced decrypts to the encrypted text.
    pub fn decrypt(&self, ciphertext: &str) -> (r: Result<String, EncryptionError>)
        ensures
            r matches Ok(s) ==> decrypt_text_spec(self@, ciphertext@) == Ok::<Seq<char>, EncryptionError>(s@),
            r matches Err(e) ==> decrypt_text_spec(self@, ciphertext@) == Err::<Seq<char>, EncryptionError>(e),
            forall|nonce: Seq<u8>, t: Seq<char>|
                nonce.len() == 12 && #[trigger] aes_gcm_seal_spec(self@, nonce, encode_utf8(t)).len() == encode_utf8(t).len() + 16
                && ciphertext@ == encrypted_text(self@, nonce, encode_utf8(t))
                ==> (r matches Ok(s) && s@ == t),
    {
        let bytes = self.decrypt_bytes(ciphertext)?;
        let ghost b = bytes@;
        match string_from_utf8(bytes) {
            Ok(s) => Ok(s),
            Err(_) => Err(EncryptionError::DecryptionFailed),
        }
    }
}

/// Generate a random 32-byte key
pub fn generate_key() -> (r: [u8; 32])
    ensures
        r@.len() == 32,
{
    random_key32()
}

/// Generate a random key and return as hex string
pub fn generate_key_hex() -> (r: String)
    ensures
        exists|k: Seq<u8>| k.len() == 32 && r@ == hex_str(k),
        r@.len() == 64,
{
    let key = generate_key();
    to_hex(&key)
}

/// Generate a random key and return as base64 string
pub fn generate_key_base64() -> (r: String)
    ensures
        exists|k: Seq<u8>| k.len() == 32 && r@ == base64_encode_spec(k),
{
    let key = generate_key();
    base64_encode(&key)
}

} // verus!
