//! Hashing of passwords, OTPs and other sensitive data with Argon2 (recommended)
//! and bcrypt, SHA-256 digests, and random strings for OTPs and API keys.
//!
//! A stored hash remembers its algorithm, which it detects from the stored text:
//! Argon2 hashes start with `$argon2`, bcrypt hashes with `$2a$`, `$2b$` or `$2y$`.
use vstd::prelude::*;
use vstd::utf8::encode_utf8;
use argon2::PasswordHasher;
use argon2::PasswordVerifier;
use sha2::Digest;
use crate::text::{hex_str, is_digit, nat_str, starts_with, to_hex};
use crate::clock::{random_below, random_byte};

verus! {

/// What verifying a password against a stored Argon2 hash text gives
/// (`PasswordHash::new`, then `Argon2::default().verify_password(..).is_ok()`):
/// `None` where the text does not parse as a PHC hash.
pub uninterp spec fn argon2_check_spec(hash: Seq<char>, password: Seq<u8>) -> Option<bool>;

/// What `bcrypt::verify` gives for a password and a stored hash text: `None`
/// where it returns an error.
pub uninterp spec fn bcrypt_check_spec(password: Seq<char>, hash: Seq<char>) -> Option<bool>;

/// What SHA-256 (`sha2::Sha256::digest`) gives for some bytes.
pub uninterp spec fn sha256_spec(data: Seq<u8>) -> Seq<u8>;

#[verifier::external_type_specification]
#[verifier::external_body]
pub struct ExPhcError(argon2::password_hash::Error);

#[verifier::external_type_specification]
#[verifier::external_body]
pub struct ExBcryptError(bcrypt::BcryptError);

/// The parameters that `argon2::Params::new` accepts: a memory cost (KiB) of
/// at least 8 and at least eight times the parallelism, a time cost of at
/// least 1, and a parallelism in `1..=0xFFFFFF`.
pub open spec fn argon2_params_valid(memory: u32, iterations: u32, parallelism: u32) -> bool {
    memory >= 8 && memory >= parallelism * 8 && iterations >= 1 && 1 <= parallelism <= 0xFFFFFF
}

/// The start of the PHC text of an Argon2id (version 0x13) hash made with the
/// given memory cost, time cost and parallelism; the salt and the digest follow.
pub open spec fn argon2id_prefix(memory: nat, iterations: nat, parallelism: nat) -> Seq<char> {
    "$argon2id$v=19$m="@ + nat_str(memory) + ",t="@ + nat_str(iterations) + ",p="@ + nat_str(parallelism)
        + "$"@
}

/// A number written with at least two decimal digits.
pub open spec fn two_digit_str(n: nat) -> Seq<char> {
    if n < 10 {
        seq!['0'] + nat_str(n)
    } else {
        nat_str(n)
    }
}

/// The start of a bcrypt hash text made with the given cost; the salt and the
/// digest follow.
pub open spec fn bcrypt_prefix(cost: nat) -> Seq<char> {
    "$2b$"@ + two_digit_str(cost) + "$"@
}

/// Argon2id (version 0x13) hashing of `password` with a fresh salt from
/// `SaltString::generate` on the operating system's generator, with the
/// parameters built by `argon2::Params::new` (default output length), through
/// `hash_password`, rendered as a PHC string; an error is given by its text.
///
/// `Params::new` refuses exactly the parameters outside `argon2_params_valid`
/// (it multiplies the parallelism by 8 first, so larger parallelisms are left
/// out). With valid parameters `hash_password` fails only for a password longer
/// than `0xFFFF_FFFF` bytes: the generated salt (16 bytes) and the parameter
/// text always fit. The PHC text renders the algorithm, `v=19`, then
/// `m=..,t=..,p=..` in decimal, then the salt and the digest; and verifying the
/// same password against it succeeds, as the crate documents of
/// `hash_password` and `verify_password`. The salt itself is not described.
#[verifier::external_body]
fn argon2id_hash(password: &[u8], memory: u32, iterations: u32, parallelism: u32) -> (r: Result<String, String>)
    requires
        parallelism <= u32::MAX / 8,
    ensures
        !argon2_params_valid(memory, iterations, parallelism) ==> r is Err,
        argon2_params_valid(memory, iterations, parallelism) && password@.len() <= 0xFFFF_FFFF ==> r is Ok,
        r matches Ok(h) ==> "$argon2id$"@.is_prefix_of(h@)
            && argon2id_prefix(memory as nat, iterations as nat, parallelism as nat).is_prefix_of(h@)
            && argon2_check_spec(h@, password@) == Some(true),
{
    let salt = argon2::password_hash::SaltString::generate(&mut argon2::password_hash::rand_core::OsRng);
    let params = match argon2::Params::new(memory, iterations, parallelism, None) {
        Ok(p) => p,
        Err(e) => return Err(e.to_string()),
    };
    let hasher = argon2::Argon2::new(argon2::Algorithm::Argon2id, argon2::Version::V0x13, params);
    match hasher.hash_password(password, &salt) {
        Ok(h) => Ok(h.to_string()),
        Err(e) => Err(e.to_string()),
    }
}

/// Verification of a password against a stored Argon2 text: the text is
/// parsed with `PasswordHash::new` and checked with
/// `Argon2::default().verify_password`. The result is the named check.
#[verifier::external_body]
fn argon2_check(hash: &str, password: &[u8]) -> (r: Result<bool, argon2::password_hash::Error>)
    ensures
        r is Ok <==> argon2_check_spec(hash@, password@) is Some,
        r matches Ok(b) ==> argon2_check_spec(hash@, password@) == Some(b),
{
    let parsed = argon2::password_hash::PasswordHash::new(hash)?;
    Ok(argon2::Argon2::default().verify_password(password, &parsed).is_ok())
}

/// bcrypt hashing through `bcrypt::hash` with a random salt. The source refuses
/// costs outside `4..=31`, formats the hash as `$2b$`, the cost in at least two
/// digits, `$`, then the salt and the digest, and `bcrypt::verify` of the same
/// password against it gives `Ok(true)`. The salt comes from `getrandom` inside
/// the call, which may fail, so success is not claimed for a valid cost.
#[verifier::external_body]
fn bcrypt_hash(password: &str, cost: u32) -> (r: Result<String, bcrypt::BcryptError>)
    ensures
        (cost < 4 || cost > 31) ==> r is Err,
        r matches Ok(h) ==> "$2b$"@.is_prefix_of(h@) && bcrypt_prefix(cost as nat).is_prefix_of(h@)
            && bcrypt_check_spec(password@, h@) == Some(true),
{
    bcrypt::hash(password, cost)
}

/// Verification through `bcrypt::verify`; the result is the named check.
#[verifier::external_body]
fn bcrypt_check(password: &str, hash: &str) -> (r: Result<bool, bcrypt::BcryptError>)
    ensures
        r is Ok <==> bcrypt_check_spec(password@, hash@) is Some,
        r matches Ok(b) ==> bcrypt_check_spec(password@, hash@) == Some(b),
{
    bcrypt::verify(password, hash)
}

/// The message of a bcrypt error, through its `Display`.
#[verifier::external_body]
fn bcrypt_error_text(e: &bcrypt::BcryptError) -> String {
    e.to_string()
}

/// SHA-256 through `sha2::Sha256::digest`; the digest is the named one, 32 bytes long.
#[verifier::external_body]
fn sha256(data: &[u8]) -> (r: Vec<u8>)
    ensures
        r@ == sha256_spec(data@),
        r@.len() == 32,
{
    sha2::Sha256::digest(data).to_vec()
}

/// Errors that can occur during hashing/verification
#[derive(Debug, Clone)]
pub enum HashError {
    HashingFailed(String),
    VerificationFailed,
    InvalidHash,
}

impl HashError {
    pub open spec fn describe(self) -> Seq<char> {
        match self {
            HashError::HashingFailed(msg) => "Hashing failed: "@ + msg@,
            HashError::VerificationFailed => "Password verification failed"@,
            HashError::InvalidHash => "Invalid hash format"@,
        }
    }

    /// The human-readable description of the error.
    pub fn to_string(&self) -> (r: String)
        ensures
            r@ == self.describe(),
    {
        match self {
            HashError::HashingFailed(msg) => {
                let mut s = String::from_str("Hashing failed: ");
                s.append(msg.as_str());
                s
            },
            HashError::VerificationFailed => String::from_str("Password verification failed"),
            HashError::InvalidHash => String::from_str("Invalid hash format"),
        }
    }
}

/// The algorithm that a stored hash text announces by its prefix.
pub open spec fn detect_algorithm(s: Seq<char>) -> Option<Seq<char>> {
    if "$argon2"@.is_prefix_of(s) {
        Some("argon2"@)
    } else if "$2a$"@.is_prefix_of(s) || "$2b$"@.is_prefix_of(s) || "$2y$"@.is_prefix_of(s) {
        Some("bcrypt"@)
    } else {
        None
    }
}

/// The outcome of verifying `plaintext` against a stored hash `(algorithm, text)`.
pub open spec fn verify_spec(stored: (Seq<char>, Seq<char>), plaintext: Seq<char>) -> Result<bool, HashError> {
    if stored.0 == "argon2"@ {
        match argon2_check_spec(stored.1, encode_utf8(plaintext)) {
            Some(b) => Ok(b),
            None => Err(HashError::InvalidHash),
        }
    } else if stored.0 == "bcrypt"@ {
        Ok(bcrypt_check_spec(plaintext, stored.1) == Some(true))
    } else {
        Err(HashError::InvalidHash)
    }
}

/// Hash output containing the algorithm, salt, and hash
/// Serializes to a single string format for storage
#[derive(Debug, Clone)]
pub struct Hash {
    algorithm: String,
    hash: String,
}

impl View for Hash {
    /// The algorithm name and the stored hash text.
    type V = (Seq<char>, Seq<char>);

    closed spec fn view(&self) -> (Seq<char>, Seq<char>) {
        (self.algorithm@, self.hash@)
    }
}

impl Hash {
    /// Create Argon2 hash from plaintext: Argon2id with 64 MB of memory
    /// (65536 KiB), 3 iterations and parallelism 4.
    pub fn argon2(password: &str) -> (r: Result<Self, HashError>)
        ensures
            encode_utf8(password@).len() <= 0xFFFF_FFFF ==> r is Ok,
            r matches Ok(h) ==> h@.0 == "argon2"@ && "$argon2id$"@.is_prefix_of(h@.1)
                && argon2id_prefix(65536, 3, 4).is_prefix_of(h@.1)
                && argon2_check_spec(h@.1, encode_utf8(password@)) == Some(true),
            r matches Err(e) ==> e is HashingFailed,
    {
        Self::argon2_custom(password, 65536, 3, 4)
    }

    /// Create Argon2id hash with custom parameters: memory in KB, iterations
    /// and parallel threads.
    pub fn argon2_custom(password: &str, memory: u32, iterations: u32, parallelism: u32) -> (r: Result<Self, HashError>)
        requires
            parallelism <= u32::MAX / 8,
        ensures
            !argon2_params_valid(memory, iterations, parallelism) ==> r is Err,
            argon2_params_valid(memory, iterations, parallelism) && encode_utf8(password@).len() <= 0xFFFF_FFFF
                ==> r is Ok,
            r matches Ok(h) ==> h@.0 == "argon2"@ && "$argon2id$"@.is_prefix_of(h@.1)
                && argon2id_prefix(memory as nat, iterations as nat, parallelism as nat).is_prefix_of(h@.1)
                && argon2_check_spec(h@.1, encode_utf8(password@)) == Some(true),
            r matches Err(e) ==> e is HashingFailed,
    {
        match argon2id_hash(password.as_bytes(), memory, iterations, parallelism) {
            Ok(h) => Ok(Hash { algorithm: String::from_str("argon2"), hash: h }),
            Err(msg) => Err(HashError::HashingFailed(msg)),
        }
    }

    /// Create bcrypt hash with the default cost (12)
    pub fn bcrypt(password: &str) -> (r: Result<Self, HashError>)
        ensures
            r matches Ok(h) ==> h@.0 == "bcrypt"@ && "$2b$"@.is_prefix_of(h@.1)
                && bcrypt_prefix(12).is_prefix_of(h@.1)
                && bcrypt_check_spec(password@, h@.1) == Some(true),
            r matches Err(e) ==> e is HashingFailed,
    {
        Self::bcrypt_cost(password, 12)
    }

    /// Create bcrypt hash with custom cost (4 to 31)
    pub fn bcrypt_cost(password: &str, cost: u32) -> (r: Result<Self, HashError>)
        ensures
            (cost < 4 || cost > 31) ==> r is Err,
            r matches Ok(h) ==> h@.0 == "bcrypt"@ && "$2b$"@.is_prefix_of(h@.1)
                && bcrypt_prefix(cost as nat).is_prefix_of(h@.1)
                && bcrypt_check_spec(password@, h@.1) == Some(true),
            r matches Err(e) ==> e is HashingFailed,
    {
        match bcrypt_hash(password, cost) {
            Ok(h) => Ok(Hash { algorithm: String::from_str("bcrypt"), hash: h }),
            Err(e) => Err(HashError::HashingFailed(bcrypt_error_text(&e))),
        }
    }

    /// Verify plaintext against stored hash, by the algorithm the hash records
    pub fn verify(&self, plaintext: &str) -> (r: Result<bool, HashError>)
        ensures
            r == verify_spec(self@, plaintext@),
    {
        let argon2 = String::from_str("argon2");
        let bcrypt = String::from_str("bcrypt");
        if self.algorithm == argon2 {
            self.verify_argon2(plaintext)
        } else if self.algorithm == bcrypt {
            self.verify_bcrypt(plaintext)
        } else {
            Err(HashError::InvalidHash)
        }
    }

    /// Verify using Argon2
    fn verify_argon2(&self, plaintext: &str) -> (r: Result<bool, HashError>)
        ensures
            r == (match argon2_check_spec(self@.1, encode_utf8(plaintext@)) {
                Some(b) => Ok::<bool, HashError>(b),
                None => Err::<bool, HashError>(HashError::InvalidHash),
            }),
    {
        match argon2_check(self.hash.as_str(), plaintext.as_bytes()) {
            Ok(b) => Ok(b),
            Err(_) => Err(HashError::InvalidHash),
        }
    }

    /// Verify using bcrypt; a hash that bcrypt cannot read gives `false`
    fn verify_bcrypt(&self, plaintext: &str) -> (r: Result<bool, HashError>)
        ensures
            r == Ok::<bool, HashError>(bcrypt_check_spec(plaintext@, self@.1) == Some(true)),
    {
        match bcrypt_check(plaintext, self.hash.as_str()) {
            Ok(result) => Ok(result),
            Err(_) => Ok(false),
        }
    }

    /// Get the raw hash string (for storage)
    pub fn to_string(&self) -> (r: String)
        ensures
            r@ == self@.1,
    {
        self.hash.clone()
    }

    /// Parse hash from stored string, detecting the algorithm from its prefix
    pub fn from_string(s: &str) -> (r: Result<Self, HashError>)
        ensures
            r is Ok <==> detect_algorithm(s@) is Some,
            r matches Ok(h) ==> detect_algorithm(s@) == Some(h@.0) && h@.1 == s@,
            r matches Err(e) ==> e is InvalidHash,
    {
        let algorithm = if starts_with(s, "$argon2") {
            String::from_str("argon2")
        } else if starts_with(s, "$2a$") || starts_with(s, "$2b$") || starts_with(s, "$2y$") {
            String::from_str("bcrypt")
        } else {
            return Err(HashError::InvalidHash);
        };
        Ok(Hash { algorithm, hash: s.to_owned() })
    }
}

/// Convenience trait for one-liner hashing (Argon2) and verification
pub trait Hasher {
    fn hash(&self) -> Result<Hash, HashError>;

    fn verify(&self, hash: &Hash) -> Result<bool, HashError>;
}

impl Hasher for str {
    fn hash(&self) -> (r: Result<Hash, HashError>)
        ensures
            encode_utf8(self@).len() <= 0xFFFF_FFFF ==> r is Ok,
            r matches Ok(h) ==> h@.0 == "argon2"@ && "$argon2id$"@.is_prefix_of(h@.1)
                && argon2id_prefix(65536, 3, 4).is_prefix_of(h@.1)
                && argon2_check_spec(h@.1, encode_utf8(self@)) == Some(true),
            r matches Err(e) ==> e is HashingFailed,
    {
        Hash::argon2(self)
    }

    fn verify(&self, hash: &Hash) -> (r: Result<bool, HashError>)
        ensures
            r == verify_spec(hash@, self@),
    {
        hash.verify(self)
    }
}

impl Hasher for String {
    fn hash(&self) -> (r: Result<Hash, HashError>)
        ensures
            encode_utf8(self@).len() <= 0xFFFF_FFFF ==> r is Ok,
            r matches Ok(h) ==> h@.0 == "argon2"@ && "$argon2id$"@.is_prefix_of(h@.1)
                && argon2id_prefix(65536, 3, 4).is_prefix_of(h@.1)
                && argon2_check_spec(h@.1, encode_utf8(self@)) == Some(true),
            r matches Err(e) ==> e is HashingFailed,
    {
        Hash::argon2(self.as_str())
    }

    fn verify(&self, hash: &Hash) -> (r: Result<bool, HashError>)
        ensures
            r == verify_spec(hash@, self@),
    {
        hash.verify(self.as_str())
    }
}

/// A stored hash text that `argon2`, `argon2_custom`, `bcrypt` or `bcrypt_cost`
/// produced is read back by `from_string` with the same algorithm.
pub proof fn stored_hash_round_trip(algorithm: Seq<char>, text: Seq<char>)
    requires
        (algorithm == "argon2"@ && "$argon2id$"@.is_prefix_of(text))
            || (algorithm == "bcrypt"@ && "$2b$"@.is_prefix_of(text)),
    ensures
        detect_algorithm(text) == Some(algorithm),
{
    reveal_strlit("$argon2id$");
    reveal_strlit("$argon2");
    reveal_strlit("$2a$");
    reveal_strlit("$2b$");
    reveal_strlit("$2y$");
    reveal_strlit("argon2");
    reveal_strlit("bcrypt");
    assert("bcrypt"@[0] != "argon2"@[0]);
    if algorithm == "argon2"@ {
        assert(text.subrange(0, 10) =~= "$argon2id$"@);
        assert forall|k: int| 0 <= k < 7 implies text.subrange(0, 7)[k] == "$argon2"@[k] by {
            assert(text.subrange(0, 7)[k] == text[k]);
            assert(text.subrange(0, 10)[k] == text[k]);
        }
        assert("$argon2"@ =~= text.subrange(0, 7));
    } else {
        assert(text.subrange(0, 4) =~= "$2b$"@);
        assert(text.subrange(0, 4)[1] == text[1]);
        assert(!"$argon2"@.is_prefix_of(text)) by {
            if "$argon2"@.is_prefix_of(text) {
                assert(text.subrange(0, 7)[1] == text[1]);
            }
        }
    }
}

/// A password verifies against the Argon2 hash that was made from it.
pub proof fn argon2_hash_verifies(stored: (Seq<char>, Seq<char>), password: Seq<char>)
    requires
        stored.0 == "argon2"@,
        argon2_check_spec(stored.1, encode_utf8(password)) == Some(true),
    ensures
        verify_spec(stored, password) == Ok::<bool, HashError>(true),
{
}

/// A password verifies against the bcrypt hash that was made from it.
pub proof fn bcrypt_hash_verifies(stored: (Seq<char>, Seq<char>), password: Seq<char>)
    requires
        stored.0 == "bcrypt"@,
        bcrypt_check_spec(password, stored.1) == Some(true),
    ensures
        verify_spec(stored, password) == Ok::<bool, HashError>(true),
{
    reveal_strlit("argon2");
    reveal_strlit("bcrypt");
    assert("bcrypt"@[0] != "argon2"@[0]);
}

/// SHA-256 of the UTF-8 text, as 64 lower-case hexadecimal characters.
pub fn hash_sha256(input: &str) -> (r: String)
    ensures
        r@ == hex_str(sha256_spec(encode_utf8(input@))),
        r@.len() == 64,
{
    let digest = sha256(input.as_bytes());
    to_hex(digest.as_slice())
}

/// The characters of random strings.
pub open spec fn random_charset() -> Seq<char> {
    "ABCDEFGHIJKLMNOPQRSTUVWXYZabcdefghijklmnopqrstuvwxyz0123456789"@
}

/// Generate a secure random string (for OTPs, API keys, etc.)
/// Uses alphanumeric characters (A-Z, a-z, 0-9)
pub fn generate_random(length: usize) -> (r: String)
    ensures
        r@.len() == length,
        forall|i: int| 0 <= i < length ==> random_charset().contains(#[trigger] r@[i]),
{
    let charset = "ABCDEFGHIJKLMNOPQRSTUVWXYZabcdefghijklmnopqrstuvwxyz0123456789";
    proof { reveal_strlit("ABCDEFGHIJKLMNOPQRSTUVWXYZabcdefghijklmnopqrstuvwxyz0123456789"); }
    let n = charset.unicode_len();
    let mut s = String::new();
    for i in 0..length
        invariant
            n == 62,
            charset@ == random_charset(),
            charset@.len() == 62,
            s@.len() == i,
            forall|j: int| 0 <= j < i ==> random_charset().contains(#[trigger] s@[j]),
    {
        let idx = random_below(n);
        let c = charset.substring_char(idx, idx + 1);
        let ghost before = s@;
        s.append(c);
        assert(c@ =~= seq![charset@[idx as int]]);
        assert(s@ =~= before.push(charset@[idx as int]));
        assert forall|j: int| 0 <= j < i + 1 implies random_charset().contains(#[trigger] s@[j]) by {
            if j == i {
                assert(random_charset()[idx as int] == s@[j]);
            } else {
                assert(s@[j] == before[j]);
            }
        }
    }
    s
}

/// Generate a numeric OTP (e.g., 6 digits)
pub fn generate_otp(digits: usize) -> (r: String)
    ensures
        r@.len() == digits,
        forall|i: int| 0 <= i < digits ==> is_digit(#[trigger] r@[i]),
{
    let charset = "0123456789";
    proof { reveal_strlit("0123456789"); }
    let mut s = String::new();
    for i in 0..digits
        invariant
            charset@ == "0123456789"@,
            charset@.len() == 10,
            s@.len() == i,
            forall|j: int| 0 <= j < i ==> is_digit(#[trigger] s@[j]),
    {
        proof { reveal_strlit("0123456789"); }
        let idx = random_below(10);
        let c = charset.substring_char(idx, idx + 1);
        let ghost before = s@;
        s.append(c);
        assert(c@ =~= seq![charset@[idx as int]]);
        assert(s@ =~= before.push(charset@[idx as int]));
        assert forall|j: int| 0 <= j < i + 1 implies is_digit(#[trigger] s@[j]) by {
            if j == i {
                assert(s@[j] == charset@[idx as int]);
            } else {
                assert(s@[j] == before[j]);
            }
        }
    }
    s
}

/// Generate a hex string of `length` random bytes (for API keys, tokens)
pub fn generate_hex(length: usize) -> (r: String)
    ensures
        exists|bytes: Seq<u8>| bytes.len() == length && r@ == hex_str(bytes),
{
    let mut bytes: Vec<u8> = Vec::new();
    for i in 0..length
        invariant
            bytes@.len() == i,
    {
        bytes.push(random_byte());
    }
    to_hex(bytes.as_slice())
}

} // verus!
