//! Request signing with HMAC-SHA256.
//!
//! A signature is `Base64(HMAC-SHA256(key, message + timestamp))`, made with a
//! 32-byte key: the HMAC is taken over the message followed by the decimal
//! timestamp. Verification recomputes it and also rejects signatures whose
//! timestamp lies further than the allowed age from the present.
use vstd::prelude::*;
use vstd::utf8::encode_utf8;
use hmac::Mac;
use crate::text::{
    int_str, i64_to_string, push_i64, str_eq, upper_spec, to_upper, parse_i64, parse_i64_spec, split_unique,
    split_unique_spec, has_occurrence, occurs_at, lemma_split_between, lemma_no_amp_no_occurrence,
    lemma_int_str_no_amp, lemma_parse_int_str,
};
use crate::codec::{base64_encode, base64_encode_spec, lemma_url_encode_no_amp, url_encode, url_encode_spec};
use crate::clock::{now_timestamp, random_key};

verus! {

/// What HMAC-SHA256 (the `hmac` crate over `sha2::Sha256`) gives for a key and data.
pub uninterp spec fn hmac_sha256_spec(key: Seq<u8>, data: Seq<u8>) -> Seq<u8>;

#[verifier::external_type_specification]
#[verifier::external_body]
pub struct ExInvalidLength(hmac::digest::InvalidLength);

/// HMAC-SHA256 through `Hmac::<Sha256>::new_from_slice`, `update` and `finalize`.
/// The tag is the named HMAC of the key and data, 32 bytes long. The `hmac`
/// source accepts keys of every length (longer keys are hashed first), so the
/// result is always `Ok`.
#[verifier::external_body]
fn hmac_sha256(key: &[u8], data: &[u8]) -> (r: Result<Vec<u8>, hmac::digest::InvalidLength>)
    ensures
        r is Ok,
        r matches Ok(tag) ==> tag@ == hmac_sha256_spec(key@, data@) && tag@.len() == 32,
{
    match <hmac::Hmac<sha2::Sha256> as Mac>::new_from_slice(key) {
        Ok(mut mac) => {
            mac.update(data);
            Ok(mac.finalize().into_bytes().to_vec())
        },
        Err(e) => Err(e),
    }
}

/// Errors that can occur during signing/verification
#[derive(Debug, Clone, Copy, PartialEq, Eq, Structural)]
pub enum SignatureError {
    InvalidKey,
    InvalidSignature,
    SignatureExpired,
    VerificationFailed,
}

impl SignatureError {
    pub open spec fn describe(self) -> Seq<char> {
        match self {
            SignatureError::InvalidKey => "Invalid key length"@,
            SignatureError::InvalidSignature => "Invalid signature format"@,
            SignatureError::SignatureExpired => "Signature has expired"@,
            SignatureError::VerificationFailed => "Signature verification failed"@,
        }
    }

    /// The human-readable description of the error.
    pub fn to_string(&self) -> (r: String)
        ensures
            r@ == self.describe(),
    {
        match self {
            SignatureError::InvalidKey => String::from_str("Invalid key length"),
            SignatureError::InvalidSignature => String::from_str("Invalid signature format"),
            SignatureError::SignatureExpired => String::from_str("Signature has expired"),
            SignatureError::VerificationFailed => String::from_str("Signature verification failed"),
        }
    }
}

/// The text that is signed for a message at a timestamp: the message followed
/// by the decimal timestamp.
pub open spec fn signing_text(message: Seq<char>, timestamp: i64) -> Seq<char> {
    message + int_str(timestamp as int)
}

/// The signature of a message at a timestamp under a key: the Base64 of the
/// HMAC-SHA256 of the UTF-8 signing text, for a key of exactly 32 bytes.
pub open spec fn sign_raw_spec(message: Seq<char>, timestamp: i64, key: Seq<u8>) -> Result<Seq<char>, SignatureError> {
    if key.len() != 32 {
        Err(SignatureError::InvalidKey)
    } else {
        Ok(base64_encode_spec(hmac_sha256_spec(key, encode_utf8(signing_text(message, timestamp)))))
    }
}

/// The timestamp lies no further than `max_age_minutes` minutes from `now`, in either direction.
pub open spec fn within_age(timestamp: i64, now: i64, max_age_minutes: i64) -> bool {
    let age = now - timestamp;
    (if age < 0 { -age } else { age }) <= max_age_minutes * 60
}

/// The outcome of checking a signature of a message, made at `timestamp`, at the instant `now`.
pub open spec fn check_spec(
    signature: Seq<char>,
    message: Seq<char>,
    timestamp: i64,
    key: Seq<u8>,
    max_age_minutes: i64,
    now: i64,
) -> Result<bool, SignatureError> {
    if !within_age(timestamp, now, max_age_minutes) {
        Err(SignatureError::SignatureExpired)
    } else {
        match sign_raw_spec(message, timestamp, key) {
            Ok(expected) => Ok(signature == expected),
            Err(e) => Err(e),
        }
    }
}

/// Whether a timestamp is within the allowed age at `now` (computed without overflow).
fn is_within_age(timestamp: i64, now: i64, max_age_minutes: i64) -> (r: bool)
    ensures
        r == within_age(timestamp, now, max_age_minutes),
{
    let age: i128 = now as i128 - timestamp as i128;
    let abs_age: i128 = if age < 0 { -age } else { age };
    abs_age <= max_age_minutes as i128 * 60
}

/// Signature container with timestamp
#[derive(Debug, Clone)]
pub struct Signature {
    pub signature: String,
    pub timestamp: i64,
    pub nonce: Option<String>,
}

impl Signature {
    /// Create a new signature
    pub fn new(signature: String, timestamp: i64) -> (r: Self)
        ensures
            r.signature == signature,
            r.timestamp == timestamp,
            r.nonce is None,
    {
        Signature { signature, timestamp, nonce: None }
    }

    /// Create with a nonce (for replay protection)
    pub fn with_nonce(signature: String, timestamp: i64, nonce: String) -> (r: Self)
        ensures
            r.signature == signature,
            r.timestamp == timestamp,
            r.nonce == Some(nonce),
    {
        Signature { signature, timestamp, nonce: Some(nonce) }
    }

    /// Verifies the signature of `message` as of the instant `now`.
    pub fn verify_at(&self, message: &str, key: &[u8], max_age_minutes: i64, now: i64) -> (r: Result<bool, SignatureError>)
        ensures
            r == check_spec(self.signature@, message@, self.timestamp, key@, max_age_minutes, now),
    {
        check(self.signature.as_str(), message, self.timestamp, key, max_age_minutes, now)
    }

    /// Verifies the signature of `message` as of the present instant.
    pub fn verify(&self, message: &str, key: &[u8], max_age_minutes: i64) -> (r: Result<bool, SignatureError>)
        ensures
            exists|now: i64| r == check_spec(self.signature@, message@, self.timestamp, key@, max_age_minutes, now),
    {
        let now = now_timestamp();
        self.verify_at(message, key, max_age_minutes, now)
    }
}

/// Computes the signature of `message` at `timestamp` under `key`.
pub(crate) fn sign_raw(message: &str, timestamp: i64, key: &[u8]) -> (r: Result<String, SignatureError>)
    ensures
        r matches Ok(s) ==> sign_raw_spec(message@, timestamp, key@) == Ok::<Seq<char>, SignatureError>(s@),
        r matches Err(e) ==> sign_raw_spec(message@, timestamp, key@) == Err::<Seq<char>, SignatureError>(e),
{
    if key.len() != 32 {
        return Err(SignatureError::InvalidKey);
    }
    let mut data = message.to_owned();
    push_i64(&mut data, timestamp);
    assert(data@ =~= signing_text(message@, timestamp));
    let tag = match hmac_sha256(key, data.as_str().as_bytes()) {
        Ok(t) => t,
        Err(_) => return Err(SignatureError::InvalidKey),
    };
    Ok(base64_encode(tag.as_slice()))
}

/// Checks `signature` against the signature of `message` at `timestamp`, as of `now`.
fn check(
    signature: &str,
    message: &str,
    timestamp: i64,
    key: &[u8],
    max_age_minutes: i64,
    now: i64,
) -> (r: Result<bool, SignatureError>)
    ensures
        r == check_spec(signature@, message@, timestamp, key@, max_age_minutes, now),
{
    if !is_within_age(timestamp, now, max_age_minutes) {
        return Err(SignatureError::SignatureExpired);
    }
    match sign_raw(message, timestamp, key) {
        Ok(expected) => Ok(str_eq(signature, expected.as_str())),
        Err(e) => Err(e),
    }
}

/// Signer for creating request signatures
pub struct Signer;

impl Signer {
    /// Generate a random 32-byte key
    pub fn generate_key() -> (r: [u8; 32])
        ensures
            r@.len() == 32,
    {
        random_key()
    }

    /// Generate key as base64 string (for storage)
    pub fn generate_key_base64() -> (r: String)
        ensures
            exists|k: Seq<u8>| k.len() == 32 && r@ == base64_encode_spec(k),
    {
        let key = Self::generate_key();
        base64_encode(&key)
    }

    /// Signs `message` with the timestamp `now`.
    pub fn sign_at(message: &str, key: &[u8], now: i64) -> (r: Result<Signature, SignatureError>)
        ensures
            r is Ok <==> key@.len() == 32,
            r matches Ok(sig) ==> sig.timestamp == now && sig.nonce is None
                && sign_raw_spec(message@, now, key@) == Ok::<Seq<char>, SignatureError>(sig.signature@),
            r matches Err(e) ==> e == SignatureError::InvalidKey,
    {
        let signature = sign_raw(message, now, key)?;
        Ok(Signature::new(signature, now))
    }

    /// Sign a message with the current timestamp
    pub fn sign(message: &str, key: &[u8]) -> (r: Result<Signature, SignatureError>)
        ensures
            r is Ok <==> key@.len() == 32,
            r matches Ok(sig) ==> sig.nonce is None
                && sign_raw_spec(message@, sig.timestamp, key@) == Ok::<Seq<char>, SignatureError>(sig.signature@),
            r matches Err(e) ==> e == SignatureError::InvalidKey,
    {
        let now = now_timestamp();
        Self::sign_at(message, key, now)
    }

    /// Signs `message` together with a nonce at the timestamp `now`: the signed
    /// message is `"<message>:<timestamp>:<nonce>"`.
    pub fn sign_with_nonce_at(message: &str, key: &[u8], nonce: &str, now: i64) -> (r: Result<Signature, SignatureError>)
        ensures
            r is Ok <==> key@.len() == 32,
            r matches Ok(sig) ==> sig.timestamp == now && (sig.nonce matches Some(n) && n@ == nonce@)
                && sign_raw_spec(nonce_message(message@, now, nonce@), now, key@)
                    == Ok::<Seq<char>, SignatureError>(sig.signature@),
            r matches Err(e) ==> e == SignatureError::InvalidKey,
    {
        let mut text = message.to_owned();
        proof { reveal_strlit(":"); }
        text.append(":");
        push_i64(&mut text, now);
        text.append(":");
        text.append(nonce);
        assert(text@ =~= nonce_message(message@, now, nonce@));
        let signature = sign_raw(text.as_str(), now, key)?;
        Ok(Signature::with_nonce(signature, now, nonce.to_owned()))
    }

    /// Sign with a nonce for extra replay protection
    pub fn sign_with_nonce(message: &str, key: &[u8], nonce: &str) -> (r: Result<Signature, SignatureError>)
        ensures
            r is Ok <==> key@.len() == 32,
            r matches Ok(sig) ==> (sig.nonce matches Some(n) && n@ == nonce@)
                && sign_raw_spec(nonce_message(message@, sig.timestamp, nonce@), sig.timestamp, key@)
                    == Ok::<Seq<char>, SignatureError>(sig.signature@),
            r matches Err(e) ==> e == SignatureError::InvalidKey,
    {
        let now = now_timestamp();
        Self::sign_with_nonce_at(message, key, nonce, now)
    }

    /// Verifies a signature as of the instant `now`: the same check as
    /// `Signature::verify_at` at that instant.
    pub fn verify_at(message: &str, signature: &Signature, key: &[u8], max_age_minutes: i64, now: i64) -> (r: Result<bool, SignatureError>)
        ensures
            r == check_spec(signature.signature@, message@, signature.timestamp, key@, max_age_minutes, now),
    {
        signature.verify_at(message, key, max_age_minutes, now)
    }

    /// Verify a signature
    pub fn verify(message: &str, signature: &Signature, key: &[u8], max_age_minutes: i64) -> (r: Result<bool, SignatureError>)
        ensures
            exists|now: i64| r == check_spec(signature.signature@, message@, signature.timestamp, key@, max_age_minutes, now),
    {
        let now = now_timestamp();
        Self::verify_at(message, signature, key, max_age_minutes, now)
    }

    /// Checks a bare signature text of `message` made at `timestamp`, as of `now`.
    pub fn quick_verify_at(
        message: &str,
        signature: &str,
        timestamp: i64,
        key: &[u8],
        max_age_minutes: i64,
        now: i64,
    ) -> (r: Result<bool, SignatureError>)
        ensures
            r == check_spec(signature@, message@, timestamp, key@, max_age_minutes, now),
    {
        check(signature, message, timestamp, key, max_age_minutes, now)
    }

    /// Quick verify without Signature struct
    pub fn quick_verify(
        message: &str,
        signature: &str,
        timestamp: i64,
        key: &[u8],
        max_age_minutes: i64,
    ) -> (r: Result<bool, SignatureError>)
        ensures
            exists|now: i64| r == check_spec(signature@, message@, timestamp, key@, max_age_minutes, now),
    {
        let now = now_timestamp();
        Self::quick_verify_at(message, signature, timestamp, key, max_age_minutes, now)
    }
}

/// The message that `sign_with_nonce` signs: `"<message>:<timestamp>:<nonce>"`.
pub open spec fn nonce_message(message: Seq<char>, timestamp: i64, nonce: Seq<char>) -> Seq<char> {
    message + seq![':'] + int_str(timestamp as int) + seq![':'] + nonce
}


/// The view of an optional text.
pub open spec fn opt_view(o: Option<String>) -> Option<Seq<char>> {
    match o {
        Some(s) => Some(s@),
        None => None,
    }
}

/// The canonical message of a request: `method|path`, then `|?query` when there
/// is a query, then `|body` when there is a body.
pub open spec fn request_message(
    method: Seq<char>,
    path: Seq<char>,
    query: Option<Seq<char>>,
    body: Option<Seq<char>>,
) -> Seq<char> {
    let base = method + seq!['|'] + path;
    let with_query = match query {
        Some(q) => base + seq!['|', '?'] + q,
        None => base,
    };
    match body {
        Some(b) => with_query + seq!['|'] + b,
        None => with_query,
    }
}

/// Builder for creating signed requests
#[derive(Debug, Clone)]
pub struct SignedRequest {
    pub method: String,
    pub path: String,
    pub body: Option<String>,
    pub query: Option<String>,
    pub timestamp: i64,
    pub signature: String,
}

impl SignedRequest {
    /// The canonical message that is signed for this request.
    pub open spec fn message_spec(&self) -> Seq<char> {
        request_message(self.method@, self.path@, opt_view(self.query), opt_view(self.body))
    }

    /// A request for `method` (upper-cased) and `path`, stamped with `now`, not yet signed.
    pub fn new_at(method: &str, path: &str, now: i64) -> (r: Self)
        ensures
            r.method@ == upper_spec(method@),
            r.path@ == path@,
            r.body is None,
            r.query is None,
            r.timestamp == now,
            r.signature@ == Seq::<char>::empty(),
    {
        SignedRequest {
            method: to_upper(method),
            path: path.to_owned(),
            body: None,
            query: None,
            timestamp: now,
            signature: String::new(),
        }
    }

    /// Create a new signed request
    pub fn new(method: &str, path: &str) -> (r: Self)
        ensures
            r.method@ == upper_spec(method@),
            r.path@ == path@,
            r.body is None,
            r.query is None,
            r.signature@ == Seq::<char>::empty(),
    {
        let now = now_timestamp();
        Self::new_at(method, path, now)
    }

    /// Add query parameters
    pub fn with_query(self, query: &str) -> (r: Self)
        ensures
            r.method == self.method,
            r.path == self.path,
            r.body == self.body,
            r.query matches Some(q) && q@ == query@,
            r.timestamp == self.timestamp,
            r.signature == self.signature,
    {
        let mut s = self;
        s.query = Some(query.to_owned());
        s
    }

    /// Add request body
    pub fn with_body(self, body: &str) -> (r: Self)
        ensures
            r.method == self.method,
            r.path == self.path,
            r.body matches Some(b) && b@ == body@,
            r.query == self.query,
            r.timestamp == self.timestamp,
            r.signature == self.signature,
    {
        let mut s = self;
        s.body = Some(body.to_owned());
        s
    }

    /// Sign the request
    pub fn sign(self, key: &[u8]) -> (r: Result<Self, SignatureError>)
        ensures
            r is Ok <==> key@.len() == 32,
            r matches Ok(signed) ==> signed.method == self.method && signed.path == self.path
                && signed.body == self.body && signed.query == self.query
                && signed.timestamp == self.timestamp
                && sign_raw_spec(self.message_spec(), self.timestamp, key@)
                    == Ok::<Seq<char>, SignatureError>(signed.signature@),
            r matches Err(e) ==> e == SignatureError::InvalidKey,
    {
        let message = self.build_message()?;
        let signature = sign_raw(message.as_str(), self.timestamp, key)?;
        let mut s = self;
        s.signature = signature;
        Ok(s)
    }

    /// Build canonical message string
    fn build_message(&self) -> (r: Result<String, SignatureError>)
        ensures
            r matches Ok(m) && m@ == self.message_spec(),
    {
        let mut m = self.method.clone();
        proof { reveal_strlit("|"); reveal_strlit("|?"); }
        m.append("|");
        m.append(self.path.as_str());
        match &self.query {
            Some(q) => {
                m.append("|?");
                m.append(q.as_str());
            },
            None => {},
        }
        match &self.body {
            Some(b) => {
                m.append("|");
                m.append(b.as_str());
            },
            None => {},
        }
        assert(m@ =~= self.message_spec());
        Ok(m)
    }

    /// Verifies the request as of the instant `now`.
    pub fn verify_at(&self, key: &[u8], max_age_minutes: i64, now: i64) -> (r: Result<bool, SignatureError>)
        ensures
            r == check_spec(self.signature@, self.message_spec(), self.timestamp, key@, max_age_minutes, now),
    {
        if !is_within_age(self.timestamp, now, max_age_minutes) {
            return Err(SignatureError::SignatureExpired);
        }
        let message = self.build_message()?;
        check(self.signature.as_str(), message.as_str(), self.timestamp, key, max_age_minutes, now)
    }

    /// Verify the request
    pub fn verify(&self, key: &[u8], max_age_minutes: i64) -> (r: Result<bool, SignatureError>)
        ensures
            exists|now: i64| r == check_spec(self.signature@, self.message_spec(), self.timestamp, key@, max_age_minutes, now),
    {
        let now = now_timestamp();
        self.verify_at(key, max_age_minutes, now)
    }
}

/// One query parameter, percent-encoded: `key=value`.
pub open spec fn param_text(p: (&str, &str)) -> Seq<char> {
    url_encode_spec(p.0@) + seq!['='] + url_encode_spec(p.1@)
}

/// The query string of parameters: their encodings joined with `&`.
pub open spec fn query_text(params: Seq<(&str, &str)>) -> Seq<char>
    decreases params.len(),
{
    if params.len() == 0 {
        seq![]
    } else if params.len() == 1 {
        param_text(params[0])
    } else {
        query_text(params.drop_last()) + seq!['&'] + param_text(params.last())
    }
}

/// The signed query string for `path` and `params` at `now`:
/// `<query>&signature=<encoded signature>&timestamp=<now>`, where the signed
/// message is `<path>?<query>`.
pub open spec fn signed_url_spec(path: Seq<char>, params: Seq<(&str, &str)>, key: Seq<u8>, now: i64) -> Result<Seq<char>, SignatureError> {
    let query = query_text(params);
    match sign_raw_spec(path + seq!['?'] + query, now, key) {
        Ok(sig) => Ok(query + "&signature="@ + url_encode_spec(sig) + "&timestamp="@ + int_str(now as int)),
        Err(e) => Err(e),
    }
}

/// The outcome of checking a signature parameter of a signed URL, as it
/// travels in the URL (percent-encoded), against the signature of `message`
/// at `timestamp`, at the instant `now`.
pub open spec fn check_encoded_spec(
    signature: Seq<char>,
    message: Seq<char>,
    timestamp: i64,
    key: Seq<u8>,
    max_age_minutes: i64,
    now: i64,
) -> Result<bool, SignatureError> {
    if !within_age(timestamp, now, max_age_minutes) {
        Err(SignatureError::SignatureExpired)
    } else {
        match sign_raw_spec(message, timestamp, key) {
            Ok(expected) => Ok(signature == url_encode_spec(expected)),
            Err(e) => Err(e),
        }
    }
}

/// The outcome of checking a signed query string for `path` at `now`: the
/// string must hold `&signature=` once, the rest must hold `&timestamp=` once,
/// and the timestamp must parse; then the signature parameter is checked, in
/// its percent-encoded form, against the message `<path>?<query>`.
pub open spec fn verify_url_spec(path: Seq<char>, query_with_signature: Seq<char>, key: Seq<u8>, max_age_minutes: i64, now: i64) -> Result<bool, SignatureError> {
    match split_unique_spec(query_with_signature, "&signature="@) {
        None => Err(SignatureError::InvalidSignature),
        Some((query, rest)) => match split_unique_spec(rest, "&timestamp="@) {
            None => Err(SignatureError::InvalidSignature),
            Some((signature, stamp)) => match parse_i64_spec(stamp) {
                None => Err(SignatureError::InvalidSignature),
                Some(timestamp) => check_encoded_spec(signature, path + seq!['?'] + query, timestamp, key, max_age_minutes, now),
            },
        },
    }
}

/// Builds the signed query string for `path` and `params`, stamped with `now`.
/// Where the query holds no `&signature=` of its own (no parameter after the
/// first is named `signature`), the string verifies for `path` and `key` at
/// every instant within the allowed age of `now`.
pub fn create_signed_url_at(path: &str, params: &[(&str, &str)], key: &[u8], now: i64) -> (r: Result<String, SignatureError>)
    ensures
        r matches Ok(u) ==> signed_url_spec(path@, params@, key@, now) == Ok::<Seq<char>, SignatureError>(u@),
        r matches Err(e) ==> signed_url_spec(path@, params@, key@, now) == Err::<Seq<char>, SignatureError>(e),
        r is Ok <==> key@.len() == 32,
        r matches Ok(u) ==> (!has_occurrence(query_text(params@), "&signature="@) ==>
            forall|t: i64, max_age_minutes: i64| within_age(now, t, max_age_minutes) ==>
                #[trigger] verify_url_spec(path@, u@, key@, max_age_minutes, t) == Ok::<bool, SignatureError>(true)),
{
    let mut query = String::new();
    let n = params.len();
    proof { reveal_strlit("&"); reveal_strlit("="); reveal_strlit("?"); }
    for i in 0..n
        invariant
            n == params@.len(),
            query@ == query_text(params@.take(i as int)),
    {
        let ghost prev = params@.take(i as int);
        let ghost next = params@.take(i + 1);
        let ghost q0 = query@;
        assert(next.drop_last() =~= prev);
        let (k, v) = params[i];
        assert(next.last() == (k, v));
        proof { reveal_strlit("&"); reveal_strlit("="); }
        if i > 0 {
            query.append("&");
        }
        let ek = url_encode(k);
        let ev = url_encode(v);
        query.append(ek.as_str());
        query.append("=");
        query.append(ev.as_str());
        proof {
            assert(param_text((k, v)) == ek@ + seq!['='] + ev@);
            if i == 0 {
                assert(q0.len() == 0);
                assert(query@ =~= param_text(next[0]));
            } else {
                assert(query@ =~= q0 + seq!['&'] + (ek@ + seq!['='] + ev@));
                assert(query@ =~= query_text(prev) + seq!['&'] + param_text(next.last()));
            }
        }
    }
    assert(params@.take(n as int) =~= params@);
    let mut full = path.to_owned();
    full.append("?");
    full.append(query.as_str());
    assert(full@ =~= path@ + seq!['?'] + query@);
    let signature = Signer::sign_at(full.as_str(), key, now)?;
    proof { reveal_strlit("&signature="); reveal_strlit("&timestamp="); }
    let mut url = query;
    url.append("&signature=");
    let es = url_encode(signature.signature.as_str());
    url.append(es.as_str());
    url.append("&timestamp=");
    push_i64(&mut url, now);
    assert(url@ =~= query@ + "&signature="@ + url_encode_spec(signature.signature@) + "&timestamp="@ + int_str(now as int));
    proof {
        let sig_pat = "&signature="@;
        let ts_pat = "&timestamp="@;
        let ts = int_str(now as int);
        lemma_int_str_no_amp(now as int);
        lemma_url_encode_no_amp(signature.signature@);
        lemma_no_amp_no_occurrence(es@, ts_pat);
        lemma_no_amp_no_occurrence(ts, ts_pat);
        lemma_split_between(es@, ts_pat, ts);
        let b = es@ + ts_pat + ts;
        assert(!has_occurrence(b, sig_pat)) by {
            assert forall|i: int| !#[trigger] occurs_at(b, sig_pat, i) by {
                if occurs_at(b, sig_pat, i) {
                    let w = b.subrange(i, i + sig_pat.len());
                    assert(w[0] == b[i]);
                    assert(w[1] == b[i + 1]);
                    let e = es@.len() as int;
                    if i < e {
                        assert(b[i] == es@[i]);
                    } else if i == e {
                        assert(b[i + 1] == ts_pat[1]);
                    } else if i < e + ts_pat.len() {
                        assert(b[i] == ts_pat[i - e]);
                    } else {
                        assert(b[i] == ts[i - e - ts_pat.len()]);
                    }
                }
            }
        }
        if !has_occurrence(query_text(params@), sig_pat) {
            lemma_split_between(query@, sig_pat, b);
            assert(url@ =~= query@ + sig_pat + b);
            lemma_parse_int_str(now);
        }
    }
    Ok(url)
}

/// Utility to create URL-safe signed query strings
pub fn create_signed_url(path: &str, params: &[(&str, &str)], key: &[u8]) -> (r: Result<String, SignatureError>)
    ensures
        exists|now: i64| #![trigger signed_url_spec(path@, params@, key@, now)] {
            &&& r matches Ok(u) ==> signed_url_spec(path@, params@, key@, now) == Ok::<Seq<char>, SignatureError>(u@)
            &&& r matches Err(e) ==> signed_url_spec(path@, params@, key@, now) == Err::<Seq<char>, SignatureError>(e)
            &&& r matches Ok(u) ==> (!has_occurrence(query_text(params@), "&signature="@) ==>
                forall|t: i64, max_age_minutes: i64| within_age(now, t, max_age_minutes) ==>
                    #[trigger] verify_url_spec(path@, u@, key@, max_age_minutes, t) == Ok::<bool, SignatureError>(true))
        },
        r is Ok <==> key@.len() == 32,
{
    let now = now_timestamp();
    create_signed_url_at(path, params, key, now)
}

/// Checks a signed query string for `path` as of the instant `now`.
pub fn verify_signed_url_at(path: &str, query_with_signature: &str, key: &[u8], max_age_minutes: i64, now: i64) -> (r: Result<bool, SignatureError>)
    ensures
        r == verify_url_spec(path@, query_with_signature@, key@, max_age_minutes, now),
{
    let (query, rest) = match split_unique(query_with_signature, "&signature=") {
        Some(p) => p,
        None => return Err(SignatureError::InvalidSignature),
    };
    let (signature, stamp) = match split_unique(rest.as_str(), "&timestamp=") {
        Some(p) => p,
        None => return Err(SignatureError::InvalidSignature),
    };
    let timestamp = match parse_i64(stamp.as_str()) {
        Some(t) => t,
        None => return Err(SignatureError::InvalidSignature),
    };
    let mut full = path.to_owned();
    proof { reveal_strlit("?"); }
    full.append("?");
    full.append(query.as_str());
    assert(full@ =~= path@ + seq!['?'] + query@);
    if !is_within_age(timestamp, now, max_age_minutes) {
        return Err(SignatureError::SignatureExpired);
    }
    match sign_raw(full.as_str(), timestamp, key) {
        Ok(expected) => {
            let encoded = url_encode(expected.as_str());
            Ok(str_eq(signature.as_str(), encoded.as_str()))
        },
        Err(e) => Err(e),
    }
}

/// Verify a signed URL query string
pub fn verify_signed_url(path: &str, query_with_signature: &str, key: &[u8], max_age_minutes: i64) -> (r: Result<bool, SignatureError>)
    ensures
        exists|now: i64| r == verify_url_spec(path@, query_with_signature@, key@, max_age_minutes, now),
{
    let now = now_timestamp();
    verify_signed_url_at(path, query_with_signature, key, max_age_minutes, now)
}

/// A signature made with a 32-byte key verifies for the same message and key
/// at every instant within the allowed age of its timestamp.
pub proof fn signature_round_trip(message: Seq<char>, key: Seq<u8>, timestamp: i64, now: i64, max_age_minutes: i64)
    requires
        key.len() == 32,
        within_age(timestamp, now, max_age_minutes),
    ensures
        sign_raw_spec(message, timestamp, key) is Ok,
        check_spec(sign_raw_spec(message, timestamp, key)->Ok_0, message, timestamp, key, max_age_minutes, now) == Ok::<bool, SignatureError>(true),
{
}

/// Every check outside the allowed age fails with `SignatureExpired`, whatever
/// the signature, message and key.
pub proof fn stale_signature_expires(signature: Seq<char>, message: Seq<char>, key: Seq<u8>, timestamp: i64, now: i64, max_age_minutes: i64)
    requires
        !within_age(timestamp, now, max_age_minutes),
    ensures
        check_spec(signature, message, timestamp, key, max_age_minutes, now) == Err::<bool, SignatureError>(SignatureError::SignatureExpired),
{
}

/// A key whose length is not 32 bytes is refused with `InvalidKey` by every
/// check within the allowed age.
pub proof fn wrong_length_key_refused(signature: Seq<char>, message: Seq<char>, key: Seq<u8>, timestamp: i64, now: i64, max_age_minutes: i64)
    requires
        key.len() != 32,
        within_age(timestamp, now, max_age_minutes),
    ensures
        check_spec(signature, message, timestamp, key, max_age_minutes, now) == Err::<bool, SignatureError>(SignatureError::InvalidKey),
{
}

/// A signature made with a nonce verifies, with the same key, for the message
/// `"<message>:<timestamp>:<nonce>"` that binds the nonce, at every instant
/// within the allowed age of its timestamp.
pub proof fn nonce_signature_round_trip(
    message: Seq<char>,
    nonce: Seq<char>,
    key: Seq<u8>,
    timestamp: i64,
    now: i64,
    max_age_minutes: i64,
)
    requires
        key.len() == 32,
        within_age(timestamp, now, max_age_minutes),
    ensures
        sign_raw_spec(nonce_message(message, timestamp, nonce), timestamp, key) is Ok,
        check_spec(
            sign_raw_spec(nonce_message(message, timestamp, nonce), timestamp, key)->Ok_0,
            nonce_message(message, timestamp, nonce),
            timestamp,
            key,
            max_age_minutes,
            now,
        ) == Ok::<bool, SignatureError>(true),
{
    signature_round_trip(nonce_message(message, timestamp, nonce), key, timestamp, now, max_age_minutes);
}

/// The canonical message of a request with a body ends with `|` and the body:
/// it is the message of the same request without the body, then `|`, then the
/// body.
pub proof fn request_message_ends_with_body(
    method: Seq<char>,
    path: Seq<char>,
    query: Option<Seq<char>>,
    body: Seq<char>,
)
    ensures
        request_message(method, path, query, Some(body))
            == request_message(method, path, query, None) + seq!['|'] + body,
        (seq!['|'] + body).is_suffix_of(request_message(method, path, query, Some(body))),
{
    let m = request_message(method, path, query, Some(body));
    let w = request_message(method, path, query, None);
    assert(m =~= w + (seq!['|'] + body));
    assert(m.subrange(m.len() - (body.len() + 1), m.len() as int) =~= seq!['|'] + body);
}

/// Two requests that differ only in their body (one body against another, or
/// a body against none) have different canonical messages, so a signature of
/// one is not the signature of the other's message.
pub proof fn request_body_changes_message(
    method: Seq<char>,
    path: Seq<char>,
    query: Option<Seq<char>>,
    body1: Option<Seq<char>>,
    body2: Option<Seq<char>>,
)
    requires
        body1 != body2,
    ensures
        request_message(method, path, query, body1) != request_message(method, path, query, body2),
{
    let w = request_message(method, path, query, None);
    match (body1, body2) {
        (Some(b1), Some(b2)) => {
            request_message_ends_with_body(method, path, query, b1);
            request_message_ends_with_body(method, path, query, b2);
            let m1 = w + seq!['|'] + b1;
            let m2 = w + seq!['|'] + b2;
            if m1 == m2 {
                assert(b1.len() == b2.len());
                assert forall|i: int| 0 <= i < b1.len() implies b1[i] == b2[i] by {
                    assert(m1[w.len() + 1 + i] == b1[i]);
                    assert(m2[w.len() + 1 + i] == b2[i]);
                }
                assert(b1 =~= b2);
            }
        },
        (Some(b1), None) => {
            request_message_ends_with_body(method, path, query, b1);
            assert((w + seq!['|'] + b1).len() > w.len());
        },
        (None, Some(b2)) => {
            request_message_ends_with_body(method, path, query, b2);
            assert((w + seq!['|'] + b2).len() > w.len());
        },
        (None, None) => {},
    }
}

/// The canonical message of a request starts with its method, `|` and its
/// path, and a query follows them as `|?` and the query.
pub proof fn request_message_head(method: Seq<char>, path: Seq<char>, query: Seq<char>)
    ensures
        request_message(method, path, None, None) == method + seq!['|'] + path,
        request_message(method, path, Some(query), None)
            == request_message(method, path, None, None) + seq!['|', '?'] + query,
{
}

/// The allowed age reaches the same number of minutes on either side of the
/// timestamp, bounds included: at exactly `max_age_minutes` minutes before or
/// after it a signature is in time, one second further it is not.
pub proof fn allowed_age_bounds(timestamp: i64, max_age_minutes: i64)
    requires
        0 <= max_age_minutes <= 1_000_000_000,
        -1_000_000_000_000 <= timestamp <= 1_000_000_000_000,
    ensures
        within_age(timestamp, (timestamp + max_age_minutes * 60) as i64, max_age_minutes),
        within_age(timestamp, (timestamp - max_age_minutes * 60) as i64, max_age_minutes),
        !within_age(timestamp, (timestamp + max_age_minutes * 60 + 1) as i64, max_age_minutes),
        !within_age(timestamp, (timestamp - max_age_minutes * 60 - 1) as i64, max_age_minutes),
        within_age(timestamp, timestamp, max_age_minutes),
{
}

} // verus!
