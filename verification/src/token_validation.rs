//! Token validation helpers: the error answered for an invalid token and the
//! token information extracted from an authenticated request.
use vstd::prelude::*;
use vstd::utf8::encode_utf8;
use crate::hash::{hash_sha256, sha256_spec};
use crate::jwt::TokenInfo;
use crate::text::hex_str;

verus! {

/// Response structure for invalid token errors
#[derive(Debug)]
pub struct TokenValidationError {
    pub message: String,
    pub status_code: u16,
}

impl TokenValidationError {
    /// 401 Unauthorized with the given message
    pub fn unauthorized(msg: &str) -> (r: Self)
        ensures
            r.message@ == msg@,
            r.status_code == 401,
    {
        TokenValidationError { message: msg.to_owned(), status_code: 401 }
    }

    /// 400 Bad Request with the given message
    pub fn bad_request(msg: &str) -> (r: Self)
        ensures
            r.message@ == msg@,
            r.status_code == 400,
    {
        TokenValidationError { message: msg.to_owned(), status_code: 400 }
    }

    /// 500 Internal Server Error with the given message
    pub fn internal_error(msg: &str) -> (r: Self)
        ensures
            r.message@ == msg@,
            r.status_code == 500,
    {
        TokenValidationError { message: msg.to_owned(), status_code: 500 }
    }

    /// The error's display text: its message.
    pub fn to_string(&self) -> (r: String)
        ensures
            r@ == self.message@,
    {
        self.message.clone()
    }
}

/// Token info extracted from request
#[derive(Debug)]
pub struct ExtractedTokenInfo {
    pub raw_token: String,
    pub token_hash: String,
    pub user_id: String,
}

impl ExtractedTokenInfo {
    /// Create from raw token and user_id; the hash is the hexadecimal SHA-256 of the token
    pub fn new(raw_token: String, user_id: String) -> (r: Self)
        ensures
            r.raw_token == raw_token,
            r.user_id == user_id,
            r.token_hash@ == hex_str(sha256_spec(encode_utf8(raw_token@))),
            r.token_hash@.len() == 64,
    {
        let token_hash = hash_sha256(raw_token.as_str());
        ExtractedTokenInfo { raw_token, token_hash, user_id }
    }
}

/// The token information of an authenticated request, given the information
/// that the JWT middleware stored on it (`None` where it stored none).
pub fn validate_token_extraction(token_info: Option<&TokenInfo>) -> (r: Result<ExtractedTokenInfo, TokenValidationError>)
    ensures
        token_info is None ==> (r matches Err(e) && e.status_code == 401 && e.message@ == "Invalid or missing token"@),
        token_info matches Some(t) ==> (r matches Ok(x) && x.raw_token@ == t.token@ && x.user_id@ == t.claims.sub@
            && x.token_hash@ == hex_str(sha256_spec(encode_utf8(t.token@)))),
{
    match token_info {
        None => Err(TokenValidationError::unauthorized("Invalid or missing token")),
        Some(info) => Ok(ExtractedTokenInfo::new(info.token.clone(), info.claims.sub.clone())),
    }
}

} // verus!
