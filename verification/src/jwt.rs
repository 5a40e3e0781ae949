//! JWT authentication: configuration, claims, and the decisions of the
//! authentication middleware (which header is accepted, what is answered).
//! Decoding and validating the token itself is done with `jsonwebtoken` where
//! the claims are deserialized.
use vstd::prelude::*;
use crate::text::starts_with;

verus! {

#[verifier::external_type_specification]
#[verifier::external_body]
pub struct ExJwtAlgorithm(jsonwebtoken::Algorithm);

/// The HMAC-SHA256 algorithm, `jsonwebtoken::Algorithm::HS256`.
#[verifier::external_body]
fn hs256() -> jsonwebtoken::Algorithm {
    jsonwebtoken::Algorithm::HS256
}

/// JWT configuration
#[derive(Debug)]
pub struct JwtConfig {
    pub secret: String,
    pub algorithm: jsonwebtoken::Algorithm,
    pub access_token_expire_minutes: i64,
}

impl JwtConfig {
    /// HS256 with tokens that expire after 60 minutes
    pub fn new(secret: &str) -> (r: Self)
        ensures
            r.secret@ == secret@,
            r.access_token_expire_minutes == 60,
    {
        JwtConfig { secret: secret.to_owned(), algorithm: hs256(), access_token_expire_minutes: 60 }
    }
}

/// Claims in JWT token
#[derive(Debug)]
pub struct Claims {
    pub sub: String,
    pub email: Option<String>,
    pub exp: i64,
    pub iat: i64,
}

/// Token information including raw token for session validation
#[derive(Debug)]
pub struct TokenInfo {
    pub claims: Claims,
    pub token: String,
}

#[derive(Debug, Clone, Copy, PartialEq, Eq, Structural)]
pub enum TokenType {
    Access,
    Refresh,
}

/// JWT Middleware for request authentication
pub struct JwtMiddleware {
    secret: String,
}

/// The first step of authenticating a request: answer it, or decode a token.
#[derive(Debug)]
pub enum AuthStep {
    /// Answer 401 with this message.
    Reject(String),
    /// Decode and validate this bearer token.
    Decode(String),
}

/// The bearer token of an `Authorization` header: what follows `Bearer `.
pub open spec fn bearer_token_spec(header: Option<Seq<char>>) -> Option<Seq<char>> {
    match header {
        Some(h) => if "Bearer "@.is_prefix_of(h) { Some(h.skip(7)) } else { None },
        None => None,
    }
}

impl JwtMiddleware {
    pub closed spec fn secret_spec(&self) -> Seq<char> {
        self.secret@
    }

    pub fn new(secret: String) -> (r: Self)
        ensures
            r.secret_spec() == secret@,
    {
        JwtMiddleware { secret }
    }

    pub fn from_secret(secret: &str) -> (r: Self)
        ensures
            r.secret_spec() == secret@,
    {
        Self::new(secret.to_owned())
    }

    /// The secret with which tokens are decoded.
    pub fn secret(&self) -> (r: &String)
        ensures
            r@ == self.secret_spec(),
    {
        &self.secret
    }

    /// Decides on a request from its `Authorization` header (`None` when it is
    /// missing or not text): a bearer token is to be decoded; anything else is
    /// answered "Missing Authorization header".
    pub fn begin(header: Option<&str>) -> (r: AuthStep)
        ensures
            (match bearer_token_spec(match header { Some(h) => Some(h@), None => None }) {
                Some(t) => r matches AuthStep::Decode(tok) && tok@ == t,
                None => r matches AuthStep::Reject(m) && m@ == "Missing Authorization header"@,
            }),
    {
        match header {
            Some(h) => {
                if starts_with(h, "Bearer ") {
                    proof { reveal_strlit("Bearer "); }
                    let n = h.unicode_len();
                    let tok = h.substring_char(7, n).to_owned();
                    assert(tok@ =~= h@.skip(7));
                    AuthStep::Decode(tok)
                } else {
                    AuthStep::Reject(String::from_str("Missing Authorization header"))
                }
            },
            None => AuthStep::Reject(String::from_str("Missing Authorization header")),
        }
    }

    /// Decides on a request once its token was decoded: valid claims are stored
    /// with the raw token; a decoding error `e` is answered
    /// "Invalid access token: e".
    pub fn finish(token: String, decoded: Result<Claims, String>) -> (r: Result<TokenInfo, String>)
        ensures
            decoded is Ok ==> (r matches Ok(info) && info.token == token && Ok::<Claims, String>(info.claims) == decoded),
            decoded matches Err(e) ==> (r matches Err(m) && m@ == "Invalid access token: "@ + e@),
    {
        match decoded {
            Ok(claims) => Ok(TokenInfo { claims, token }),
            Err(e) => {
                let mut m = String::from_str("Invalid access token: ");
                m.append(e.as_str());
                Err(m)
            },
        }
    }
}

} // verus!
