use paykit::jwt::{AuthStep, Claims, JwtConfig, JwtMiddleware};

#[test]
fn bearer_header_asks_for_decoding() {
    match JwtMiddleware::begin(Some("Bearer abc.def")) {
        AuthStep::Decode(t) => assert_eq!(t, "abc.def"),
        AuthStep::Reject(_) => panic!("expected a token"),
    }
}

#[test]
fn missing_or_other_header_is_rejected() {
    for h in [None, Some("Basic xyz"), Some("bearer abc")] {
        match JwtMiddleware::begin(h) {
            AuthStep::Reject(m) => assert_eq!(m, "Missing Authorization header"),
            AuthStep::Decode(_) => panic!("expected a rejection"),
        }
    }
}

#[test]
fn decoded_claims_are_stored_with_the_token() {
    let claims = Claims { sub: "u1".to_string(), email: Some("a@b.c".to_string()), exp: 5, iat: 1 };
    let info = JwtMiddleware::finish("tok".to_string(), Ok(claims)).unwrap();
    assert_eq!(info.token, "tok");
    assert_eq!(info.claims.sub, "u1");
}

#[test]
fn decoding_error_is_reported() {
    let r = JwtMiddleware::finish("tok".to_string(), Err("ExpiredSignature".to_string()));
    assert_eq!(r.unwrap_err(), "Invalid access token: ExpiredSignature");
}

#[test]
fn middleware_keeps_its_secret() {
    let m = JwtMiddleware::from_secret("s3cret");
    assert_eq!(m.secret(), "s3cret");
    let c = JwtConfig::new("k");
    assert_eq!(c.secret, "k");
}
