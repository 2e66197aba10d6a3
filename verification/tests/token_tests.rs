use auth_api::claims::JwtUser;
use auth_api::token::{
    auth_token, auth_token_at, claims_from_payload, decode_jwt, decode_jwt_at, RawClaims,
    TokenError, TOKEN_LIFETIME,
};

fn user() -> JwtUser {
    JwtUser { email: "ann@example.com".to_string(), id: "7c1f".to_string() }
}

fn signed(claims: &serde_json::Map<String, serde_json::Value>, secret: &str) -> String {
    jsonwebtoken::encode(
        &jsonwebtoken::Header::default(),
        claims,
        &jsonwebtoken::EncodingKey::from_secret(secret.as_bytes()),
    )
    .unwrap()
}

#[test]
fn issued_token_verifies_with_same_identity() {
    let token = auth_token_at(user(), "s3cret", 1_000).unwrap();
    let claims = decode_jwt_at(&token, "s3cret", 1_000).unwrap();
    assert_eq!(claims.sub, "7c1f");
    assert_eq!(claims.email, "ann@example.com");
    assert_eq!(claims.exp, 1_000 + 86_400);
    assert_eq!(TOKEN_LIFETIME, 86_400);
}

#[test]
fn issued_token_has_three_parts_and_is_not_an_argument() {
    let token = auth_token_at(user(), "s3cret", 1_000).unwrap();
    assert_eq!(token.split('.').count(), 3);
    assert_ne!(token, "7c1f");
    assert_ne!(token, "ann@example.com");
    assert_ne!(token, "s3cret");
}

#[test]
fn token_verifies_until_its_expiration_and_not_after() {
    let token = auth_token_at(user(), "s3cret", 1_000).unwrap();
    assert!(decode_jwt_at(&token, "s3cret", 1_000 + 86_400).is_ok());
    let late = decode_jwt_at(&token, "s3cret", 1_000 + 86_401);
    assert!(matches!(late, Err(TokenError::Expired)));
    let much_later = decode_jwt_at(&token, "s3cret", i64::MAX);
    assert!(matches!(much_later, Err(TokenError::Expired)));
}

#[test]
fn token_under_another_secret_is_rejected() {
    let token = auth_token_at(user(), "s3cret", 1_000).unwrap();
    let r = decode_jwt_at(&token, "other", 1_000);
    assert!(matches!(r, Err(TokenError::Rejected(_))));
}

#[test]
fn tampered_token_is_rejected() {
    let token = auth_token_at(user(), "s3cret", 1_000).unwrap();
    let mut tampered = token.clone();
    tampered.push('x');
    assert!(matches!(decode_jwt_at(&tampered, "s3cret", 1_000), Err(TokenError::Rejected(_))));
    assert!(matches!(decode_jwt_at("not-a-token", "s3cret", 1_000), Err(TokenError::Rejected(_))));
    assert!(matches!(decode_jwt_at("", "s3cret", 1_000), Err(TokenError::Rejected(_))));
}

#[test]
fn token_without_a_claim_is_incomplete() {
    let mut claims = serde_json::Map::new();
    claims.insert("sub".to_string(), serde_json::Value::from("7c1f"));
    claims.insert("exp".to_string(), serde_json::Value::from(5_000_i64));
    let token = signed(&claims, "s3cret");
    let r = decode_jwt_at(&token, "s3cret", 1_000);
    assert!(matches!(r, Err(TokenError::Incomplete)));
}

#[test]
fn token_made_elsewhere_with_the_same_claims_verifies() {
    let mut claims = serde_json::Map::new();
    claims.insert("sub".to_string(), serde_json::Value::from("id-1"));
    claims.insert("email".to_string(), serde_json::Value::from("bo@example.com"));
    claims.insert("exp".to_string(), serde_json::Value::from(5_000_i64));
    let token = signed(&claims, "s3cret");
    let got = decode_jwt_at(&token, "s3cret", 4_999).unwrap();
    assert_eq!(got.sub, "id-1");
    assert_eq!(got.email, "bo@example.com");
    assert_eq!(got.exp, 5_000);
    assert!(matches!(decode_jwt_at(&token, "s3cret", 5_001), Err(TokenError::Expired)));
}

#[test]
fn clock_out_of_range_issues_nothing() {
    assert!(matches!(auth_token_at(user(), "s3cret", -1), Err(TokenError::Clock)));
    assert!(matches!(auth_token_at(user(), "s3cret", i64::MAX), Err(TokenError::Clock)));
    assert!(matches!(
        auth_token_at(user(), "s3cret", i64::MAX - 86_399),
        Err(TokenError::Clock)
    ));
    assert!(auth_token_at(user(), "s3cret", i64::MAX - 86_400).is_ok());
    assert!(auth_token_at(user(), "s3cret", 0).is_ok());
}

#[test]
fn token_issued_now_verifies_now() {
    let token = auth_token(user(), "s3cret").unwrap();
    let claims = decode_jwt(&token, "s3cret").unwrap();
    assert_eq!(claims.sub, "7c1f");
    assert_eq!(claims.email, "ann@example.com");
    let now = chrono::Utc::now().timestamp();
    assert!(claims.exp >= now + 86_400 - 5);
    assert!(claims.exp <= now + 86_400);
}

#[test]
fn token_with_unusual_texts_round_trips() {
    let odd = JwtUser { email: "a \"q\" \\ \u{e9}\n@x".to_string(), id: String::new() };
    let token = auth_token_at(odd, "", 10).unwrap();
    let claims = decode_jwt_at(&token, "", 10).unwrap();
    assert_eq!(claims.sub, "");
    assert_eq!(claims.email, "a \"q\" \\ \u{e9}\n@x");
}

#[test]
fn payload_decisions() {
    let full = RawClaims {
        sub: Some("a".to_string()),
        email: Some("b".to_string()),
        exp: Some(10),
    };
    let c = claims_from_payload(full, 10).unwrap();
    assert_eq!((c.sub.as_str(), c.email.as_str(), c.exp), ("a", "b", 10));
    let past = RawClaims { sub: Some("a".to_string()), email: Some("b".to_string()), exp: Some(9) };
    assert!(matches!(claims_from_payload(past, 10), Err(TokenError::Expired)));
    let no_exp = RawClaims { sub: Some("a".to_string()), email: Some("b".to_string()), exp: None };
    assert!(matches!(claims_from_payload(no_exp, 10), Err(TokenError::Incomplete)));
    let no_email = RawClaims { sub: Some("a".to_string()), email: None, exp: Some(0) };
    assert!(matches!(claims_from_payload(no_email, 10), Err(TokenError::Incomplete)));
}

#[test]
fn token_failure_messages() {
    assert_eq!(TokenError::Expired.message(), "ExpiredSignature");
    assert_eq!(TokenError::Incomplete.message(), "MissingRequiredClaim");
    assert_eq!(TokenError::Clock.message(), "system time is out of range");
    assert_eq!(TokenError::Rejected("InvalidToken".to_string()).message(), "InvalidToken");
    assert_eq!(TokenError::Signing("x".to_string()).message(), "x");
    match decode_jwt_at("not-a-token", "s3cret", 0) {
        Err(e) => assert_eq!(e.message(), "InvalidToken"),
        Ok(_) => panic!("accepted"),
    }
}

#[test]
fn the_same_claims_under_the_same_secret_give_the_same_token() {
    let first = auth_token_at(user(), "s3cret", 1_000).unwrap();
    let second = auth_token_at(user(), "s3cret", 1_000).unwrap();
    assert_eq!(first, second);
    let later = auth_token_at(user(), "s3cret", 1_001).unwrap();
    assert_ne!(first, later);
    let other_key = auth_token_at(user(), "s3cres", 1_000).unwrap();
    assert_ne!(first, other_key);
}

#[test]
fn a_token_is_issued_for_any_id_and_email() {
    for (id, email) in [("", ""), ("7c1f", "ann@example.com"), ("\u{e9}", "a b\"c")] {
        let user = JwtUser { email: email.to_string(), id: id.to_string() };
        let token = auth_token_at(user, "s3cret", 0).unwrap();
        let claims = decode_jwt_at(&token, "s3cret", 86_400).unwrap();
        assert_eq!(claims.sub, id);
        assert_eq!(claims.email, email);
        assert_eq!(claims.exp, 86_400);
    }
}
