use backend::{
    bearer_token, check_claims, create_jwt, issue_claims, open_credentials, resolve_identity,
    resolve_identity_now, verify_jwt, Claims, TokenError, TOKEN_LIFETIME_SECS,
};

const SECRET: &[u8] = b"test-signing-secret";

fn claims_json(c: &Claims) -> String {
    format!(
        "{{\"username\":{},\"is_admin\":{},\"sub\":{},\"exp\":{}}}",
        serde_json::to_string(&c.username).unwrap(),
        c.is_admin,
        c.sub,
        c.exp
    )
}

fn parse_claims(json: &str) -> Claims {
    let v: serde_json::Value = serde_json::from_str(json).unwrap();
    Claims {
        username: v["username"].as_str().unwrap().to_string(),
        is_admin: v["is_admin"].as_bool().unwrap(),
        sub: v["sub"].as_i64().unwrap() as i32,
        exp: v["exp"].as_u64().unwrap(),
    }
}

#[test]
fn issued_claims_expire_after_a_day() {
    let c = issue_claims(42, "alice".to_string(), true, 1_700_000_000).unwrap();
    assert_eq!(c.sub, 42);
    assert_eq!(c.username, "alice");
    assert!(c.is_admin);
    assert_eq!(c.exp, 1_700_086_400);
    assert_eq!(TOKEN_LIFETIME_SECS, 86_400);
}

#[test]
fn issuing_before_the_epoch_fails() {
    assert_eq!(issue_claims(1, "a".to_string(), false, -1).unwrap_err(), TokenError::Clock);
    assert!(issue_claims(1, "a".to_string(), false, 0).is_ok());
}

#[test]
fn claims_valid_until_expiry_inclusive() {
    let c = issue_claims(1, "a".to_string(), false, 1000).unwrap();
    assert!(check_claims(c.clone(), 1000).is_ok());
    assert!(check_claims(c.clone(), 1000 + 86_400).is_ok());
    assert_eq!(check_claims(c.clone(), 1000 + 86_401).unwrap_err(), TokenError::Expired);
    assert!(check_claims(c, -5).is_ok());
}

#[test]
fn token_round_trip() {
    let c = issue_claims(7, "bob \"quoted\"".to_string(), false, 1000).unwrap();
    let json = claims_json(&c);
    let token = create_jwt(&json, SECRET).unwrap();
    assert_eq!(token.split('.').count(), 3);
    assert_ne!(token, json);
    let opened = verify_jwt(&token, SECRET).unwrap();
    assert_eq!(opened, json);
    let back = parse_claims(&opened);
    assert_eq!(back.sub, 7);
    assert_eq!(back.username, "bob \"quoted\"");
    assert_eq!(back.exp, 1000 + 86_400);
}

#[test]
fn signing_is_deterministic() {
    let json = "{\"username\":\"a\",\"is_admin\":false,\"sub\":1,\"exp\":5}";
    assert_eq!(create_jwt(json, SECRET).unwrap(), create_jwt(json, SECRET).unwrap());
    assert_ne!(create_jwt(json, SECRET).unwrap(), create_jwt(json, b"other").unwrap());
}

#[test]
fn signing_non_json_fails() {
    assert_eq!(create_jwt("not json", SECRET).unwrap_err(), TokenError::Signing);
}

#[test]
fn wrong_secret_is_invalid() {
    let json = "{\"username\":\"a\",\"is_admin\":false,\"sub\":1,\"exp\":5}";
    let token = create_jwt(json, b"attacker-secret").unwrap();
    assert_eq!(verify_jwt(&token, SECRET).unwrap_err(), TokenError::Invalid);
}

#[test]
fn tampered_or_malformed_token_is_invalid() {
    let json = "{\"username\":\"a\",\"is_admin\":false,\"sub\":1,\"exp\":5}";
    let token = create_jwt(json, SECRET).unwrap();
    let mut bad = token.clone();
    bad.push('x');
    assert_eq!(verify_jwt(&bad, SECRET).unwrap_err(), TokenError::Invalid);
    assert_eq!(verify_jwt("abc", SECRET).unwrap_err(), TokenError::Invalid);
    assert_eq!(verify_jwt("", SECRET).unwrap_err(), TokenError::Invalid);
}

#[test]
fn other_algorithm_is_invalid() {
    let mut claims = serde_json::Map::new();
    claims.insert("sub".to_string(), serde_json::Value::from(1));
    claims.insert("exp".to_string(), serde_json::Value::from(5u64));
    let header = jsonwebtoken::Header::new(jsonwebtoken::Algorithm::HS384);
    let token = jsonwebtoken::encode(&header, &claims, &jsonwebtoken::EncodingKey::from_secret(SECRET)).unwrap();
    assert_eq!(verify_jwt(&token, SECRET).unwrap_err(), TokenError::Invalid);
}

#[test]
fn bearer_header_parsing() {
    assert_eq!(bearer_token(None), None);
    assert_eq!(bearer_token(Some("Bearer abc.def")), Some("abc.def".to_string()));
    assert_eq!(bearer_token(Some("bearer   abc")), Some("abc".to_string()));
    assert_eq!(bearer_token(Some("BEARER x")), Some("x".to_string()));
    assert_eq!(bearer_token(Some("Bearer ")), Some("".to_string()));
    assert_eq!(bearer_token(Some("Bearer")), None);
    assert_eq!(bearer_token(Some("Bearerx abc")), None);
    assert_eq!(bearer_token(Some("Basic abc")), None);
    assert_eq!(bearer_token(Some("Bearer caf\u{e9}")), None);
}

#[test]
fn open_credentials_cases() {
    let json = "{\"username\":\"a\",\"is_admin\":false,\"sub\":1,\"exp\":5}";
    let token = create_jwt(json, SECRET).unwrap();
    let header = format!("Bearer {}", token);
    assert_eq!(open_credentials(Some(&header), SECRET), Some(json.to_string()));
    assert_eq!(open_credentials(Some(&header), b"other"), None);
    assert_eq!(open_credentials(Some(&token), SECRET), None);
    assert_eq!(open_credentials(None, SECRET), None);
}

#[test]
fn resolve_identity_cases() {
    let anon = resolve_identity(None, 100);
    assert!(anon.is_anonymous());
    let c = issue_claims(9, "carol".to_string(), true, 100).unwrap();
    let u = resolve_identity(Some(c.clone()), 100);
    assert!(u.is_connected);
    assert_eq!(u.user_id, 9);
    assert_eq!(u.username, "carol");
    assert!(u.is_admin);
    let late = resolve_identity(Some(c), 100 + 86_401);
    assert!(late.is_anonymous());
}

#[test]
fn resolve_identity_now_uses_the_clock() {
    let fresh = issue_claims(3, "d".to_string(), false, chrono::Utc::now().timestamp()).unwrap();
    assert!(resolve_identity_now(Some(fresh)).is_connected);
    let old = issue_claims(3, "d".to_string(), false, 1000).unwrap();
    assert!(resolve_identity_now(Some(old)).is_anonymous());
    assert!(resolve_identity_now(None).is_anonymous());
}

#[test]
fn token_valid_right_after_issue_and_refused_after_expiry() {
    let now = 1_800_000_000;
    let c = issue_claims(11, "erin".to_string(), false, now).unwrap();
    let token = create_jwt(&claims_json(&c), SECRET).unwrap();
    let header = format!("Bearer {}", token);
    let opened = parse_claims(&open_credentials(Some(&header), SECRET).unwrap());
    assert_eq!(resolve_identity(Some(opened.clone()), now).user_id, 11);
    assert!(resolve_identity(Some(opened), now + 86_401).is_anonymous());
}

#[test]
fn missing_or_wrongly_signed_token_is_anonymous() {
    assert!(resolve_identity(open_credentials(None, SECRET).map(|j| parse_claims(&j)), 0).is_anonymous());
    let json = "{\"username\":\"m\",\"is_admin\":true,\"sub\":1,\"exp\":99999999999}";
    let forged = create_jwt(json, b"not-the-server-secret").unwrap();
    let header = format!("Bearer {}", forged);
    let opened = open_credentials(Some(&header), SECRET).map(|j| parse_claims(&j));
    assert!(opened.is_none());
    assert!(resolve_identity(opened, 0).is_anonymous());
}

#[test]
fn issue_claims_now_lasts_a_day_from_now() {
    let before = chrono::Utc::now().timestamp() as u64;
    let c = backend::issue_claims_now(5, "f".to_string(), true).unwrap();
    let after = chrono::Utc::now().timestamp() as u64;
    assert_eq!(c.sub, 5);
    assert_eq!(c.username, "f");
    assert!(c.is_admin);
    assert!(c.exp >= before + 86_400 && c.exp <= after + 86_400);
}
