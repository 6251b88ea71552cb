use backend::{
    create_jwt, hash_password, login_claims, open_credentials, prepare_account_update, require_authenticated,
    resolve_identity, AuthUser, Claims, FormUpdateUser, LoginAccount, Outcome,
};

const SECRET: &[u8] = b"server-secret";

fn claims_json(c: &Claims) -> String {
    format!(
        "{{\"username\":{},\"is_admin\":{},\"sub\":{},\"exp\":{}}}",
        serde_json::to_string(&c.username).unwrap(),
        c.is_admin,
        c.sub,
        c.exp
    )
}

fn parse_claims(json: &str) -> Claims {
    let v: serde_json::Value = serde_json::from_str(json).unwrap();
    Claims {
        username: v["username"].as_str().unwrap().to_string(),
        is_admin: v["is_admin"].as_bool().unwrap(),
        sub: v["sub"].as_i64().unwrap() as i32,
        exp: v["exp"].as_u64().unwrap(),
    }
}

fn who_am_i(header: Option<&str>, now: i64) -> Result<i32, Outcome> {
    let claims = open_credentials(header, SECRET).map(|j| parse_claims(&j));
    let user = resolve_identity(claims, now);
    require_authenticated(&user)
}

#[test]
fn login_then_who_am_i() {
    let now = 1_700_000_000;
    let stored = LoginAccount {
        id: 31,
        username: "alice".to_string(),
        is_admin: false,
        password_hash: hash_password("wonderland").unwrap(),
    };
    let claims = login_claims(Some(stored), "wonderland", now).unwrap();
    let token = create_jwt(&claims_json(&claims), SECRET).unwrap();
    let header = format!("Bearer {}", token);
    assert_eq!(who_am_i(Some(&header), now), Ok(31));
    assert_eq!(who_am_i(None, now), Err(Outcome::Unauthorized));
}

#[test]
fn non_admin_escalation_is_denied() {
    let owner = AuthUser::authenticated(12, "bob".to_string(), false);
    let form = FormUpdateUser {
        username: "bob".to_string(),
        email: "bob@example.org".to_string(),
        password: None,
        title: None,
        is_admin: true,
    };
    assert!(matches!(prepare_account_update(&owner, 12, form), Err(Outcome::Unauthorized)));
}
