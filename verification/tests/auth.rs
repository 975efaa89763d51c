use rustbill_core::auth::{api_key_info, verify_api_key_with_repo, ApiKeyRow};
use rustbill_core::auth::{create_session_with_repo, delete_session_with_repo, find_or_create_user_with_repo, validate_session_with_repo};
use rustbill_core::auth::{
    build_auth_url, build_logout_url, generate_api_key, generate_session_token, get_key_prefix,
    hash_api_key, keycloak_identity, session_expiry, session_outcome, token_form_params,
    verify_password, KeycloakConfig, KeycloakUserInfo, SessionUserRow,
};
use rustbill_core::error::BillingError;
use rustbill_core::models::UserRole;

#[test]
fn api_key_test_generate_api_key() {
    let key = generate_api_key();
    assert!(key.starts_with("pk_live_"));
    assert_eq!(key.len(), 8 + 40);
}

#[test]
fn api_key_test_hash_api_key_deterministic() {
    let key = "pk_live_test1234";
    let h1 = hash_api_key(key);
    let h2 = hash_api_key(key);
    assert_eq!(h1, h2);
    assert_eq!(h1.len(), 64);
}

#[test]
fn api_key_test_get_key_prefix() {
    let key = "pk_live_abcdefghijklmnop";
    assert_eq!(get_key_prefix(key), "pk_live_abcd");
}

#[test]
fn service_test_generate_api_key() {
    let key = generate_api_key();
    assert!(key.starts_with("pk_live_"));
    assert_eq!(key.len(), 8 + 40);
}

#[test]
fn service_test_hash_api_key_deterministic() {
    let key = "pk_live_test1234";
    let h1 = hash_api_key(key);
    let h2 = hash_api_key(key);
    assert_eq!(h1, h2);
    assert_eq!(h1.len(), 64);
}

#[test]
fn service_test_get_key_prefix() {
    let key = "pk_live_abcdefghijklmnop";
    assert_eq!(get_key_prefix(key), "pk_live_abcd");
}

#[test]
fn key_prefix_of_short_key_is_whole_key() {
    assert_eq!(get_key_prefix("pk_live"), "pk_live");
    assert_eq!(get_key_prefix("日本語キー"), "日本語キー");
}

#[test]
fn generated_key_uses_alphabet_only() {
    let key = generate_api_key();
    assert!(key[8..].chars().all(|c| c.is_ascii_alphanumeric()));
}

#[test]
fn hash_of_empty_key_is_sha256_of_empty_text() {
    assert_eq!(
        hash_api_key(""),
        "e3b0c44298fc1c149afbf4c8996fb92427ae41e4649b934ca495991b7852b855"
    );
}

#[test]
fn session_token_is_64_hex_digits() {
    let token = generate_session_token();
    assert_eq!(token.len(), 64);
    assert!(token.chars().all(|c| c.is_ascii_hexdigit() && !c.is_ascii_uppercase()));
    assert_ne!(token, generate_session_token());
}

#[test]
fn session_expiry_adds_whole_days() {
    assert_eq!(session_expiry(1_000, 2), 1_000 + 2 * 86_400);
}

fn row(expires_at: i64) -> SessionUserRow {
    SessionUserRow {
        user_id: "u1".to_string(),
        name: "Ann".to_string(),
        email: "ann@example.com".to_string(),
        role: UserRole::Admin,
        customer_id: None,
        expires_at,
    }
}

#[test]
fn running_session_gives_its_user() {
    let (user, delete) = session_outcome(Some(row(200)), 100);
    let user = user.expect("user");
    assert_eq!(user.id, "u1");
    assert_eq!(user.email, "ann@example.com");
    assert!(!delete);
}

#[test]
fn expired_session_is_deleted() {
    let (user, delete) = session_outcome(Some(row(100)), 100);
    assert!(user.is_none());
    assert!(delete);
    let (user, delete) = session_outcome(None, 100);
    assert!(user.is_none());
    assert!(!delete);
}

#[test]
fn unknown_hash_scheme_never_matches() {
    assert!(!verify_password("secret", "plaintext").expect("ok"));
}

#[test]
fn malformed_argon2_hash_is_an_error() {
    let err = verify_password("secret", "$argon2 not a hash").expect_err("error");
    assert!(matches!(err, BillingError::Internal(m) if m.starts_with("invalid argon2 hash: ")));
}

#[test]
fn hashed_password_verifies() {
    let hash = rustbill_core::auth::hash_password("correct horse").expect("hash");
    assert!(hash.starts_with("$argon2id$"));
    assert!(verify_password("correct horse", &hash).expect("verify"));
    assert!(!verify_password("wrong", &hash).expect("verify"));
}

#[test]
fn bcrypt_hash_is_checked_by_bcrypt() {
    let hash = bcrypt::hash("pw", 4).expect("bcrypt");
    assert!(verify_password("pw", &hash).expect("verify"));
    assert!(!verify_password("nope", &hash).expect("verify"));
}

fn config(secret: Option<&str>, admin_role: Option<&str>) -> KeycloakConfig {
    KeycloakConfig {
        realm_url: "https://id.example.com/realms/main".to_string(),
        client_id: "billing app".to_string(),
        client_secret: secret.map(str::to_string),
        admin_role: admin_role.map(str::to_string),
    }
}

#[test]
fn auth_url_encodes_its_parameters() {
    let url = build_auth_url(&config(None, None), "https://app.example.com/cb?x=1", "st8");
    assert_eq!(
        url,
        "https://id.example.com/realms/main/protocol/openid-connect/auth?client_id=billing%20app&redirect_uri=https%3A%2F%2Fapp.example.com%2Fcb%3Fx%3D1&response_type=code&scope=openid email profile&state=st8"
    );
}

#[test]
fn logout_url_adds_token_hint() {
    let cfg = config(None, None);
    assert_eq!(
        build_logout_url(&cfg, None, "https://app/"),
        "https://id.example.com/realms/main/protocol/openid-connect/logout?post_logout_redirect_uri=https%3A%2F%2Fapp%2F"
    );
    assert!(build_logout_url(&cfg, Some("tok"), "x").ends_with("&id_token_hint=tok"));
}

#[test]
fn token_form_has_secret_only_when_configured() {
    let without = token_form_params(&config(None, None), "c1", "r1");
    assert_eq!(without.len(), 4);
    assert_eq!(without[0], ("grant_type".to_string(), "authorization_code".to_string()));
    let with = token_form_params(&config(Some("s3"), None), "c1", "r1");
    assert_eq!(with.len(), 5);
    assert_eq!(with[4], ("client_secret".to_string(), "s3".to_string()));
}

fn info(email: Option<&str>, name: Option<&str>, user: Option<&str>, roles: Option<Vec<&str>>) -> KeycloakUserInfo {
    KeycloakUserInfo {
        email: email.map(str::to_string),
        name: name.map(str::to_string),
        preferred_username: user.map(str::to_string),
        realm_roles: roles.map(|r| r.into_iter().map(str::to_string).collect()),
    }
}

#[test]
fn identity_needs_an_email() {
    let err = keycloak_identity(&info(None, Some("A"), None, None), &config(None, None)).expect_err("no email");
    assert!(matches!(err, BillingError::BadRequest(m) if m == "Keycloak account has no email"));
}

#[test]
fn identity_needs_admin_role_when_configured() {
    let cfg = config(None, Some("billing-admin"));
    let err = keycloak_identity(&info(Some("a@x"), None, None, Some(vec!["user"])), &cfg).expect_err("forbidden");
    assert!(matches!(err, BillingError::Forbidden));
    let ok = keycloak_identity(&info(Some("a@x"), None, None, Some(vec!["billing-admin"])), &cfg).expect("ok");
    assert_eq!(ok, ("a@x".to_string(), "a@x".to_string()));
}

#[test]
fn identity_name_falls_back_to_username_then_email() {
    let cfg = config(None, None);
    let (_, n) = keycloak_identity(&info(Some("a@x"), Some("Ann"), Some("ann"), None), &cfg).expect("ok");
    assert_eq!(n, "Ann");
    let (_, n) = keycloak_identity(&info(Some("a@x"), None, Some("ann"), None), &cfg).expect("ok");
    assert_eq!(n, "ann");
}

struct StubAuth {
    key: Option<rustbill_core::auth::ApiKeyInfo>,
    seen_hash: std::cell::RefCell<Option<String>>,
    session: Option<SessionUserRow>,
    deleted: std::cell::RefCell<Vec<String>>,
    created: std::cell::RefCell<Option<(String, String, i64)>>,
}

impl rustbill_core::auth::AuthRepository for StubAuth {
    fn find_api_key_by_hash(&self, key_hash: &str) -> Result<Option<rustbill_core::auth::ApiKeyInfo>, BillingError> {
        *self.seen_hash.borrow_mut() = Some(key_hash.to_string());
        Ok(self.key.clone())
    }
    fn create_session(&mut self, token: &str, user_id: &str, expires_at: i64) -> Result<(), BillingError> {
        *self.created.borrow_mut() = Some((token.to_string(), user_id.to_string(), expires_at));
        Ok(())
    }
    fn validate_session(&self, _token: &str) -> Result<Option<SessionUserRow>, BillingError> {
        Ok(self.session.clone())
    }
    fn delete_session(&mut self, token: &str) -> Result<u64, BillingError> {
        self.deleted.borrow_mut().push(token.to_string());
        Ok(1)
    }
    fn upsert_keycloak_user(&mut self, email: &str, _name: &str) -> Result<String, BillingError> {
        Ok(format!("user:{email}"))
    }
}

fn stub(session: Option<SessionUserRow>) -> StubAuth {
    StubAuth {
        key: None,
        seen_hash: std::cell::RefCell::new(None),
        session,
        deleted: std::cell::RefCell::new(Vec::new()),
        created: std::cell::RefCell::new(None),
    }
}

#[test]
fn api_keys_are_looked_up_by_hash() {
    let repo = stub(None);
    assert!(verify_api_key_with_repo(&repo, "pk_live_x").expect("ok").is_none());
    assert_eq!(repo.seen_hash.borrow().clone(), Some(hash_api_key("pk_live_x")));
    let row = |status: &str| ApiKeyRow { id: "k1".to_string(), name: "ci".to_string(), customer_id: None, status: status.to_string() };
    assert_eq!(api_key_info(Some(row("active"))).expect("active").id, "k1");
    assert!(api_key_info(Some(row("revoked"))).is_none());
}

#[test]
fn sessions_expire_and_are_removed() {
    let mut repo = stub(Some(row(150)));
    let token = create_session_with_repo(&mut repo, "u1", 1, 100).expect("token");
    assert_eq!(token.len(), 64);
    assert_eq!(repo.created.borrow().clone().expect("created").2, 100 + 86_400);
    assert!(validate_session_with_repo(&mut repo, "t", 100).expect("ok").is_some());
    assert!(repo.deleted.borrow().is_empty());
    assert!(validate_session_with_repo(&mut repo, "t", 150).expect("ok").is_none());
    assert_eq!(repo.deleted.borrow().clone(), vec!["t".to_string()]);
    delete_session_with_repo(&mut repo, "t2").expect("deleted");
    let id = find_or_create_user_with_repo(&mut repo, &config(None, None), &info(Some("a@x"), None, None, None)).expect("user");
    assert_eq!(id, "user:a@x");
}
