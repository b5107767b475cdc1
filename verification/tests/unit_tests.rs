//! Unit tests for the pieces: token generation, identifier derivation, the
//! store model's expiry semantics, event labels and error surfaces.
use simple_secrets::events::ServerEvent;
use simple_secrets::secret_id::derive_identifier;
use simple_secrets::server::{LoginError, SecretFetchError, SecretSetError};
use simple_secrets::store::KvStore;
use simple_secrets::token::generate_token;

#[test]
fn generated_tokens_are_24_alphanumeric_chars() {
    for _ in 0..32 {
        let t = generate_token();
        assert_eq!(t.chars().count(), 24);
        assert!(t.chars().all(|c| c.is_ascii_alphanumeric()));
    }
}

#[test]
fn generated_tokens_vary() {
    // Two independent draws from a 62^24 space: a collision would point at
    // a generator handing back a constant.
    let a = generate_token();
    let b = generate_token();
    assert_ne!(a, b);
}

#[test]
fn derivation_is_deterministic() {
    let a = derive_identifier("db-pass");
    let b = derive_identifier("db-pass");
    assert_eq!(a, b);
}

#[test]
fn derivation_matches_the_dns_name_uuid() {
    let id = derive_identifier("db-pass");
    let expected = uuid::Uuid::new_v5(&uuid::Uuid::NAMESPACE_DNS, b"db-pass").to_string();
    assert_eq!(id, expected);
    // The identifier is a derived key, not the name handed back.
    assert_ne!(id, "db-pass");
    assert_eq!(id.len(), 36);
}

#[test]
fn derivation_separates_names() {
    let names = [
        "db-pass", "db-pass2", "api-key", "ssh", "tls-cert", "root", "alice", "bob", "a", "b",
        "ab", "ba", "", " ", "db_pass", "DB-PASS", "0", "1", "00", "01", "10", "x/y", "y/x",
        "long-name-with-many-characters", "long-name-with-many-character5",
    ];
    for i in 0..names.len() {
        for j in 0..names.len() {
            if i != j {
                assert_ne!(derive_identifier(names[i]), derive_identifier(names[j]));
            }
        }
    }
}

#[test]
fn store_entry_without_expiry_stays() {
    let mut kv = KvStore::new();
    kv.set(&"/k".to_string(), &"v".to_string());
    assert_eq!(kv.get(&"/k".to_string(), 0), Some("v".to_string()));
    assert_eq!(kv.get(&"/k".to_string(), u64::MAX), Some("v".to_string()));
    assert_eq!(kv.get(&"/other".to_string(), 0), None);
}

#[test]
fn store_entry_with_expiry_vanishes_at_its_second() {
    let mut kv = KvStore::new();
    kv.set_with_expiry(&"/k".to_string(), &"v".to_string(), 1600);
    assert_eq!(kv.get(&"/k".to_string(), 1599), Some("v".to_string()));
    assert_eq!(kv.get(&"/k".to_string(), 1600), None);
    assert_eq!(kv.get(&"/k".to_string(), 2000), None);
}

#[test]
fn store_overwrite_replaces_value_and_expiry() {
    let mut kv = KvStore::new();
    kv.set_with_expiry(&"/k".to_string(), &"old".to_string(), 1600);
    kv.set(&"/k".to_string(), &"new".to_string());
    // The overwrite dropped the expiry along with the old value.
    assert_eq!(kv.get(&"/k".to_string(), 5000), Some("new".to_string()));
}

#[test]
fn event_labels_are_the_wire_names() {
    assert_eq!(ServerEvent::Start.label(), "SERVER_START");
    assert_eq!(
        ServerEvent::LoginFailureInvalidPassword.label(),
        "LOGIN_FAILURE_INVALID_PASSWORD"
    );
    assert_eq!(
        ServerEvent::LoginFailureTokenCreationFailure.label(),
        "LOGIN_FAILURE_TOKEN_CREATION_FAILURE"
    );
    assert_eq!(ServerEvent::TokenCreated.label(), "TOKEN_CREATED");
    assert_eq!(ServerEvent::LoginSuccess.label(), "LOGIN_SUCCESS");
    assert_eq!(ServerEvent::SecretCreateFailure.label(), "SECRET_CREATE_FAILURE");
    assert_eq!(
        ServerEvent::SecretCreateFailureNoToken.label(),
        "SECRET_CREATE_FAILURE_NO_TOKEN"
    );
    assert_eq!(
        ServerEvent::SecretCreateFailureInvalidToken.label(),
        "SECRET_CREATE_FAILURE_INVALID_TOKEN"
    );
    assert_eq!(ServerEvent::SecretCreateSuccess.label(), "SECRET_CREATE_SUCCESS");
    assert_eq!(
        ServerEvent::SecretFetchFailureNoToken.label(),
        "SECRET_FETCH_FAILURE_NO_TOKEN"
    );
    assert_eq!(
        ServerEvent::SecretFetchFailureInvalidToken.label(),
        "SECRET_FETCH_FAILURE_INVALID_TOKEN"
    );
    assert_eq!(ServerEvent::SecretFetchFailureNoExist.label(), "SECRET_FETCH_FAILURE_NOEXIST");
    assert_eq!(ServerEvent::SecretFetchSuccess.label(), "SECRET_FETCH_SUCCESS");
}

#[test]
fn failure_surfaces_are_fixed() {
    assert_eq!(LoginError::AuthenticationFailure.status(), 401);
    assert_eq!(LoginError::TokenPersistenceFailure.status(), 500);

    assert_eq!(SecretFetchError::TokenRequired.status(), 400);
    assert_eq!(SecretFetchError::TokenRequired.body(), "Token required");
    assert_eq!(SecretFetchError::AccessDenied.status(), 401);
    assert_eq!(SecretFetchError::AccessDenied.body(), "Bad token");
    assert_eq!(SecretFetchError::NotFound.status(), 400);
    assert_eq!(SecretFetchError::NotFound.body(), "Invalid secret");

    assert_eq!(SecretSetError::TokenRequired.status(), 400);
    assert_eq!(SecretSetError::TokenRequired.body(), "Token required");
    assert_eq!(SecretSetError::AccessDenied.status(), 401);
    assert_eq!(SecretSetError::AccessDenied.body(), "Bad token");
    assert_eq!(SecretSetError::StoreFailure.status(), 500);
    assert_eq!(SecretSetError::StoreFailure.body(), "");
}

#[test]
fn metrics_render_handles_large_counts() {
    let mut m = simple_secrets::metrics::Metrics::new();
    m.login_success_total = u64::MAX;
    m.secret_fetch_total = 10;
    let text = m.render();
    let expected = format!(
        "simple_secrets_login_success_total {}\n\
         simple_secrets_login_failure_total 0\n\
         simple_secrets_secret_fetch_total 10\n\
         simple_secrets_secret_fetch_access_denied_total 0\n\
         simple_secrets_secret_set_total 0\n\
         simple_secrets_secret_set_access_denied_total 0\n",
        u64::MAX
    );
    assert_eq!(text, expected);
}
