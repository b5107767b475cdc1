//! End-to-end scenarios against one service instance.  The external
//! hashing primitive's verdict is emulated by plain comparison: the
//! password verifies exactly when it matches the stored text.
use simple_secrets::events::ServerEvent;
use simple_secrets::server::{LoginError, SecretFetchError, SecretSetError, SecretServer};

const TTL: u64 = 600;

fn started() -> SecretServer {
    SecretServer::new(TTL, &"spiffe://example.org/simple-secrets".to_string())
}

/// The external hashing primitive's verdict, emulated: the stored "hash"
/// is the password itself, so the verdict is plain equality.
fn verdict(server: &SecretServer, username: &String, password: &str, now: u64) -> bool {
    server.stored_password_hash(username, now) == password
}

fn provisioned() -> SecretServer {
    let mut s = started();
    s.put_user_password(&"alice".to_string(), &"correct".to_string());
    s
}

#[test]
fn login_issues_24_char_token() {
    let mut s = provisioned();
    let alice = "alice".to_string();
    let ok = verdict(&s, &alice, "correct", 1000);
    assert!(ok);
    let token = s.login(&alice, ok, 1000).unwrap();
    assert_eq!(token.chars().count(), 24);
    assert!(token.chars().all(|c| c.is_ascii_alphanumeric()));
}

#[test]
fn token_validates_immediately_to_owner() {
    let mut s = provisioned();
    let alice = "alice".to_string();
    let token = s.login(&alice, true, 1000).unwrap();
    assert_eq!(s.validate(&token, 1000).unwrap(), "alice");
    assert_eq!(s.validate(&token, 1599).unwrap(), "alice");
}

#[test]
fn get_before_any_set_is_invalid_secret() {
    let mut s = provisioned();
    let alice = "alice".to_string();
    let token = s.login(&alice, true, 1000).unwrap();
    let r = s.get_secret(Some(&token), &"db-pass".to_string(), 1000);
    let e = r.unwrap_err();
    assert_eq!(e, SecretFetchError::NotFound);
    assert_eq!(e.status(), 400);
    assert_eq!(e.body(), "Invalid secret");
}

#[test]
fn set_then_get_round_trip() {
    let mut s = provisioned();
    let alice = "alice".to_string();
    let token = s.login(&alice, true, 1000).unwrap();
    let name = "db-pass".to_string();
    let id = s.set_secret(Some(&token), &name, &"s3cr3t".to_string(), 1000).unwrap();
    let expected = uuid::Uuid::new_v5(&uuid::Uuid::NAMESPACE_DNS, name.as_bytes()).to_string();
    assert_eq!(id, expected);
    let got = s.get_secret(Some(&token), &name, 1000).unwrap();
    assert_eq!(got, "s3cr3t");
}

#[test]
fn overwriting_a_secret_returns_latest_value() {
    let mut s = provisioned();
    let alice = "alice".to_string();
    let token = s.login(&alice, true, 1000).unwrap();
    let name = "db-pass".to_string();
    s.set_secret(Some(&token), &name, &"one".to_string(), 1000).unwrap();
    s.set_secret(Some(&token), &name, &"two".to_string(), 1001).unwrap();
    assert_eq!(s.get_secret(Some(&token), &name, 1002).unwrap(), "two");
}

#[test]
fn login_wrong_password_is_401_and_persists_nothing() {
    let mut s = provisioned();
    let alice = "alice".to_string();
    let ok = verdict(&s, &alice, "wrong", 1000);
    assert!(!ok);
    let e = s.login(&alice, ok, 1000).unwrap_err();
    assert_eq!(e, LoginError::AuthenticationFailure);
    assert_eq!(e.status(), 401);
    assert_eq!(s.metrics.login_failure_total, 1);
    assert_eq!(s.metrics.login_success_total, 0);
    // No token was persisted: no token string validates.
    assert!(s.validate(&"anything".to_string(), 1000).is_err());
}

#[test]
fn unknown_user_fails_like_wrong_password() {
    let s = provisioned();
    // A user that was never provisioned reads as the empty hash; the
    // verification still runs and fails, exactly as a wrong password does.
    assert_eq!(s.stored_password_hash(&"mallory".to_string(), 1000), "");
    assert!(!verdict(&s, &"mallory".to_string(), "correct", 1000));
}

#[test]
fn get_without_token_is_token_required() {
    let mut s = provisioned();
    let e = s.get_secret(None, &"db-pass".to_string(), 1000).unwrap_err();
    assert_eq!(e, SecretFetchError::TokenRequired);
    assert_eq!(e.status(), 400);
    assert_eq!(e.body(), "Token required");
    assert_eq!(s.metrics.secret_fetch_access_denied_total, 1);
}

#[test]
fn set_without_token_is_token_required() {
    let mut s = provisioned();
    let e = s
        .set_secret(None, &"db-pass".to_string(), &"v".to_string(), 1000)
        .unwrap_err();
    assert_eq!(e, SecretSetError::TokenRequired);
    assert_eq!(e.status(), 400);
    assert_eq!(e.body(), "Token required");
    assert_eq!(s.metrics.secret_set_access_denied_total, 1);
}

#[test]
fn expired_token_is_denied() {
    let mut s = provisioned();
    let alice = "alice".to_string();
    let token = s.login(&alice, true, 1000).unwrap();
    // Exactly at issue time + TTL the record has expired.
    assert!(s.validate(&token, 1000 + TTL).is_err());
    let e = s.get_secret(Some(&token), &"db-pass".to_string(), 1000 + TTL).unwrap_err();
    assert_eq!(e, SecretFetchError::AccessDenied);
    assert_eq!(e.status(), 401);
    assert_eq!(e.body(), "Bad token");
}

#[test]
fn denial_is_total_even_when_the_secret_exists() {
    let mut s = provisioned();
    let alice = "alice".to_string();
    let token = s.login(&alice, true, 1000).unwrap();
    let name = "db-pass".to_string();
    s.set_secret(Some(&token), &name, &"s3cr3t".to_string(), 1000).unwrap();
    // Bogus token: denied, though the secret is there.
    let bogus = "bogus-token".to_string();
    assert_eq!(
        s.get_secret(Some(&bogus), &name, 1000).unwrap_err(),
        SecretFetchError::AccessDenied
    );
    assert_eq!(
        s.set_secret(Some(&bogus), &name, &"x".to_string(), 1000).unwrap_err(),
        SecretSetError::AccessDenied
    );
    // And the denied set wrote nothing: the value is unchanged.
    assert_eq!(s.get_secret(Some(&token), &name, 1000).unwrap(), "s3cr3t");
}

#[test]
fn metrics_text_reflects_outcomes() {
    let mut s = provisioned();
    let alice = "alice".to_string();
    s.login(&alice, false, 1000).unwrap_err();
    s.login(&alice, true, 1000).unwrap();
    let text = s.metrics_text();
    let expected = "simple_secrets_login_success_total 1\n\
                    simple_secrets_login_failure_total 1\n\
                    simple_secrets_secret_fetch_total 0\n\
                    simple_secrets_secret_fetch_access_denied_total 0\n\
                    simple_secrets_secret_set_total 0\n\
                    simple_secrets_secret_set_access_denied_total 0\n";
    assert_eq!(text, expected);
}

#[test]
fn audit_trail_records_each_outcome_once() {
    let mut s = provisioned();
    let alice = "alice".to_string();
    assert_eq!(s.audit.entries.len(), 1);
    assert_eq!(s.audit.entries[0].event, ServerEvent::Start);
    assert_eq!(
        s.audit.entries[0].message,
        "New instance of secret-server started: spiffe://example.org/simple-secrets"
    );

    s.login(&alice, false, 1000).unwrap_err();
    assert_eq!(s.audit.entries.len(), 2);
    assert_eq!(s.audit.entries[1].event, ServerEvent::LoginFailureInvalidPassword);
    assert_eq!(
        s.audit.entries[1].message,
        "Login failure for user alice due to invalid password"
    );

    let token = s.login(&alice, true, 1000).unwrap();
    assert_eq!(s.audit.entries.len(), 4);
    assert_eq!(s.audit.entries[2].event, ServerEvent::TokenCreated);
    assert_eq!(
        s.audit.entries[2].message,
        format!("Session token {} for user alice created", token)
    );
    assert_eq!(s.audit.entries[3].event, ServerEvent::LoginSuccess);
    assert_eq!(s.audit.entries[3].message, "Login success for user alice");

    let name = "db-pass".to_string();
    let id = s.set_secret(Some(&token), &name, &"v".to_string(), 1000).unwrap();
    assert_eq!(s.audit.entries.len(), 5);
    assert_eq!(s.audit.entries[4].event, ServerEvent::SecretCreateSuccess);
    assert_eq!(
        s.audit.entries[4].message,
        format!("Secret db-pass set with UUID {} by user alice", id)
    );

    s.get_secret(Some(&token), &name, 1000).unwrap();
    assert_eq!(s.audit.entries.len(), 6);
    assert_eq!(s.audit.entries[5].event, ServerEvent::SecretFetchSuccess);
    assert_eq!(
        s.audit.entries[5].message,
        format!("Secret db-pass UUID {} fetched by user alice", id)
    );

    s.get_secret(None, &name, 1000).unwrap_err();
    assert_eq!(s.audit.entries.len(), 7);
    assert_eq!(s.audit.entries[6].event, ServerEvent::SecretFetchFailureNoToken);
    assert_eq!(
        s.audit.entries[6].message,
        "Secret db-pass failed fetch, no token entered attempt"
    );
}
