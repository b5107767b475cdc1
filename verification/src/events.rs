//! The closed enumeration of security-relevant outcomes.  Every terminal
//! outcome of a login, secret-get or secret-set maps to exactly one of these
//! kinds, and every kind carries a fixed wire label.
use vstd::prelude::*;

verus! {

/// Audit event kinds.  The enumeration is closed: the audit sink never sees
/// a label outside `spec_label`'s range.
#[derive(Clone, Copy, Debug, PartialEq, Eq, Structural)]
pub enum ServerEvent {
    Start,
    LoginFailureInvalidPassword,
    LoginFailureTokenCreationFailure,
    TokenCreated,
    LoginSuccess,
    SecretCreateFailure,
    SecretCreateFailureNoToken,
    SecretCreateFailureInvalidToken,
    SecretCreateSuccess,
    SecretFetchFailureNoToken,
    SecretFetchFailureInvalidToken,
    SecretFetchFailureNoExist,
    SecretFetchSuccess,
}

impl ServerEvent {
    /// The wire label of each event kind.
    pub open spec fn spec_label(self) -> Seq<char> {
        match self {
            ServerEvent::Start => "SERVER_START"@,
            ServerEvent::LoginFailureInvalidPassword => "LOGIN_FAILURE_INVALID_PASSWORD"@,
            ServerEvent::LoginFailureTokenCreationFailure => "LOGIN_FAILURE_TOKEN_CREATION_FAILURE"@,
            ServerEvent::TokenCreated => "TOKEN_CREATED"@,
            ServerEvent::LoginSuccess => "LOGIN_SUCCESS"@,
            ServerEvent::SecretCreateFailure => "SECRET_CREATE_FAILURE"@,
            ServerEvent::SecretCreateFailureNoToken => "SECRET_CREATE_FAILURE_NO_TOKEN"@,
            ServerEvent::SecretCreateFailureInvalidToken => "SECRET_CREATE_FAILURE_INVALID_TOKEN"@,
            ServerEvent::SecretCreateSuccess => "SECRET_CREATE_SUCCESS"@,
            ServerEvent::SecretFetchFailureNoToken => "SECRET_FETCH_FAILURE_NO_TOKEN"@,
            ServerEvent::SecretFetchFailureInvalidToken => "SECRET_FETCH_FAILURE_INVALID_TOKEN"@,
            ServerEvent::SecretFetchFailureNoExist => "SECRET_FETCH_FAILURE_NOEXIST"@,
            ServerEvent::SecretFetchSuccess => "SECRET_FETCH_SUCCESS"@,
        }
    }

    /// The label as handed to the audit sink.
    pub fn label(&self) -> (r: String)
        ensures
            r@ == self.spec_label(),
    {
        match self {
            ServerEvent::Start => "SERVER_START".to_owned(),
            ServerEvent::LoginFailureInvalidPassword => "LOGIN_FAILURE_INVALID_PASSWORD".to_owned(),
            ServerEvent::LoginFailureTokenCreationFailure => "LOGIN_FAILURE_TOKEN_CREATION_FAILURE".to_owned(),
            ServerEvent::TokenCreated => "TOKEN_CREATED".to_owned(),
            ServerEvent::LoginSuccess => "LOGIN_SUCCESS".to_owned(),
            ServerEvent::SecretCreateFailure => "SECRET_CREATE_FAILURE".to_owned(),
            ServerEvent::SecretCreateFailureNoToken => "SECRET_CREATE_FAILURE_NO_TOKEN".to_owned(),
            ServerEvent::SecretCreateFailureInvalidToken => "SECRET_CREATE_FAILURE_INVALID_TOKEN".to_owned(),
            ServerEvent::SecretCreateSuccess => "SECRET_CREATE_SUCCESS".to_owned(),
            ServerEvent::SecretFetchFailureNoToken => "SECRET_FETCH_FAILURE_NO_TOKEN".to_owned(),
            ServerEvent::SecretFetchFailureInvalidToken => "SECRET_FETCH_FAILURE_INVALID_TOKEN".to_owned(),
            ServerEvent::SecretFetchFailureNoExist => "SECRET_FETCH_FAILURE_NOEXIST".to_owned(),
            ServerEvent::SecretFetchSuccess => "SECRET_FETCH_SUCCESS".to_owned(),
        }
    }
}

} // verus!
