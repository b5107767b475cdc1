//! The core service: login issues tokens, and the access gate in front of
//! the secret records admits only requests carrying a token that still
//! resolves.  All durable state lives in the key-value store; the audit
//! trail and the counters record every terminal outcome.
use vstd::prelude::*;

use crate::events::ServerEvent;
use crate::messages::{
    fetch_invalid_token_message, fetch_invalid_token_msg, fetch_no_token_message,
    fetch_no_token_msg, fetch_not_found_message, fetch_not_found_msg, fetch_success_message,
    fetch_success_msg, login_failure_message, login_failure_msg, login_success_message,
    login_success_msg, server_start_message, server_start_msg, set_invalid_token_message,
    set_invalid_token_msg, set_no_token_message, set_no_token_msg, set_success_message,
    set_success_msg, token_created_message, token_created_msg,
};
use crate::metrics::{sat_inc, saturating_inc, Metrics};
use crate::paths::{
    make_secret_name_path, make_secret_value_path, make_session_token_path,
    make_user_password_path, secret_name_path, secret_value_path, session_token_path,
    user_password_path,
};
use crate::secret_id::{derive_identifier, dns_uuid_of};
use crate::store::{live_get, KvStore, Record};
use crate::token::{generate_token, is_valid_token};

verus! {

/// Why a login fails.
#[derive(Clone, Copy, Debug, PartialEq, Eq, Structural)]
pub enum LoginError {
    /// Missing or malformed credentials, or a password that does not verify
    /// against the stored hash.  Unknown user and wrong password converge
    /// here on purpose: the caller cannot tell them apart.
    AuthenticationFailure,
    /// The password verified, but writing the fresh token to the store
    /// failed; the caller gets no token and must authenticate again.
    TokenPersistenceFailure,
}

/// Why a token is rejected by the access gate.
#[derive(Clone, Copy, Debug, PartialEq, Eq, Structural)]
pub enum AccessError {
    /// The token was never issued, has expired, or the lookup itself
    /// failed — indistinguishable to the caller.
    Invalid,
}

/// Why a secret-fetch fails.
#[derive(Clone, Copy, Debug, PartialEq, Eq, Structural)]
pub enum SecretFetchError {
    /// The request carried no token at all.
    TokenRequired,
    /// The presented token did not resolve.
    AccessDenied,
    /// The token validated, but no value is stored under the derived
    /// identifier.
    NotFound,
}

/// Why a secret-set fails.
#[derive(Clone, Copy, Debug, PartialEq, Eq, Structural)]
pub enum SecretSetError {
    /// The request carried no token at all.
    TokenRequired,
    /// The presented token did not resolve.
    AccessDenied,
    /// Writing one of the secret's two records failed.
    StoreFailure,
}

impl LoginError {
    /// The status the transport surfaces for this failure.
    pub open spec fn spec_status(self) -> u16 {
        match self {
            LoginError::AuthenticationFailure => 401,
            LoginError::TokenPersistenceFailure => 500,
        }
    }

    /// Status code of this failure.
    pub fn status(&self) -> (s: u16)
        ensures
            s == self.spec_status(),
    {
        match self {
            LoginError::AuthenticationFailure => 401,
            LoginError::TokenPersistenceFailure => 500,
        }
    }
}

impl SecretFetchError {
    /// The status the transport surfaces for this failure.  A missing value
    /// is a client error, not an authorization failure.
    pub open spec fn spec_status(self) -> u16 {
        match self {
            SecretFetchError::TokenRequired => 400,
            SecretFetchError::AccessDenied => 401,
            SecretFetchError::NotFound => 400,
        }
    }

    /// The small plain-text body surfaced with the failure.
    pub open spec fn spec_body(self) -> Seq<char> {
        match self {
            SecretFetchError::TokenRequired => "Token required"@,
            SecretFetchError::AccessDenied => "Bad token"@,
            SecretFetchError::NotFound => "Invalid secret"@,
        }
    }

    /// Status code of this failure.
    pub fn status(&self) -> (s: u16)
        ensures
            s == self.spec_status(),
    {
        match self {
            SecretFetchError::TokenRequired => 400,
            SecretFetchError::AccessDenied => 401,
            SecretFetchError::NotFound => 400,
        }
    }

    /// Response body of this failure.
    pub fn body(&self) -> (b: String)
        ensures
            b@ == self.spec_body(),
    {
        match self {
            SecretFetchError::TokenRequired => "Token required".to_owned(),
            SecretFetchError::AccessDenied => "Bad token".to_owned(),
            SecretFetchError::NotFound => "Invalid secret".to_owned(),
        }
    }
}

impl SecretSetError {
    /// The status the transport surfaces for this failure.
    pub open spec fn spec_status(self) -> u16 {
        match self {
            SecretSetError::TokenRequired => 400,
            SecretSetError::AccessDenied => 401,
            SecretSetError::StoreFailure => 500,
        }
    }

    /// The small plain-text body surfaced with the failure, empty for an
    /// internal error.
    pub open spec fn spec_body(self) -> Seq<char> {
        match self {
            SecretSetError::TokenRequired => "Token required"@,
            SecretSetError::AccessDenied => "Bad token"@,
            SecretSetError::StoreFailure => Seq::empty(),
        }
    }

    /// Status code of this failure.
    pub fn status(&self) -> (s: u16)
        ensures
            s == self.spec_status(),
    {
        match self {
            SecretSetError::TokenRequired => 400,
            SecretSetError::AccessDenied => 401,
            SecretSetError::StoreFailure => 500,
        }
    }

    /// Response body of this failure.
    pub fn body(&self) -> (b: String)
        ensures
            b@ == self.spec_body(),
    {
        match self {
            SecretSetError::TokenRequired => "Token required".to_owned(),
            SecretSetError::AccessDenied => "Bad token".to_owned(),
            SecretSetError::StoreFailure => String::new(),
        }
    }
}

/// One audit emission as recorded on the trail.
pub struct AuditEntry {
    pub event: ServerEvent,
    pub message: String,
}

/// One audit emission, at spec level.
pub struct AuditRec {
    pub event: ServerEvent,
    pub message: Seq<char>,
}

impl View for AuditEntry {
    type V = AuditRec;

    open spec fn view(&self) -> AuditRec {
        AuditRec { event: self.event, message: self.message@ }
    }
}

/// The audit trail: every emission the core has made, oldest first.
/// Delivery to the external sink is someone else's concern; the core only
/// guarantees what is emitted, and that each terminal outcome emits.
pub struct AuditTrail {
    pub entries: Vec<AuditEntry>,
}

impl AuditTrail {
    /// The trail at spec level.
    pub open spec fn log(self) -> Seq<AuditRec> {
        self.entries@.map_values(|e: AuditEntry| e@)
    }

    fn new() -> (t: AuditTrail)
        ensures
            t.log() == Seq::<AuditRec>::empty(),
    {
        let t = AuditTrail { entries: Vec::new() };
        proof {
            assert(t.log() =~= Seq::<AuditRec>::empty());
        }
        t
    }

    fn emit(&mut self, event: ServerEvent, message: String)
        ensures
            final(self).log() == old(self).log().push(
                (AuditRec { event, message: message@ }),
            ),
    {
        let ghost m = message@;
        self.entries.push(AuditEntry { event, message });
        proof {
            assert(self.log() =~= old(self).log().push((AuditRec { event, message: m })));
        }
    }
}

/// A returned string, viewed at spec level; errors pass through.
pub open spec fn with_view<E>(r: Result<String, E>) -> Result<Seq<char>, E> {
    match r {
        Ok(s) => Ok(s@),
        Err(e) => Err(e),
    }
}

/// A presented token, viewed at spec level.
pub open spec fn token_view(t: Option<&String>) -> Option<Seq<char>> {
    match t {
        Some(s) => Some(s@),
        None => None,
    }
}

/// The hash the password check runs against: the stored hash when the user
/// has one, the empty string otherwise.  A missing user is deliberately not
/// a distinct branch — verification still runs, against a hash that can
/// never verify, so unknown-user and wrong-password are outwardly
/// identical.
pub open spec fn stored_hash(m: Map<Seq<char>, Record>, username: Seq<char>, now: u64) -> Seq<
    char,
> {
    match live_get(m, user_password_path(username), now) {
        Some(h) => h,
        None => Seq::empty(),
    }
}

/// What the access gate answers at time `now`: the owning username when the
/// token's record is present and unexpired, a uniform rejection otherwise.
pub open spec fn spec_validate(m: Map<Seq<char>, Record>, token: Seq<char>, now: u64) -> Result<
    Seq<char>,
    AccessError,
> {
    match live_get(m, session_token_path(token), now) {
        Some(u) => Ok(u),
        None => Err(AccessError::Invalid),
    }
}

/// The username a valid token resolves to (empty if the token is not
/// valid; only meaningful when `spec_validate` answers `Ok`).
pub open spec fn spec_owner(m: Map<Seq<char>, Record>, token: Seq<char>, now: u64) -> Seq<char> {
    match live_get(m, session_token_path(token), now) {
        Some(u) => u,
        None => Seq::empty(),
    }
}

/// The outcome of a secret-fetch: denial decides before the secret's
/// records are consulted, so with a missing or invalid token the answer is
/// the same whatever is stored under the name.
pub open spec fn spec_fetch(
    m: Map<Seq<char>, Record>,
    token: Option<Seq<char>>,
    name: Seq<char>,
    now: u64,
) -> Result<Seq<char>, SecretFetchError> {
    match token {
        None => Err(SecretFetchError::TokenRequired),
        Some(t) => if spec_validate(m, t, now) is Err {
            Err(SecretFetchError::AccessDenied)
        } else {
            match live_get(m, secret_value_path(dns_uuid_of(name)), now) {
                Some(v) => Ok(v),
                None => Err(SecretFetchError::NotFound),
            }
        },
    }
}

/// The outcome of a secret-set: the derived identifier on success, denial
/// otherwise, decided before anything is written.
pub open spec fn spec_set_result(
    m: Map<Seq<char>, Record>,
    token: Option<Seq<char>>,
    name: Seq<char>,
    now: u64,
) -> Result<Seq<char>, SecretSetError> {
    match token {
        None => Err(SecretSetError::TokenRequired),
        Some(t) => if spec_validate(m, t, now) is Err {
            Err(SecretSetError::AccessDenied)
        } else {
            Ok(dns_uuid_of(name))
        },
    }
}

/// The store after a secret-set: on success both of the secret's records —
/// name and value — are written under the derived identifier, in one step;
/// on denial the store is untouched.
pub open spec fn spec_set_post(
    m: Map<Seq<char>, Record>,
    token: Option<Seq<char>>,
    name: Seq<char>,
    value: Seq<char>,
    now: u64,
) -> Map<Seq<char>, Record> {
    if spec_set_result(m, token, name, now) is Ok {
        m.insert(
            secret_name_path(dns_uuid_of(name)),
            Record { value: name, expires_at: None },
        ).insert(secret_value_path(dns_uuid_of(name)), Record { value, expires_at: None })
    } else {
        m
    }
}

/// One instance of the service: its store, its counters, its audit trail,
/// and the token lifetime it was configured with at start.
pub struct SecretServer {
    pub store: KvStore,
    pub metrics: Metrics,
    pub audit: AuditTrail,
    pub token_ttl_secs: u64,
}

impl SecretServer {
    /// Starts an instance with an empty store and zeroed counters, and
    /// emits the start event tagged with the instance's identity string.
    pub fn new(token_ttl_secs: u64, instance_id: &String) -> (s: SecretServer)
        ensures
            s.store@ == Map::<Seq<char>, Record>::empty(),
            s.metrics == Metrics::spec_zero(),
            s.token_ttl_secs == token_ttl_secs,
            s.audit.log() == Seq::<AuditRec>::empty().push(
                (AuditRec {
                    event: ServerEvent::Start,
                    message: server_start_message(instance_id@),
                }),
            ),
    {
        let mut audit = AuditTrail::new();
        let msg = server_start_msg(instance_id);
        audit.emit(ServerEvent::Start, msg);
        SecretServer { store: KvStore::new(), metrics: Metrics::new(), audit, token_ttl_secs }
    }

    /// Writes the password-hash record the core reads at login.  User
    /// records are created and rotated outside the core; this is the write
    /// that provisioning performs, and it emits nothing.
    pub fn put_user_password(&mut self, username: &String, password_hash: &String)
        ensures
            final(self).store@ == old(self).store@.insert(
                user_password_path(username@),
                (Record { value: password_hash@, expires_at: None }),
            ),
            final(self).metrics == old(self).metrics,
            final(self).audit.log() == old(self).audit.log(),
            final(self).token_ttl_secs == old(self).token_ttl_secs,
    {
        let path = make_user_password_path(username);
        self.store.set(&path, password_hash);
    }

    /// The hash the password check runs against, per `stored_hash`: the
    /// stored record when present and the empty string when absent, so the
    /// external verification is always performed and a missing user fails
    /// exactly like a wrong password.
    pub fn stored_password_hash(&self, username: &String, now: u64) -> (h: String)
        ensures
            h@ == stored_hash(self.store@, username@, now),
    {
        let path = make_user_password_path(username);
        match self.store.get(&path, now) {
            Some(v) => v,
            None => String::new(),
        }
    }

    /// Writes a freshly issued token's record: the owning username, visible
    /// until `now` plus the configured lifetime.
    fn persist_token(&mut self, token: &String, username: &String, now: u64)
        requires
            now + old(self).token_ttl_secs <= u64::MAX,
        ensures
            final(self).store@ == old(self).store@.insert(
                session_token_path(token@),
                (Record {
                    value: username@,
                    expires_at: Some((now + old(self).token_ttl_secs) as u64),
                }),
            ),
            final(self).metrics == old(self).metrics,
            final(self).audit.log() == old(self).audit.log(),
            final(self).token_ttl_secs == old(self).token_ttl_secs,
    {
        let path = make_session_token_path(token);
        let expires_at = now + self.token_ttl_secs;
        self.store.set_with_expiry(&path, username, expires_at);
    }

    /// Completes a login attempt, given the external hashing primitive's
    /// verdict on the presented password against `stored_hash`.
    ///
    /// When the password did not verify: no token is issued, nothing is
    /// written — the store is exactly as it was — and the failure is
    /// audited and counted.  When it did: a fresh token is drawn, persisted
    /// with the configured lifetime, audited (token creation, then login
    /// success) and counted, and handed back.  The in-memory store accepts
    /// every write, so issuance here never reports
    /// `TokenPersistenceFailure`; that arm exists for integrations whose
    /// store can fail.
    pub fn login(&mut self, username: &String, password_verified: bool, now: u64) -> (r: Result<
        String,
        LoginError,
    >)
        requires
            now + old(self).token_ttl_secs <= u64::MAX,
        ensures
            final(self).token_ttl_secs == old(self).token_ttl_secs,
            !password_verified ==> {
                &&& r == Err::<String, LoginError>(LoginError::AuthenticationFailure)
                &&& final(self).store@ == old(self).store@
                &&& final(self).metrics == (Metrics {
                    login_failure_total: sat_inc(old(self).metrics.login_failure_total),
                    ..old(self).metrics
                })
                &&& final(self).audit.log() == old(self).audit.log().push(
                    (AuditRec {
                        event: ServerEvent::LoginFailureInvalidPassword,
                        message: login_failure_message(username@),
                    }),
                )
            },
            password_verified ==> r is Ok,
            password_verified ==> match r {
                Ok(t) => {
                    &&& is_valid_token(t@)
                    &&& final(self).store@ == old(self).store@.insert(
                        session_token_path(t@),
                        (Record {
                            value: username@,
                            expires_at: Some((now + old(self).token_ttl_secs) as u64),
                        }),
                    )
                    &&& final(self).metrics == (Metrics {
                        login_success_total: sat_inc(old(self).metrics.login_success_total),
                        ..old(self).metrics
                    })
                    &&& final(self).audit.log() == old(self).audit.log().push(
                        (AuditRec {
                            event: ServerEvent::TokenCreated,
                            message: token_created_message(t@, username@),
                        }),
                    ).push(
                        (AuditRec {
                            event: ServerEvent::LoginSuccess,
                            message: login_success_message(username@),
                        }),
                    )
                },
                Err(_) => false,
            },
    {
        if !password_verified {
            let msg = login_failure_msg(username);
            self.audit.emit(ServerEvent::LoginFailureInvalidPassword, msg);
            self.metrics.login_failure_total = saturating_inc(self.metrics.login_failure_total);
            return Err(LoginError::AuthenticationFailure);
        }
        let token = generate_token();
        self.persist_token(&token, username, now);
        let msg = token_created_msg(&token, username);
        self.audit.emit(ServerEvent::TokenCreated, msg);
        let msg = login_success_msg(username);
        self.audit.emit(ServerEvent::LoginSuccess, msg);
        self.metrics.login_success_total = saturating_inc(self.metrics.login_success_total);
        Ok(token)
    }

    /// The access gate: resolves a presented token to its owning username,
    /// or rejects it uniformly — absent, expired and unreadable are one and
    /// the same answer.  Read-only: validation does not refresh the
    /// token's lifetime.
    pub fn validate(&self, token: &String, now: u64) -> (r: Result<String, AccessError>)
        ensures
            with_view(r) == spec_validate(self.store@, token@, now),
    {
        let path = make_session_token_path(token);
        match self.store.get(&path, now) {
            Some(u) => Ok(u),
            None => Err(AccessError::Invalid),
        }
    }

    /// Fetches the secret stored under `name`, behind the access gate.
    ///
    /// Denial is total and comes first: with a missing or unresolvable
    /// token the store's secret records are not consulted, nothing is
    /// written, and the answer is the same whether or not the secret
    /// exists.  Once the token validates, the value record under the
    /// derived identifier is read as of `now` and handed back, or reported
    /// missing.
    /// Every outcome emits exactly one audit event; the success and the two
    /// denials each bump their counter.
    pub fn get_secret(&mut self, token: Option<&String>, name: &String, now: u64) -> (r: Result<
        String,
        SecretFetchError,
    >)
        ensures
            with_view(r) == spec_fetch(old(self).store@, token_view(token), name@, now),
            final(self).store@ == old(self).store@,
            final(self).token_ttl_secs == old(self).token_ttl_secs,
            r is Ok ==> final(self).metrics == (Metrics {
                secret_fetch_total: sat_inc(old(self).metrics.secret_fetch_total),
                ..old(self).metrics
            }),
            r == Err::<String, SecretFetchError>(SecretFetchError::TokenRequired) || r
                == Err::<String, SecretFetchError>(SecretFetchError::AccessDenied)
                ==> final(self).metrics == (Metrics {
                secret_fetch_access_denied_total: sat_inc(
                    old(self).metrics.secret_fetch_access_denied_total,
                ),
                ..old(self).metrics
            }),
            r == Err::<String, SecretFetchError>(SecretFetchError::NotFound) ==> final(self).metrics == old(self).metrics,
            token_view(token) is None ==> final(self).audit.log() == old(self).audit.log().push(
                (AuditRec {
                    event: ServerEvent::SecretFetchFailureNoToken,
                    message: fetch_no_token_message(name@),
                }),
            ),
            (match token_view(token) {
                Some(t) => spec_validate(old(self).store@, t, now) is Err,
                None => false,
            }) ==> final(self).audit.log() == old(self).audit.log().push(
                (AuditRec {
                    event: ServerEvent::SecretFetchFailureInvalidToken,
                    message: fetch_invalid_token_message(name@),
                }),
            ),
            r == Err::<String, SecretFetchError>(SecretFetchError::NotFound) ==> final(self).audit.log() == old(self).audit.log().push(
                (AuditRec {
                    event: ServerEvent::SecretFetchFailureNoExist,
                    message: fetch_not_found_message(
                        name@,
                        spec_owner(old(self).store@, token_view(token).unwrap(), now),
                    ),
                }),
            ),
            r is Ok ==> final(self).audit.log() == old(self).audit.log().push(
                (AuditRec {
                    event: ServerEvent::SecretFetchSuccess,
                    message: fetch_success_message(
                        name@,
                        dns_uuid_of(name@),
                        spec_owner(old(self).store@, token_view(token).unwrap(), now),
                    ),
                }),
            ),
    {
        let token = match token {
            Some(t) => t,
            None => {
                let msg = fetch_no_token_msg(name);
                self.audit.emit(ServerEvent::SecretFetchFailureNoToken, msg);
                self.metrics.secret_fetch_access_denied_total = saturating_inc(
                    self.metrics.secret_fetch_access_denied_total,
                );
                return Err(SecretFetchError::TokenRequired);
            },
        };
        let username = match self.validate(token, now) {
            Ok(u) => u,
            Err(_) => {
                let msg = fetch_invalid_token_msg(name);
                self.audit.emit(ServerEvent::SecretFetchFailureInvalidToken, msg);
                self.metrics.secret_fetch_access_denied_total = saturating_inc(
                    self.metrics.secret_fetch_access_denied_total,
                );
                return Err(SecretFetchError::AccessDenied);
            },
        };
        let id = derive_identifier(name.as_str());
        let value_path = make_secret_value_path(&id);
        match self.store.get(&value_path, now) {
            Some(value) => {
                let msg = fetch_success_msg(name, &id, &username);
                self.audit.emit(ServerEvent::SecretFetchSuccess, msg);
                self.metrics.secret_fetch_total = saturating_inc(self.metrics.secret_fetch_total);
                Ok(value)
            },
            None => {
                let msg = fetch_not_found_msg(name, &username);
                self.audit.emit(ServerEvent::SecretFetchFailureNoExist, msg);
                Err(SecretFetchError::NotFound)
            },
        }
    }

    /// Stores `value` under `name`, behind the access gate.
    ///
    /// Denial is total and comes first: with a missing or unresolvable
    /// token nothing at all is written.  Once the token validates, the
    /// secret's two records — its name and its value, both under the
    /// derived identifier — are written in one step, so both are visible
    /// or neither is, and the identifier is handed back.  Every outcome
    /// emits exactly one audit event; the success and the two denials each
    /// bump their counter.
    pub fn set_secret(
        &mut self,
        token: Option<&String>,
        name: &String,
        value: &String,
        now: u64,
    ) -> (r: Result<String, SecretSetError>)
        ensures
            with_view(r) == spec_set_result(old(self).store@, token_view(token), name@, now),
            final(self).store@ == spec_set_post(
                old(self).store@,
                token_view(token),
                name@,
                value@,
                now,
            ),
            final(self).token_ttl_secs == old(self).token_ttl_secs,
            r is Ok ==> final(self).metrics == (Metrics {
                secret_set_total: sat_inc(old(self).metrics.secret_set_total),
                ..old(self).metrics
            }),
            r is Err ==> final(self).metrics == (Metrics {
                secret_set_access_denied_total: sat_inc(
                    old(self).metrics.secret_set_access_denied_total,
                ),
                ..old(self).metrics
            }),
            token_view(token) is None ==> final(self).audit.log() == old(self).audit.log().push(
                (AuditRec {
                    event: ServerEvent::SecretCreateFailureNoToken,
                    message: set_no_token_message(name@),
                }),
            ),
            (match token_view(token) {
                Some(t) => spec_validate(old(self).store@, t, now) is Err,
                None => false,
            }) ==> final(self).audit.log() == old(self).audit.log().push(
                (AuditRec {
                    event: ServerEvent::SecretCreateFailureInvalidToken,
                    message: set_invalid_token_message(name@),
                }),
            ),
            r is Ok ==> final(self).audit.log() == old(self).audit.log().push(
                (AuditRec {
                    event: ServerEvent::SecretCreateSuccess,
                    message: set_success_message(
                        name@,
                        dns_uuid_of(name@),
                        spec_owner(old(self).store@, token_view(token).unwrap(), now),
                    ),
                }),
            ),
    {
        let token = match token {
            Some(t) => t,
            None => {
                let msg = set_no_token_msg(name);
                self.audit.emit(ServerEvent::SecretCreateFailureNoToken, msg);
                self.metrics.secret_set_access_denied_total = saturating_inc(
                    self.metrics.secret_set_access_denied_total,
                );
                return Err(SecretSetError::TokenRequired);
            },
        };
        let username = match self.validate(token, now) {
            Ok(u) => u,
            Err(_) => {
                let msg = set_invalid_token_msg(name);
                self.audit.emit(ServerEvent::SecretCreateFailureInvalidToken, msg);
                self.metrics.secret_set_access_denied_total = saturating_inc(
                    self.metrics.secret_set_access_denied_total,
                );
                return Err(SecretSetError::AccessDenied);
            },
        };
        let id = derive_identifier(name.as_str());
        let name_path = make_secret_name_path(&id);
        let value_path = make_secret_value_path(&id);
        self.store.set(&name_path, name);
        self.store.set(&value_path, value);
        let msg = set_success_msg(name, &id, &username);
        self.audit.emit(ServerEvent::SecretCreateSuccess, msg);
        self.metrics.secret_set_total = saturating_inc(self.metrics.secret_set_total);
        Ok(id)
    }

    /// Serves the counters in their text encoding.
    pub fn metrics_text(&self) -> (r: String)
        ensures
            r@ == self.metrics.spec_render(),
    {
        self.metrics.render()
    }
}

} // verus!
