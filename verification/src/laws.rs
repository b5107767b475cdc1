//! Service-level guarantees that span more than one operation, stated over
//! the same spec views the operations' contracts use and proved once and
//! for all.
use vstd::prelude::*;

use crate::paths::session_token_path;
use crate::secret_id::dns_uuid_of;
use crate::server::{
    spec_fetch, spec_set_post, spec_set_result, spec_validate, AccessError, SecretFetchError,
    SecretSetError,
};
use crate::store::Record;

verus! {

/// A token is good the moment it is issued: after a successful login wrote
/// the token's record — the owning username, expiring at `now` plus a
/// positive lifetime — validating that token at `now` resolves to exactly
/// that username.
pub proof fn lemma_issued_token_validates(
    m: Map<Seq<char>, Record>,
    token: Seq<char>,
    username: Seq<char>,
    now: u64,
    ttl: u64,
)
    requires
        1 <= ttl,
        now + ttl <= u64::MAX,
    ensures
        spec_validate(
            m.insert(
                session_token_path(token),
                (Record { value: username, expires_at: Some((now + ttl) as u64) }),
            ),
            token,
            now,
        ) == Ok::<Seq<char>, AccessError>(username),
{
}

/// Expiry is final: once a token's record has reached its expiry second,
/// validating that token is denied — indistinguishably from a token never
/// issued — and stays denied, since the record is never refreshed.
pub proof fn lemma_expired_token_denied(
    m: Map<Seq<char>, Record>,
    token: Seq<char>,
    now: u64,
    expires_at: u64,
)
    requires
        m.contains_key(session_token_path(token)),
        m[session_token_path(token)].expires_at == Some(expires_at),
        expires_at <= now,
    ensures
        spec_validate(m, token, now) == Err::<Seq<char>, AccessError>(AccessError::Invalid),
{
}

/// A token dies with its lifetime: one issued at `issued_at` with lifetime
/// `ttl` — the record a successful login writes — is denied at every `now`
/// from `issued_at + ttl` on, exactly as `lemma_expired_token_denied` says
/// of any expired record.
pub proof fn lemma_issued_token_expires(
    m: Map<Seq<char>, Record>,
    token: Seq<char>,
    username: Seq<char>,
    issued_at: u64,
    ttl: u64,
    now: u64,
)
    requires
        issued_at + ttl <= u64::MAX,
        issued_at + ttl <= now,
    ensures
        spec_validate(
            m.insert(
                session_token_path(token),
                (Record { value: username, expires_at: Some((issued_at + ttl) as u64) }),
            ),
            token,
            now,
        ) == Err::<Seq<char>, AccessError>(AccessError::Invalid),
{
}

/// Secret writes never touch the token records: after a secret-set the
/// gate answers every token, at every time, exactly as it did before.
pub proof fn lemma_secret_write_preserves_gate(
    m: Map<Seq<char>, Record>,
    write_token: Option<Seq<char>>,
    name: Seq<char>,
    value: Seq<char>,
    write_now: u64,
    token: Seq<char>,
    now: u64,
)
    ensures
        spec_validate(spec_set_post(m, write_token, name, value, write_now), token, now)
            == spec_validate(m, token, now),
{
    crate::paths::lemma_session_and_secret_paths_differ(token, dns_uuid_of(name));
}

/// Round trip: a secret-set whose token validates, followed by a fetch of
/// the same name whose token validates at fetch time, yields exactly the
/// stored value.  Token validity may be read against the store before or
/// after the write: the write does not disturb it.
pub proof fn lemma_set_then_get_round_trip(
    m: Map<Seq<char>, Record>,
    set_token: Seq<char>,
    get_token: Seq<char>,
    name: Seq<char>,
    value: Seq<char>,
    set_now: u64,
    get_now: u64,
)
    requires
        spec_validate(m, set_token, set_now) is Ok,
        spec_validate(m, get_token, get_now) is Ok,
    ensures
        spec_fetch(
            spec_set_post(m, Some(set_token), name, value, set_now),
            Some(get_token),
            name,
            get_now,
        ) == Ok::<Seq<char>, SecretFetchError>(value),
{
    lemma_secret_write_preserves_gate(
        m,
        Some(set_token),
        name,
        value,
        set_now,
        get_token,
        get_now,
    );
}

/// Access denial is total: with no token, or with one that does not
/// validate, both secret operations are denied, each with its own error,
/// and nothing is written.  The denied outcome named here is a constant in the
/// secret's records — the same answer comes whether or not anything is
/// stored under the name.
pub proof fn lemma_denied_without_valid_token(
    m: Map<Seq<char>, Record>,
    token: Option<Seq<char>>,
    name: Seq<char>,
    value: Seq<char>,
    now: u64,
)
    requires
        match token {
            None => true,
            Some(t) => spec_validate(m, t, now) is Err,
        },
    ensures
        spec_fetch(m, token, name, now) == (match token {
            None => Err::<Seq<char>, SecretFetchError>(SecretFetchError::TokenRequired),
            Some(_) => Err::<Seq<char>, SecretFetchError>(SecretFetchError::AccessDenied),
        }),
        spec_set_result(m, token, name, now) == (match token {
            None => Err::<Seq<char>, SecretSetError>(SecretSetError::TokenRequired),
            Some(_) => Err::<Seq<char>, SecretSetError>(SecretSetError::AccessDenied),
        }),
        spec_set_post(m, token, name, value, now) == m,
{
}

} // verus!
