//! The store paths that make up the core's contract with its key-value
//! store: where password hashes are read, where session tokens live, and
//! where a secret's two records are kept.
use vstd::prelude::*;

verus! {

/// Path under which a user's password hash is read (written outside this
/// core).
pub open spec fn user_password_path(username: Seq<char>) -> Seq<char> {
    "/users/"@ + username + "/password"@
}

/// Path under which an issued token's owning username is written, with the
/// configured expiry.
pub open spec fn session_token_path(token: Seq<char>) -> Seq<char> {
    "/session_tokens/"@ + token
}

/// Path of the record holding a secret's original name.
pub open spec fn secret_name_path(id: Seq<char>) -> Seq<char> {
    "/secrets/"@ + id + "/name"@
}

/// Path of the record holding a secret's value.
pub open spec fn secret_value_path(id: Seq<char>) -> Seq<char> {
    "/secrets/"@ + id + "/value"@
}

/// The token records and the secret records live in disjoint parts of the
/// store: no session-token path is ever a secret's name or value path,
/// whatever the token and the identifier.
pub proof fn lemma_session_and_secret_paths_differ(t: Seq<char>, id: Seq<char>)
    ensures
        session_token_path(t) != secret_name_path(id),
        session_token_path(t) != secret_value_path(id),
{
    reveal_strlit("/session_tokens/");
    reveal_strlit("/secrets/");
    assert(session_token_path(t)[3] == 's');
    assert(secret_name_path(id)[3] == 'c');
    assert(secret_value_path(id)[3] == 'c');
}

/// Builds `user_password_path(username)`.
pub fn make_user_password_path(username: &String) -> (p: String)
    ensures
        p@ == user_password_path(username@),
{
    let mut p: String = "/users/".to_owned();
    p.append(username.as_str());
    p.append("/password");
    assert(p@ =~= user_password_path(username@));
    p
}

/// Builds `session_token_path(token)`.
pub fn make_session_token_path(token: &String) -> (p: String)
    ensures
        p@ == session_token_path(token@),
{
    let mut p: String = "/session_tokens/".to_owned();
    p.append(token.as_str());
    p
}

/// Builds `secret_name_path(id)`.
pub fn make_secret_name_path(id: &String) -> (p: String)
    ensures
        p@ == secret_name_path(id@),
{
    let mut p: String = "/secrets/".to_owned();
    p.append(id.as_str());
    p.append("/name");
    assert(p@ =~= secret_name_path(id@));
    p
}

/// Builds `secret_value_path(id)`.
pub fn make_secret_value_path(id: &String) -> (p: String)
    ensures
        p@ == secret_value_path(id@),
{
    let mut p: String = "/secrets/".to_owned();
    p.append(id.as_str());
    p.append("/value");
    assert(p@ =~= secret_value_path(id@));
    p
}

} // verus!
