//! The human-readable audit message attached to each emitted event.  Each
//! message's exact text is fixed by a spec function, and each builder is
//! proved to produce it.
use vstd::prelude::*;

verus! {

/// Message of the event emitted when an instance starts.
pub open spec fn server_start_message(instance: Seq<char>) -> Seq<char> {
    "New instance of secret-server started: "@ + instance
}

/// Message of a login rejected for a password that did not verify.
pub open spec fn login_failure_message(username: Seq<char>) -> Seq<char> {
    "Login failure for user "@ + username + " due to invalid password"@
}

/// Message of a fresh session token being recorded.
pub open spec fn token_created_message(token: Seq<char>, username: Seq<char>) -> Seq<char> {
    "Session token "@ + token + " for user "@ + username + " created"@
}

/// Message of a completed login.
pub open spec fn login_success_message(username: Seq<char>) -> Seq<char> {
    "Login success for user "@ + username
}

/// Message of a secret-set attempt carrying no token at all.
pub open spec fn set_no_token_message(name: Seq<char>) -> Seq<char> {
    "Secret "@ + name + " failed set, no token entered attempt"@
}

/// Message of a secret-set attempt whose token did not resolve.
pub open spec fn set_invalid_token_message(name: Seq<char>) -> Seq<char> {
    "Secret "@ + name + " failed set, invalid token attempt"@
}

/// Message of a completed secret-set.
pub open spec fn set_success_message(name: Seq<char>, id: Seq<char>, username: Seq<char>) -> Seq<
    char,
> {
    "Secret "@ + name + " set with UUID "@ + id + " by user "@ + username
}

/// Message of a secret-fetch attempt carrying no token at all.
pub open spec fn fetch_no_token_message(name: Seq<char>) -> Seq<char> {
    "Secret "@ + name + " failed fetch, no token entered attempt"@
}

/// Message of a secret-fetch attempt whose token did not resolve.
pub open spec fn fetch_invalid_token_message(name: Seq<char>) -> Seq<char> {
    "Secret "@ + name + " failed fetch, invalid token attempt"@
}

/// Message of a fetch of a secret that has no stored value.
pub open spec fn fetch_not_found_message(name: Seq<char>, username: Seq<char>) -> Seq<char> {
    "Secret "@ + name + " failed fetch by user "@ + username + ", does not exist"@
}

/// Message of a completed secret-fetch.
pub open spec fn fetch_success_message(name: Seq<char>, id: Seq<char>, username: Seq<char>) -> Seq<
    char,
> {
    "Secret "@ + name + " UUID "@ + id + " fetched by user "@ + username
}

/// Builds `server_start_message(instance)`.
pub fn server_start_msg(instance: &String) -> (m: String)
    ensures
        m@ == server_start_message(instance@),
{
    let mut m: String = "New instance of secret-server started: ".to_owned();
    m.append(instance.as_str());
    m
}

/// Builds `login_failure_message(username)`.
pub fn login_failure_msg(username: &String) -> (m: String)
    ensures
        m@ == login_failure_message(username@),
{
    let mut m: String = "Login failure for user ".to_owned();
    m.append(username.as_str());
    m.append(" due to invalid password");
    assert(m@ =~= login_failure_message(username@));
    m
}

/// Builds `token_created_message(token, username)`.
pub fn token_created_msg(token: &String, username: &String) -> (m: String)
    ensures
        m@ == token_created_message(token@, username@),
{
    let mut m: String = "Session token ".to_owned();
    m.append(token.as_str());
    m.append(" for user ");
    m.append(username.as_str());
    m.append(" created");
    assert(m@ =~= token_created_message(token@, username@));
    m
}

/// Builds `login_success_message(username)`.
pub fn login_success_msg(username: &String) -> (m: String)
    ensures
        m@ == login_success_message(username@),
{
    let mut m: String = "Login success for user ".to_owned();
    m.append(username.as_str());
    m
}

/// Builds `set_no_token_message(name)`.
pub fn set_no_token_msg(name: &String) -> (m: String)
    ensures
        m@ == set_no_token_message(name@),
{
    let mut m: String = "Secret ".to_owned();
    m.append(name.as_str());
    m.append(" failed set, no token entered attempt");
    assert(m@ =~= set_no_token_message(name@));
    m
}

/// Builds `set_invalid_token_message(name)`.
pub fn set_invalid_token_msg(name: &String) -> (m: String)
    ensures
        m@ == set_invalid_token_message(name@),
{
    let mut m: String = "Secret ".to_owned();
    m.append(name.as_str());
    m.append(" failed set, invalid token attempt");
    assert(m@ =~= set_invalid_token_message(name@));
    m
}

/// Builds `set_success_message(name, id, username)`.
pub fn set_success_msg(name: &String, id: &String, username: &String) -> (m: String)
    ensures
        m@ == set_success_message(name@, id@, username@),
{
    let mut m: String = "Secret ".to_owned();
    m.append(name.as_str());
    m.append(" set with UUID ");
    m.append(id.as_str());
    m.append(" by user ");
    m.append(username.as_str());
    assert(m@ =~= set_success_message(name@, id@, username@));
    m
}

/// Builds `fetch_no_token_message(name)`.
pub fn fetch_no_token_msg(name: &String) -> (m: String)
    ensures
        m@ == fetch_no_token_message(name@),
{
    let mut m: String = "Secret ".to_owned();
    m.append(name.as_str());
    m.append(" failed fetch, no token entered attempt");
    assert(m@ =~= fetch_no_token_message(name@));
    m
}

/// Builds `fetch_invalid_token_message(name)`.
pub fn fetch_invalid_token_msg(name: &String) -> (m: String)
    ensures
        m@ == fetch_invalid_token_message(name@),
{
    let mut m: String = "Secret ".to_owned();
    m.append(name.as_str());
    m.append(" failed fetch, invalid token attempt");
    assert(m@ =~= fetch_invalid_token_message(name@));
    m
}

/// Builds `fetch_not_found_message(name, username)`.
pub fn fetch_not_found_msg(name: &String, username: &String) -> (m: String)
    ensures
        m@ == fetch_not_found_message(name@, username@),
{
    let mut m: String = "Secret ".to_owned();
    m.append(name.as_str());
    m.append(" failed fetch by user ");
    m.append(username.as_str());
    m.append(", does not exist");
    assert(m@ =~= fetch_not_found_message(name@, username@));
    m
}

/// Builds `fetch_success_message(name, id, username)`.
pub fn fetch_success_msg(name: &String, id: &String, username: &String) -> (m: String)
    ensures
        m@ == fetch_success_message(name@, id@, username@),
{
    let mut m: String = "Secret ".to_owned();
    m.append(name.as_str());
    m.append(" UUID ");
    m.append(id.as_str());
    m.append(" fetched by user ");
    m.append(username.as_str());
    assert(m@ =~= fetch_success_message(name@, id@, username@));
    m
}

} // verus!
