//! Session-token generation: an opaque bearer token is a fixed-length string
//! of characters drawn from the 62-letter alphanumeric alphabet.
use vstd::prelude::*;

use rand::RngExt;

use crate::TOKEN_LENGTH;

verus! {

/// The token alphabet: ASCII digits and letters of either case.
pub open spec fn is_token_char(c: char) -> bool {
    ('0' <= c && c <= '9') || ('A' <= c && c <= 'Z') || ('a' <= c && c <= 'z')
}

/// A well-formed session token: exactly `TOKEN_LENGTH` characters, each from
/// the token alphabet.
pub open spec fn is_valid_token(s: Seq<char>) -> bool {
    &&& s.len() == TOKEN_LENGTH
    &&& forall|i: int| 0 <= i < s.len() ==> is_token_char(#[trigger] s[i])
}

/// Relies on rand's thread-local generator sampling the `Alphanumeric`
/// distribution, which draws uniformly from the 62 ASCII alphanumeric
/// characters.  Nothing is assumed about which character comes back, only
/// that it lies in that alphabet.
#[verifier::external_body]
fn sample_alphanumeric() -> (c: char)
    ensures
        is_token_char(c),
{
    char::from(rand::rng().sample(rand::distr::Alphanumeric))
}

/// Appends `ch` to `s`.  Relies on std's `String::push`, which vstd leaves
/// unspecified: the documentation says it appends the given char to the end
/// of the string.
pub assume_specification[ String::push ](s: &mut String, ch: char)
    ensures
        final(s)@ == old(s)@.push(ch),
;

/// Draws a fresh session token: `TOKEN_LENGTH` characters, each sampled
/// independently from the alphanumeric alphabet.
pub fn generate_token() -> (t: String)
    ensures
        is_valid_token(t@),
{
    let mut t = String::new();
    let mut i: usize = 0;
    while i < TOKEN_LENGTH
        invariant
            i <= TOKEN_LENGTH,
            t@.len() == i,
            forall|j: int| 0 <= j < i ==> is_token_char(#[trigger] t@[j]),
        decreases TOKEN_LENGTH - i,
    {
        let c = sample_alphanumeric();
        t.push(c);
        i = i + 1;
    }
    t
}

} // verus!
