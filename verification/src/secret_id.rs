//! Derivation of a secret's storage identifier from its human-readable
//! name: a stable, deterministic, collision-resistant mapping.  The
//! identifier is purely a storage key; it carries no authorization meaning.
use vstd::prelude::*;

verus! {

/// The storage identifier derived from a secret name: the name-based
/// (SHA-1) UUID of the name in the DNS namespace, rendered in hyphenated
/// form.  A fixed function of the name and of nothing else.
pub uninterp spec fn dns_uuid_of(name: Seq<char>) -> Seq<char>;

/// Relies on uuid's `Uuid::new_v5` with the DNS namespace — a name-based
/// SHA-1 UUID, a pure function of the name bytes — and on `Uuid`'s display
/// form, the lowercase hyphenated encoding.
#[verifier::external_body]
fn uuid_v5_dns(name: &str) -> (r: String)
    ensures
        r@ == dns_uuid_of(name@),
{
    uuid::Uuid::new_v5(&uuid::Uuid::NAMESPACE_DNS, name.as_bytes()).to_string()
}

/// Maps a secret's name to the identifier its records are stored under.
pub fn derive_identifier(name: &str) -> (id: String)
    ensures
        id@ == dns_uuid_of(name@),
{
    uuid_v5_dns(name)
}

/// Derivation is deterministic: the identifier is a function of the
/// secret's name alone, so deriving the same name twice — in the same
/// process or another — yields the same identifier.
pub proof fn lemma_derivation_deterministic(n1: Seq<char>, n2: Seq<char>)
    requires
        n1 == n2,
    ensures
        dns_uuid_of(n1) == dns_uuid_of(n2),
{
}

} // verus!
