use vstd::prelude::*;

verus! {

/// A term identifier: a fixed-width, deterministic digest of a normalized
/// token's bytes. Collisions are a tolerated trade-off, not an error.
pub type StoreTermHashed = u32;

/// The digest of a token. It is a pure function of the token's characters:
/// the same token always hashes to the same value, in every run.
pub uninterp spec fn spec_term_hash(word: Seq<char>) -> u32;

/// Relies on twox_hash::XxHash32 (seed 0): the digest is computed from the
/// UTF-8 bytes of the input alone, with no per-process randomization, so it
/// is stable across calls and across process restarts.
#[verifier::external_body]
fn xxhash32(word: &str) -> (r: u32)
    ensures
        r == spec_term_hash(word@),
{
    let mut hasher = twox_hash::XxHash32::with_seed(0);
    std::hash::Hasher::write(&mut hasher, word.as_bytes());
    std::hash::Hasher::finish(&hasher) as u32
}

/// Hash stability: the term hash is a pure function of the token's
/// characters, so equal tokens always receive equal identifiers — within one
/// run, across repeated calls, and across process restarts.
pub proof fn lemma_hash_deterministic(a: Seq<char>, b: Seq<char>)
    requires
        a == b,
    ensures
        spec_term_hash(a) == spec_term_hash(b),
{
}

pub struct StoreTermHash;

impl StoreTermHash {
    /// Hashes a normalized token to its term identifier. Deterministic:
    /// the result depends on the token's characters alone.
    pub fn from(term: &str) -> (r: StoreTermHashed)
        ensures
            r == spec_term_hash(term@),
    {
        xxhash32(term)
    }
}

} // verus!
