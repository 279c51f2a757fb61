//! Stable identifiers for posts: a post is keyed by a deterministic
//! digest of its absolute path, not of its content, so the same path
//! always maps to the same cache key.

use vstd::prelude::*;

verus! {

/// The identifier derived from a path: a function of the path's
/// characters alone.
pub uninterp spec fn digest_of(path: Seq<char>) -> Seq<char>;

/// Relies on md5::compute, a pure function of its input bytes, and on
/// md5::Digest's LowerHex rendering, which writes each of the 16 digest
/// bytes as two hexadecimal digits: the result is a function of the path
/// alone and is exactly 32 characters long.
#[verifier::external_body]
fn md5_hex(path: &String) -> (r: String)
    ensures
        r@ == digest_of(path@),
        r@.len() == 32,
{
    format!("{:x}", md5::compute(path))
}

/// Derives the stable identifier of a post from its path.
pub fn derive_post_id(path: &String) -> (id: String)
    ensures
        id@ == digest_of(path@),
        id@.len() == 32,
{
    md5_hex(path)
}

/// Identifier determinism: equal path strings always yield equal
/// identifiers, within one process run.
pub proof fn lemma_identifier_deterministic(p: Seq<char>, q: Seq<char>)
    requires
        p == q,
    ensures
        digest_of(p) == digest_of(q),
{
}

} // verus!
