//! The guarantees the watch-loop logic gives, stated over the cache
//! models and proved once and for all.

use crate::ident::digest_of;
use crate::monitor::{post_cache_after_event, WatchEventKind};
use crate::paths::spec_is_watched;
use vstd::prelude::*;

verus! {

/// Creation filtering: a creation event for one watched path leaves the
/// cache with that path inserted under its identifier; for any other
/// path it changes nothing.
pub proof fn lemma_create_filter(m: Map<Seq<char>, Seq<char>>, p: Seq<char>)
    ensures
        spec_is_watched(p) ==> post_cache_after_event(m, WatchEventKind::CreateFile, seq![p])
            == m.insert(digest_of(p), p),
        !spec_is_watched(p) ==> post_cache_after_event(m, WatchEventKind::CreateFile, seq![p])
            == m,
{
    let rest = seq![p].drop_last();
    assert(rest =~= Seq::<Seq<char>>::empty());
    assert(crate::monitor::post_cache_after_create(m, rest) == m);
    assert(seq![p].last() == p);
}

/// Rename atomicity: after a rename event with exactly two paths, the
/// new identifier maps to the new path, and — whenever the two paths'
/// identifiers differ — the old identifier is absent, whether or not it
/// was present before.
pub proof fn lemma_rename_atomicity(m: Map<Seq<char>, Seq<char>>, a: Seq<char>, b: Seq<char>)
    ensures
        post_cache_after_event(m, WatchEventKind::RenameBoth, seq![a, b]).contains_key(
            digest_of(b),
        ),
        post_cache_after_event(m, WatchEventKind::RenameBoth, seq![a, b])[digest_of(b)] == b,
        digest_of(a) != digest_of(b) ==> !post_cache_after_event(
            m,
            WatchEventKind::RenameBoth,
            seq![a, b],
        ).contains_key(digest_of(a)),
{
}

/// Malformed renames: a rename event that does not carry exactly two
/// paths mutates nothing.
pub proof fn lemma_rename_malformed(m: Map<Seq<char>, Seq<char>>, paths: Seq<Seq<char>>)
    requires
        paths.len() != 2,
    ensures
        post_cache_after_event(m, WatchEventKind::RenameBoth, paths) == m,
{
}

/// Removal: after a removal event for one watched path, that path's
/// identifier is absent, whether or not it was present before; for any
/// other path the cache is unchanged.
pub proof fn lemma_remove(m: Map<Seq<char>, Seq<char>>, p: Seq<char>)
    ensures
        spec_is_watched(p) ==> post_cache_after_event(m, WatchEventKind::RemoveFile, seq![p])
            == m.remove(digest_of(p)),
        spec_is_watched(p) ==> !post_cache_after_event(
            m,
            WatchEventKind::RemoveFile,
            seq![p],
        ).contains_key(digest_of(p)),
        !spec_is_watched(p) ==> post_cache_after_event(m, WatchEventKind::RemoveFile, seq![p])
            == m,
{
    let rest = seq![p].drop_last();
    assert(rest =~= Seq::<Seq<char>>::empty());
    assert(crate::monitor::post_cache_after_remove(m, rest) == m);
    assert(seq![p].last() == p);
}

/// Template overwrite: caching a template's text under its name makes a
/// lookup of that name return exactly that text, whatever was cached
/// under it before.
pub proof fn lemma_template_overwrite(
    m: Map<Seq<char>, Seq<char>>,
    name: Seq<char>,
    text: Seq<char>,
)
    ensures
        m.insert(name, text).contains_key(name),
        m.insert(name, text)[name] == text,
{
}

} // verus!
