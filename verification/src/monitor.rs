//! The watch-loop logic: classifying one filesystem event and applying
//! the cache mutation it implies.
//!
//! The notification source itself lives in the surrounding program, which
//! turns each raw notification into a `WatchEvent` of plain strings and
//! hands it here; everything that decides and mutates is verified. The
//! template loop's file read also stays outside: the program reads the
//! changed file and hands the text to `TemplateCache::put` under the
//! name that `template_name` computed.

use crate::cache::{PostCache, PostInfo, TemplateCache};
use crate::ident::{derive_post_id, digest_of};
use crate::paths::{is_watched_path, spec_is_watched};
use vstd::prelude::*;

verus! {

/// The kind of a filesystem event, as far as the watch loops care.
#[derive(Debug, Clone, Copy, PartialEq, Eq, Structural)]
pub enum WatchEventKind {
    /// A file was created.
    CreateFile,
    /// A file was renamed, both endpoints reported in one event.
    RenameBoth,
    /// A file was removed.
    RemoveFile,
    /// A file's data changed.
    DataChange,
    /// Anything else the notification source may report.
    Other,
}

/// One filesystem event: a kind and the paths it concerns.
#[derive(Debug)]
pub struct WatchEvent {
    /// What happened.
    pub kind: WatchEventKind,
    /// The affected paths, in the order the notification source gave
    /// them; for a rename these are `[from, to]`.
    pub paths: Vec<String>,
}

/// What processing one post event came to, for the caller's logging.
#[derive(Debug, Clone, Copy, PartialEq, Eq, Structural)]
pub enum PostEventOutcome {
    /// The implied cache mutation was applied.
    Applied,
    /// A rename event did not carry exactly two paths: dropped.
    MalformedRename,
    /// The event kind is not one the post loop acts on.
    Ignored,
}

/// The post cache after a creation event: every watched path inserted
/// under its identifier, in order.
pub open spec fn post_cache_after_create(
    m: Map<Seq<char>, Seq<char>>,
    paths: Seq<Seq<char>>,
) -> Map<Seq<char>, Seq<char>>
    decreases paths.len(),
{
    if paths.len() == 0 {
        m
    } else {
        let prev = post_cache_after_create(m, paths.drop_last());
        if spec_is_watched(paths.last()) {
            prev.insert(digest_of(paths.last()), paths.last())
        } else {
            prev
        }
    }
}

/// The post cache after a removal event: every watched path's identifier
/// removed, in order.
pub open spec fn post_cache_after_remove(
    m: Map<Seq<char>, Seq<char>>,
    paths: Seq<Seq<char>>,
) -> Map<Seq<char>, Seq<char>>
    decreases paths.len(),
{
    if paths.len() == 0 {
        m
    } else {
        let prev = post_cache_after_remove(m, paths.drop_last());
        if spec_is_watched(paths.last()) {
            prev.remove(digest_of(paths.last()))
        } else {
            prev
        }
    }
}

/// The post cache after a rename event: with exactly two paths, the old
/// identifier is removed and the new path is inserted under the new
/// identifier, the new path deliberately not filtered; with any other
/// path count the event is malformed and the cache is unchanged.
pub open spec fn post_cache_after_rename(
    m: Map<Seq<char>, Seq<char>>,
    paths: Seq<Seq<char>>,
) -> Map<Seq<char>, Seq<char>> {
    if paths.len() == 2 {
        m.remove(digest_of(paths[0])).insert(digest_of(paths[1]), paths[1])
    } else {
        m
    }
}

/// The post cache after one event of any kind.
pub open spec fn post_cache_after_event(
    m: Map<Seq<char>, Seq<char>>,
    kind: WatchEventKind,
    paths: Seq<Seq<char>>,
) -> Map<Seq<char>, Seq<char>> {
    match kind {
        WatchEventKind::CreateFile => post_cache_after_create(m, paths),
        WatchEventKind::RenameBoth => post_cache_after_rename(m, paths),
        WatchEventKind::RemoveFile => post_cache_after_remove(m, paths),
        WatchEventKind::DataChange => m,
        WatchEventKind::Other => m,
    }
}

/// Routes one filesystem event to the post cache: creations insert each
/// watched path under its identifier, renames with exactly two paths move
/// the entry atomically, removals drop each watched path's identifier,
/// and everything else leaves the cache alone. A rename with any other
/// path count is reported as malformed and applies nothing.
pub fn process_post_event(cache: &mut PostCache, event: &WatchEvent) -> (outcome:
    PostEventOutcome)
    ensures
        final(cache)@ == post_cache_after_event(old(cache)@, event.kind, event.paths.deep_view()),
        outcome == PostEventOutcome::MalformedRename <==> (event.kind
            == WatchEventKind::RenameBoth && event.paths@.len() != 2),
        outcome == PostEventOutcome::Ignored <==> (event.kind == WatchEventKind::DataChange
            || event.kind == WatchEventKind::Other),
{
    let ghost m0 = cache@;
    let ghost dv = event.paths.deep_view();
    match event.kind {
        WatchEventKind::CreateFile => {
            let mut i: usize = 0;
            while i < event.paths.len()
                invariant
                    i <= event.paths@.len(),
                    dv == event.paths.deep_view(),
                    dv.len() == event.paths@.len(),
                    cache@ == post_cache_after_create(m0, dv.subrange(0, i as int)),
                decreases event.paths@.len() - i,
            {
                proof {
                    assert(dv.subrange(0, i + 1 as int).drop_last() =~= dv.subrange(0, i as int));
                    assert(dv.subrange(0, i + 1 as int).last() == dv[i as int]);
                    assert(dv[i as int] == event.paths@[i as int]@);
                }
                let path = &event.paths[i];
                if is_watched_path(path) {
                    let id = derive_post_id(path);
                    cache.insert(id, PostInfo { path: path.clone() });
                }
                i += 1;
            }
            proof {
                assert(dv.subrange(0, dv.len() as int) =~= dv);
            }
            PostEventOutcome::Applied
        },
        WatchEventKind::RenameBoth => {
            if event.paths.len() != 2 {
                PostEventOutcome::MalformedRename
            } else {
                proof {
                    assert(dv[0] == event.paths@[0]@);
                    assert(dv[1] == event.paths@[1]@);
                }
                let from_path = &event.paths[0];
                let to_path = event.paths[1].clone();
                let from_id = derive_post_id(from_path);
                let to_id = derive_post_id(&to_path);
                cache.rename(&from_id, to_id, to_path);
                PostEventOutcome::Applied
            }
        },
        WatchEventKind::RemoveFile => {
            let mut i: usize = 0;
            while i < event.paths.len()
                invariant
                    i <= event.paths@.len(),
                    dv == event.paths.deep_view(),
                    dv.len() == event.paths@.len(),
                    cache@ == post_cache_after_remove(m0, dv.subrange(0, i as int)),
                decreases event.paths@.len() - i,
            {
                proof {
                    assert(dv.subrange(0, i + 1 as int).drop_last() =~= dv.subrange(0, i as int));
                    assert(dv.subrange(0, i + 1 as int).last() == dv[i as int]);
                    assert(dv[i as int] == event.paths@[i as int]@);
                }
                let path = &event.paths[i];
                if is_watched_path(path) {
                    let id = derive_post_id(path);
                    cache.remove(&id);
                }
                i += 1;
            }
            proof {
                assert(dv.subrange(0, dv.len() as int) =~= dv);
            }
            PostEventOutcome::Applied
        },
        WatchEventKind::DataChange => PostEventOutcome::Ignored,
        WatchEventKind::Other => PostEventOutcome::Ignored,
    }
}

/// Whether the template loop acts on an event of this kind: only a data
/// change does; every other kind is ignored and mutates nothing.
pub fn is_template_event(kind: WatchEventKind) -> (b: bool)
    ensures
        b == (kind == WatchEventKind::DataChange),
{
    match kind {
        WatchEventKind::DataChange => true,
        WatchEventKind::CreateFile => false,
        WatchEventKind::RenameBoth => false,
        WatchEventKind::RemoveFile => false,
        WatchEventKind::Other => false,
    }
}

/// The caches the two watch loops feed, handed out together at startup.
pub struct MonitorCaches {
    /// Posts keyed by identifier.
    pub posts: PostCache,
    /// Templates keyed by name.
    pub templates: TemplateCache,
}

/// Creates the subsystem's state: both caches, empty. The surrounding
/// program wraps each in a lock, registers the two directory watches,
/// and routes every event through `process_post_event` or
/// `template_name` and `TemplateCache::put`.
pub fn init() -> (c: MonitorCaches)
    ensures
        c.posts@ == Map::<Seq<char>, Seq<char>>::empty(),
        c.templates@ == Map::<Seq<char>, Seq<char>>::empty(),
{
    MonitorCaches { posts: PostCache::new(), templates: TemplateCache::new() }
}

} // verus!
