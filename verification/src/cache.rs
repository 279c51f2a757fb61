//! The two in-memory caches: posts keyed by identifier and templates
//! keyed by name. Both are viewed as maps from the key's characters to
//! the value's characters; every operation says exactly how it changes
//! that map.
//!
//! The caches themselves are plain owned values. The surrounding program
//! is expected to wrap each in a mutual-exclusion lock and hold it for
//! the single operation, which makes `rename` one atomic step for
//! concurrent readers.

use vstd::hash_map::StringHashMap;
use vstd::prelude::*;

verus! {

/// Metadata kept for one post: its current on-disk location.
#[derive(Debug)]
pub struct PostInfo {
    /// The post's source path.
    pub path: String,
}

/// A string-valued map seen as a map of character sequences.
pub open spec fn chars_view(m: Map<Seq<char>, String>) -> Map<Seq<char>, Seq<char>> {
    m.map_values(|v: String| v@)
}

proof fn lemma_chars_view_empty()
    ensures
        chars_view(Map::<Seq<char>, String>::empty()) == Map::<Seq<char>, Seq<char>>::empty(),
{
    assert(chars_view(Map::<Seq<char>, String>::empty()) =~= Map::<Seq<char>, Seq<char>>::empty());
}

proof fn lemma_chars_view_insert(m: Map<Seq<char>, String>, k: Seq<char>, v: String)
    ensures
        chars_view(m.insert(k, v)) == chars_view(m).insert(k, v@),
{
    assert(chars_view(m.insert(k, v)) =~= chars_view(m).insert(k, v@));
}

proof fn lemma_chars_view_remove(m: Map<Seq<char>, String>, k: Seq<char>)
    ensures
        chars_view(m.remove(k)) == chars_view(m).remove(k),
{
    assert(chars_view(m.remove(k)) =~= chars_view(m).remove(k));
}

proof fn lemma_chars_view_len(m: Map<Seq<char>, String>)
    ensures
        chars_view(m).len() == m.len(),
{
    assert(chars_view(m).dom() =~= m.dom());
}

/// The post cache: a mapping from post identifier to post metadata,
/// viewed as a map from the identifier's characters to the path's
/// characters.
pub struct PostCache {
    map: StringHashMap<String>,
}

impl View for PostCache {
    type V = Map<Seq<char>, Seq<char>>;

    closed spec fn view(&self) -> Map<Seq<char>, Seq<char>> {
        chars_view(self.map@)
    }
}

impl PostCache {
    /// An empty post cache.
    pub fn new() -> (c: Self)
        ensures
            c@ == Map::<Seq<char>, Seq<char>>::empty(),
    {
        proof {
            lemma_chars_view_empty();
        }
        PostCache { map: StringHashMap::new() }
    }

    /// Inserts or overwrites the entry for `id`.
    pub fn insert(&mut self, id: String, info: PostInfo)
        ensures
            final(self)@ == old(self)@.insert(id@, info.path@),
    {
        proof {
            lemma_chars_view_insert(self.map@, id@, info.path);
        }
        self.map.insert(id, info.path);
    }

    /// Atomically removes the entry at `from_id`, if any, and inserts the
    /// new path at `to_id`. A missing `from_id` is not an error: a rename
    /// may arrive for an identifier never observed as created.
    pub fn rename(&mut self, from_id: &String, to_id: String, to_path: String)
        ensures
            final(self)@ == old(self)@.remove(from_id@).insert(to_id@, to_path@),
    {
        proof {
            lemma_chars_view_remove(self.map@, from_id@);
            lemma_chars_view_insert(self.map@.remove(from_id@), to_id@, to_path);
        }
        self.map.remove(from_id.as_str());
        self.map.insert(to_id, to_path);
    }

    /// Removes the entry for `id`; a no-op when it is absent.
    pub fn remove(&mut self, id: &String)
        ensures
            final(self)@ == old(self)@.remove(id@),
    {
        proof {
            lemma_chars_view_remove(self.map@, id@);
        }
        self.map.remove(id.as_str());
    }

    /// Looks up the post stored under `id`.
    pub fn get(&self, id: &String) -> (r: Option<PostInfo>)
        ensures
            match r {
                Some(info) => self@.contains_key(id@) && info.path@ == self@[id@],
                None => !self@.contains_key(id@),
            },
    {
        match self.map.get(id.as_str()) {
            Some(path) => Some(PostInfo { path: path.clone() }),
            None => None,
        }
    }

    /// Whether an entry for `id` is present.
    pub fn contains(&self, id: &String) -> (b: bool)
        ensures
            b == self@.contains_key(id@),
    {
        self.map.contains_key(id.as_str())
    }

    /// The number of cached posts.
    pub fn len(&self) -> (n: usize)
        ensures
            n == self@.len(),
    {
        proof {
            lemma_chars_view_len(self.map@);
        }
        self.map.len()
    }
}

/// Inserts or overwrites the post stored under `id`.
pub fn add_postinfo(cache: &mut PostCache, id: String, info: PostInfo)
    ensures
        final(cache)@ == old(cache)@.insert(id@, info.path@),
{
    cache.insert(id, info);
}

/// Moves a post from `from_id` to `to_id`, recording its new path, in
/// one atomic step; a missing `from_id` is a no-op rather than an error.
pub fn update_postinfo_path(cache: &mut PostCache, from_id: String, to_id: String, to_path: String)
    ensures
        final(cache)@ == old(cache)@.remove(from_id@).insert(to_id@, to_path@),
{
    cache.rename(&from_id, to_id, to_path);
}

/// Removes the post stored under `id`; a no-op when it is absent.
pub fn remove_postinfo(cache: &mut PostCache, id: &String)
    ensures
        final(cache)@ == old(cache)@.remove(id@),
{
    cache.remove(id);
}

/// The template cache: a mapping from template name to raw template
/// text, viewed as a map from the name's characters to the text's
/// characters. Entries are fully overwritten on change and never
/// evicted.
pub struct TemplateCache {
    map: StringHashMap<String>,
}

impl View for TemplateCache {
    type V = Map<Seq<char>, Seq<char>>;

    closed spec fn view(&self) -> Map<Seq<char>, Seq<char>> {
        chars_view(self.map@)
    }
}

impl TemplateCache {
    /// An empty template cache.
    pub fn new() -> (c: Self)
        ensures
            c@ == Map::<Seq<char>, Seq<char>>::empty(),
    {
        proof {
            lemma_chars_view_empty();
        }
        TemplateCache { map: StringHashMap::new() }
    }

    /// Inserts or fully overwrites the entry for `name`.
    pub fn put(&mut self, name: String, text: String)
        ensures
            final(self)@ == old(self)@.insert(name@, text@),
    {
        proof {
            lemma_chars_view_insert(self.map@, name@, text);
        }
        self.map.insert(name, text);
    }

    /// Looks up the template text cached under `name`; `None` means "no
    /// cached override" and the reader falls back on its own.
    pub fn get(&self, name: &String) -> (r: Option<&String>)
        ensures
            match r {
                Some(text) => self@.contains_key(name@) && text@ == self@[name@],
                None => !self@.contains_key(name@),
            },
    {
        self.map.get(name.as_str())
    }

    /// The number of cached templates.
    pub fn len(&self) -> (n: usize)
        ensures
            n == self@.len(),
    {
        proof {
            lemma_chars_view_len(self.map@);
        }
        self.map.len()
    }
}

} // verus!
