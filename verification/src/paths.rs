//! Classification of paths, as plain strings, for the watch loops: the
//! file name, the hidden-file rule, the watched extensions, and the
//! template-name rule.
//!
//! A path here is whatever string the notification source reported; no
//! filesystem access happens in this module. The file name follows the
//! standard library's path semantics: trailing separators and trailing
//! `.` components are ignored, and a path whose last component is `..`
//! has no file name.

use vstd::prelude::*;

verus! {

/// The longest suffix of a path that contains no `/`: the text of its
/// last component, empty when the path is empty or ends in a separator.
pub open spec fn spec_last_component(p: Seq<char>) -> Seq<char>
    decreases p.len(),
{
    if p.len() == 0 {
        Seq::empty()
    } else if p.last() == '/' {
        Seq::empty()
    } else {
        spec_last_component(p.drop_last()).push(p.last())
    }
}

/// The file name of a path: its final component, ignoring trailing
/// separators and trailing `.` components; `None` when nothing is left
/// or the last component is `..`.
pub open spec fn spec_file_name(p: Seq<char>) -> Option<Seq<char>>
    decreases p.len(),
{
    if p.len() == 0 {
        None
    } else if p.last() == '/' {
        spec_file_name(p.drop_last())
    } else {
        let c = spec_last_component(p);
        if c.len() == 1 && c[0] == '.' {
            spec_file_name(p.drop_last())
        } else if c.len() == 2 && c[0] == '.' && c[1] == '.' {
            None
        } else {
            Some(c)
        }
    }
}

/// The extension of a file name: what follows the last `.` that is not
/// the file name's first character, `None` when there is no such dot.
/// A name such as `.draft` therefore has no extension, while `a.tar.md`
/// has extension `md`.
pub open spec fn spec_extension_of(f: Seq<char>) -> Option<Seq<char>>
    decreases f.len(),
{
    if f.len() == 0 {
        None
    } else if f.last() == '.' {
        if f.len() >= 2 {
            Some(Seq::empty())
        } else {
            None
        }
    } else {
        match spec_extension_of(f.drop_last()) {
            Some(e) => Some(e.push(f.last())),
            None => None,
        }
    }
}

/// The two watched extensions, compared without regard to ASCII case.
pub open spec fn is_md_or_html_ext(e: Seq<char>) -> bool {
    ||| (e.len() == 2 && (e[0] == 'm' || e[0] == 'M') && (e[1] == 'd' || e[1] == 'D'))
    ||| (e.len() == 4 && (e[0] == 'h' || e[0] == 'H') && (e[1] == 't' || e[1] == 'T') && (e[2]
        == 'm' || e[2] == 'M') && (e[3] == 'l' || e[3] == 'L'))
}

/// A hidden file: the file name starts with a dot. A path with no file
/// name is not hidden.
pub open spec fn spec_is_exclude_file(p: Seq<char>) -> bool {
    match spec_file_name(p) {
        Some(f) => f.len() > 0 && f[0] == '.',
        None => false,
    }
}

/// The path's extension is one of the watched ones.
pub open spec fn spec_is_md_or_html(p: Seq<char>) -> bool {
    match spec_file_name(p) {
        Some(f) => match spec_extension_of(f) {
            Some(e) => is_md_or_html_ext(e),
            None => false,
        },
        None => false,
    }
}

/// A path the post watch loop acts on: not hidden, and with a watched
/// extension. A path without a file name has no extension and so is
/// never watched.
pub open spec fn spec_is_watched(p: Seq<char>) -> bool {
    !spec_is_exclude_file(p) && spec_is_md_or_html(p)
}

/// When every character from `start` on is not a separator and `start`
/// sits at the beginning or right after one, the last component is
/// exactly the suffix from `start`.
proof fn lemma_last_component_range(p: Seq<char>, start: int)
    requires
        0 <= start <= p.len(),
        forall|j: int| start <= j < p.len() ==> p[j] != '/',
        start > 0 ==> p[start - 1] == '/',
    ensures
        spec_last_component(p) == p.subrange(start, p.len() as int),
    decreases p.len(),
{
    if p.len() == 0 {
        assert(p.subrange(0, 0) =~= Seq::<char>::empty());
    } else if start == p.len() {
        assert(p.last() == '/');
        assert(p.subrange(start, p.len() as int) =~= Seq::<char>::empty());
    } else {
        let q = p.drop_last();
        lemma_last_component_range(q, start);
        assert(q.subrange(start, q.len() as int) =~= p.subrange(start, p.len() - 1));
        assert(p.subrange(start, p.len() - 1).push(p.last()) =~= p.subrange(
            start,
            p.len() as int,
        ));
    }
}

/// The range `[start, end)` of the file name of `s`, or `None` when the
/// path has no file name. The range is never empty.
fn file_name_range(s: &str) -> (r: Option<(usize, usize)>)
    ensures
        match r {
            Some(range) => range.0 < range.1 <= s@.len() && spec_file_name(s@) == Some(
                s@.subrange(range.0 as int, range.1 as int),
            ),
            None => spec_file_name(s@) is None,
        },
{
    let n = s.unicode_len();
    let mut end = n;
    proof {
        assert(s@.subrange(0, n as int) =~= s@);
    }
    while end > 0
        invariant
            n == s@.len(),
            end <= n,
            spec_file_name(s@) == spec_file_name(s@.subrange(0, end as int)),
        decreases end,
    {
        proof {
            assert(s@.subrange(0, end as int).drop_last() =~= s@.subrange(0, end - 1 as int));
            assert(s@.subrange(0, end as int).last() == s@[end - 1]);
        }
        if s.get_char(end - 1) == '/' {
            end -= 1;
        } else {
            // The last component runs back to the previous separator.
            let mut start = end - 1;
            while start > 0 && s.get_char(start - 1) != '/'
                invariant
                    n == s@.len(),
                    0 < end <= n,
                    start < end,
                    forall|j: int| start <= j < end ==> s@[j] != '/',
                decreases start,
            {
                start -= 1;
            }
            proof {
                let p = s@.subrange(0, end as int);
                assert(forall|j: int| start <= j < p.len() ==> p[j] == s@[j]);
                lemma_last_component_range(p, start as int);
                assert(p.subrange(start as int, end as int) =~= s@.subrange(
                    start as int,
                    end as int,
                ));
                assert(s@.subrange(start as int, end as int)[0] == s@[start as int]);
                if end - start >= 2 {
                    assert(s@.subrange(start as int, end as int)[1] == s@[start + 1]);
                }
            }
            let c0 = s.get_char(start);
            if end - start == 1 && c0 == '.' {
                // A trailing `.` component is ignored.
                end -= 1;
            } else if end - start == 2 && c0 == '.' && s.get_char(start + 1) == '.' {
                return None;
            } else {
                return Some((start, end));
            }
        }
    }
    proof {
        assert(s@.subrange(0, 0) =~= Seq::<char>::empty());
    }
    None
}

/// Whether the path names a hidden file: its file name starts with `.`.
/// A path with no file name is not hidden.
pub fn is_exclude_file(path: &String) -> (b: bool)
    ensures
        b == spec_is_exclude_file(path@),
{
    let s = path.as_str();
    match file_name_range(s) {
        Some((start, end)) => {
            proof {
                assert(s@.subrange(start as int, end as int)[0] == s@[start as int]);
            }
            s.get_char(start) == '.'
        },
        None => false,
    }
}

/// Whether the path's extension is `md` or `html`, compared without
/// regard to ASCII case.
pub fn is_md_or_html(path: &String) -> (b: bool)
    ensures
        b == spec_is_md_or_html(path@),
{
    let s = path.as_str();
    let range = file_name_range(s);
    match range {
        None => false,
        Some((start, end)) => {
            // Scan the file name for the last dot that is not its first
            // character; the extension is what follows it.
            let mut dot: Option<usize> = None;
            let mut k: usize = start;
            while k < end
                invariant
                    s@ == path@,
                    start < end <= s@.len(),
                    start <= k <= end,
                    spec_file_name(path@) == Some(s@.subrange(start as int, end as int)),
                    match dot {
                        None => spec_extension_of(
                            s@.subrange(start as int, k as int),
                        ) is None,
                        Some(d) => start < d < k && s@[d as int] == '.' && spec_extension_of(
                            s@.subrange(start as int, k as int),
                        ) == Some(s@.subrange(d + 1 as int, k as int)),
                    },
                decreases end - k,
            {
                let c = s.get_char(k);
                proof {
                    let pre = s@.subrange(start as int, k as int);
                    let post = s@.subrange(start as int, k + 1 as int);
                    assert(post.drop_last() =~= pre);
                    assert(post.last() == s@[k as int]);
                    if c != '.' {
                        if let Some(d) = dot {
                            assert(s@.subrange(d + 1 as int, k as int).push(s@[k as int])
                                =~= s@.subrange(d + 1 as int, k + 1 as int));
                        }
                    } else if k > start {
                        assert(s@.subrange(k + 1 as int, k + 1 as int) =~= Seq::<char>::empty());
                    }
                }
                if c == '.' && k > start {
                    dot = Some(k);
                }
                k += 1;
            }
            match dot {
                None => false,
                Some(d) => {
                    proof {
                        let e = s@.subrange(d + 1 as int, end as int);
                        assert(forall|j: int| 0 <= j < e.len() ==> e[j] == s@[d + 1 + j]);
                    }
                    let elen = end - d - 1;
                    if elen == 2 {
                        let c0 = s.get_char(d + 1);
                        let c1 = s.get_char(d + 2);
                        (c0 == 'm' || c0 == 'M') && (c1 == 'd' || c1 == 'D')
                    } else if elen == 4 {
                        let c0 = s.get_char(d + 1);
                        let c1 = s.get_char(d + 2);
                        let c2 = s.get_char(d + 3);
                        let c3 = s.get_char(d + 4);
                        ((c0 == 'h' || c0 == 'H') && (c1 == 't' || c1 == 'T')) && ((c2 == 'm' || c2
                            == 'M') && (c3 == 'l' || c3 == 'L'))
                    } else {
                        false
                    }
                },
            }
        },
    }
}

/// The path is watched by the post loop: not hidden and with a watched
/// extension.
pub fn is_watched_path(path: &String) -> (b: bool)
    ensures
        b == spec_is_watched(path@),
{
    !is_exclude_file(path) && is_md_or_html(path)
}

/// The file name ends with the five characters `.html`, case-sensitively.
pub open spec fn spec_ends_with_html(f: Seq<char>) -> bool {
    f.len() >= 5 && f[f.len() - 5] == '.' && f[f.len() - 4] == 'h' && f[f.len() - 3] == 't'
        && f[f.len() - 2] == 'm' && f[f.len() - 1] == 'l'
}

/// A file name with every trailing `.html` removed.
pub open spec fn spec_strip_html(f: Seq<char>) -> Seq<char>
    decreases f.len(),
{
    if spec_ends_with_html(f) {
        spec_strip_html(f.subrange(0, f.len() - 5))
    } else {
        f
    }
}

/// The template name a path maps to: its file name with the trailing
/// `.html` removed (repeatedly, should the name stack the suffix), or
/// `None` when there is no file name or it does not end with `.html`.
pub open spec fn spec_template_name(p: Seq<char>) -> Option<Seq<char>> {
    match spec_file_name(p) {
        Some(f) => if spec_ends_with_html(f) {
            Some(spec_strip_html(f))
        } else {
            None
        },
        None => None,
    }
}

/// Whether `s@.subrange(start, end)` ends with `.html`.
fn ends_with_html_at(s: &str, start: usize, end: usize) -> (b: bool)
    requires
        start <= end <= s@.len(),
    ensures
        b == spec_ends_with_html(s@.subrange(start as int, end as int)),
{
    proof {
        let f = s@.subrange(start as int, end as int);
        if f.len() >= 5 {
            assert(f[f.len() - 5] == s@[end - 5]);
            assert(f[f.len() - 4] == s@[end - 4]);
            assert(f[f.len() - 3] == s@[end - 3]);
            assert(f[f.len() - 2] == s@[end - 2]);
            assert(f[f.len() - 1] == s@[end - 1]);
        }
    }
    if end - start >= 5 {
        (s.get_char(end - 5) == '.' && s.get_char(end - 4) == 'h') && (s.get_char(end - 3) == 't'
            && s.get_char(end - 2) == 'm' && s.get_char(end - 1) == 'l')
    } else {
        false
    }
}

/// The template name of a path whose file name ends with `.html`: the
/// file name with the trailing suffix removed.
pub fn template_name(path: &String) -> (r: Option<String>)
    ensures
        match r {
            Some(name) => spec_template_name(path@) == Some(name@),
            None => spec_template_name(path@) is None,
        },
{
    let s = path.as_str();
    match file_name_range(s) {
        None => None,
        Some((start, end)) => {
            if !ends_with_html_at(s, start, end) {
                return None;
            }
            let mut e = end;
            while ends_with_html_at(s, start, e)
                invariant
                    s@ == path@,
                    start <= e <= end <= s@.len(),
                    spec_file_name(path@) == Some(s@.subrange(start as int, end as int)),
                    spec_strip_html(s@.subrange(start as int, e as int)) == spec_strip_html(
                        s@.subrange(start as int, end as int),
                    ),
                decreases e,
            {
                proof {
                    let f = path@.subrange(start as int, e as int);
                    assert(f.subrange(0, f.len() - 5) =~= path@.subrange(
                        start as int,
                        e - 5 as int,
                    ));
                }
                e = e - 5;
            }
            let name = s.substring_char(start, e);
            Some(name.to_owned())
        },
    }
}

} // verus!
