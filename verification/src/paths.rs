//! Resolving where the content document lives on disk.
//!
//! The resolved location is a pure function of an optional override (taken
//! from the environment by the caller) and the project root directory: a
//! non-empty absolute override is used as given, a non-empty relative
//! override is joined onto the project root, and otherwise a fixed default
//! location under the project root is used.

use vstd::prelude::*;

verus! {

/// Configuration the path resolver works from: the override variable's value,
/// if it was set, and the project root directory.
pub struct PathConfig {
    pub override_path: Option<String>,
    pub project_root: String,
}

impl PathConfig {
    /// The override as a sequence of characters, if one is present.
    pub open spec fn override_view(&self) -> Option<Seq<char>> {
        match self.override_path {
            Some(p) => Some(p@),
            None => None,
        }
    }
}

/// A path is absolute when it starts with the separator.
pub open spec fn is_absolute_path(p: Seq<char>) -> bool {
    p.len() > 0 && p[0] == '/'
}

/// `base` and `rel` joined with a separator, without doubling a separator
/// that `base` already ends in.
pub open spec fn joined_path(base: Seq<char>, rel: Seq<char>) -> Seq<char> {
    if base.len() > 0 && base[base.len() - 1] == '/' {
        base + rel
    } else {
        base + seq!['/'] + rel
    }
}

/// The default location of the content document, relative to the project root.
pub open spec fn default_relative_path() -> Seq<char> {
    "shared/content/images.json"@
}

/// Where load and save look for the content document.
pub open spec fn resolved_content_path(over: Option<Seq<char>>, root: Seq<char>) -> Seq<char> {
    match over {
        Some(p) => {
            if p.len() == 0 {
                joined_path(root, default_relative_path())
            } else if is_absolute_path(p) {
                p
            } else {
                joined_path(root, p)
            }
        },
        None => joined_path(root, default_relative_path()),
    }
}

/// Index of the last separator in `p`, if any.
pub open spec fn last_separator(p: Seq<char>) -> Option<int>
    decreases p.len(),
{
    if p.len() == 0 {
        None
    } else if p[p.len() - 1] == '/' {
        Some(p.len() - 1)
    } else {
        last_separator(p.drop_last())
    }
}

/// The directory that holds `p`: everything before the last separator, the
/// root directory when the only separator is the leading one, and nothing
/// when `p` contains no separator at all.
pub open spec fn parent_dir_of(p: Seq<char>) -> Option<Seq<char>> {
    match last_separator(p) {
        None => None,
        Some(i) => if i == 0 {
            Some("/"@)
        } else {
            Some(p.subrange(0, i))
        },
    }
}

/// Whether `path` is absolute.
pub fn is_absolute(path: &str) -> (r: bool)
    ensures
        r == is_absolute_path(path@),
{
    let n = path.unicode_len();
    if n == 0 {
        false
    } else {
        path.get_char(0) == '/'
    }
}

/// Joins `rel` onto `base` with a separator.
pub fn join_path(base: &str, rel: &str) -> (r: String)
    ensures
        r@ == joined_path(base@, rel@),
{
    let n = base.unicode_len();
    let mut joined = base.to_owned();
    if n == 0 || base.get_char(n - 1) != '/' {
        proof {
            reveal_strlit("/");
        }
        joined.append("/");
        assert(joined@ =~= base@ + seq!['/']);
    }
    joined.append(rel);
    assert(joined@ =~= joined_path(base@, rel@));
    joined
}

/// The directory that holds `path`, if the path names one.
pub fn parent_dir(path: &str) -> (r: Option<String>)
    ensures
        r.deep_view() == parent_dir_of(path@),
{
    let ghost p = path@;
    let n = path.unicode_len();
    let mut i = n;
    assert(p.subrange(0, n as int) =~= p);
    loop
        invariant
            i <= n,
            n == p.len(),
            p == path@,
            last_separator(p) == last_separator(p.subrange(0, i as int)),
        ensures
            i == 0 ==> last_separator(p) is None,
            i > 0 ==> i <= n && last_separator(p) == Some((i - 1) as int),
        decreases i,
    {
        if i == 0 {
            assert(p.subrange(0, 0) =~= Seq::<char>::empty());
            break;
        }
        if path.get_char(i - 1) == '/' {
            assert(p.subrange(0, i as int).len() == i);
            assert(p.subrange(0, i as int)[i - 1] == p[i - 1]);
            break;
        }
        proof {
            assert(p.subrange(0, i as int).drop_last() =~= p.subrange(0, i - 1));
            assert(p.subrange(0, i as int)[i - 1] == p[i - 1]);
        }
        i = i - 1;
    }
    if i == 0 {
        None
    } else if i == 1 {
        Some(String::from_str("/"))
    } else {
        Some(path.substring_char(0, i - 1).to_owned())
    }
}

/// Where load and save look for the content document, for this configuration.
pub fn resolve_content_path(cfg: &PathConfig) -> (r: String)
    ensures
        r@ == resolved_content_path(cfg.override_view(), cfg.project_root@),
{
    match &cfg.override_path {
        Some(p) => {
            if p.as_str().unicode_len() == 0 {
                join_path(cfg.project_root.as_str(), "shared/content/images.json")
            } else if is_absolute(p.as_str()) {
                p.clone()
            } else {
                join_path(cfg.project_root.as_str(), p.as_str())
            }
        },
        None => join_path(cfg.project_root.as_str(), "shared/content/images.json"),
    }
}

/// A non-empty absolute override routes operations to exactly that path,
/// independent of the project root.
pub proof fn lemma_override_absolute(over: Seq<char>, root: Seq<char>)
    requires
        over.len() > 0,
        is_absolute_path(over),
    ensures
        resolved_content_path(Some(over), root) == over,
{
}

/// A non-empty relative override routes operations to the override joined
/// onto the project root.
pub proof fn lemma_override_relative(over: Seq<char>, root: Seq<char>)
    requires
        over.len() > 0,
        !is_absolute_path(over),
    ensures
        resolved_content_path(Some(over), root) == joined_path(root, over),
{
}

} // verus!
