//! Path arithmetic: generic joining, parent directories, and normalization
//! for the target operating system.

use vstd::prelude::*;
use vstd::string::*;
use crate::platform::Os;

verus! {

/// Generic path joining: `base`, a `/` separator, then `rel`.
pub open spec fn spec_join(base: Seq<char>, rel: Seq<char>) -> Seq<char> {
    base + seq!['/'] + rel
}

/// Joins a base directory and a relative path with the generic separator.
pub fn join_path(base: &String, rel: &str) -> (r: String)
    ensures
        r@ == spec_join(base@, rel@),
{
    let mut r = base.clone();
    r.append("/");
    r.append(rel);
    proof {
        reveal_strlit("/");
        assert(r@ =~= spec_join(base@, rel@));
    }
    r
}

/// Index of the last `/` in `path`, if any.
pub open spec fn spec_last_sep(path: Seq<char>) -> Option<int>
    decreases path.len(),
{
    if path.len() == 0 {
        None
    } else if path[path.len() - 1] == '/' {
        Some(path.len() - 1)
    } else {
        spec_last_sep(path.drop_last())
    }
}

/// The directory holding `path`: everything before the last separator, or
/// empty when `path` has no separator.
pub open spec fn spec_parent_dir(path: Seq<char>) -> Seq<char> {
    match spec_last_sep(path) {
        Some(i) => path.subrange(0, i),
        None => Seq::<char>::empty(),
    }
}

proof fn lemma_last_sep_at(path: Seq<char>, i: int)
    requires
        0 <= i < path.len(),
        path[i] == '/',
        forall |k: int| i < k < path.len() ==> path[k] != '/',
    ensures
        spec_last_sep(path) == Some(i),
    decreases path.len(),
{
    if i < path.len() - 1 {
        lemma_last_sep_at(path.drop_last(), i);
    }
}

proof fn lemma_last_sep_none(path: Seq<char>)
    requires
        forall |k: int| 0 <= k < path.len() ==> path[k] != '/',
    ensures
        spec_last_sep(path) is None,
    decreases path.len(),
{
    if path.len() > 0 {
        lemma_last_sep_none(path.drop_last());
    }
}

/// Computes the parent directory of a `/`-joined path.
pub fn parent_dir(path: &String) -> (r: String)
    ensures
        r@ == spec_parent_dir(path@),
{
    let s = path.as_str();
    let n = s.unicode_len();
    let mut i: usize = n;
    while i > 0 && s.get_char(i - 1) != '/'
        invariant
            i <= n,
            n == s@.len(),
            s@ == path@,
            forall |k: int| i <= k < n ==> s@[k] != '/',
        decreases i,
    {
        i = i - 1;
    }
    if i == 0 {
        proof {
            lemma_last_sep_none(path@);
        }
        String::new()
    } else {
        proof {
            lemma_last_sep_at(path@, i - 1);
        }
        s.substring_char(0, i - 1).to_owned()
    }
}

/// Whether the operating system roots absolute paths with a backslash.
pub open spec fn spec_uses_backslash_paths(os: Os) -> bool {
    os is Windows
}

/// A path as the target operating system accepts it: on a backslash-rooted
/// system, a leading separator left over from generic joining is stripped.
pub open spec fn spec_normalize(path: Seq<char>, os: Os) -> Seq<char> {
    if spec_uses_backslash_paths(os) && path.len() > 0 && (path[0] == '/' || path[0] == '\\') {
        path.subrange(1, path.len() as int)
    } else {
        path
    }
}

/// Normalizes a joined path for the target operating system.
pub fn normalize_for_os(path: &String, os: Os) -> (r: String)
    ensures
        r@ == spec_normalize(path@, os),
{
    let s = path.as_str();
    let n = s.unicode_len();
    if matches!(os, Os::Windows) && n > 0 {
        let first = s.get_char(0);
        if first == '/' || first == '\\' {
            return s.substring_char(1, n).to_owned();
        }
    }
    path.clone()
}

/// Relative location of the installed server script beneath the extension
/// root.
pub fn server_relative_path() -> (r: String)
    ensures
        r@ == "server/bin/wc-language-server.js"@,
{
    String::from_str("server/bin/wc-language-server.js")
}

/// Relative location of the version marker beneath the extension root.
pub fn marker_relative_path() -> (r: String)
    ensures
        r@ == "server/bin/.release-version"@,
{
    String::from_str("server/bin/.release-version")
}

/// The on-disk places the resolver cares about: the installed server script
/// and, beside it, the version marker.
pub struct ServerPaths {
    pub script: String,
    pub marker: String,
}

/// Derives both server paths from the extension root.
pub fn server_paths(extension_root: &String) -> (p: ServerPaths)
    ensures
        p.script@ == spec_join(extension_root@, "server/bin/wc-language-server.js"@),
        p.marker@ == spec_join(extension_root@, "server/bin/.release-version"@),
{
    ServerPaths {
        script: join_path(extension_root, "server/bin/wc-language-server.js"),
        marker: join_path(extension_root, "server/bin/.release-version"),
    }
}

} // verus!
