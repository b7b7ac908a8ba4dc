//! A verified model of Windows-style paths as character sequences: segments
//! separated by `\` or `/`, the parent of a path, its final segment, and the
//! ancestor walk that locates a packaged application's root directory (the
//! ancestor whose immediate parent is the well-known apps container).

use vstd::prelude::*;
use vstd::string::StrSliceExecFns;
use vstd::string::StringExecFns;

verus! {

/// A path-segment separator.
pub open spec fn is_sep(c: char) -> bool {
    c == '\\' || c == '/'
}

/// The index of the last separator in `s`, or `-1` if there is none.
pub open spec fn last_sep_index(s: Seq<char>) -> int
    decreases s.len(),
{
    if s.len() == 0 {
        -1
    } else if is_sep(s.last()) {
        s.len() - 1
    } else {
        last_sep_index(s.drop_last())
    }
}

/// `last_sep_index` stays within `[-1, s.len())`.
pub proof fn lemma_last_sep_bounds(s: Seq<char>)
    ensures
        -1 <= last_sep_index(s) < s.len(),
    decreases s.len(),
{
    if s.len() > 0 && !is_sep(s.last()) {
        lemma_last_sep_bounds(s.drop_last());
    }
}

/// A backward scan that stops at a separator has found the last one.
pub proof fn lemma_last_sep_at(s: Seq<char>, i: int)
    requires
        0 <= i < s.len(),
        is_sep(s[i]),
        forall|j: int| i < j < s.len() ==> !is_sep(s[j]),
    ensures
        last_sep_index(s) == i,
    decreases s.len(),
{
    if i == s.len() - 1 {
    } else {
        assert(!is_sep(s.last()));
        assert(s.drop_last()[i] == s[i]);
        lemma_last_sep_at(s.drop_last(), i);
    }
}

/// A path without separators has no last separator.
pub proof fn lemma_last_sep_none(s: Seq<char>)
    requires
        forall|j: int| 0 <= j < s.len() ==> !is_sep(s[j]),
    ensures
        last_sep_index(s) == -1,
    decreases s.len(),
{
    if s.len() > 0 {
        lemma_last_sep_none(s.drop_last());
    }
}

/// Everything before the last separator, or nothing if the path is a single
/// segment.
pub open spec fn parent_of(s: Seq<char>) -> Option<Seq<char>> {
    if last_sep_index(s) >= 0 {
        Some(s.subrange(0, last_sep_index(s)))
    } else {
        None
    }
}

/// Everything after the last separator: the whole path if it has none.
pub open spec fn last_segment(s: Seq<char>) -> Seq<char> {
    s.subrange(last_sep_index(s) + 1, s.len() as int)
}

/// The index of the last separator of `s`, if it has one.
pub fn last_sep_of(s: &str) -> (r: Option<usize>)
    ensures
        match r {
            Some(i) => last_sep_index(s@) == i as int && i < s@.len(),
            None => last_sep_index(s@) == -1,
        },
{
    let n: usize = s.unicode_len();
    let mut i: usize = n;
    while i > 0
        invariant
            i <= n,
            n == s@.len(),
            forall|j: int| i <= j < n ==> !is_sep(s@[j]),
        decreases i,
    {
        i -= 1;
        let c = s.get_char(i);
        if c == '\\' || c == '/' {
            proof {
                lemma_last_sep_at(s@, i as int);
            }
            return Some(i);
        }
    }
    proof {
        lemma_last_sep_none(s@);
    }
    None
}

/// The parent directory of `s`, if `s` has more than one segment.
pub fn parent_dir<'a>(s: &'a str) -> (r: Option<&'a str>)
    ensures
        match r {
            Some(p) => parent_of(s@) == Some(p@),
            None => parent_of(s@) is None,
        },
{
    match last_sep_of(s) {
        Some(i) => Some(s.substring_char(0, i)),
        None => None,
    }
}

/// The final segment of `s`.
pub fn last_segment_of<'a>(s: &'a str) -> (r: &'a str)
    ensures
        r@ == last_segment(s@),
{
    let n: usize = s.unicode_len();
    match last_sep_of(s) {
        Some(i) => s.substring_char(i + 1, n),
        None => {
            proof {
                assert(s@.subrange(0, n as int) =~= s@);
            }
            s
        },
    }
}

/// The name of the directory under which every packaged application is
/// installed.
pub open spec fn apps_container() -> Seq<char> {
    "WindowsApps"@
}

/// The package root for `s`: the closest ancestor (the path itself first)
/// whose immediate parent's final segment is the apps-container name.
pub open spec fn package_root_of(s: Seq<char>) -> Option<Seq<char>>
    decreases s.len(),
    via package_root_of_decreases
{
    match parent_of(s) {
        None => None,
        Some(p) => if last_segment(p) == apps_container() {
            Some(s)
        } else {
            package_root_of(p)
        },
    }
}

#[via_fn]
proof fn package_root_of_decreases(s: Seq<char>) {
    lemma_last_sep_bounds(s);
}

/// Walks `path` and its ancestors, closest first, and returns the one sitting
/// directly under the apps container, if any ancestor does.
pub fn find_package_root(path: &str) -> (r: Option<String>)
    ensures
        match r {
            Some(root) => package_root_of(path@) == Some(root@),
            None => package_root_of(path@) is None,
        },
{
    let mut cur: &str = path;
    loop
        invariant
            package_root_of(path@) == package_root_of(cur@),
        decreases cur@.len(),
    {
        match parent_dir(cur) {
            None => {
                return None;
            },
            Some(p) => {
                let seg = last_segment_of(p);
                if crate::text::str_eq(seg, "WindowsApps") {
                    return Some(cur.to_owned());
                }
                proof {
                    lemma_last_sep_bounds(cur@);
                }
                cur = p;
            },
        }
    }
}

/// The fixed name of the package manifest file.
pub open spec fn manifest_file_suffix() -> Seq<char> {
    "\\AppxManifest.xml"@
}

/// The path of the manifest file directly under `root`.
pub fn manifest_path_for(root: &str) -> (r: String)
    ensures
        r@ == root@ + manifest_file_suffix(),
{
    String::from_str(root).concat("\\AppxManifest.xml")
}

} // verus!
