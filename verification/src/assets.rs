//! Turning a declared relative icon path into a concrete search, and picking
//! the winning file from a directory listing: the declared name is only a
//! logical stem, so the real asset is any file in the declared directory
//! whose name starts with that stem, and the first listed match wins.

use vstd::prelude::*;
use vstd::string::StrSliceExecFns;
use vstd::string::StringExecFns;
use crate::errors::IconError;
use crate::paths::last_segment;
use crate::paths::last_sep_index;
use crate::paths::last_sep_of;
use crate::paths::last_segment_of;
use crate::text::find_from;
use crate::text::find_idx;

verus! {

/// The directory part of a declared relative path: everything before its
/// last separator, or nothing for a bare filename.
pub open spec fn rel_dir_of(decl: Seq<char>) -> Seq<char> {
    if last_sep_index(decl) >= 0 {
        decl.subrange(0, last_sep_index(decl))
    } else {
        Seq::empty()
    }
}

/// The search stem of a filename: everything before its first dot, or the
/// whole name if it has none.
pub open spec fn stem_of(name: Seq<char>) -> Seq<char> {
    match find_idx(name, "."@, 0) {
        Some(i) => name.subrange(0, i),
        None => name,
    }
}

/// `root` with the relative directory `rel` appended, or `root` alone when
/// `rel` is empty.
pub open spec fn search_dir_spec(root: Seq<char>, rel: Seq<char>) -> Seq<char> {
    if rel.len() == 0 {
        root
    } else {
        root + "\\"@ + rel
    }
}

/// Where to look for the icon asset, and what its filename must start with.
pub struct AssetQuery {
    /// The absolute directory to list.
    pub directory: String,
    /// The filename stem that a matching file starts with.
    pub stem: String,
}

/// Builds the asset search for a declared relative icon path under a package
/// root: the directory to list and the logical filename stem to match.
pub fn asset_query_for(decl: &str, root: &str) -> (q: AssetQuery)
    ensures
        q.directory@ == search_dir_spec(root@, rel_dir_of(decl@)),
        q.stem@ == stem_of(last_segment(decl@)),
{
    let name: &str = last_segment_of(decl);
    let rel: &str = match last_sep_of(decl) {
        Some(i) => decl.substring_char(0, i),
        None => "",
    };
    proof {
        reveal_strlit("");
        assert(""@ =~= Seq::<char>::empty());
        assert(rel@ == rel_dir_of(decl@));
    }
    let stem: &str = match find_from(name, ".", 0) {
        Some(i) => {
            proof {
                crate::text::lemma_find_idx(name@, "."@, 0);
            }
            name.substring_char(0, i)
        },
        None => name,
    };
    let directory: String = if rel.unicode_len() == 0 {
        proof {
            assert(rel@ =~= Seq::<char>::empty());
        }
        String::from_str(root)
    } else {
        String::from_str(root).concat("\\").concat(rel)
    };
    AssetQuery { directory, stem: String::from_str(stem) }
}

/// Picks the resolved icon file from a directory listing: the first entry in
/// the order the listing service returned it, never a sorted or "best" one.
pub fn first_match(listing: &Vec<String>) -> (r: Result<String, IconError>)
    ensures
        match r {
            Ok(s) => listing@.len() > 0 && s@ == listing@[0]@,
            Err(e) => e == IconError::IconAssetNotFound && listing@.len() == 0,
        },
{
    if listing.len() == 0 {
        Err(IconError::IconAssetNotFound)
    } else {
        Ok(listing[0].clone())
    }
}

} // verus!
