//! Verified extraction of the declared icon asset path from manifest text:
//! the bounded visual-elements region, and inside it the first well-formed
//! square-logo attribute, whose value is one or more non-quote characters
//! enclosed in double quotes.

use vstd::prelude::*;
use vstd::string::StrSliceExecFns;
use vstd::string::StringExecFns;
use crate::errors::IconError;
use crate::text::find_from;
use crate::text::find_idx;
use crate::text::lemma_find_idx;
use crate::text::lemma_find_idx_none_mono;
use crate::text::matches_at;

verus! {

/// The opening marker of the visual-elements region.
pub open spec fn open_marker() -> Seq<char> {
    "<uap:VisualElements"@
}

/// The closing marker of the visual-elements region.
pub open spec fn close_marker() -> Seq<char> {
    "</uap:VisualElements>"@
}

/// The attribute prefix that introduces the square-logo value.
pub open spec fn logo_prefix() -> Seq<char> {
    "Square150x150Logo=\""@
}

/// A double quote, as a one-character sequence.
pub open spec fn quote_mark() -> Seq<char> {
    "\""@
}

/// The logo attribute matches at `i` in `r`: the prefix occurs there and a
/// closing quote follows it with at least one non-quote character between.
pub open spec fn logo_match_at(r: Seq<char>, i: int) -> bool {
    matches_at(r, logo_prefix(), i) && match find_idx(r, quote_mark(), i + logo_prefix().len()) {
        Some(q) => q > i + logo_prefix().len(),
        None => false,
    }
}

/// The attribute value at a position where `logo_match_at` holds: the
/// characters between the prefix and the next quote.
pub open spec fn logo_value_at(r: Seq<char>, i: int) -> Seq<char> {
    match find_idx(r, quote_mark(), i + logo_prefix().len()) {
        Some(q) => r.subrange(i + logo_prefix().len(), q),
        None => Seq::empty(),
    }
}

/// The value of the first well-formed logo attribute at or after `from`.
pub open spec fn logo_search(r: Seq<char>, from: int) -> Option<Seq<char>>
    decreases r.len() + 1 - from,
{
    if from < 0 || from + logo_prefix().len() > r.len() {
        None
    } else if logo_match_at(r, from) {
        Some(logo_value_at(r, from))
    } else {
        logo_search(r, from + 1)
    }
}

/// Positions where the attribute does not match may be skipped without
/// changing the search result.
proof fn lemma_logo_search_skip(r: Seq<char>, a: int, b: int)
    requires
        0 <= a <= b,
        forall|j: int| a <= j < b ==> !logo_match_at(r, j),
    ensures
        logo_search(r, a) == logo_search(r, b),
    decreases b - a,
{
    if a < b {
        if a + logo_prefix().len() > r.len() {
            assert(b + logo_prefix().len() > r.len());
        } else {
            lemma_logo_search_skip(r, a + 1, b);
        }
    }
}

/// If the attribute matches nowhere at or after `from`, the search fails.
proof fn lemma_logo_search_none(r: Seq<char>, from: int)
    requires
        0 <= from,
        forall|j: int| from <= j ==> !logo_match_at(r, j),
    ensures
        logo_search(r, from) is None,
    decreases r.len() + 1 - from,
{
    if from + logo_prefix().len() <= r.len() {
        lemma_logo_search_none(r, from + 1);
    }
}

/// The declared icon path in manifest text `m`: inside the region bounded by
/// the first opening marker and the first closing marker after it, the value
/// of the first well-formed square-logo attribute.
pub open spec fn icon_declaration_of(m: Seq<char>) -> Option<Seq<char>> {
    match find_idx(m, open_marker(), 0) {
        None => None,
        Some(i) => match find_idx(m, close_marker(), i) {
            None => None,
            Some(j) => logo_search(m.subrange(i, j + close_marker().len()), 0),
        },
    }
}

/// Extracts the declared relative icon path from manifest text, or reports
/// that no declaration is present.
pub fn extract_icon_declaration(m: &str) -> (r: Result<String, IconError>)
    ensures
        match r {
            Ok(v) => icon_declaration_of(m@) == Some(v@),
            Err(e) => e == IconError::IconDeclarationNotFound && icon_declaration_of(m@) is None,
        },
{
    let i: usize = match find_from(m, "<uap:VisualElements", 0) {
        None => {
            return Err(IconError::IconDeclarationNotFound);
        },
        Some(i) => i,
    };
    let j: usize = match find_from(m, "</uap:VisualElements>", i) {
        None => {
            return Err(IconError::IconDeclarationNotFound);
        },
        Some(j) => j,
    };
    proof {
        lemma_find_idx(m@, close_marker(), i as int);
        reveal_strlit("Square150x150Logo=\"");
    }
    let mlen: usize = m.unicode_len();
    let close_len: usize = "</uap:VisualElements>".unicode_len();
    proof {
        assert(j + close_len <= mlen);
    }
    let region: &str = m.substring_char(i, j + close_len);
    let plen: usize = "Square150x150Logo=\"".unicode_len();
    let rlen: usize = region.unicode_len();
    let mut from: usize = 0;
    loop
        invariant
            plen == logo_prefix().len(),
            plen >= 1,
            rlen == region@.len(),
            region@ == m@.subrange(i as int, j + close_marker().len()),
            icon_declaration_of(m@) == logo_search(region@, 0),
            logo_search(region@, 0) == logo_search(region@, from as int),
        decreases rlen + 1 - from,
    {
        let p: usize = match find_from(region, "Square150x150Logo=\"", from) {
            None => {
                proof {
                    lemma_find_idx(region@, logo_prefix(), from as int);
                    lemma_logo_search_none(region@, from as int);
                }
                return Err(IconError::IconDeclarationNotFound);
            },
            Some(p) => p,
        };
        proof {
            lemma_find_idx(region@, logo_prefix(), from as int);
            assert forall|k: int| from <= k < p implies !logo_match_at(region@, k) by {}
            lemma_logo_search_skip(region@, from as int, p as int);
        }
        let vstart: usize = p + plen;
        match find_from(region, "\"", vstart) {
            None => {
                proof {
                    assert forall|k: int| p <= k implies !logo_match_at(region@, k) by {
                        if matches_at(region@, logo_prefix(), k) {
                            lemma_find_idx_none_mono(
                                region@,
                                quote_mark(),
                                vstart as int,
                                k + logo_prefix().len(),
                            );
                        }
                    }
                    lemma_logo_search_none(region@, p as int);
                }
                return Err(IconError::IconDeclarationNotFound);
            },
            Some(q) => {
                if q > vstart {
                    proof {
                        lemma_find_idx(region@, quote_mark(), vstart as int);
                        assert(logo_match_at(region@, p as int));
                    }
                    let value: &str = region.substring_char(vstart, q);
                    return Ok(String::from_str(value));
                }
                proof {
                    assert(!logo_match_at(region@, p as int));
                    assert(logo_search(region@, p as int) == logo_search(region@, p + 1));
                }
                from = p + 1;
            },
        }
    }
}

} // verus!
