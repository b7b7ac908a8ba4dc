//! Verified text scanning: substring matching, first-occurrence search,
//! suffix tests, whitespace trimming and line splitting over `&str` views.

use vstd::prelude::*;
use vstd::string::StrSliceExecFns;
use vstd::string::StringExecFns;

verus! {

/// The pattern `pat` occurs in `s` starting exactly at index `i`.
pub open spec fn matches_at(s: Seq<char>, pat: Seq<char>, i: int) -> bool {
    0 <= i && i + pat.len() <= s.len() && s.subrange(i, i + pat.len() as int) == pat
}

/// The index of the first occurrence of `pat` in `s` at or after `from`,
/// if there is one.
pub open spec fn find_idx(s: Seq<char>, pat: Seq<char>, from: int) -> Option<int>
    decreases s.len() + 1 - from,
{
    if from < 0 || from + pat.len() > s.len() {
        None
    } else if matches_at(s, pat, from) {
        Some(from)
    } else {
        find_idx(s, pat, from + 1)
    }
}

/// What `find_idx` returns: the earliest match position at or after `from`,
/// or a guarantee that no position at or after `from` matches.
pub proof fn lemma_find_idx(s: Seq<char>, pat: Seq<char>, from: int)
    requires
        from >= 0,
    ensures
        match find_idx(s, pat, from) {
            Some(i) => from <= i && matches_at(s, pat, i) && forall|j: int|
                from <= j < i ==> !matches_at(s, pat, j),
            None => forall|j: int| from <= j ==> !matches_at(s, pat, j),
        },
    decreases s.len() + 1 - from,
{
    if from + pat.len() > s.len() {
    } else if matches_at(s, pat, from) {
    } else {
        lemma_find_idx(s, pat, from + 1);
    }
}

/// A search that found nothing from `a` finds nothing from any later start.
pub proof fn lemma_find_idx_none_mono(s: Seq<char>, pat: Seq<char>, a: int, b: int)
    requires
        0 <= a <= b,
        find_idx(s, pat, a) is None,
    ensures
        find_idx(s, pat, b) is None,
{
    lemma_find_idx(s, pat, a);
    lemma_find_idx(s, pat, b);
    if find_idx(s, pat, b) is Some {
        let i = find_idx(s, pat, b)->Some_0;
        assert(!matches_at(s, pat, i));
    }
}

/// Whether `pat` occurs in `s` starting at index `i`.
pub fn match_at(s: &str, pat: &str, i: usize) -> (r: bool)
    requires
        i + pat@.len() <= s@.len(),
    ensures
        r == matches_at(s@, pat@, i as int),
{
    let n: usize = pat.unicode_len();
    let slen: usize = s.unicode_len();
    let mut k: usize = 0;
    while k < n
        invariant
            k <= n,
            n == pat@.len(),
            slen == s@.len(),
            i + n <= slen,
            forall|j: int| 0 <= j < k ==> s@[i + j] == pat@[j],
        decreases n - k,
    {
        if s.get_char(i + k) != pat.get_char(k) {
            proof {
                if matches_at(s@, pat@, i as int) {
                    assert(s@.subrange(i as int, i + n as int)[k as int] == s@[i + k]);
                }
            }
            return false;
        }
        k += 1;
    }
    proof {
        assert(s@.subrange(i as int, i + n as int) =~= pat@);
    }
    true
}

/// The first occurrence of `pat` in `s` at or after `from`.
pub fn find_from(s: &str, pat: &str, from: usize) -> (r: Option<usize>)
    ensures
        match r {
            Some(i) => find_idx(s@, pat@, from as int) == Some(i as int),
            None => find_idx(s@, pat@, from as int) is None,
        },
{
    let slen: usize = s.unicode_len();
    let plen: usize = pat.unicode_len();
    if plen > slen || from > slen - plen {
        return None;
    }
    if plen == 0 {
        proof {
            assert(s@.subrange(from as int, from as int) =~= pat@);
        }
        return Some(from);
    }
    let mut i: usize = from;
    while i <= slen - plen
        invariant
            from <= i,
            1 <= plen <= slen,
            i <= slen - plen + 1,
            slen == s@.len(),
            plen == pat@.len(),
            find_idx(s@, pat@, from as int) == find_idx(s@, pat@, i as int),
        decreases slen - i,
    {
        if match_at(s, pat, i) {
            return Some(i);
        }
        proof {
            assert(find_idx(s@, pat@, i as int) == find_idx(s@, pat@, i + 1));
        }
        i += 1;
    }
    None
}

/// Whether `pat` occurs anywhere in `s`.
pub fn contains_pat(s: &str, pat: &str) -> (r: bool)
    ensures
        r == exists|i: int| matches_at(s@, pat@, i),
{
    let r = find_from(s, pat, 0);
    proof {
        lemma_find_idx(s@, pat@, 0);
        match find_idx(s@, pat@, 0) {
            Some(i) => {
                assert(matches_at(s@, pat@, i));
            },
            None => {
                assert forall|i: int| !matches_at(s@, pat@, i) by {
                    if i < 0 {
                    } else {
                        assert(!matches_at(s@, pat@, i));
                    }
                }
            },
        }
    }
    r.is_some()
}

/// `s` ends with the character sequence `sfx`.
pub open spec fn ends_with_spec(s: Seq<char>, sfx: Seq<char>) -> bool {
    sfx.len() <= s.len() && s.subrange(s.len() - sfx.len(), s.len() as int) == sfx
}

/// Whether `s` ends with `sfx`.
pub fn ends_with_pat(s: &str, sfx: &str) -> (r: bool)
    ensures
        r == ends_with_spec(s@, sfx@),
{
    let slen: usize = s.unicode_len();
    let flen: usize = sfx.unicode_len();
    if flen > slen {
        return false;
    }
    match_at(s, sfx, slen - flen)
}

/// Whether `a` and `b` hold the same characters.
pub fn str_eq(a: &str, b: &str) -> (r: bool)
    ensures
        r == (a@ == b@),
{
    let alen: usize = a.unicode_len();
    let blen: usize = b.unicode_len();
    if alen != blen {
        return false;
    }
    let r = match_at(a, b, 0);
    proof {
        assert(a@.subrange(0, a@.len() as int) =~= a@);
    }
    r
}

/// A character of the Unicode white-space set, the same set that
/// `str::trim` removes.
pub open spec fn is_space(c: char) -> bool {
    c == '\u{0009}' || c == '\u{000A}' || c == '\u{000B}' || c == '\u{000C}' || c == '\u{000D}'
        || c == ' ' || c == '\u{0085}' || c == '\u{00A0}' || c == '\u{1680}' || c == '\u{2000}'
        || c == '\u{2001}' || c == '\u{2002}' || c == '\u{2003}' || c == '\u{2004}' || c
        == '\u{2005}' || c == '\u{2006}' || c == '\u{2007}' || c == '\u{2008}' || c == '\u{2009}'
        || c == '\u{200A}' || c == '\u{2028}' || c == '\u{2029}' || c == '\u{202F}' || c
        == '\u{205F}' || c == '\u{3000}'
}

/// `s` with every leading whitespace character removed.
pub open spec fn trim_start_spec(s: Seq<char>) -> Seq<char>
    decreases s.len(),
{
    if s.len() > 0 && is_space(s[0]) {
        trim_start_spec(s.subrange(1, s.len() as int))
    } else {
        s
    }
}

/// `s` with every trailing whitespace character removed.
pub open spec fn trim_end_spec(s: Seq<char>) -> Seq<char>
    decreases s.len(),
{
    if s.len() > 0 && is_space(s.last()) {
        trim_end_spec(s.drop_last())
    } else {
        s
    }
}

/// `s` with surrounding whitespace removed.
pub open spec fn trim_spec(s: Seq<char>) -> Seq<char> {
    trim_end_spec(trim_start_spec(s))
}

/// Whether `c` is a white-space character.
pub fn is_space_char(c: char) -> (r: bool)
    ensures
        r == is_space(c),
{
    c == '\u{0009}' || c == '\u{000A}' || c == '\u{000B}' || c == '\u{000C}' || c == '\u{000D}'
        || c == ' ' || c == '\u{0085}' || c == '\u{00A0}' || c == '\u{1680}' || c == '\u{2000}'
        || c == '\u{2001}' || c == '\u{2002}' || c == '\u{2003}' || c == '\u{2004}' || c
        == '\u{2005}' || c == '\u{2006}' || c == '\u{2007}' || c == '\u{2008}' || c == '\u{2009}'
        || c == '\u{200A}' || c == '\u{2028}' || c == '\u{2029}' || c == '\u{202F}' || c
        == '\u{205F}' || c == '\u{3000}'
}

/// `s` with surrounding whitespace removed.
pub fn trim_ws<'a>(s: &'a str) -> (r: &'a str)
    ensures
        r@ == trim_spec(s@),
{
    let n: usize = s.unicode_len();
    let mut a: usize = 0;
    proof {
        assert(s@.subrange(0, n as int) =~= s@);
    }
    while a < n && is_space_char(s.get_char(a))
        invariant
            a <= n,
            n == s@.len(),
            trim_start_spec(s@) == trim_start_spec(s@.subrange(a as int, n as int)),
        decreases n - a,
    {
        proof {
            let t = s@.subrange(a as int, n as int);
            assert(t[0] == s@[a as int]);
            assert(t.subrange(1, t.len() as int) =~= s@.subrange(a + 1, n as int));
        }
        a += 1;
    }
    proof {
        let t = s@.subrange(a as int, n as int);
        if t.len() > 0 {
            assert(t[0] == s@[a as int]);
        }
        assert(trim_start_spec(s@) == t);
    }
    let mut b: usize = n;
    while b > a && is_space_char(s.get_char(b - 1))
        invariant
            a <= b <= n,
            n == s@.len(),
            trim_start_spec(s@) == s@.subrange(a as int, n as int),
            trim_end_spec(s@.subrange(a as int, n as int)) == trim_end_spec(
                s@.subrange(a as int, b as int),
            ),
        decreases b,
    {
        proof {
            let u = s@.subrange(a as int, b as int);
            assert(u.last() == s@[b - 1]);
            assert(u.drop_last() =~= s@.subrange(a as int, b - 1));
        }
        b -= 1;
    }
    proof {
        let u = s@.subrange(a as int, b as int);
        if u.len() > 0 {
            assert(u.last() == s@[b - 1]);
        }
        assert(trim_end_spec(u) == u);
    }
    s.substring_char(a, b)
}

/// A line with one trailing carriage return removed.
pub open spec fn strip_cr(l: Seq<char>) -> Seq<char> {
    if l.len() > 0 && l.last() == '\r' {
        l.drop_last()
    } else {
        l
    }
}

/// The lines of `s`: pieces separated by `'\n'`, each with one trailing
/// `'\r'` removed, and no final empty piece after a trailing newline.
pub open spec fn lines_of(s: Seq<char>) -> Seq<Seq<char>>
    decreases s.len(),
    via lines_of_decreases
{
    if s.len() == 0 {
        Seq::empty()
    } else {
        match find_idx(s, "\n"@, 0) {
            None => seq![strip_cr(s)],
            Some(i) => seq![strip_cr(s.subrange(0, i))] + lines_of(
                s.subrange(i + 1, s.len() as int),
            ),
        }
    }
}

#[via_fn]
proof fn lines_of_decreases(s: Seq<char>) {
    if s.len() != 0 {
        lemma_find_idx(s, "\n"@, 0);
        reveal_strlit("\n");
    }
}

/// The views of a sequence of strings.
pub open spec fn views_of(v: Seq<String>) -> Seq<Seq<char>> {
    v.map_values(|x: String| x@)
}

/// Splits `s` into its lines.
pub fn split_lines(s: &str) -> (r: Vec<String>)
    ensures
        views_of(r@) == lines_of(s@),
{
    let n: usize = s.unicode_len();
    let mut res: Vec<String> = Vec::new();
    let mut pos: usize = 0;
    proof {
        assert(views_of(res@) =~= Seq::<Seq<char>>::empty());
        assert(s@.subrange(0, n as int) =~= s@);
    }
    while pos < n
        invariant
            pos <= n,
            n == s@.len(),
            lines_of(s@) == views_of(res@) + lines_of(s@.subrange(pos as int, n as int)),
        decreases n - pos,
    {
        let rest: &str = s.substring_char(pos, n);
        let ghost old_res = res@;
        match find_from(rest, "\n", 0) {
            Some(i) => {
                proof {
                    lemma_find_idx(rest@, "\n"@, 0);
                    reveal_strlit("\n");
                }
                let line: &str = if i > 0 && rest.get_char(i - 1) == '\r' {
                    rest.substring_char(0, i - 1)
                } else {
                    rest.substring_char(0, i)
                };
                proof {
                    let piece = rest@.subrange(0, i as int);
                    if i > 0 && rest@[i - 1] == '\r' {
                        assert(piece.last() == rest@[i - 1]);
                        assert(piece.drop_last() =~= rest@.subrange(0, i - 1));
                        assert(strip_cr(piece) == line@);
                    } else {
                        if piece.len() > 0 {
                            assert(piece.last() == rest@[i - 1]);
                        }
                        assert(strip_cr(piece) == line@);
                    }
                }
                res.push(String::from_str(line));
                proof {
                    assert(rest@.subrange(i + 1, rest@.len() as int) =~= s@.subrange(
                        pos + i + 1,
                        n as int,
                    ));
                    assert(views_of(res@) =~= views_of(old_res).push(line@));
                    assert(lines_of(rest@) == seq![strip_cr(rest@.subrange(0, i as int))]
                        + lines_of(s@.subrange(pos + i + 1, n as int)));
                    assert(views_of(res@) + lines_of(s@.subrange(pos + i + 1, n as int)) =~= (
                    views_of(old_res) + lines_of(rest@)));
                }
                pos = pos + i + 1;
            },
            None => {
                let rlen: usize = rest.unicode_len();
                proof {
                    reveal_strlit("\r");
                }
                let line: &str = if rlen > 0 && rest.get_char(rlen - 1) == '\r' {
                    rest.substring_char(0, rlen - 1)
                } else {
                    rest
                };
                proof {
                    if rlen > 0 && rest@[rlen - 1] == '\r' {
                        assert(rest@.last() == rest@[rlen - 1]);
                        assert(rest@.drop_last() =~= rest@.subrange(0, rlen - 1));
                        assert(strip_cr(rest@) == line@);
                    } else {
                        assert(strip_cr(rest@) == line@);
                    }
                }
                res.push(String::from_str(line));
                proof {
                    assert(lines_of(rest@) == seq![strip_cr(rest@)]);
                    assert(views_of(res@) =~= views_of(old_res).push(line@));
                    assert(views_of(res@) =~= views_of(old_res) + lines_of(rest@));
                    assert(s@.subrange(n as int, n as int) =~= Seq::<char>::empty());
                }
                pos = n;
            },
        }
    }
    proof {
        assert(s@.subrange(n as int, n as int) =~= Seq::<char>::empty());
        assert(lines_of(s@) =~= views_of(res@));
    }
    res
}

} // verus!
