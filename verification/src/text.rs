//! Plain string utilities: placeholder replacement and blank tests.

use vstd::prelude::*;
use vstd::string::*;

verus! {

/// Leftmost, non-overlapping replacement of every occurrence of `p` in `t`
/// by `r` (the behaviour of `str::replace` for a non-empty pattern).
pub open spec fn replace_seq(t: Seq<char>, p: Seq<char>, r: Seq<char>) -> Seq<char>
    decreases t.len(),
{
    if p.len() == 0 || t.len() < p.len() {
        t
    } else if t.subrange(0, p.len() as int) == p {
        r + replace_seq(t.skip(p.len() as int), p, r)
    } else {
        seq![t[0]] + replace_seq(t.skip(1), p, r)
    }
}

/// True when `p` occurs in `t` starting at position `i`.
fn matches_at(t: &str, i: usize, p: &str, plen: usize) -> (r: bool)
    requires
        plen == p@.len(),
        i + p@.len() <= t@.len(),
        i + plen <= usize::MAX,
    ensures
        r == (t@.subrange(i as int, i + p@.len()) == p@),
{
    let mut j: usize = 0;
    while j < plen
        invariant
            j <= plen,
            plen == p@.len(),
            i + p@.len() <= t@.len(),
            i + plen <= usize::MAX,
            forall|k: int| 0 <= k < j ==> t@[i + k] == p@[k],
        decreases plen - j,
    {
        if t.get_char(i + j) != p.get_char(j) {
            proof {
                assert(t@.subrange(i as int, i + p@.len())[j as int] != p@[j as int]);
            }
            return false;
        }
        j = j + 1;
    }
    proof {
        assert(t@.subrange(i as int, i + p@.len()) =~= p@);
    }
    true
}

/// Replaces every occurrence of the non-empty pattern `p` in `t` by `r`,
/// scanning left to right without overlap.
pub fn replace_all(t: &str, p: &str, r: &str) -> (res: String)
    requires
        p@.len() > 0,
    ensures
        res@ == replace_seq(t@, p@, r@),
{
    let n: usize = t.unicode_len();
    let plen: usize = p.unicode_len();
    let mut out = String::new();
    let mut i: usize = 0;
    proof {
        assert(t@.skip(0) =~= t@);
        assert(out@ + replace_seq(t@, p@, r@) =~= replace_seq(t@, p@, r@));
    }
    while i < n
        invariant
            i <= n,
            n == t@.len(),
            plen == p@.len(),
            p@.len() > 0,
            replace_seq(t@, p@, r@) == out@ + replace_seq(t@.skip(i as int), p@, r@),
        decreases n - i,
    {
        if plen <= n - i && matches_at(t, i, p, plen) {
            out.append(r);
            proof {
                assert(t@.skip(i as int).subrange(0, p@.len() as int) =~= t@.subrange(
                    i as int,
                    i + p@.len(),
                ));
                assert(t@.skip(i as int).skip(p@.len() as int) =~= t@.skip(i + p@.len()));
            }
            i = i + plen;
        } else {
            let piece = t.substring_char(i, i + 1);
            out.append(piece);
            proof {
                assert(piece@ =~= seq![t@[i as int]]);
                assert(t@.skip(i as int).skip(1) =~= t@.skip(i + 1));
                assert(t@.skip(i as int)[0] == t@[i as int]);
                if plen <= n - i {
                    assert(t@.skip(i as int).subrange(0, p@.len() as int) =~= t@.subrange(
                        i as int,
                        i + p@.len(),
                    ));
                }
            }
            i = i + 1;
        }
    }
    proof {
        assert(t@.skip(n as int) =~= Seq::<char>::empty());
    }
    out
}

/// The characters that `char::is_whitespace` accepts: the Unicode
/// white-space code points.
pub open spec fn is_space_char(c: char) -> bool {
    c == '\t' || c == '\n' || c == '\u{B}' || c == '\u{C}' || c == '\r' || c == ' ' || c
        == '\u{85}' || c == '\u{A0}' || c == '\u{1680}' || c == '\u{2000}' || c == '\u{2001}' || c
        == '\u{2002}' || c == '\u{2003}' || c == '\u{2004}' || c == '\u{2005}' || c == '\u{2006}'
        || c == '\u{2007}' || c == '\u{2008}' || c == '\u{2009}' || c == '\u{200A}' || c
        == '\u{2028}' || c == '\u{2029}' || c == '\u{202F}' || c == '\u{205F}' || c == '\u{3000}'
}

/// True when every character of `s` is white space, so that trimming
/// leaves nothing.
pub open spec fn is_blank(s: Seq<char>) -> bool {
    forall|i: int| 0 <= i < s.len() ==> is_space_char(s[i])
}

fn is_space(c: char) -> (r: bool)
    ensures
        r == is_space_char(c),
{
    c == '\t' || c == '\n' || c == '\u{B}' || c == '\u{C}' || c == '\r' || c == ' ' || c
        == '\u{85}' || c == '\u{A0}' || c == '\u{1680}' || c == '\u{2000}' || c == '\u{2001}' || c
        == '\u{2002}' || c == '\u{2003}' || c == '\u{2004}' || c == '\u{2005}' || c == '\u{2006}'
        || c == '\u{2007}' || c == '\u{2008}' || c == '\u{2009}' || c == '\u{200A}' || c
        == '\u{2028}' || c == '\u{2029}' || c == '\u{202F}' || c == '\u{205F}' || c == '\u{3000}'
}

/// True when `s` holds only white space, i.e. `s.trim()` would be empty.
pub fn blank(s: &str) -> (r: bool)
    ensures
        r == is_blank(s@),
{
    let n: usize = s.unicode_len();
    let mut i: usize = 0;
    while i < n
        invariant
            i <= n,
            n == s@.len(),
            forall|k: int| 0 <= k < i ==> is_space_char(s@[k]),
        decreases n - i,
    {
        if !is_space(s.get_char(i)) {
            return false;
        }
        i = i + 1;
    }
    true
}

} // verus!
