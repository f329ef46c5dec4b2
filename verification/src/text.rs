//! Character-level helpers for the protocol's string handling: trimming
//! white space, case-insensitive matching against fixed tokens, and plain
//! string equality, each specified over `Seq<char>` views.
use vstd::prelude::*;
use vstd::string::*;

verus! {

/// Characters with the Unicode `White_Space` property: the set that
/// trimming strips from both ends of a protocol string.
pub open spec fn is_space(c: char) -> bool {
    ||| c == ' '
    ||| c == '\t'
    ||| c == '\n'
    ||| c == '\u{0B}'
    ||| c == '\u{0C}'
    ||| c == '\r'
    ||| c == '\u{85}'
    ||| c == '\u{A0}'
    ||| c == '\u{1680}'
    ||| ('\u{2000}' <= c && c <= '\u{200A}')
    ||| c == '\u{2028}'
    ||| c == '\u{2029}'
    ||| c == '\u{202F}'
    ||| c == '\u{205F}'
    ||| c == '\u{3000}'
}

pub fn is_space_char(c: char) -> (r: bool)
    ensures
        r == is_space(c),
{
    c == ' ' || c == '\t' || c == '\n' || c == '\u{0B}' || c == '\u{0C}' || c == '\r'
        || c == '\u{85}' || c == '\u{A0}' || c == '\u{1680}' || ('\u{2000}' <= c && c
        <= '\u{200A}') || c == '\u{2028}' || c == '\u{2029}' || c == '\u{202F}' || c == '\u{205F}'
        || c == '\u{3000}'
}

/// The input without its leading and trailing white space.
pub open spec fn trim_of(s: Seq<char>) -> Seq<char>
    decreases s.len(),
{
    if s.len() > 0 && is_space(s[0]) {
        trim_of(s.subrange(1, s.len() as int))
    } else if s.len() > 0 && is_space(s[s.len() - 1]) {
        trim_of(s.subrange(0, s.len() - 1))
    } else {
        s
    }
}

/// A subrange whose complement is all white space, and whose own ends are
/// not, is exactly what trimming leaves.
proof fn lemma_trim_range(s: Seq<char>, lo: int, hi: int)
    requires
        0 <= lo <= hi <= s.len(),
        forall|i: int| 0 <= i < lo ==> is_space(s[i]),
        forall|i: int| hi <= i < s.len() ==> is_space(s[i]),
        lo < hi ==> !is_space(s[lo]) && !is_space(s[hi - 1]),
    ensures
        trim_of(s) == s.subrange(lo, hi),
    decreases s.len(),
{
    if s.len() == 0 {
        assert(s.subrange(lo, hi) =~= s);
    } else if is_space(s[0]) {
        let s1 = s.subrange(1, s.len() as int);
        if lo == 0 {
            lemma_trim_range(s1, 0, 0);
            assert(s.subrange(0, 0) =~= s1.subrange(0, 0));
        } else {
            lemma_trim_range(s1, lo - 1, hi - 1);
            assert(s.subrange(lo, hi) =~= s1.subrange(lo - 1, hi - 1));
        }
    } else if is_space(s[s.len() - 1]) {
        let s1 = s.subrange(0, s.len() - 1);
        lemma_trim_range(s1, lo, hi);
        assert(s.subrange(lo, hi) =~= s1.subrange(lo, hi));
    } else {
        assert(s.subrange(lo, hi) =~= s);
    }
}

/// Bounds of the trimmed part of `s`: everything before `r.0` and from
/// `r.1` on is white space, and `s[r.0 .. r.1]` is `trim_of(s@)`.
pub fn trim_bounds(s: &str) -> (r: (usize, usize))
    ensures
        r.0 <= r.1 <= s@.len(),
        trim_of(s@) == s@.subrange(r.0 as int, r.1 as int),
{
    let n = s.unicode_len();
    let mut lo: usize = 0;
    loop
        invariant
            lo <= n,
            n == s@.len(),
            forall|i: int| 0 <= i < lo ==> is_space(s@[i]),
        ensures
            lo <= n,
            forall|i: int| 0 <= i < lo ==> is_space(s@[i]),
            lo < n ==> !is_space(s@[lo as int]),
        decreases n - lo,
    {
        if lo >= n {
            break ;
        }
        if !is_space_char(s.get_char(lo)) {
            break ;
        }
        lo += 1;
    }
    let mut hi: usize = n;
    loop
        invariant
            lo <= hi <= n,
            n == s@.len(),
            forall|i: int| 0 <= i < lo ==> is_space(s@[i]),
            lo < n ==> !is_space(s@[lo as int]),
            forall|i: int| hi <= i < n ==> is_space(s@[i]),
        ensures
            lo <= hi <= n,
            forall|i: int| hi <= i < n ==> is_space(s@[i]),
            lo < hi ==> !is_space(s@[hi - 1]),
        decreases hi,
    {
        if hi <= lo {
            break ;
        }
        if !is_space_char(s.get_char(hi - 1)) {
            break ;
        }
        hi -= 1;
    }
    proof {
        lemma_trim_range(s@, lo as int, hi as int);
    }
    (lo, hi)
}

/// Case-insensitive match of one character against a fixed lower-case
/// token character: equal outright, or an ASCII upper-case letter whose
/// lower-case form is `t`.
pub open spec fn char_eq_ci(c: char, t: char) -> bool {
    c == t || ('A' <= c && c <= 'Z' && c as int + 32 == t as int)
}

pub open spec fn eq_ci(a: Seq<char>, b: Seq<char>) -> bool {
    a.len() == b.len() && (forall|i: int| 0 <= i < a.len() ==> char_eq_ci(a[i], b[i]))
}

/// Establishes `eq_ci` for short sequences from the pointwise facts:
/// long enough for every token of the protocol's enums.
pub proof fn lemma_eq_ci_pointwise(a: Seq<char>, b: Seq<char>)
    requires
        a.len() == b.len(),
        a.len() <= 12,
        a.len() > 0 ==> char_eq_ci(a[0], b[0]),
        a.len() > 1 ==> char_eq_ci(a[1], b[1]),
        a.len() > 2 ==> char_eq_ci(a[2], b[2]),
        a.len() > 3 ==> char_eq_ci(a[3], b[3]),
        a.len() > 4 ==> char_eq_ci(a[4], b[4]),
        a.len() > 5 ==> char_eq_ci(a[5], b[5]),
        a.len() > 6 ==> char_eq_ci(a[6], b[6]),
        a.len() > 7 ==> char_eq_ci(a[7], b[7]),
        a.len() > 8 ==> char_eq_ci(a[8], b[8]),
        a.len() > 9 ==> char_eq_ci(a[9], b[9]),
        a.len() > 10 ==> char_eq_ci(a[10], b[10]),
        a.len() > 11 ==> char_eq_ci(a[11], b[11]),
    ensures
        eq_ci(a, b),
{
    assert forall|i: int| 0 <= i < a.len() implies char_eq_ci(a[i], b[i]) by {
        if i == 0 {
        } else if i == 1 {
        } else if i == 2 {
        } else if i == 3 {
        } else if i == 4 {
        } else if i == 5 {
        } else if i == 6 {
        } else if i == 7 {
        } else if i == 8 {
        } else if i == 9 {
        } else if i == 10 {
        } else if i == 11 {
        }
    }
}

fn char_eq_ci_exec(c: char, t: char) -> (r: bool)
    ensures
        r == char_eq_ci(c, t),
{
    c == t || ('A' <= c && c <= 'Z' && (c as u32) + 32 == (t as u32))
}

/// Whether `s[lo .. hi]` matches the token `t` case-insensitively.
pub fn range_eq_ci(s: &str, lo: usize, hi: usize, t: &str) -> (r: bool)
    requires
        lo <= hi <= s@.len(),
    ensures
        r == eq_ci(s@.subrange(lo as int, hi as int), t@),
{
    let tn = t.unicode_len();
    if hi - lo != tn {
        return false;
    }
    let mut i: usize = 0;
    loop
        invariant
            i <= tn,
            tn == t@.len(),
            lo <= hi <= s@.len(),
            hi - lo == tn,
            forall|j: int| 0 <= j < i ==> char_eq_ci(s@[lo + j], t@[j]),
        ensures
            i <= tn,
            forall|j: int| 0 <= j < i ==> char_eq_ci(s@[lo + j], t@[j]),
            i < tn ==> !char_eq_ci(s@[lo + i], t@[i as int]),
        decreases tn - i,
    {
        if i >= tn {
            break ;
        }
        if !char_eq_ci_exec(s.get_char(lo + i), t.get_char(i)) {
            break ;
        }
        i += 1;
    }
    if i == tn {
        proof {
            assert forall|j: int| 0 <= j < tn implies char_eq_ci(
                s@.subrange(lo as int, hi as int)[j],
                t@[j],
            ) by {
                assert(s@.subrange(lo as int, hi as int)[j] == s@[lo + j]);
            }
        }
        true
    } else {
        proof {
            assert(s@.subrange(lo as int, hi as int)[i as int] == s@[lo + i]);
        }
        false
    }
}

/// Plain string equality, stated over the views.
pub fn str_eq(a: &str, b: &str) -> (r: bool)
    ensures
        r == (a@ == b@),
{
    let n = a.unicode_len();
    if n != b.unicode_len() {
        return false;
    }
    let mut i: usize = 0;
    loop
        invariant
            i <= n,
            n == a@.len(),
            n == b@.len(),
            forall|j: int| 0 <= j < i ==> a@[j] == b@[j],
        ensures
            i <= n,
            forall|j: int| 0 <= j < i ==> a@[j] == b@[j],
            i < n ==> a@[i as int] != b@[i as int],
        decreases n - i,
    {
        if i >= n {
            break ;
        }
        if a.get_char(i) != b.get_char(i) {
            break ;
        }
        i += 1;
    }
    if i == n {
        proof {
            assert(a@ =~= b@);
        }
        true
    } else {
        false
    }
}

/// Whether `p` is a prefix of `s`, stated over the views.
pub open spec fn has_prefix(s: Seq<char>, p: Seq<char>) -> bool {
    p.len() <= s.len() && s.subrange(0, p.len() as int) == p
}

pub fn starts_with_str(s: &str, p: &str) -> (r: bool)
    ensures
        r == has_prefix(s@, p@),
{
    let pn = p.unicode_len();
    if pn > s.unicode_len() {
        return false;
    }
    let mut i: usize = 0;
    loop
        invariant
            i <= pn,
            pn == p@.len(),
            pn <= s@.len(),
            forall|j: int| 0 <= j < i ==> s@[j] == p@[j],
        ensures
            i <= pn,
            forall|j: int| 0 <= j < i ==> s@[j] == p@[j],
            i < pn ==> s@[i as int] != p@[i as int],
        decreases pn - i,
    {
        if i >= pn {
            break ;
        }
        if s.get_char(i) != p.get_char(i) {
            break ;
        }
        i += 1;
    }
    if i == pn {
        proof {
            assert forall|j: int| 0 <= j < pn implies s@.subrange(0, pn as int)[j] == p@[j] by {
                assert(s@.subrange(0, pn as int)[j] == s@[j]);
            }
            assert(s@.subrange(0, pn as int) =~= p@);
        }
        true
    } else {
        proof {
            assert(s@.subrange(0, pn as int)[i as int] == s@[i as int]);
        }
        false
    }
}

} // verus!
