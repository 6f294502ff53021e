//! Verified character-level string primitives: equality of two string
//! slices, and locating separator characters, with specs over `Seq<char>`.

use vstd::prelude::*;
use vstd::string::StrSliceExecFns;

verus! {

/// The index of the first occurrence of `c` in `s` at or after `i`,
/// or `s.len()` when there is none.
pub open spec fn sep_from(s: Seq<char>, c: char, i: int) -> int
    decreases s.len() - i,
{
    if i < 0 || i >= s.len() {
        s.len() as int
    } else if s[i] == c {
        i
    } else {
        sep_from(s, c, i + 1)
    }
}

/// `sep_from` stays within bounds, lands on `c` when it is short of the
/// end, and skips no occurrence of `c`.
pub proof fn lemma_sep_from(s: Seq<char>, c: char, i: int)
    requires
        0 <= i <= s.len(),
    ensures
        i <= sep_from(s, c, i) <= s.len(),
        sep_from(s, c, i) < s.len() ==> s[sep_from(s, c, i)] == c,
        forall|j: int| i <= j < sep_from(s, c, i) ==> s[j] != c,
    decreases s.len() - i,
{
    if i < s.len() && s[i] != c {
        lemma_sep_from(s, c, i + 1);
    }
}

/// When no occurrence of `c` lies in `[i, s.len())`, `sep_from` reports
/// the length.
pub proof fn lemma_sep_from_none(s: Seq<char>, c: char, i: int)
    requires
        0 <= i <= s.len(),
        forall|j: int| i <= j < s.len() ==> s[j] != c,
    ensures
        sep_from(s, c, i) == s.len(),
    decreases s.len() - i,
{
    if i < s.len() {
        lemma_sep_from_none(s, c, i + 1);
    }
}

/// Character-level equality of two string slices.
pub fn str_eq(a: &str, b: &str) -> (r: bool)
    ensures
        r == (a@ == b@),
{
    let alen = a.unicode_len();
    let blen = b.unicode_len();
    if alen != blen {
        return false;
    }
    let mut i: usize = 0;
    while i < alen
        invariant
            i <= alen,
            alen == a@.len(),
            alen == b@.len(),
            forall|j: int| 0 <= j < i ==> a@[j] == b@[j],
        decreases alen - i,
    {
        if a.get_char(i) != b.get_char(i) {
            return false;
        }
        i += 1;
    }
    proof {
        assert(a@ =~= b@);
    }
    true
}

/// The index of the first occurrence of `c` in `s` at or after `from`,
/// or the character length of `s` when there is none.
pub fn find_from(s: &str, c: char, from: usize) -> (r: usize)
    requires
        from <= s@.len(),
    ensures
        r == sep_from(s@, c, from as int),
{
    let n = s.unicode_len();
    let mut i = from;
    while i < n
        invariant
            from <= i <= n,
            n == s@.len(),
            sep_from(s@, c, from as int) == sep_from(s@, c, i as int),
        decreases n - i,
    {
        if s.get_char(i) == c {
            return i;
        }
        i += 1;
    }
    n
}

/// Whether `c` is whitespace: the code points `char::is_whitespace`
/// recognizes.
pub open spec fn is_ws(c: char) -> bool {
    let v = c as u32;
    ||| v == 0x09
    ||| v == 0x0a
    ||| v == 0x0b
    ||| v == 0x0c
    ||| v == 0x0d
    ||| v == 0x20
    ||| v == 0x85
    ||| v == 0xa0
    ||| v == 0x1680
    ||| (0x2000 <= v && v <= 0x200a)
    ||| v == 0x2028
    ||| v == 0x2029
    ||| v == 0x202f
    ||| v == 0x205f
    ||| v == 0x3000
}

/// Whether `c` is whitespace.
pub fn is_ws_char(c: char) -> (r: bool)
    ensures
        r == is_ws(c),
{
    let v = c as u32;
    v == 0x09 || v == 0x0a || v == 0x0b || v == 0x0c || v == 0x0d || v == 0x20 || v == 0x85
        || v == 0xa0 || v == 0x1680 || (0x2000 <= v && v <= 0x200a) || v == 0x2028 || v == 0x2029
        || v == 0x202f || v == 0x205f || v == 0x3000
}

/// The index of the first non-whitespace character at or after `i`, or
/// `s.len()` when all of the rest is whitespace.
pub open spec fn non_ws_from(s: Seq<char>, i: int) -> int
    decreases s.len() - i,
{
    if i < 0 || i >= s.len() {
        s.len() as int
    } else if !is_ws(s[i]) {
        i
    } else {
        non_ws_from(s, i + 1)
    }
}

/// One past the index of the last non-whitespace character before `i`, or
/// `0` when all of `s` up to `i` is whitespace.
pub open spec fn non_ws_until(s: Seq<char>, i: int) -> int
    decreases i,
{
    if i <= 0 {
        0
    } else if !is_ws(s[i - 1]) {
        i
    } else {
        non_ws_until(s, i - 1)
    }
}

/// `non_ws_until` stays within bounds.
pub proof fn lemma_non_ws_until(s: Seq<char>, i: int)
    requires
        0 <= i <= s.len(),
    ensures
        0 <= non_ws_until(s, i) <= i,
    decreases i,
{
    if i > 0 && is_ws(s[i - 1]) {
        lemma_non_ws_until(s, i - 1);
    }
}

/// `s` without its leading and trailing whitespace.
pub open spec fn trim_ws(s: Seq<char>) -> Seq<char> {
    let a = non_ws_from(s, 0);
    let b = non_ws_until(s, s.len() as int);
    if a < b {
        s.subrange(a, b)
    } else {
        Seq::empty()
    }
}

/// Strips leading and trailing whitespace, as `str::trim` does.
pub fn trim(s: &str) -> (r: &str)
    ensures
        r@ == trim_ws(s@),
{
    let n = s.unicode_len();
    let mut a: usize = 0;
    while a < n && is_ws_char(s.get_char(a))
        invariant
            a <= n,
            n == s@.len(),
            non_ws_from(s@, 0) == non_ws_from(s@, a as int),
        decreases n - a,
    {
        a += 1;
    }
    let mut b: usize = n;
    while b > a && is_ws_char(s.get_char(b - 1))
        invariant
            a <= b <= n,
            n == s@.len(),
            non_ws_until(s@, n as int) == non_ws_until(s@, b as int),
        decreases b,
    {
        b -= 1;
    }
    if a < b {
        s.substring_char(a, b)
    } else {
        proof {
            reveal_strlit("");
            lemma_non_ws_until(s@, a as int);
            assert(""@ =~= trim_ws(s@));
        }
        ""
    }
}

} // verus!
