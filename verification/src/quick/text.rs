use vstd::prelude::*;
use vstd::string::*;

verus! {

/// Whether `s` starts with the non-empty pattern `p`.
pub open spec fn starts_with_pattern(s: Seq<char>, p: Seq<char>) -> bool {
    0 < p.len() <= s.len() && s.take(p.len() as int) == p
}

/// `s` with every leading repetition of the pattern `p` removed, as
/// `str::trim_start_matches` does; an empty pattern removes nothing.
pub open spec fn trim_leading(s: Seq<char>, p: Seq<char>) -> Seq<char>
    decreases s.len(),
{
    if starts_with_pattern(s, p) {
        trim_leading(s.skip(p.len() as int), p)
    } else {
        s
    }
}

/// The index of the first `':'` in `s` at or after `from`, or its length.
pub open spec fn colon_index(s: Seq<char>, from: int) -> int
    decreases s.len() - from,
{
    if from >= s.len() || from < 0 {
        s.len() as int
    } else if s[from] == ':' {
        from
    } else {
        colon_index(s, from + 1)
    }
}

/// The text before the first `':'`: what `s.split(':').next()` yields.
pub open spec fn before_colon(s: Seq<char>) -> Seq<char> {
    s.take(colon_index(s, 0))
}

fn matches_at(s: &str, n: usize, i: usize, p: &str, m: usize) -> (r: bool)
    requires
        n == s@.len(),
        m == p@.len(),
        0 < m,
        i + m <= n,
    ensures
        r == (s@.skip(i as int).take(m as int) == p@),
{
    let mut k: usize = 0;
    while k < m
        invariant
            n == s@.len(),
            m == p@.len(),
            i + m <= n,
            k <= m,
            forall|j: int| 0 <= j < k ==> s@[i + j] == p@[j],
        decreases m - k,
    {
        if s.get_char(i + k) != p.get_char(k) {
            assert(s@.skip(i as int).take(m as int)[k as int] != p@[k as int]);
            return false;
        }
        k = k + 1;
    }
    assert(s@.skip(i as int).take(m as int) =~= p@);
    true
}

/// Removes every leading repetition of `p` from `s`, as `str::trim_start_matches`.
pub fn trim_leading_matches<'a>(s: &'a str, p: &str) -> (r: &'a str)
    ensures
        r@ == trim_leading(s@, p@),
{
    let n = s.unicode_len();
    let m = p.unicode_len();
    let mut i: usize = 0;
    assert(s@.skip(0) =~= s@);
    loop
        invariant_except_break
            n == s@.len(),
            m == p@.len(),
            i <= n,
            trim_leading(s@, p@) == trim_leading(s@.skip(i as int), p@),
        ensures
            n == s@.len(),
            i <= n,
            trim_leading(s@, p@) == trim_leading(s@.skip(i as int), p@),
            !starts_with_pattern(s@.skip(i as int), p@),
        decreases n - i,
    {
        if m == 0 || n - i < m {
            assert(!starts_with_pattern(s@.skip(i as int), p@));
            break;
        }
        if !matches_at(s, n, i, p, m) {
            assert(!starts_with_pattern(s@.skip(i as int), p@));
            break;
        }
        assert(starts_with_pattern(s@.skip(i as int), p@));
        assert(s@.skip(i as int).skip(m as int) =~= s@.skip(i + m));
        i = i + m;
    }
    assert(!starts_with_pattern(s@.skip(i as int), p@));
    assert(s@.subrange(i as int, n as int) =~= s@.skip(i as int));
    s.substring_char(i, n)
}

/// The text of `s` before its first `':'`, as `s.split(':').next()` yields it.
pub fn text_before_colon<'a>(s: &'a str) -> (r: &'a str)
    ensures
        r@ == before_colon(s@),
{
    let n = s.unicode_len();
    let mut i: usize = 0;
    while i < n
        invariant
            n == s@.len(),
            i <= n,
            colon_index(s@, 0) == colon_index(s@, i as int),
        decreases n - i,
    {
        if s.get_char(i) == ':' {
            return s.substring_char(0, i);
        }
        i = i + 1;
    }
    s.substring_char(0, n)
}

} // verus!
