//! Searching and cutting text, stated over sequences of characters.

use vstd::prelude::*;
use vstd::string::*;

verus! {

/// `pat` stands in `s` at position `i`.
pub open spec fn occurs_at(s: Seq<char>, pat: Seq<char>, i: int) -> bool {
    0 <= i && i + pat.len() <= s.len() && s.subrange(i, i + pat.len()) == pat
}

/// `pat` stands somewhere in `s`.
pub open spec fn contains_seq(s: Seq<char>, pat: Seq<char>) -> bool {
    exists|i: int| occurs_at(s, pat, i)
}

/// `i` is the leftmost position at which `pat` stands in `s`.
pub open spec fn first_at(s: Seq<char>, pat: Seq<char>, i: int) -> bool {
    occurs_at(s, pat, i) && forall|j: int| 0 <= j < i ==> !occurs_at(s, pat, j)
}

/// `s` with the leftmost occurrence of `pat` cut out; `s` itself where there is none.
pub open spec fn without_first(s: Seq<char>, pat: Seq<char>) -> Seq<char> {
    if contains_seq(s, pat) {
        let i = choose|i: int| first_at(s, pat, i);
        s.subrange(0, i) + s.subrange(i + pat.len(), s.len() as int)
    } else {
        s
    }
}

/// `s` with every occurrence of the non-empty `pat` cut out, scanning from the left
/// and never looking back into what a cut has joined.
pub open spec fn without_all(s: Seq<char>, pat: Seq<char>) -> Seq<char>
    decreases s.len(),
{
    if pat.len() == 0 || s.len() < pat.len() {
        s
    } else if occurs_at(s, pat, 0) {
        without_all(s.skip(pat.len() as int), pat)
    } else {
        seq![s[0]] + without_all(s.skip(1), pat)
    }
}

/// The leftmost position is unique.
pub proof fn lemma_first_at_unique(s: Seq<char>, pat: Seq<char>, i: int, j: int)
    requires
        first_at(s, pat, i),
        first_at(s, pat, j),
    ensures
        i == j,
{
}

/// Cutting at a known leftmost position.
pub proof fn lemma_without_first_at(s: Seq<char>, pat: Seq<char>, i: int)
    requires
        first_at(s, pat, i),
    ensures
        without_first(s, pat) == s.subrange(0, i) + s.subrange(i + pat.len(), s.len() as int),
{
    let c = choose|c: int| first_at(s, pat, c);
    lemma_first_at_unique(s, pat, i, c);
}

/// Whether `pat` stands in `s` at character position `i`.
pub fn matches_at(s: &str, i: usize, pat: &str) -> (found: bool)
    ensures
        found == occurs_at(s@, pat@, i as int),
{
    let n: usize = s.unicode_len();
    let m: usize = pat.unicode_len();
    if m > n || i > n - m {
        return false;
    }
    let mut k: usize = 0;
    while k < m
        invariant
            n == s@.len(),
            m == pat@.len(),
            i + m <= n,
            k <= m,
            forall|j: int| 0 <= j < k ==> s@[i + j] == pat@[j],
        decreases m - k,
    {
        if s.get_char(i + k) != pat.get_char(k) {
            return false;
        }
        k = k + 1;
    }
    proof {
        assert(s@.subrange(i as int, i + m) =~= pat@);
    }
    true
}

/// Whether two texts are the same sequence of characters.
pub fn same_text(a: &str, b: &str) -> (same: bool)
    ensures
        same == (a@ == b@),
{
    let n: usize = a.unicode_len();
    let m: usize = b.unicode_len();
    if n != m {
        return false;
    }
    let found = matches_at(a, 0, b);
    proof {
        assert(a@.subrange(0, n as int) =~= a@);
    }
    found
}

/// Whether `s` begins with `pat`.
pub fn begins_with(s: &str, pat: &str) -> (found: bool)
    ensures
        found == pat@.is_prefix_of(s@),
{
    matches_at(s, 0, pat)
}

/// Whether `pat` stands somewhere in `s`.
pub fn contains_text(s: &str, pat: &str) -> (found: bool)
    ensures
        found == contains_seq(s@, pat@),
{
    let n: usize = s.unicode_len();
    let m: usize = pat.unicode_len();
    if m > n {
        return false;
    }
    let last: usize = n - m;
    let mut i: usize = 0;
    while i < last
        invariant
            n == s@.len(),
            m == pat@.len(),
            last == n - m,
            i <= last,
            forall|j: int| 0 <= j < i ==> !occurs_at(s@, pat@, j),
        decreases last - i,
    {
        if matches_at(s, i, pat) {
            return true;
        }
        i = i + 1;
    }
    matches_at(s, last, pat)
}

/// `s` without the leftmost occurrence of `pat`.
pub fn cut_first(s: &str, pat: &str) -> (out: String)
    ensures
        out@ == without_first(s@, pat@),
{
    let n: usize = s.unicode_len();
    let m: usize = pat.unicode_len();
    if m > n {
        return String::from_str(s);
    }
    let last: usize = n - m;
    let mut i: usize = 0;
    while i < last && !matches_at(s, i, pat)
        invariant
            n == s@.len(),
            m == pat@.len(),
            last == n - m,
            i <= last,
            forall|j: int| 0 <= j < i ==> !occurs_at(s@, pat@, j),
        decreases last - i,
    {
        i = i + 1;
    }
    if matches_at(s, i, pat) {
        let mut out = String::from_str(s.substring_char(0, i));
        out.append(s.substring_char(i + m, n));
        proof {
            lemma_without_first_at(s@, pat@, i as int);
        }
        out
    } else {
        String::from_str(s)
    }
}

/// `s` without any occurrence of the non-empty `pat`.
pub fn cut_all(s: &str, pat: &str) -> (out: String)
    ensures
        out@ == without_all(s@, pat@),
{
    let n: usize = s.unicode_len();
    let m: usize = pat.unicode_len();
    if m == 0 || m > n {
        return String::from_str(s);
    }
    let mut out = String::new();
    let mut i: usize = 0;
    proof {
        assert(s@.skip(0) =~= s@);
    }
    while i < n
        invariant
            n == s@.len(),
            m == pat@.len(),
            0 < m <= n,
            i <= n,
            out@ + without_all(s@.skip(i as int), pat@) == without_all(s@, pat@),
        decreases n - i,
    {
        let ghost rest = s@.skip(i as int);
        if matches_at(s, i, pat) {
            proof {
                assert(rest.subrange(0, m as int) =~= s@.subrange(i as int, i + m));
                assert(rest.skip(m as int) =~= s@.skip(i + m));
            }
            i = i + m;
        } else {
            proof {
                if rest.len() >= m {
                    assert(rest.subrange(0, m as int) =~= s@.subrange(i as int, i + m));
                }
                assert(rest.skip(1) =~= s@.skip(i + 1));
            }
            out.append(s.substring_char(i, i + 1));
            i = i + 1;
        }
    }
    out
}

} // verus!
