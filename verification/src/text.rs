//! Searching sequences of characters for a pattern.
//!
//! Positions count characters, not bytes. A window `[from, to)` of a text is
//! the text `s.subrange(from, to)`; positions reported for a window are
//! relative to its start.

use vstd::prelude::*;
use vstd::std_specs::iter::IteratorSpec;

verus! {

broadcast use vstd::string::group_string_axioms;

/// `pat` stands in `s` at position `i`.
pub open spec fn occurs_at(s: Seq<char>, pat: Seq<char>, i: int) -> bool {
    &&& 0 <= i
    &&& i + pat.len() <= s.len()
    &&& s.subrange(i, i + pat.len()) == pat
}

/// `pat` stands somewhere in `s`.
pub open spec fn contains(s: Seq<char>, pat: Seq<char>) -> bool {
    exists|i: int| occurs_at(s, pat, i)
}

/// `i` is the leftmost position of `pat` in `s`.
pub open spec fn is_first(s: Seq<char>, pat: Seq<char>, i: int) -> bool {
    &&& occurs_at(s, pat, i)
    &&& forall|j: int| 0 <= j < i ==> !occurs_at(s, pat, j)
}

/// `i` is the rightmost position of `pat` in `s`.
pub open spec fn is_last(s: Seq<char>, pat: Seq<char>, i: int) -> bool {
    &&& occurs_at(s, pat, i)
    &&& forall|j: int| i < j ==> !occurs_at(s, pat, j)
}

/// The leftmost position of `pat` in `s`; meaningful where `s` contains `pat`.
pub open spec fn first_index(s: Seq<char>, pat: Seq<char>) -> int {
    choose|i: int| is_first(s, pat, i)
}

/// The rightmost position of `pat` in `s`; meaningful where `s` contains `pat`.
pub open spec fn last_index(s: Seq<char>, pat: Seq<char>) -> int {
    choose|i: int| is_last(s, pat, i)
}

/// A leftmost position is the only one, and it is `first_index`.
pub proof fn lemma_first_index(s: Seq<char>, pat: Seq<char>, i: int)
    requires
        is_first(s, pat, i),
    ensures
        contains(s, pat),
        first_index(s, pat) == i,
{
    let k = first_index(s, pat);
    assert(is_first(s, pat, k));
    if k < i {
        assert(!occurs_at(s, pat, k));
    } else if i < k {
        assert(!occurs_at(s, pat, i));
    }
}

/// A rightmost position is the only one, and it is `last_index`.
pub proof fn lemma_last_index(s: Seq<char>, pat: Seq<char>, i: int)
    requires
        is_last(s, pat, i),
    ensures
        contains(s, pat),
        last_index(s, pat) == i,
{
    let k = last_index(s, pat);
    assert(is_last(s, pat, k));
    if k < i {
        assert(!occurs_at(s, pat, i));
    } else if i < k {
        assert(!occurs_at(s, pat, k));
    }
}

/// The characters of `s`, in order.
pub fn to_chars(s: &str) -> (v: Vec<char>)
    ensures
        v@ == s@,
{
    let mut it = s.chars();
    let mut v: Vec<char> = Vec::new();
    loop
        invariant
            it.obeys_prophetic_iter_laws(),
            it.decrease() is Some,
            v@ + it.remaining() == s@,
        decreases it.decrease()->0,
    {
        match it.next() {
            Some(c) => {
                v.push(c);
                assert(v@ + it.remaining() =~= s@);
            },
            None => {
                assert(v@ =~= s@);
                return v;
            },
        }
    }
}

/// Whether `pat` stands at position `i` of the window `[from, to)` of `s`.
pub(crate) fn matches_at(s: &Vec<char>, pat: &Vec<char>, from: usize, to: usize, i: usize) -> (b: bool)
    requires
        from <= to <= s.len(),
        i + pat.len() <= to - from,
    ensures
        b == occurs_at(s@.subrange(from as int, to as int), pat@, i as int),
{
    let ghost w = s@.subrange(from as int, to as int);
    let m: usize = pat.len();
    let mut k: usize = 0;
    while k < m
        invariant
            from <= to <= s.len(),
            i + m <= to - from,
            m == pat.len(),
            k <= m,
            w == s@.subrange(from as int, to as int),
            forall|t: int| 0 <= t < k ==> w[i + t] == pat@[t],
        decreases m - k,
    {
        if s[from + i + k] != pat[k] {
            assert(w.subrange(i as int, i + m)[k as int] == w[i + k]);
            return false;
        }
        k += 1;
    }
    assert(w.subrange(i as int, i + m) =~= pat@);
    true
}

/// The leftmost position of `pat` in the window `[from, to)` of `s`.
pub(crate) fn find_first(s: &Vec<char>, pat: &Vec<char>, from: usize, to: usize) -> (r: Option<usize>)
    requires
        from <= to <= s.len(),
    ensures
        match r {
            Some(i) => is_first(s@.subrange(from as int, to as int), pat@, i as int),
            None => !contains(s@.subrange(from as int, to as int), pat@),
        },
{
    let n: usize = to - from;
    let m: usize = pat.len();
    if m > n {
        return None;
    }
    let ghost w = s@.subrange(from as int, to as int);
    let last: usize = n - m;
    let mut i: usize = 0;
    loop
        invariant
            from <= to <= s.len(),
            n == to - from,
            m == pat.len(),
            last == n - m,
            i <= last,
            w == s@.subrange(from as int, to as int),
            forall|j: int| 0 <= j < i ==> !occurs_at(w, pat@, j),
        decreases last - i,
    {
        if matches_at(s, pat, from, to, i) {
            return Some(i);
        }
        if i == last {
            return None;
        }
        i += 1;
    }
}

/// The rightmost position of `pat` in the window `[from, to)` of `s`.
pub(crate) fn find_last(s: &Vec<char>, pat: &Vec<char>, from: usize, to: usize) -> (r: Option<usize>)
    requires
        from <= to <= s.len(),
    ensures
        match r {
            Some(i) => is_last(s@.subrange(from as int, to as int), pat@, i as int),
            None => !contains(s@.subrange(from as int, to as int), pat@),
        },
{
    let n: usize = to - from;
    let m: usize = pat.len();
    if m > n {
        return None;
    }
    let ghost w = s@.subrange(from as int, to as int);
    let mut i: usize = n - m;
    loop
        invariant
            from <= to <= s.len(),
            n == to - from,
            m == pat.len(),
            i <= n - m,
            w == s@.subrange(from as int, to as int),
            forall|j: int| i < j ==> !occurs_at(w, pat@, j),
        decreases i,
    {
        if matches_at(s, pat, from, to, i) {
            return Some(i);
        }
        if i == 0 {
            return None;
        }
        i -= 1;
    }
}

} // verus!
