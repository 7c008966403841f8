//! Small helpers on sequences of characters.

use vstd::prelude::*;

verus! {

/// Index of the first `c` in `s`, or the length of `s` if there is none.
pub open spec fn find(s: Seq<char>, c: char) -> int
    decreases s.len(),
{
    if s.len() == 0 || s[0] == c {
        0
    } else {
        1 + find(s.drop_first(), c)
    }
}

/// `word` spells `lower`, where each letter may also be the one that
/// `upper` has at the same place.
pub open spec fn matches_word(word: Seq<char>, lower: Seq<char>, upper: Seq<char>) -> bool {
    &&& word.len() == lower.len()
    &&& forall|i: int| 0 <= i < word.len() ==> word[i] == lower[i] || word[i] == upper[i]
}

/// What `find` returns is in range, names a `c` unless it is the length, and
/// has no `c` before it.
pub proof fn lemma_find(s: Seq<char>, c: char)
    ensures
        0 <= find(s, c) <= s.len(),
        find(s, c) < s.len() ==> s[find(s, c)] == c,
        forall|i: int| 0 <= i < find(s, c) ==> s[i] != c,
    decreases s.len(),
{
    if s.len() == 0 || s[0] == c {
    } else {
        let rest = s.drop_first();
        lemma_find(rest, c);
        assert forall|i: int| 0 <= i < find(s, c) implies s[i] != c by {
            if i > 0 {
                assert(s[i] == rest[i - 1]);
            }
        }
    }
}

/// An index with a `c` at it (or the length) and no `c` before it is the one
/// that `find` returns.
pub proof fn lemma_find_unique(s: Seq<char>, c: char, n: int)
    requires
        0 <= n <= s.len(),
        n < s.len() ==> s[n] == c,
        forall|i: int| 0 <= i < n ==> s[i] != c,
    ensures
        find(s, c) == n,
{
    lemma_find(s, c);
}

/// The characters of `s`, one element each.
pub fn chars_of(s: &str) -> (v: Vec<char>)
    ensures
        v@ == s@,
{
    let mut v: Vec<char> = Vec::new();
    for c in it: s.chars()
        invariant
            v@ == it.seq().take(it.index() as int),
            it.seq() == s@,
    {
        v.push(c);
    }
    v
}

/// Position of the first `c` at or after `from`, or the length of `v`.
pub fn find_from(v: &Vec<char>, from: usize, c: char) -> (r: usize)
    requires
        from <= v.len(),
    ensures
        from <= r <= v.len(),
        r - from == find(v@.skip(from as int), c),
{
    let mut i: usize = from;
    while i < v.len() && v[i] != c
        invariant
            from <= i <= v.len(),
            forall|j: int| from <= j < i ==> v@[j] != c,
        decreases v.len() - i,
    {
        i += 1;
    }
    proof {
        lemma_find_unique(v@.skip(from as int), c, i - from);
    }
    i
}

/// Whether `s` begins with `p`.
pub fn starts_with(s: &Vec<char>, p: &Vec<char>) -> (r: bool)
    ensures
        r == p@.is_prefix_of(s@),
{
    if p.len() > s.len() {
        return false;
    }
    let mut i: usize = 0;
    while i < p.len()
        invariant
            i <= p.len() <= s.len(),
            forall|j: int| 0 <= j < i ==> p@[j] == s@[j],
        decreases p.len() - i,
    {
        if p[i] != s[i] {
            assert(s@.subrange(0, p@.len() as int)[i as int] == s@[i as int]);
            return false;
        }
        i += 1;
    }
    assert(p@ =~= s@.subrange(0, p@.len() as int));
    true
}

/// Whether `v[from..to]` spells `lower`, in either case letter by letter.
pub fn is_word(v: &Vec<char>, from: usize, to: usize, lower: &str, upper: &str) -> (r: bool)
    requires
        from <= to <= v.len(),
        lower@.len() == upper@.len(),
    ensures
        r == matches_word(v@.subrange(from as int, to as int), lower@, upper@),
{
    let lo = chars_of(lower);
    let up = chars_of(upper);
    if to - from != lo.len() {
        return false;
    }
    let ghost word = v@.subrange(from as int, to as int);
    let mut i: usize = 0;
    while i < lo.len()
        invariant
            from <= to <= v.len(),
            to - from == lo.len(),
            lo@ == lower@,
            up@ == upper@,
            lo.len() == up.len(),
            i <= lo.len(),
            word == v@.subrange(from as int, to as int),
            forall|j: int| 0 <= j < i ==> word[j] == lo@[j] || word[j] == up@[j],
        decreases lo.len() - i,
    {
        let c = v[from + i];
        assert(c == word[i as int]);
        if c != lo[i] && c != up[i] {
            return false;
        }
        i += 1;
    }
    true
}

} // verus!
