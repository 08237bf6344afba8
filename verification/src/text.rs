//! Small string helpers over the character view of `str`.
use vstd::prelude::*;

verus! {

/// Whether `needle` occurs in `hay` starting at position `i`.
pub open spec fn occurs_at(hay: Seq<char>, needle: Seq<char>, i: int) -> bool {
    0 <= i && i + needle.len() <= hay.len() && hay.subrange(i, i + needle.len()) == needle
}

/// Whether `needle` occurs anywhere in `hay`.
pub open spec fn contains_seq(hay: Seq<char>, needle: Seq<char>) -> bool {
    exists|i: int| #[trigger] occurs_at(hay, needle, i)
}

/// Index of the first occurrence of `c` in `s`, if any.
pub open spec fn first_index_of(s: Seq<char>, c: char) -> Option<int>
    decreases s.len(),
{
    if s.len() == 0 {
        None
    } else {
        match first_index_of(s.drop_last(), c) {
            Some(i) => Some(i),
            None => if s.last() == c {
                Some(s.len() - 1)
            } else {
                None
            },
        }
    }
}

/// A match found in a prefix is the first match of the whole sequence.
pub proof fn lemma_first_index_prefix(s: Seq<char>, n: int, c: char)
    requires
        0 <= n <= s.len(),
        first_index_of(s.take(n), c) is Some,
    ensures
        first_index_of(s, c) == first_index_of(s.take(n), c),
    decreases s.len() - n,
{
    if n < s.len() {
        assert(s.take(n + 1).drop_last() =~= s.take(n));
        lemma_first_index_prefix(s, n + 1, c);
    } else {
        assert(s.take(n) =~= s);
    }
}

/// What `first_index_of` finds: the position of the first `c`.
pub proof fn lemma_first_index_of(s: Seq<char>, c: char)
    ensures
        first_index_of(s, c) matches Some(i) ==> 0 <= i < s.len() && s[i] == c && forall|j: int|
            0 <= j < i ==> s[j] != c,
        first_index_of(s, c) is None ==> forall|j: int| 0 <= j < s.len() ==> s[j] != c,
    decreases s.len(),
{
    if s.len() > 0 {
        let t = s.drop_last();
        lemma_first_index_of(t, c);
        assert forall|j: int| 0 <= j < t.len() implies t[j] == s[j] by {}
    }
}

/// Position of the first `c` in `v` at or after `from`, or `v.len()` when there is none.
pub fn find_char_from(v: &Vec<char>, from: usize, c: char) -> (r: usize)
    requires
        from <= v@.len(),
    ensures
        from <= r <= v@.len(),
        r < v@.len() ==> v@[r as int] == c,
        forall|j: int| from <= j < r ==> v@[j] != c,
{
    let mut i = from;
    while i < v.len()
        invariant
            from <= i <= v@.len(),
            forall|j: int| from <= j < i ==> v@[j] != c,
        decreases v.len() - i,
    {
        if v[i] == c {
            return i;
        }
        i += 1;
    }
    i
}

/// The characters of `s`.
pub fn chars_of(s: &str) -> (v: Vec<char>)
    ensures
        v@ == s@,
{
    broadcast use vstd::string::group_string_axioms;

    let mut v: Vec<char> = Vec::new();
    for c in it: s.chars()
        invariant
            v@ == it.seq().take(it.index() as int),
    {
        v.push(c);
    }
    v
}

/// Element-wise equality of two character vectors.
pub fn chars_equal(a: &Vec<char>, b: &Vec<char>) -> (r: bool)
    ensures
        r == (a@ == b@),
{
    if a.len() != b.len() {
        return false;
    }
    let mut i: usize = 0;
    while i < a.len()
        invariant
            a@.len() == b@.len(),
            i <= a@.len(),
            forall|j: int| 0 <= j < i ==> a@[j] == b@[j],
        decreases a.len() - i,
    {
        if a[i] != b[i] {
            return false;
        }
        i += 1;
    }
    assert(a@ =~= b@);
    true
}

/// Character-wise equality of two strings.
pub fn str_equals(a: &str, b: &str) -> (r: bool)
    ensures
        r == (a@ == b@),
{
    chars_equal(&chars_of(a), &chars_of(b))
}

/// Whether `needle` occurs in `hay`.
pub fn str_contains(hay: &str, needle: &str) -> (r: bool)
    ensures
        r == contains_seq(hay@, needle@),
{
    let h = chars_of(hay);
    let nd = chars_of(needle);
    let n = h.len();
    let m = nd.len();
    if m > n {
        assert forall|i: int| !occurs_at(hay@, needle@, i) by {}
        return false;
    }
    if m == 0 {
        assert(hay@.subrange(0, 0) =~= needle@);
        assert(occurs_at(hay@, needle@, 0));
        return true;
    }
    let mut i: usize = 0;
    while i <= n - m
        invariant
            h@ == hay@,
            nd@ == needle@,
            n == hay@.len(),
            m == needle@.len(),
            1 <= m <= n,
            i <= n - m + 1,
            forall|j: int| 0 <= j < i ==> !#[trigger] occurs_at(hay@, needle@, j),
        decreases n - m + 1 - i,
    {
        let mut k: usize = 0;
        let mut matched = true;
        while k < m
            invariant
                h@ == hay@,
                nd@ == needle@,
                n == hay@.len(),
                m == needle@.len(),
                i + m <= n,
                k <= m,
                matched ==> forall|j: int| 0 <= j < k ==> hay@[i + j] == needle@[j],
                !matched ==> !occurs_at(hay@, needle@, i as int),
            decreases m - k,
        {
            if matched && h[i + k] != nd[k] {
                matched = false;
                assert(hay@.subrange(i as int, i + m)[k as int] != needle@[k as int]);
            }
            k += 1;
        }
        if matched {
            assert(hay@.subrange(i as int, i + m) =~= needle@);
            assert(occurs_at(hay@, needle@, i as int));
            return true;
        }
        i += 1;
    }
    assert forall|j: int| !#[trigger] occurs_at(hay@, needle@, j) by {
        if 0 <= j && j + m <= n {
            assert(j < i);
        }
    }
    false
}

} // verus!
