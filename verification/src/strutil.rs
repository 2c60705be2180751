//! Small string helpers shared by the parsing and encoding modules:
//! appending a single character, scanning for the first occurrence of a
//! character, and comparing a slice of a string against a pattern.

use vstd::prelude::*;
use vstd::string::StrSliceExecFns;

verus! {

/// Relies on String::push: appends the given character to the end of the
/// string and changes nothing else.
#[verifier::external_body]
pub(crate) fn push_char(s: &mut String, c: char)
    ensures
        final(s)@ == old(s)@.push(c),
{
    s.push(c);
}

/// True when `c` occurs in `s`.
pub open spec fn contains_char(s: Seq<char>, c: char) -> bool {
    exists|k: int| 0 <= k < s.len() && s[k] == c
}

/// The position of the first occurrence of `c` in `s`, or `s.len()`
/// when `c` does not occur.
pub open spec fn first_pos(s: Seq<char>, c: char) -> int
    decreases s.len(),
{
    if s.len() == 0 {
        0
    } else if s[0] == c {
        0
    } else {
        1 + first_pos(s.skip(1), c)
    }
}

/// `first_pos` lies within the sequence exactly when `c` occurs, points
/// at an occurrence of `c`, and nothing before it is `c`.
pub proof fn lemma_first_pos(s: Seq<char>, c: char)
    ensures
        0 <= first_pos(s, c) <= s.len(),
        contains_char(s, c) <==> first_pos(s, c) < s.len(),
        first_pos(s, c) < s.len() ==> s[first_pos(s, c)] == c,
        forall|k: int| 0 <= k < first_pos(s, c) ==> s[k] != c,
    decreases s.len(),
{
    if s.len() == 0 {
    } else if s[0] == c {
        assert(contains_char(s, c));
    } else {
        let t = s.skip(1);
        lemma_first_pos(t, c);
        assert(forall|k: int| 0 <= k < t.len() ==> t[k] == s[k + 1]);
        if contains_char(s, c) {
            let w = choose|k: int| 0 <= k < s.len() && s[k] == c;
            assert(t[w - 1] == c);
            assert(contains_char(t, c));
        }
        if contains_char(t, c) {
            let w = choose|k: int| 0 <= k < t.len() && t[k] == c;
            assert(s[w + 1] == c);
            assert(contains_char(s, c));
        }
        assert forall|k: int| 0 <= k < first_pos(s, c) implies s[k] != c by {
            if k > 0 {
                assert(t[k - 1] != c);
            }
        }
    }
}

/// A position that holds `c` and has no earlier occurrence of `c` is
/// exactly `first_pos`.
pub proof fn lemma_first_pos_of_witness(s: Seq<char>, c: char, k: int)
    requires
        0 <= k < s.len(),
        s[k] == c,
        forall|k2: int| 0 <= k2 < k ==> s[k2] != c,
    ensures
        contains_char(s, c),
        first_pos(s, c) == k,
{
    assert(contains_char(s, c));
    lemma_first_pos(s, c);
    if first_pos(s, c) < k {
        assert(s[first_pos(s, c)] != c);
    } else if first_pos(s, c) > k {
        assert(s[k] != c);
    }
}

/// Finds the first occurrence of `c` in `s` within the character range
/// `[from, to)`, if any.
pub(crate) fn find_char(s: &str, from: usize, to: usize, c: char) -> (r: Option<usize>)
    requires
        from <= to <= s@.len(),
        s@.len() <= usize::MAX,
    ensures
        r is Some ==> from <= r->Some_0 < to && s@[r->Some_0 as int] == c && (forall|k: int|
            from <= k < r->Some_0 ==> s@[k] != c),
        r is None ==> forall|k: int| from <= k < to ==> s@[k] != c,
{
    let mut i: usize = from;
    while i < to
        invariant
            from <= i <= to <= s@.len(),
            s@.len() <= usize::MAX,
            forall|k: int| from <= k < i ==> s@[k] != c,
        decreases to - i,
    {
        if s.get_char(i) == c {
            return Some(i);
        }
        i = i + 1;
    }
    None
}

/// Compares the characters of `s` starting at `i` against the whole of
/// `p`: true exactly when `p` occurs in `s` at position `i`.
pub(crate) fn matches_at(s: &str, i: usize, p: &str) -> (r: bool)
    requires
        i + p@.len() <= s@.len(),
        s@.len() <= usize::MAX,
    ensures
        r <==> s@.subrange(i as int, i + p@.len()) == p@,
{
    let plen = p.unicode_len();
    let mut k: usize = 0;
    while k < plen
        invariant
            0 <= k <= plen,
            plen == p@.len(),
            i + p@.len() <= s@.len(),
            s@.len() <= usize::MAX,
            forall|k2: int| 0 <= k2 < k ==> s@[i + k2] == p@[k2],
        decreases plen - k,
    {
        if s.get_char(i + k) != p.get_char(k) {
            proof {
                assert(s@.subrange(i as int, i + p@.len())[k as int] != p@[k as int]);
            }
            return false;
        }
        k = k + 1;
    }
    proof {
        assert(s@.subrange(i as int, i + p@.len()) =~= p@);
    }
    true
}

} // verus!
