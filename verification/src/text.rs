//! Shared character-sequence helpers: the position of the first occurrence
//! of a character, with the lemmas that pin it down.

use vstd::prelude::*;

verus! {

/// The index of the first occurrence of `c` in `s`, counted by unfolding
/// from the front; meaningful when `s` contains `c`.
pub open spec fn first_index_of(s: Seq<char>, c: char) -> int
    decreases s.len(),
{
    if s.len() == 0 {
        0
    } else if s[0] == c {
        0
    } else {
        1 + first_index_of(s.drop_first(), c)
    }
}

/// When `s` contains `c`, `first_index_of` lands on a `c` and nothing
/// before it is one.
pub proof fn lemma_first_index_of_bounds(s: Seq<char>, c: char)
    requires
        s.contains(c),
    ensures
        0 <= first_index_of(s, c) < s.len(),
        s[first_index_of(s, c)] == c,
        forall|j: int| 0 <= j < first_index_of(s, c) ==> s[j] != c,
    decreases s.len(),
{
    if s[0] == c {
    } else {
        let w = choose|i: int| 0 <= i < s.len() && s[i] == c;
        assert(s.drop_first()[w - 1] == c);
        assert(s.drop_first().contains(c));
        lemma_first_index_of_bounds(s.drop_first(), c);
        assert forall|j: int| 0 <= j < first_index_of(s, c) implies s[j] != c by {
            if j >= 1 {
                assert(s.drop_first()[j - 1] != c);
                assert(s[j] == s.drop_first()[j - 1]);
            }
        }
    }
}

/// An index that carries a `c` with nothing equal before it is the first.
pub proof fn lemma_first_index_of_at(s: Seq<char>, c: char, k: int)
    requires
        0 <= k < s.len(),
        s[k] == c,
        forall|j: int| 0 <= j < k ==> s[j] != c,
    ensures
        first_index_of(s, c) == k,
{
    assert(s.contains(c));
    lemma_first_index_of_bounds(s, c);
}

} // verus!
