//! Ownership-chapter functions: giving a string away, measuring and
//! changing one through references, and slicing out the first word.

use vstd::prelude::*;
use crate::text::first_index_of;
use crate::text::lemma_first_index_of_at;

verus! {

/// A freshly owned greeting, handed to the caller.
pub fn gives_ownership() -> (r: String)
    ensures
        r@ == "hello"@,
{
    "hello".to_owned()
}

/// The length of the borrowed string, in characters.
pub fn calculate_length(s: &String) -> (r: usize)
    ensures
        r == s@.len(),
{
    s.as_str().unicode_len()
}

/// Append `, world` to the borrowed string in place.
pub fn change(some_string: &mut String)
    ensures
        final(some_string)@ == old(some_string)@ + ", world"@,
{
    some_string.append(", world");
}

/// The first word of `s`: everything before the first space, or all of
/// `s` when it has no space.
pub fn first_word(s: &str) -> (r: &str)
    ensures
        s@.contains(' ') ==> r@ == s@.take(first_index_of(s@, ' ')),
        !s@.contains(' ') ==> r@ == s@,
{
    let n = s.unicode_len();
    let mut i: usize = 0;
    while i < n
        invariant
            i <= n,
            n == s@.len(),
            forall|j: int| 0 <= j < i ==> s@[j] != ' ',
        decreases n - i,
    {
        if s.get_char(i) == ' ' {
            proof {
                lemma_first_index_of_at(s@, ' ', i as int);
            }
            return s.substring_char(0, i);
        }
        i = i + 1;
    }
    proof {
        if s@.contains(' ') {
            let w = choose|j: int| 0 <= j < s@.len() && s@[j] == ' ';
            assert(s@[w] != ' ');
        }
    }
    s
}

} // verus!
