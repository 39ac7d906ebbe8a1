//! A small hand-rolled iterator that counts from 1 to 5, and a filter over
//! owned values.

use vstd::prelude::*;

verus! {

/// Yields 1, 2, 3, 4, 5 and then nothing, one value per call to `next`.
pub struct Counter {
    count: u32,
}

impl Counter {
    /// How many values have been yielded so far.
    pub closed spec fn spec_count(&self) -> u32 {
        self.count
    }

    /// A counter that has yielded nothing yet.
    pub fn new() -> (r: Counter)
        ensures
            r.spec_count() == 0,
    {
        Counter { count: 0 }
    }

    /// The next value: counts 1 up to 5, then answers `None` forever.
    pub fn next(&mut self) -> (r: Option<u32>)
        ensures
            old(self).spec_count() < 5 ==> {
                &&& final(self).spec_count() == old(self).spec_count() + 1
                &&& r == Some((old(self).spec_count() + 1) as u32)
            },
            old(self).spec_count() >= 5 ==> {
                &&& r is None
                &&& final(self).spec_count() == old(self).spec_count()
            },
    {
        if self.count < 5 {
            self.count = self.count + 1;
            Some(self.count)
        } else {
            None
        }
    }
}

/// A shoe, filtered by size below.
#[derive(Debug, PartialEq, Eq)]
pub struct Shoe {
    pub size: u32,
    pub style: String,
}

/// Exactly the shoes of the wanted size, keeping their order: the result
/// is the input sequence filtered by `size == shoe_size`.
pub fn shoes_in_my_size(shoes: Vec<Shoe>, shoe_size: u32) -> (r: Vec<Shoe>)
    ensures
        r@ == shoes@.filter(|s: Shoe| s.size == shoe_size),
{
    let ghost orig = shoes@;
    let mut rest = shoes;
    let mut results: Vec<Shoe> = Vec::new();
    while rest.len() > 0
        invariant
            rest@.len() <= orig.len(),
            rest@ == orig.skip(orig.len() - rest@.len()),
            results@ == orig.take(orig.len() - rest@.len()).filter(
                |s: Shoe| s.size == shoe_size,
            ),
        decreases rest@.len(),
    {
        let ghost i = orig.len() - rest@.len();
        let s = rest.remove(0);
        proof {
            assert(orig.skip(i as int)[0] == orig[i as int]);
            assert(orig.skip(i as int).drop_first() =~= orig.skip(i as int + 1));
            assert(orig.take(i as int + 1).drop_last() =~= orig.take(i as int));
            assert(orig.take(i as int + 1).last() == orig[i as int]);
            reveal_with_fuel(Seq::filter, 2);
        }
        if s.size == shoe_size {
            results.push(s);
        }
    }
    proof {
        assert(orig.take(orig.len() as int) =~= orig);
    }
    results
}

} // verus!
