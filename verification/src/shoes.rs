//! Filtering shoes by size, and a counter that runs from one to five.

use vstd::prelude::*;

verus! {

/// A shoe, by size and style.
#[derive(Debug)]
pub struct Shoe {
    pub size: u32,
    pub style: String,
}

impl PartialEq for Shoe {
    fn eq(&self, other: &Shoe) -> (same: bool) {
        self.size == other.size && self.style == other.style
    }
}

impl vstd::std_specs::cmp::PartialEqSpecImpl for Shoe {
    open spec fn obeys_eq_spec() -> bool {
        true
    }

    open spec fn eq_spec(&self, other: &Shoe) -> bool {
        self.size == other.size && self.style@ == other.style@
    }
}

/// Keeps, in order, the shoes of the wanted size.
pub fn shoes_in_size(shoes: Vec<Shoe>, shoe_size: u32) -> (fitting: Vec<Shoe>)
    ensures
        fitting@ == shoes@.filter(|s: Shoe| s.size == shoe_size),
{
    let ghost orig = shoes@;
    let mut shoes = shoes;
    let mut fitting: Vec<Shoe> = Vec::new();
    let ghost k: int = 0;
    while shoes.len() > 0
        invariant
            0 <= k <= orig.len(),
            shoes@ =~= orig.skip(k),
            fitting@ == orig.take(k).filter(|s: Shoe| s.size == shoe_size),
        decreases shoes@.len(),
    {
        let ghost pred = |s: Shoe| s.size == shoe_size;
        let s = shoes.remove(0);
        proof {
            assert(s == orig[k]);
            assert(orig.take(k + 1) =~= orig.take(k).push(orig[k]));
            orig.take(k).lemma_filter_push(orig[k], pred);
        }
        if s.size == shoe_size {
            fitting.push(s);
        }
        proof {
            k = k + 1;
            assert(shoes@ =~= orig.skip(k));
        }
    }
    proof {
        assert(orig.take(orig.len() as int) =~= orig);
    }
    fitting
}

/// Counts from one to five, then stops.
pub struct Counter {
    count: u32,
}

impl Counter {
    /// How far the counter has come.
    pub closed spec fn spec_count(&self) -> u32 {
        self.count
    }

    /// A counter that has not counted yet.
    pub fn new() -> (c: Counter)
        ensures
            c.spec_count() == 0,
    {
        Counter { count: 0 }
    }

    /// The next count, or nothing once five is reached.
    pub fn next(&mut self) -> (n: Option<u32>)
        ensures
            old(self).spec_count() < 5 ==> {
                &&& final(self).spec_count() == old(self).spec_count() + 1
                &&& n == Some(final(self).spec_count())
            },
            old(self).spec_count() >= 5 ==> {
                &&& final(self).spec_count() == old(self).spec_count()
                &&& n is None
            },
    {
        if self.count < 5 {
            self.count = self.count + 1;
            Some(self.count)
        } else {
            None
        }
    }
}

} // verus!
