//! A source of the even numbers from a starting point on.
use vstd::prelude::*;

verus! {

/// Yields the even numbers at or above `curr`, one per call of `next`.
#[derive(Debug)]
pub struct EvenNumber {
    pub curr: u32,
}

/// The first even number at or above `n`.
pub open spec fn next_even(n: int) -> int {
    if n % 2 == 0 {
        n
    } else {
        n + 1
    }
}

impl EvenNumber {
    /// The next even number: the first at or above `curr`. Afterwards `curr` is just
    /// past it.
    pub fn next(&mut self) -> (r: Option<u32>)
        requires
            old(self).curr < u32::MAX,
        ensures
            r is Some && r->0 == next_even(old(self).curr as int),
            final(self).curr == next_even(old(self).curr as int) + 1,
    {
        let start = self.curr;
        loop
            invariant
                start == old(self).curr,
                start < u32::MAX,
                self.curr == start || (start % 2 == 1 && self.curr == start + 1),
            decreases start + 2 - self.curr,
        {
            let i = self.curr;
            self.curr = self.curr + 1;
            if i % 2 == 0 {
                return Some(i);
            }
        }
    }
}

/// Even numbers from zero on.
pub fn even_number_0() -> (r: EvenNumber)
    ensures
        r.curr == 0,
{
    EvenNumber { curr: 0 }
}

/// Even numbers from `start` on, or from zero where none is given.
pub fn even_number(start: Option<u32>) -> (r: EvenNumber)
    ensures
        r.curr == match start {
            Some(x) => x,
            None => 0,
        },
{
    match start {
        Some(x) => EvenNumber { curr: x },
        None => EvenNumber { curr: 0 },
    }
}

} // verus!
