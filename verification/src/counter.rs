use crate::word::{lemma_wrap_diff_exact, modulus, word_add, word_lt, word_sub, wrap_sum, U256};
use vstd::prelude::*;

verus! {

/// A counter in one 256-bit word.
#[derive(Clone, Copy, Debug, PartialEq, Eq)]
pub struct Counter {
    pub count: U256,
}

impl View for Counter {
    type V = nat;

    /// The number the counter stands at.
    open spec fn view(&self) -> nat {
        self.count@
    }
}

impl Counter {
    /// The counter of fresh storage: zero.
    pub fn new() -> (r: Counter)
        ensures
            r@ == 0,
    {
        Counter { count: U256::zero() }
    }

    /// Counts one up. From the largest word the counter wraps to zero.
    pub fn increment(&mut self)
        ensures
            final(self)@ == wrap_sum(old(self)@, 1),
            old(self)@ + 1 < modulus() ==> final(self)@ == old(self)@ + 1,
            old(self)@ + 1 == modulus() ==> final(self)@ == 0,
    {
        let current = self.count;
        proof {
            current.lemma_in_range();
        }
        self.count = word_add(current, U256::from_u64(1));
    }

    /// The word the counter stands at.
    pub fn get_count(&self) -> (r: U256)
        ensures
            r == self.count,
    {
        self.count
    }

    /// Sets the counter to `value`.
    pub fn set_count(&mut self, value: U256)
        ensures
            final(self).count == value,
    {
        self.count = value;
    }

    /// Counts one down, and leaves a counter at zero where it is.
    pub fn decrement(&mut self)
        ensures
            old(self)@ > 0 ==> final(self)@ == old(self)@ - 1,
            old(self)@ == 0 ==> *final(self) == *old(self),
    {
        let current = self.count;
        if word_lt(U256::zero(), current) {
            proof {
                current.lemma_in_range();
                lemma_wrap_diff_exact(current@, 1);
            }
            self.count = word_sub(current, U256::from_u64(1));
        }
    }
}

} // verus!
