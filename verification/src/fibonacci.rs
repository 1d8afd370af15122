use crate::word::{modulus, word_add, U256};
use vstd::arithmetic::div_mod::lemma_add_mod_noop;
use vstd::prelude::*;

verus! {

/// The Fibonacci numbers: 0, 1, and from there on the sum of the two before.
pub open spec fn fib_number(n: nat) -> nat
    decreases n,
{
    if n <= 1 {
        n
    } else {
        fib_number((n - 2) as nat) + fib_number((n - 1) as nat)
    }
}

/// What a 256-bit word holds of the `n`-th Fibonacci number: the number
/// modulo 2^256. Up to `n = 370` this is the number itself.
pub open spec fn fib_word(n: nat) -> nat {
    fib_number(n) % modulus()
}

/// Keeps the Fibonacci number that was computed last.
#[derive(Clone, Copy, Debug, PartialEq, Eq)]
pub struct Fibonacci {
    pub result: U256,
}

impl Fibonacci {
    /// The state of fresh storage: the result is zero.
    pub fn new() -> (r: Fibonacci)
        ensures
            r.result@ == 0,
    {
        Fibonacci { result: U256::zero() }
    }

    /// Computes the `n`-th Fibonacci number in 256-bit words, keeps it as
    /// the result and returns it.
    pub fn compute(&mut self, n: u32) -> (r: U256)
        ensures
            r@ == fib_word(n as nat),
            final(self).result == r,
    {
        let result = Self::fib(n);
        self.result = result;
        result
    }

    /// The result that was computed last.
    pub fn get_result(&self) -> (r: U256)
        ensures
            r == self.result,
    {
        self.result
    }

    /// Adds up from 0 and 1, one wrapping addition for each step.
    fn fib(n: u32) -> (r: U256)
        ensures
            r@ == fib_word(n as nat),
    {
        if n <= 1 {
            return U256::from_u64(n as u64);
        }
        let mut a = U256::zero();
        let mut b = U256::from_u64(1);
        let mut i: u32 = 1;
        while i < n
            invariant
                1 <= i <= n,
                a@ == fib_word((i - 1) as nat),
                b@ == fib_word(i as nat),
            decreases n - i,
        {
            proof {
                lemma_add_mod_noop(
                    fib_number((i - 1) as nat) as int,
                    fib_number(i as nat) as int,
                    modulus() as int,
                );
            }
            let temp = b;
            b = word_add(a, b);
            a = temp;
            i += 1;
        }
        b
    }

    /// The same as `compute`.
    pub fn benchmark(&mut self, n: u32) -> (r: U256)
        ensures
            r@ == fib_word(n as nat),
            final(self).result == r,
    {
        self.compute(n)
    }
}

} // verus!
