use vstd::prelude::*;

verus! {

/// The weight of one limb: 2^64.
pub open spec fn limb_base() -> int {
    0x1_0000_0000_0000_0000
}

/// The number of values a 256-bit word can take: 2^256.
pub open spec fn modulus() -> nat {
    0x1_0000_0000_0000_0000_0000_0000_0000_0000_0000_0000_0000_0000_0000_0000_0000_0000nat
}

/// The limb weight is one more than the largest limb, and 2^256 is its fourth
/// power: four limbs make one word.
pub proof fn lemma_modulus_is_four_limbs()
    ensures
        limb_base() == u64::MAX + 1,
        modulus() == limb_base() * limb_base() * limb_base() * limb_base(),
{
    assert(limb_base() * limb_base() == 0x1_0000_0000_0000_0000_0000_0000_0000_0000int);
    assert(limb_base() * limb_base() * limb_base()
        == 0x1_0000_0000_0000_0000_0000_0000_0000_0000_0000_0000_0000_0000int);
}

/// The sum of two numbers as a 256-bit word holds it: reduced modulo 2^256.
pub open spec fn wrap_sum(a: nat, b: nat) -> nat {
    (a + b) % modulus()
}

/// The difference of two numbers as a 256-bit word holds it: reduced modulo
/// 2^256, so that `wrap_diff(0, 1)` is the largest word.
pub open spec fn wrap_diff(a: nat, b: nat) -> nat {
    ((a - b) % (modulus() as int)) as nat
}

/// A sum that stays below 2^256 is not reduced.
pub proof fn lemma_wrap_sum_exact(a: nat, b: nat)
    requires
        a + b < modulus(),
    ensures
        wrap_sum(a, b) == a + b,
{
}

/// A difference that does not go below zero is not reduced.
pub proof fn lemma_wrap_diff_exact(a: nat, b: nat)
    requires
        b <= a < modulus(),
    ensures
        wrap_diff(a, b) == a - b,
{
}

/// The number that four limbs stand for, least significant limb first.
pub open spec fn limbs_value(limbs: Seq<u64>) -> nat {
    (limbs[0] + limb_base() * (limbs[1] + limb_base() * (limbs[2] + limb_base() * limbs[3]))) as nat
}

/// An unsigned 256-bit word, held as four 64-bit limbs, least significant
/// first. Every choice of limbs is a word; its view is the number it stands
/// for.
#[derive(Clone, Copy, Debug, PartialEq, Eq, Hash)]
pub struct U256 {
    pub limbs: [u64; 4],
}

impl View for U256 {
    type V = nat;

    open spec fn view(&self) -> nat {
        limbs_value(self.limbs@)
    }
}

impl U256 {
    /// The word zero.
    pub fn zero() -> (r: U256)
        ensures
            r@ == 0,
    {
        U256 { limbs: [0, 0, 0, 0] }
    }

    /// The word that stands for `n`.
    pub fn from_u64(n: u64) -> (r: U256)
        ensures
            r@ == n,
    {
        U256 { limbs: [n, 0, 0, 0] }
    }

    /// The word with the given limbs, least significant first.
    pub fn from_limbs(limbs: [u64; 4]) -> (r: U256)
        ensures
            r.limbs == limbs,
            r@ == limbs_value(limbs@),
    {
        U256 { limbs }
    }

    /// The limbs of the word, least significant first.
    pub fn into_limbs(self) -> (r: [u64; 4])
        ensures
            r == self.limbs,
            limbs_value(r@) == self@,
    {
        self.limbs
    }

    /// Every word stands for a number below 2^256.
    pub proof fn lemma_in_range(self)
        ensures
            self@ < modulus(),
    {
    }

    /// The word whose four limbs are all full is the largest: it stands for
    /// 2^256 - 1, so the bound of `lemma_in_range` is met.
    pub proof fn lemma_largest_word(self)
        requires
            forall|i: int| 0 <= i < 4 ==> self.limbs[i] == u64::MAX,
        ensures
            self@ == modulus() - 1,
    {
        assert(self.limbs[0] == u64::MAX && self.limbs[1] == u64::MAX && self.limbs[2] == u64::MAX
            && self.limbs[3] == u64::MAX);
    }

    /// Two words that stand for the same number are the same word.
    pub proof fn lemma_view_injective(self, other: U256)
        requires
            self@ == other@,
        ensures
            self == other,
    {
        assert(self.limbs =~= other.limbs);
    }
}

/// Adds two words with `Add::add` of `stylus_sdk::alloy_primitives::U256`
/// (ruint's `Uint<256, 4>`), whose operators use wrapping arithmetic: the
/// result stands for the sum modulo 2^256. The limbs go in through
/// `Uint::from_limbs` and come out through `Uint::into_limbs`, both least
/// significant limb first; with four full limbs `from_limbs` refuses none.
#[verifier::external_body]
pub(crate) fn word_add(a: U256, b: U256) -> (r: U256)
    ensures
        r@ == wrap_sum(a@, b@),
{
    let x = stylus_sdk::alloy_primitives::U256::from_limbs(a.limbs);
    let y = stylus_sdk::alloy_primitives::U256::from_limbs(b.limbs);
    U256 { limbs: (x + y).into_limbs() }
}

/// Subtracts two words with `Sub::sub` of
/// `stylus_sdk::alloy_primitives::U256` (ruint's `Uint<256, 4>`), whose
/// operators use wrapping arithmetic: the result stands for the difference
/// modulo 2^256.
#[verifier::external_body]
pub(crate) fn word_sub(a: U256, b: U256) -> (r: U256)
    ensures
        r@ == wrap_diff(a@, b@),
{
    let x = stylus_sdk::alloy_primitives::U256::from_limbs(a.limbs);
    let y = stylus_sdk::alloy_primitives::U256::from_limbs(b.limbs);
    U256 { limbs: (x - y).into_limbs() }
}

/// Compares two words with `PartialOrd::lt` of
/// `stylus_sdk::alloy_primitives::U256` (ruint's `Uint<256, 4>`), which
/// compares the limbs from the most significant down: the order of the
/// numbers the words stand for.
#[verifier::external_body]
pub(crate) fn word_lt(a: U256, b: U256) -> (r: bool)
    ensures
        r == (a@ < b@),
{
    let x = stylus_sdk::alloy_primitives::U256::from_limbs(a.limbs);
    let y = stylus_sdk::alloy_primitives::U256::from_limbs(b.limbs);
    x < y
}

} // verus!
