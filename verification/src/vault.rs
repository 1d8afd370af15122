use crate::address::Address;
use crate::ledger::Ledger;
use crate::word::{word_add, word_sub, wrap_diff, wrap_sum, U256};
use vstd::prelude::*;

verus! {

/// A vault in which every identity keeps one word, with the total of all
/// words kept and the identity that owns the vault.
#[derive(Debug)]
pub struct Vault {
    pub balances: Ledger,
    pub total_stored: U256,
    pub owner: Address,
}

impl Vault {
    /// The total after `who` replaces the word it keeps by `value`: the old
    /// word is taken off and the new one put on, each step wrapping at
    /// 2^256.
    pub open spec fn total_after_store(&self, who: Address, value: nat) -> nat {
        wrap_sum(wrap_diff(self.total_stored@, self.balances.amount(who)), value)
    }

    /// The vault of fresh storage: nothing kept, total zero, owner zero.
    pub fn new() -> (r: Vault)
        ensures
            r.balances@ == Map::total(|who: Address| 0nat),
            r.total_stored@ == 0,
            r.owner.is_zero(),
    {
        Vault { balances: Ledger::new(), total_stored: U256::zero(), owner: Address::zero() }
    }

    /// Makes `caller` the owner of the vault.
    pub fn initialize(&mut self, caller: Address)
        ensures
            final(self).owner == caller,
            final(self).balances == old(self).balances,
            final(self).total_stored == old(self).total_stored,
    {
        self.owner = caller;
    }

    /// Keeps `value` for `caller` in place of what it kept before, and
    /// brings the total up to date.
    pub fn store(&mut self, caller: Address, value: U256)
        ensures
            final(self).balances@ == old(self).balances@.insert(caller, value@),
            final(self).total_stored@ == old(self).total_after_store(caller, value@),
            final(self).owner == old(self).owner,
    {
        let previous = self.balances.get(caller);
        self.balances.set(caller, value);
        let total = self.total_stored;
        self.total_stored = word_add(word_sub(total, previous), value);
    }

    /// The word that `caller` keeps: zero if it never stored one.
    pub fn retrieve(&self, caller: Address) -> (r: U256)
        ensures
            r@ == self.balances.amount(caller),
    {
        self.balances.get(caller)
    }

    /// The word that `user` keeps: zero if it never stored one.
    pub fn retrieve_for(&self, user: Address) -> (r: U256)
        ensures
            r@ == self.balances.amount(user),
    {
        self.balances.get(user)
    }

    /// The total of all words kept.
    pub fn get_total(&self) -> (r: U256)
        ensures
            r == self.total_stored,
    {
        self.total_stored
    }

    /// The identity that owns the vault.
    pub fn get_owner(&self) -> (r: Address)
        ensures
            r == self.owner,
    {
        self.owner
    }
}

} // verus!
