use crate::address::Address;
use crate::ledger::Ledger;
use crate::word::{lemma_wrap_diff_exact, lemma_wrap_sum_exact, word_add, word_lt, word_sub, wrap_sum, U256};
use vstd::prelude::*;

verus! {

/// The number of decimals that `initialize` sets.
pub const DECIMALS: u8 = 18;

/// A token: its name and symbol, the number of decimals, the supply, and
/// the balance of every identity.
#[derive(Debug)]
pub struct Erc20 {
    pub name: String,
    pub symbol: String,
    pub decimals: u8,
    pub total_supply: U256,
    pub balances: Ledger,
}

impl Erc20 {
    /// The balance of `who`.
    pub open spec fn balance(&self, who: Address) -> nat {
        self.balances.amount(who)
    }

    /// The token of fresh storage: no name, no symbol, no decimals, no
    /// supply, every balance zero.
    pub fn new() -> (r: Erc20)
        ensures
            r.name@ == Seq::<char>::empty(),
            r.symbol@ == Seq::<char>::empty(),
            r.decimals == 0,
            r.total_supply@ == 0,
            r.balances@ == Map::total(|who: Address| 0nat),
    {
        Erc20 {
            name: String::new(),
            symbol: String::new(),
            decimals: 0,
            total_supply: U256::zero(),
            balances: Ledger::new(),
        }
    }

    /// Names the token and sets its decimals to 18. The supply and the
    /// balances stay as they are.
    pub fn initialize(&mut self, name: String, symbol: String)
        ensures
            final(self).name@ == name@,
            final(self).symbol@ == symbol@,
            final(self).decimals == DECIMALS,
            final(self).total_supply == old(self).total_supply,
            final(self).balances == old(self).balances,
    {
        self.name = name;
        self.symbol = symbol;
        self.decimals = DECIMALS;
    }

    /// The name of the token.
    pub fn name(&self) -> (r: String)
        ensures
            r@ == self.name@,
    {
        self.name.clone()
    }

    /// The symbol of the token.
    pub fn symbol(&self) -> (r: String)
        ensures
            r@ == self.symbol@,
    {
        self.symbol.clone()
    }

    /// The supply of the token.
    pub fn total_supply(&self) -> (r: U256)
        ensures
            r == self.total_supply,
    {
        self.total_supply
    }

    /// The balance of `owner`: zero if it never received anything.
    pub fn balance_of(&self, owner: Address) -> (r: U256)
        ensures
            r@ == self.balance(owner),
    {
        self.balances.get(owner)
    }

    /// Creates `amount` new tokens for `caller`: its balance and the supply
    /// both go up by `amount`, each wrapping at 2^256.
    pub fn mint(&mut self, caller: Address, amount: U256)
        ensures
            final(self).balances@ == old(self).balances@.insert(
                caller,
                wrap_sum(old(self).balance(caller), amount@),
            ),
            final(self).total_supply@ == wrap_sum(old(self).total_supply@, amount@),
            final(self).name == old(self).name,
            final(self).symbol == old(self).symbol,
            final(self).decimals == old(self).decimals,
    {
        let balance = self.balances.get(caller);
        self.balances.set(caller, word_add(balance, amount));
        let supply = self.total_supply;
        self.total_supply = word_add(supply, amount);
    }

    /// Moves `amount` tokens from `caller` to `to`.
    ///
    /// Returns `false`, and changes nothing, exactly when `caller` has less
    /// than `amount`. Otherwise `caller` loses `amount` and `to` gains it
    /// (wrapping at 2^256); a transfer to oneself leaves every balance as
    /// it is. The supply never changes.
    pub fn transfer(&mut self, caller: Address, to: Address, amount: U256) -> (ok: bool)
        ensures
            ok == (old(self).balance(caller) >= amount@),
            !ok ==> final(self).balances@ == old(self).balances@,
            ok && caller != to ==> final(self).balances@ == old(self).balances@.insert(
                caller,
                (old(self).balance(caller) - amount@) as nat,
            ).insert(to, wrap_sum(old(self).balance(to), amount@)),
            ok && caller == to ==> final(self).balances@ == old(self).balances@,
            final(self).total_supply == old(self).total_supply,
            final(self).name == old(self).name,
            final(self).symbol == old(self).symbol,
            final(self).decimals == old(self).decimals,
    {
        let sender_bal = self.balances.get(caller);
        if word_lt(sender_bal, amount) {
            return false;
        }
        proof {
            self.balances.lemma_amounts_are_words();
            lemma_wrap_diff_exact(sender_bal@, amount@);
            lemma_wrap_sum_exact((sender_bal@ - amount@) as nat, amount@);
        }
        self.balances.set(caller, word_sub(sender_bal, amount));
        let to_bal = self.balances.get(to);
        self.balances.set(to, word_add(to_bal, amount));
        assert(caller == to ==> self.balances@ =~= old(self).balances@);
        true
    }
}

} // verus!
