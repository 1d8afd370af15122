use crate::address::Address;
use crate::word::{modulus, U256};
use vstd::prelude::*;

verus! {

/// One line of a ledger: the word kept for one identity.
#[derive(Clone, Copy, Debug)]
struct Entry {
    key: Address,
    value: U256,
}

/// The amount that a list of lines gives for `who`: that of the first line
/// with this identity, and zero where there is none.
spec fn amount_in(lines: Seq<Entry>, who: Address) -> nat
    decreases lines.len(),
{
    if lines.len() == 0 {
        0
    } else if lines[0].key == who {
        lines[0].value@
    } else {
        amount_in(lines.subrange(1, lines.len() as int), who)
    }
}

/// A mapping from identities to 256-bit words in which every identity has a
/// word: zero until one is set.
#[derive(Debug)]
pub struct Ledger {
    entries: Vec<Entry>,
}

impl View for Ledger {
    type V = Map<Address, nat>;

    /// The amount of every identity.
    closed spec fn view(&self) -> Map<Address, nat> {
        Map::total(|who: Address| amount_in(self.entries@, who))
    }
}

/// Without a line for `who` among the first `upto`, the amount is decided by
/// the lines from `upto` on.
proof fn lemma_skip_prefix(lines: Seq<Entry>, who: Address, upto: int)
    requires
        0 <= upto <= lines.len(),
        forall|j: int| 0 <= j < upto ==> lines[j].key != who,
    ensures
        amount_in(lines, who) == amount_in(lines.subrange(upto, lines.len() as int), who),
    decreases upto,
{
    if upto == 0 {
        assert(lines.subrange(0, lines.len() as int) =~= lines);
    } else {
        let rest = lines.subrange(1, lines.len() as int);
        lemma_skip_prefix(rest, who, upto - 1);
        assert(rest.subrange(upto - 1, rest.len() as int) =~= lines.subrange(
            upto,
            lines.len() as int,
        ));
    }
}

/// Replacing the word of a line changes the amount of that line's identity
/// only, and only if no earlier line has the same identity.
proof fn lemma_update_line(lines: Seq<Entry>, at: int, value: U256, who: Address)
    requires
        0 <= at < lines.len(),
        forall|j: int| 0 <= j < at ==> lines[j].key != lines[at].key,
    ensures
        amount_in(lines.update(at, Entry { key: lines[at].key, value }), who) == if who
            == lines[at].key {
            value@
        } else {
            amount_in(lines, who)
        },
    decreases at,
{
    let changed = lines.update(at, Entry { key: lines[at].key, value });
    if at > 0 {
        let rest = lines.subrange(1, lines.len() as int);
        lemma_update_line(rest, at - 1, value, who);
        assert(changed.subrange(1, changed.len() as int) =~= rest.update(
            at - 1,
            Entry { key: rest[at - 1].key, value },
        ));
    } else {
        assert(changed.subrange(1, changed.len() as int) =~= lines.subrange(
            1,
            lines.len() as int,
        ));
    }
}

/// A new last line for an identity that has none yet sets the amount of that
/// identity and of no other.
proof fn lemma_push_line(lines: Seq<Entry>, line: Entry, who: Address)
    requires
        forall|j: int| 0 <= j < lines.len() ==> lines[j].key != line.key,
    ensures
        amount_in(lines.push(line), who) == if who == line.key {
            line.value@
        } else {
            amount_in(lines, who)
        },
    decreases lines.len(),
{
    let longer = lines.push(line);
    if lines.len() == 0 {
        assert(longer.subrange(1, longer.len() as int) =~= lines);
        assert(longer[0] == line);
    } else {
        let rest = lines.subrange(1, lines.len() as int);
        lemma_push_line(rest, line, who);
        assert(longer.subrange(1, longer.len() as int) =~= rest.push(line));
        assert(longer[0] == lines[0]);
    }
}

/// Every amount that a list of lines gives is that of a word: below 2^256.
proof fn lemma_amount_in_range(lines: Seq<Entry>, who: Address)
    ensures
        amount_in(lines, who) < modulus(),
    decreases lines.len(),
{
    if lines.len() > 0 {
        lines[0].value.lemma_in_range();
        lemma_amount_in_range(lines.subrange(1, lines.len() as int), who);
    }
}

impl Ledger {
    /// The amount of `who`.
    pub open spec fn amount(&self, who: Address) -> nat {
        self@[who]
    }

    /// Every identity has an amount, and every amount is that of a word:
    /// below 2^256.
    pub proof fn lemma_amounts_are_words(&self)
        ensures
            forall|who: Address| #[trigger] self@.dom().contains(who),
            forall|who: Address| #[trigger] self.amount(who) < modulus(),
    {
        assert forall|who: Address| #[trigger] self.amount(who) < modulus() by {
            lemma_amount_in_range(self.entries@, who);
        }
    }

    /// The ledger of fresh storage: every amount is zero.
    pub fn new() -> (r: Ledger)
        ensures
            r@ == Map::total(|who: Address| 0nat),
    {
        let r = Ledger { entries: Vec::new() };
        assert(r@ =~= Map::total(|who: Address| 0nat));
        r
    }

    /// The word of `who`: zero if none was set.
    pub fn get(&self, who: Address) -> (r: U256)
        ensures
            r@ == self.amount(who),
    {
        let mut i: usize = 0;
        while i < self.entries.len()
            invariant
                i <= self.entries.len(),
                forall|j: int| 0 <= j < i ==> self.entries[j].key != who,
            decreases self.entries.len() - i,
        {
            if self.entries[i].key == who {
                proof {
                    lemma_skip_prefix(self.entries@, who, i as int);
                }
                return self.entries[i].value;
            }
            i += 1;
        }
        proof {
            lemma_skip_prefix(self.entries@, who, i as int);
        }
        U256::zero()
    }

    /// Sets the word of `who` and leaves every other identity's word as it
    /// is.
    pub fn set(&mut self, who: Address, value: U256)
        ensures
            final(self)@ == old(self)@.insert(who, value@),
    {
        let mut i: usize = 0;
        while i < self.entries.len()
            invariant
                i <= self.entries.len(),
                forall|j: int| 0 <= j < i ==> self.entries[j].key != who,
                *self == *old(self),
            decreases self.entries.len() - i,
        {
            if self.entries[i].key == who {
                proof {
                    assert forall|other: Address|
                        amount_in(
                            self.entries@.update(i as int, Entry { key: who, value }),
                            other,
                        ) == if other == who {
                            value@
                        } else {
                            amount_in(self.entries@, other)
                        } by {
                        lemma_update_line(self.entries@, i as int, value, other);
                    }
                }
                self.entries[i] = Entry { key: who, value };
                assert(self@ =~= old(self)@.insert(who, value@));
                return ;
            }
            i += 1;
        }
        let line = Entry { key: who, value };
        proof {
            assert forall|other: Address|
                amount_in(self.entries@.push(line), other) == if other == who {
                    value@
                } else {
                    amount_in(self.entries@, other)
                } by {
                lemma_push_line(self.entries@, line, other);
            }
        }
        self.entries.push(line);
        assert(self@ =~= old(self)@.insert(who, value@));
    }
}

} // verus!
