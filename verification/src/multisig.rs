use crate::address::Address;
use crate::word::{modulus, word_add, wrap_sum, U256};
use vstd::prelude::*;

verus! {

/// Which guard of `execute` was not met.
#[derive(Clone, Copy, Debug, PartialEq, Eq, Structural)]
pub enum Precondition {
    /// At least one of the two approvals is missing.
    NeedBothApprovals,
    /// Both approvals are there, but the proposal was executed before.
    AlreadyExecuted,
}

/// Why a call was refused. A refused call changes nothing.
#[derive(Clone, Copy, Debug, PartialEq, Eq, Structural)]
pub enum MultiSigError {
    /// The caller is neither of the two owners.
    Unauthorized,
    /// `execute` was called on a proposal that cannot be executed.
    PreconditionFailed(Precondition),
}

impl MultiSigError {
    /// The text that goes with each refusal.
    pub open spec fn message_text(self) -> Seq<char> {
        match self {
            MultiSigError::Unauthorized => "Not an owner"@,
            MultiSigError::PreconditionFailed(Precondition::NeedBothApprovals) => "Need both approvals"@,
            MultiSigError::PreconditionFailed(Precondition::AlreadyExecuted) => "Already executed"@,
        }
    }

    /// A short text for the refusal, one per case.
    pub fn message(&self) -> (r: &'static str)
        ensures
            r@ == self.message_text(),
    {
        match self {
            MultiSigError::Unauthorized => "Not an owner",
            MultiSigError::PreconditionFailed(Precondition::NeedBothApprovals) => "Need both approvals",
            MultiSigError::PreconditionFailed(Precondition::AlreadyExecuted) => "Already executed",
        }
    }
}

/// Where the current proposal stands. A state in which nothing was proposed
/// yet cannot be told from one in which zero was proposed: both are
/// `Proposed`.
#[derive(Clone, Copy, Debug, PartialEq, Eq, Structural)]
pub enum Phase {
    /// No approval yet, not executed.
    Proposed,
    /// Exactly one owner has approved.
    PartiallyApproved,
    /// Both owners have approved; `execute` will go through.
    FullyApproved,
    /// The proposal was executed.
    Executed,
}

/// The two-owner approval state: who the owners are, the value that is
/// proposed, who has approved it, whether it was executed, and how many
/// proposals were executed so far.
#[derive(Clone, Copy, Debug, PartialEq, Eq)]
pub struct MultiSig {
    pub owner_a: Address,
    pub owner_b: Address,
    pub proposal_value: U256,
    pub approved_a: bool,
    pub approved_b: bool,
    pub executed: bool,
    pub execution_count: U256,
}

/// The state as mathematics sees it: the two words are the numbers they
/// stand for.
pub struct MultiSigView {
    pub owner_a: Address,
    pub owner_b: Address,
    pub proposal_value: nat,
    pub approved_a: bool,
    pub approved_b: bool,
    pub executed: bool,
    pub execution_count: nat,
}

impl MultiSigView {
    /// The state of fresh storage: zero owners, zero value, nothing approved,
    /// nothing executed.
    pub open spec fn is_initial(self) -> bool {
        &&& self.owner_a.is_zero()
        &&& self.owner_b.is_zero()
        &&& self.proposal_value == 0
        &&& self.status() == (false, false, false)
        &&& self.execution_count == 0
    }

    /// Whether `who` is one of the two owners.
    pub open spec fn is_owner(self, who: Address) -> bool {
        who == self.owner_a || who == self.owner_b
    }

    /// The three flags: approved by the first owner, approved by the second,
    /// executed.
    pub open spec fn status(self) -> (bool, bool, bool) {
        (self.approved_a, self.approved_b, self.executed)
    }

    /// Where the current proposal stands.
    pub open spec fn phase(self) -> Phase {
        if self.executed {
            Phase::Executed
        } else if self.approved_a && self.approved_b {
            Phase::FullyApproved
        } else if self.approved_a || self.approved_b {
            Phase::PartiallyApproved
        } else {
            Phase::Proposed
        }
    }

    /// What holds of every state that the operations reach from fresh
    /// storage: nothing is executed without both approvals.
    pub open spec fn consistent(self) -> bool {
        self.executed ==> self.approved_a && self.approved_b
    }

    /// Sets the owners and leaves the rest as it is.
    pub open spec fn initialize(self, owner_a: Address, owner_b: Address) -> MultiSigView {
        MultiSigView { owner_a, owner_b, ..self }
    }

    /// An owner puts a new value up: both approvals and the executed flag are
    /// cleared, whatever they were. Anyone else is refused.
    pub open spec fn propose(self, caller: Address, value: nat) -> Result<
        MultiSigView,
        MultiSigError,
    > {
        if self.is_owner(caller) {
            Ok(
                MultiSigView {
                    proposal_value: value,
                    approved_a: false,
                    approved_b: false,
                    executed: false,
                    ..self
                },
            )
        } else {
            Err(MultiSigError::Unauthorized)
        }
    }

    /// An owner approves: the first owner sets the first flag, the second
    /// owner (if it is another identity) the second. Anyone else is refused.
    pub open spec fn approve(self, caller: Address) -> Result<MultiSigView, MultiSigError> {
        if caller == self.owner_a {
            Ok(MultiSigView { approved_a: true, ..self })
        } else if caller == self.owner_b {
            Ok(MultiSigView { approved_b: true, ..self })
        } else {
            Err(MultiSigError::Unauthorized)
        }
    }

    /// Executes the proposal if both owners approved it and it was not
    /// executed before: the result is the next state and the proposed value.
    /// The counter goes up by one, wrapping at 2^256.
    pub open spec fn execute(self) -> Result<(MultiSigView, nat), MultiSigError> {
        if !(self.approved_a && self.approved_b) {
            Err(MultiSigError::PreconditionFailed(Precondition::NeedBothApprovals))
        } else if self.executed {
            Err(MultiSigError::PreconditionFailed(Precondition::AlreadyExecuted))
        } else {
            Ok(
                (
                    MultiSigView {
                        executed: true,
                        execution_count: wrap_sum(self.execution_count, 1),
                        ..self
                    },
                    self.proposal_value,
                ),
            )
        }
    }
}

impl View for MultiSig {
    type V = MultiSigView;

    open spec fn view(&self) -> MultiSigView {
        MultiSigView {
            owner_a: self.owner_a,
            owner_b: self.owner_b,
            proposal_value: self.proposal_value@,
            approved_a: self.approved_a,
            approved_b: self.approved_b,
            executed: self.executed,
            execution_count: self.execution_count@,
        }
    }
}

impl MultiSig {
    /// The state of fresh storage.
    pub fn new() -> (r: MultiSig)
        ensures
            r@.is_initial(),
    {
        MultiSig {
            owner_a: Address::zero(),
            owner_b: Address::zero(),
            proposal_value: U256::zero(),
            approved_a: false,
            approved_b: false,
            executed: false,
            execution_count: U256::zero(),
        }
    }

    /// Sets the two owners. Nothing guards this: a second call replaces the
    /// owners and leaves the proposal, the flags and the counter as they are.
    pub fn initialize(&mut self, owner_a: Address, owner_b: Address)
        ensures
            final(self)@ == old(self)@.initialize(owner_a, owner_b),
    {
        self.owner_a = owner_a;
        self.owner_b = owner_b;
    }

    /// Puts `value` up for approval on behalf of `caller`.
    ///
    /// For an owner this replaces the proposal, whatever state it was in, and
    /// clears both approvals and the executed flag. For anyone else it
    /// returns `Unauthorized` and changes nothing.
    pub fn propose(&mut self, caller: Address, value: U256) -> (r: Result<(), MultiSigError>)
        ensures
            match old(self)@.propose(caller, value@) {
                Ok(next) => r is Ok && final(self)@ == next && final(self).proposal_value == value,
                Err(e) => r == Err::<(), MultiSigError>(e) && *final(self) == *old(self),
            },
    {
        if !(caller == self.owner_a || caller == self.owner_b) {
            return Err(MultiSigError::Unauthorized);
        }
        self.proposal_value = value;
        self.approved_a = false;
        self.approved_b = false;
        self.executed = false;
        Ok(())
    }

    /// Records the approval of `caller` for the current proposal.
    ///
    /// The first owner sets the first flag, the second owner the second; a
    /// flag that is set stays set. Anyone else gets `Unauthorized`, and
    /// nothing changes.
    pub fn approve(&mut self, caller: Address) -> (r: Result<(), MultiSigError>)
        ensures
            match old(self)@.approve(caller) {
                Ok(next) => r is Ok && final(self)@ == next,
                Err(e) => r == Err::<(), MultiSigError>(e) && *final(self) == *old(self),
            },
    {
        if caller == self.owner_a {
            self.approved_a = true;
            Ok(())
        } else if caller == self.owner_b {
            self.approved_b = true;
            Ok(())
        } else {
            Err(MultiSigError::Unauthorized)
        }
    }

    /// Executes the current proposal and returns its value.
    ///
    /// This goes through exactly when both owners have approved and the
    /// proposal was not executed before; then the executed flag is set and
    /// the counter goes up by one. Otherwise the call is refused with the
    /// guard that failed, the missing approval first, and nothing changes.
    pub fn execute(&mut self) -> (r: Result<U256, MultiSigError>)
        ensures
            match old(self)@.execute() {
                Ok((next, value)) => r == Ok::<U256, MultiSigError>(old(self).proposal_value)
                    && value == old(self).proposal_value@ && final(self)@ == next,
                Err(e) => r == Err::<U256, MultiSigError>(e) && *final(self) == *old(self),
            },
    {
        if !(self.approved_a && self.approved_b) {
            return Err(MultiSigError::PreconditionFailed(Precondition::NeedBothApprovals));
        }
        if self.executed {
            return Err(MultiSigError::PreconditionFailed(Precondition::AlreadyExecuted));
        }
        self.executed = true;
        self.execution_count = word_add(self.execution_count, U256::from_u64(1));
        Ok(self.proposal_value)
    }

    /// The three flags: approved by the first owner, approved by the second,
    /// executed.
    pub fn get_status(&self) -> (r: (bool, bool, bool))
        ensures
            r == self@.status(),
    {
        (self.approved_a, self.approved_b, self.executed)
    }

    /// Where the current proposal stands.
    pub fn phase(&self) -> (r: Phase)
        ensures
            r == self@.phase(),
    {
        if self.executed {
            Phase::Executed
        } else if self.approved_a && self.approved_b {
            Phase::FullyApproved
        } else if self.approved_a || self.approved_b {
            Phase::PartiallyApproved
        } else {
            Phase::Proposed
        }
    }

    /// How many proposals were executed so far.
    pub fn get_execution_count(&self) -> (r: U256)
        ensures
            r == self.execution_count,
    {
        self.execution_count
    }
}

/// The view loses nothing: two states with the same view are the same state.
pub proof fn lemma_view_determines_state(a: MultiSig, b: MultiSig)
    requires
        a@ == b@,
    ensures
        a == b,
{
    a.proposal_value.lemma_view_injective(b.proposal_value);
    a.execution_count.lemma_view_injective(b.execution_count);
}

/// Someone who is neither owner cannot approve: once the owners are set, an
/// approval from any other identity is refused as `Unauthorized`, whatever
/// the rest of the state holds.
pub proof fn lemma_outsider_cannot_approve(
    s: MultiSigView,
    owner_a: Address,
    owner_b: Address,
    outsider: Address,
)
    requires
        outsider != owner_a,
        outsider != owner_b,
    ensures
        s.initialize(owner_a, owner_b).approve(outsider) == Err::<MultiSigView, MultiSigError>(
            MultiSigError::Unauthorized,
        ),
{
}

/// No operation touches the owners: after `propose`, `approve` or `execute`
/// the same two identities are the owners, so whoever is refused once is
/// refused until `initialize` is called again.
pub proof fn lemma_owners_stay(s: MultiSigView, caller: Address, value: nat)
    ensures
        s.propose(caller, value) matches Ok(next) ==> next.owner_a == s.owner_a && next.owner_b
            == s.owner_b,
        s.approve(caller) matches Ok(next) ==> next.owner_a == s.owner_a && next.owner_b
            == s.owner_b,
        s.execute() matches Ok((next, _)) ==> next.owner_a == s.owner_a && next.owner_b
            == s.owner_b,
{
}

/// Right after an owner proposes a value, the status is
/// `(false, false, false)` and the value is the one proposed, whatever the
/// state was before.
pub proof fn lemma_propose_clears_status(s: MultiSigView, caller: Address, value: nat)
    requires
        s.is_owner(caller),
    ensures
        s.propose(caller, value) matches Ok(next) && next.status() == (false, false, false)
            && next.proposal_value == value && next.phase() == Phase::Proposed,
{
}

/// A proposal that both owners approve executes once: `execute` returns the
/// proposed value and the counter goes up by exactly one, and a second
/// `execute` is refused as already executed.
///
/// The two owners have to be two identities (one identity only ever sets the
/// first flag), and the counter has to be below its largest value (there it
/// wraps to zero).
pub proof fn lemma_approved_proposal_executes_once(s: MultiSigView, proposer: Address, value: nat)
    requires
        s.is_owner(proposer),
        s.owner_a != s.owner_b,
        s.execution_count + 1 < modulus(),
    ensures
        s.propose(proposer, value) matches Ok(proposed) && proposed.approve(s.owner_a) matches Ok(
            half,
        ) && half.approve(s.owner_b) matches Ok(full) && full.execute() matches Ok((done, out))
            && out == value && done.execution_count == s.execution_count + 1 && done.execute()
            == Err::<(MultiSigView, nat), MultiSigError>(
            MultiSigError::PreconditionFailed(Precondition::AlreadyExecuted),
        ),
{
    let proposed = s.propose(proposer, value)->Ok_0;
    let half = proposed.approve(s.owner_a)->Ok_0;
    let full = half.approve(s.owner_b)->Ok_0;
    assert(full.execute() is Ok);
}

/// Approving twice is approving once: a second approval by the same caller,
/// with nothing in between, leaves the state as the first one left it.
pub proof fn lemma_approve_idempotent(s: MultiSigView, caller: Address)
    ensures
        s.approve(caller) matches Ok(once) ==> once.approve(caller) == Ok::<
            MultiSigView,
            MultiSigError,
        >(once),
{
}

/// A new proposal cancels the old one. After `propose`, approval by both
/// owners and a second `propose`, the status is `(false, false, false)`
/// again and `execute` is refused for want of approvals.
pub proof fn lemma_repropose_discards_approvals(
    s: MultiSigView,
    first: Address,
    value1: nat,
    second: Address,
    value2: nat,
)
    requires
        s.is_owner(first),
        s.is_owner(second),
    ensures
        s.propose(first, value1) matches Ok(proposed) && proposed.approve(s.owner_a) matches Ok(
            half,
        ) && half.approve(s.owner_b) matches Ok(full) && full.propose(second, value2) matches Ok(
            again,
        ) && again.status() == (false, false, false) && again.proposal_value == value2
            && again.execute() == Err::<(MultiSigView, nat), MultiSigError>(
            MultiSigError::PreconditionFailed(Precondition::NeedBothApprovals),
        ),
{
}

/// `execute` goes through in exactly one phase: when both owners have
/// approved and the proposal was not executed.
pub proof fn lemma_execute_needs_full_approval(s: MultiSigView)
    ensures
        s.execute() is Ok <==> s.phase() == Phase::FullyApproved,
        s.execute() matches Ok((next, _)) ==> next.phase() == Phase::Executed,
{
}

/// Nothing is ever executed without both approvals: fresh storage is
/// consistent, and every operation keeps a consistent state consistent.
pub proof fn lemma_consistency_kept(
    s: MultiSigView,
    caller: Address,
    value: nat,
    owner_a: Address,
    owner_b: Address,
)
    ensures
        s.is_initial() ==> s.consistent(),
        s.consistent() ==> s.initialize(owner_a, owner_b).consistent(),
        s.propose(caller, value) matches Ok(next) ==> next.consistent(),
        s.consistent() ==> (s.approve(caller) matches Ok(next) ==> next.consistent()),
        s.execute() matches Ok((next, _)) ==> next.consistent(),
{
}

/// The counter counts executions and nothing else: `initialize`, `propose`
/// and `approve` leave it alone, and a refused call changes nothing at all.
pub proof fn lemma_counter_moves_only_on_execute(
    s: MultiSigView,
    caller: Address,
    value: nat,
    owner_a: Address,
    owner_b: Address,
)
    ensures
        s.initialize(owner_a, owner_b).execution_count == s.execution_count,
        s.propose(caller, value) matches Ok(next) ==> next.execution_count == s.execution_count,
        s.approve(caller) matches Ok(next) ==> next.execution_count == s.execution_count,
        s.execute() matches Ok((next, _)) ==> next.execution_count == wrap_sum(
            s.execution_count,
            1,
        ),
{
}

} // verus!
