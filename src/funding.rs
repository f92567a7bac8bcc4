//! Funding a wallet by mining: after an initial batch of blocks, one more
//! block at a time until the reported balance reaches a threshold, with a
//! cap on the number of extra blocks.

use vstd::prelude::*;

verus! {

/// Blocks mined first, so that the earliest block reward matures.
pub const INITIAL_MINING_BLOCKS: u64 = 101;

/// The balance the sender needs, in base units (20 coins).
pub const REQUIRED_BALANCE_UNITS: u64 = 2_000_000_000;

/// The most blocks mined one at a time before funding gives up.
pub const MAX_EXTRA_BLOCKS: u64 = 1000;

/// What to do after reading the balance.
#[derive(Clone, Copy, Debug, PartialEq, Eq, Structural)]
pub enum FundingAction {
    /// Mine one more block to the funding address, then read the balance again.
    MineOne,
    /// The balance has reached the threshold.
    Funded,
    /// The cap on extra blocks was reached below the threshold.
    GiveUp,
}

/// The state of the funding loop.
#[derive(Clone, Copy, Debug, PartialEq, Eq, Structural)]
pub struct FundingPlan {
    /// The balance to reach, in base units.
    pub threshold: u64,
    /// The most extra blocks to mine.
    pub cap: u64,
    /// The extra blocks mined so far.
    pub mined: u64,
}

/// The decision for a balance read after `mined` extra blocks.
pub open spec fn decide(threshold: int, cap: int, mined: int, balance: int) -> FundingAction {
    if balance >= threshold {
        FundingAction::Funded
    } else if mined < cap {
        FundingAction::MineOne
    } else {
        FundingAction::GiveUp
    }
}

impl FundingPlan {
    pub open spec fn wf(self) -> bool {
        self.mined <= self.cap
    }

    /// A plan for `threshold` base units with at most `cap` extra blocks.
    pub fn new(threshold: u64, cap: u64) -> (r: FundingPlan)
        ensures
            r.threshold == threshold,
            r.cap == cap,
            r.mined == 0,
            r.wf(),
    {
        FundingPlan { threshold, cap, mined: 0 }
    }

    /// The plan of this program: the required balance and the cap above.
    pub fn standard() -> (r: FundingPlan)
        ensures
            r.threshold == REQUIRED_BALANCE_UNITS,
            r.cap == MAX_EXTRA_BLOCKS,
            r.mined == 0,
    {
        FundingPlan::new(REQUIRED_BALANCE_UNITS, MAX_EXTRA_BLOCKS)
    }

    /// Takes the balance just read and says what to do; counts the block
    /// when it asks for one.
    pub fn next_action(&mut self, balance: u64) -> (r: FundingAction)
        requires
            old(self).wf(),
        ensures
            r == decide(
                old(self).threshold as int,
                old(self).cap as int,
                old(self).mined as int,
                balance as int,
            ),
            final(self).threshold == old(self).threshold,
            final(self).cap == old(self).cap,
            final(self).mined == if r == FundingAction::MineOne {
                old(self).mined + 1
            } else {
                old(self).mined as int
            },
            final(self).wf(),
    {
        if balance >= self.threshold {
            FundingAction::Funded
        } else if self.mined < self.cap {
            self.mined = self.mined + 1;
            FundingAction::MineOne
        } else {
            FundingAction::GiveUp
        }
    }
}

/// Runs the loop on the balances `balance(0), balance(1), ...` read after
/// 0, 1, ... extra blocks, from `mined` on: how many extra blocks were mined
/// when it stopped, and whether it stopped funded.
pub open spec fn funding_run(
    threshold: int,
    cap: int,
    balance: spec_fn(nat) -> int,
    mined: nat,
) -> (nat, bool)
    decreases cap - mined,
{
    if decide(threshold, cap, mined as int, balance(mined)) == FundingAction::MineOne {
        funding_run(threshold, cap, balance, mined + 1)
    } else {
        (mined, decide(threshold, cap, mined as int, balance(mined)) == FundingAction::Funded)
    }
}

proof fn lemma_run_from(
    threshold: int,
    cap: int,
    balance: spec_fn(nat) -> int,
    reward: int,
    mined: nat,
)
    requires
        reward > 0,
        forall|k: nat| #[trigger] balance(k + 1) >= balance(k) + reward,
        mined <= cap,
        balance(mined) + (cap - mined) * reward >= threshold,
    ensures
        funding_run(threshold, cap, balance, mined).1,
        balance(funding_run(threshold, cap, balance, mined).0) >= threshold,
        funding_run(threshold, cap, balance, mined).0 <= cap,
    decreases cap - mined,
{
    if balance(mined) < threshold {
        assert(mined < cap) by (nonlinear_arith)
            requires
                balance(mined) < threshold,
                balance(mined) + (cap - mined) * reward >= threshold,
                mined <= cap,
        ;
        assert(balance((mined + 1) as nat) >= balance(mined) + reward);
        assert(balance((mined + 1) as nat) + (cap - (mined + 1)) * reward >= threshold) by (
        nonlinear_arith)
            requires
                balance((mined + 1) as nat) >= balance(mined) + reward,
                balance(mined) + (cap - mined) * reward >= threshold,
        ;
        lemma_run_from(threshold, cap, balance, reward, mined + 1);
    }
}

/// Where each block mined raises the balance by at least `reward > 0`, and
/// the cap leaves room for enough blocks to cover the shortfall, the loop
/// stops funded, with a balance at or above the threshold, after at most
/// `cap` extra blocks.
pub proof fn lemma_funding_terminates_funded(
    threshold: int,
    cap: int,
    balance: spec_fn(nat) -> int,
    reward: int,
)
    requires
        reward > 0,
        cap >= 0,
        forall|k: nat| #[trigger] balance(k + 1) >= balance(k) + reward,
        balance(0) + cap * reward >= threshold,
    ensures
        funding_run(threshold, cap, balance, 0).1,
        balance(funding_run(threshold, cap, balance, 0).0) >= threshold,
        funding_run(threshold, cap, balance, 0).0 <= cap,
{
    lemma_run_from(threshold, cap, balance, reward, 0);
}

} // verus!
