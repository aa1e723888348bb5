//! The bets a round holds, as a model: placing and withdrawing bets keeps
//! the pool equal to the stakes that are in the round.

use vstd::prelude::*;
use crate::instructions::place_bet::round_with_bet;
use crate::instructions::withdraw_bet::round_without_bet;
use crate::settlement::staked;
use crate::state::bet::Bet;
use crate::state::round::Round;

verus! {

/// A round together with the bets that are in it.
pub struct Ledger {
    pub round: Round,
    pub bets: Seq<Bet>,
}

/// What a bettor does to a round.
pub enum LedgerOp {
    /// Places the bet.
    Place { bet: Bet },
    /// Withdraws the bet at the given place among the bets of the round.
    Withdraw { index: int },
}

impl Ledger {
    /// Whether the pool is the sum of the stakes of the bets in the round,
    /// and the round counts those bets.
    pub open spec fn balanced(self) -> bool {
        self.round.total_pool == staked(self.bets) && self.round.total_bets == self.bets.len()
    }

    /// Whether the operation goes through: a placed bet must leave the
    /// totals within 64 bits, a withdrawn bet must be in the round.
    pub open spec fn admits(self, op: LedgerOp) -> bool {
        match op {
            LedgerOp::Place { bet } => self.round.total_pool + bet.amount <= u64::MAX
                && self.round.total_bets + 1 <= u64::MAX,
            LedgerOp::Withdraw { index } => 0 <= index < self.bets.len(),
        }
    }

    /// The ledger after an operation, with the round as the operation's
    /// handler leaves it.
    pub open spec fn apply(self, op: LedgerOp) -> Ledger {
        match op {
            LedgerOp::Place { bet } => Ledger {
                round: round_with_bet(self.round, bet.amount),
                bets: self.bets.push(bet),
            },
            LedgerOp::Withdraw { index } => Ledger {
                round: round_without_bet(self.round, self.bets[index].amount),
                bets: self.bets.remove(index),
            },
        }
    }

    /// Whether each operation of a sequence goes through in its turn.
    pub open spec fn admits_all(self, ops: Seq<LedgerOp>) -> bool
        decreases ops.len(),
    {
        if ops.len() == 0 {
            true
        } else {
            self.admits_all(ops.drop_last()) && self.run(ops.drop_last()).admits(ops.last())
        }
    }

    /// The ledger after a sequence of operations.
    pub open spec fn run(self, ops: Seq<LedgerOp>) -> Ledger
        decreases ops.len(),
    {
        if ops.len() == 0 {
            self
        } else {
            self.run(ops.drop_last()).apply(ops.last())
        }
    }
}

/// Taking a bet out of a batch takes its stake out of the batch's stakes.
pub proof fn lemma_staked_remove(bets: Seq<Bet>, index: int)
    requires
        0 <= index < bets.len(),
    ensures
        staked(bets.remove(index)) == staked(bets) - bets[index].amount,
    decreases bets.len(),
{
    if index < bets.len() - 1 {
        lemma_staked_remove(bets.drop_last(), index);
        assert(bets.remove(index).drop_last() =~= bets.drop_last().remove(index));
    }
}

/// One operation keeps a balanced ledger balanced.
pub proof fn lemma_apply_keeps_balance(ledger: Ledger, op: LedgerOp)
    requires
        ledger.balanced(),
        ledger.admits(op),
    ensures
        ledger.apply(op).balanced(),
{
    match op {
        LedgerOp::Place { bet } => {
            assert(ledger.bets.push(bet).drop_last() =~= ledger.bets);
        },
        LedgerOp::Withdraw { index } => {
            lemma_staked_remove(ledger.bets, index);
            crate::settlement::lemma_staked_grows(ledger.bets.remove(index), 0);
        },
    }
}

/// After any sequence of bets placed and withdrawn, the pool of the round is
/// the sum of the stakes of the bets that are in it.
pub proof fn lemma_pool_is_sum_of_stakes(ledger: Ledger, ops: Seq<LedgerOp>)
    requires
        ledger.balanced(),
        ledger.admits_all(ops),
    ensures
        ledger.run(ops).balanced(),
        ledger.run(ops).round.total_pool == staked(ledger.run(ops).bets),
    decreases ops.len(),
{
    if ops.len() > 0 {
        lemma_pool_is_sum_of_stakes(ledger, ops.drop_last());
        lemma_apply_keeps_balance(ledger.run(ops.drop_last()), ops.last());
    }
}

} // verus!
