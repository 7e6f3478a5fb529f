use anchor_lang::prelude::Pubkey;
use vstd::prelude::*;

use crate::errors::GreenmoveError;
use crate::usage::sum_of;

verus! {

/// A participant's point ledger: the current balance and every redemption
/// made from it, oldest first.
#[derive(Clone, Debug)]
pub struct UserReward {
    pub owner: Pubkey,
    pub total_reward_balance: u64,
    pub redemption_history: Vec<RedemptionRecord>,
    pub bump: u8,
}

/// One successful redemption.
#[derive(Clone, Copy, Debug, PartialEq, Eq, Structural)]
pub struct RedemptionRecord {
    pub timestamp: i64,
    pub amount: u64,
}

/// `post` is `pre` with `amount` points credited.
pub open spec fn credit_step(pre: UserReward, post: UserReward, amount: u64) -> bool {
    &&& post.owner == pre.owner
    &&& post.bump == pre.bump
    &&& post.total_reward_balance == pre.total_reward_balance + amount
    &&& post.redemption_history@ == pre.redemption_history@
}

/// `post` is `pre` after a successful redemption of `amount` points at `now`.
pub open spec fn redeem_step(pre: UserReward, post: UserReward, amount: u64, now: i64) -> bool {
    &&& post.owner == pre.owner
    &&& post.bump == pre.bump
    &&& 0 < amount <= pre.total_reward_balance
    &&& post.total_reward_balance == pre.total_reward_balance - amount
    &&& post.redemption_history@ == pre.redemption_history@.push(
        RedemptionRecord { timestamp: now, amount },
    )
}

/// The error a redemption request meets, if any.
pub open spec fn redeem_refusal(balance: u64, amount: u64) -> Option<GreenmoveError> {
    if amount == 0 {
        Some(GreenmoveError::InvalidAmount)
    } else if balance < amount {
        Some(GreenmoveError::InsufficientPoints)
    } else {
        None
    }
}

impl UserReward {
    /// Amounts of the redemptions, oldest first.
    pub open spec fn redeemed(&self) -> Seq<u64> {
        self.redemption_history@.map_values(|r: RedemptionRecord| r.amount)
    }

    /// A ledger with no points and no redemptions.
    pub fn new(owner: Pubkey, bump: u8) -> (r: UserReward)
        ensures
            r.owner == owner,
            r.bump == bump,
            r.total_reward_balance == 0,
            r.redemption_history@.len() == 0,
    {
        UserReward { owner, total_reward_balance: 0, redemption_history: Vec::new(), bump }
    }

    /// Adds `amount` points. Always succeeds; the balance must have room.
    pub fn credit(&mut self, amount: u64)
        requires
            old(self).total_reward_balance + amount <= u64::MAX,
        ensures
            credit_step(*old(self), *final(self), amount),
    {
        self.total_reward_balance = self.total_reward_balance + amount;
    }

    /// Takes `amount` points out of the balance and records the redemption at
    /// `now`. A zero amount is `InvalidAmount`; more than the balance is
    /// `InsufficientPoints`, and the ledger is then left as it was.
    pub fn redeem(&mut self, amount: u64, now: i64) -> (r: Result<(), GreenmoveError>)
        ensures
            r.is_ok() <==> redeem_refusal(old(self).total_reward_balance, amount).is_none(),
            r.is_ok() ==> redeem_step(*old(self), *final(self), amount, now),
            r matches Err(e) ==> Some(e) == redeem_refusal(old(self).total_reward_balance, amount)
                && *final(self) == *old(self),
    {
        if amount == 0 {
            return Err(GreenmoveError::InvalidAmount);
        }
        if self.total_reward_balance < amount {
            return Err(GreenmoveError::InsufficientPoints);
        }
        self.total_reward_balance = self.total_reward_balance - amount;
        self.redemption_history.push(RedemptionRecord { timestamp: now, amount });
        Ok(())
    }
}

/// One operation on a ledger: a credit (`.0` true) or a redemption request,
/// of `.1` points at time `.2`.
pub open spec fn ledger_step(pre: UserReward, post: UserReward, op: (bool, u64, i64)) -> bool {
    if op.0 {
        credit_step(pre, post, op.1)
    } else {
        redeem_step(pre, post, op.1, op.2) || post == pre
    }
}

/// Total of the credits among `ops`.
pub open spec fn credits_in(ops: Seq<(bool, u64, i64)>) -> int
    decreases ops.len(),
{
    if ops.len() == 0 {
        0
    } else {
        credits_in(ops.drop_last()) + if ops.last().0 {
            ops.last().1 as int
        } else {
            0
        }
    }
}

/// Starting from an empty ledger, after any run of credits and redemption
/// requests (each either applied or refused without change), the balance is
/// everything credited minus everything redeemed, and it is never negative.
pub proof fn lemma_balance_is_credits_minus_redemptions(
    states: Seq<UserReward>,
    ops: Seq<(bool, u64, i64)>,
)
    requires
        states.len() == ops.len() + 1,
        states[0].total_reward_balance == 0,
        states[0].redemption_history@.len() == 0,
        forall|i: int| 0 <= i < ops.len() ==> ledger_step(#[trigger] states[i], states[i + 1], ops[i]),
    ensures
        states.last().total_reward_balance == credits_in(ops) - sum_of(states.last().redeemed()),
        credits_in(ops) - sum_of(states.last().redeemed()) >= 0,
    decreases ops.len(),
{
    if ops.len() == 0 {
        assert(states.last().redeemed() =~= Seq::<u64>::empty());
    } else {
        let n = ops.len() - 1;
        lemma_balance_is_credits_minus_redemptions(states.drop_last(), ops.drop_last());
        let pre = states[n];
        let post = states[n + 1];
        assert(states.drop_last().last() == pre);
        assert(ops.drop_last() =~= ops.subrange(0, n));
        assert(ledger_step(pre, post, ops[n]));
        if !ops[n].0 && post != pre {
            assert(post.redeemed().drop_last() =~= pre.redeemed());
        } else {
            assert(post.redeemed() =~= pre.redeemed());
        }
    }
}

} // verus!
