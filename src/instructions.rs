use anchor_lang::prelude::Pubkey;
use vstd::prelude::*;

use crate::energy_meter::{energy_amounts, EnergyConsumptionRecord, EnergyMeter};
use crate::errors::GreenmoveError;
use crate::keys::same_key;
use crate::reward::{credit_step, redeem_refusal, redeem_step, UserReward};
use crate::usage::{
    baseline_of, lemma_append_reading, lemma_baseline_bounds, lemma_sum_bounds, points_for,
    recent_window, savings_total, sum_of, usage_refusal, BASELINE_WINDOW,
};
use crate::water_meter::{water_amounts, WaterMeter, WaterUsageRecord};

verus! {

/// The accounts that a reading touches: the property's address, its water
/// and energy meters, and the owner's reward ledger.
#[derive(Clone, Debug)]
pub struct ReceiveEnvironmentData {
    pub property: Pubkey,
    pub water_meter_account: WaterMeter,
    pub energy_meter_account: EnergyMeter,
    pub reward_account: UserReward,
}

/// The outcome of a water reading of `usage_amount` at `now` on `pre`:
/// `usage_refusal` decides whether it is taken; a refused one changes
/// nothing; a taken one is recorded on the meter and its points, returned,
/// are credited to the ledger.
pub open spec fn water_reading_taken(
    pre: ReceiveEnvironmentData,
    post: ReceiveEnvironmentData,
    usage_amount: u64,
    now: i64,
    r: Result<u64, GreenmoveError>,
) -> bool {
    let m = pre.water_meter_account;
    let refusal = usage_refusal(
        m.property == pre.property,
        m.last_calculated_timestamp,
        m.total_water_consumed,
        m.total_water_saved,
        m.amounts(),
        pre.reward_account.total_reward_balance,
        usage_amount,
        now,
    );
    &&& r.is_ok() <==> refusal.is_none()
    &&& r matches Err(e) ==> Some(e) == refusal && post == pre
    &&& r matches Ok(p) ==> {
        &&& p == points_for(baseline_of(m.amounts()), usage_amount as int)
        &&& m.records_reading(post.water_meter_account, usage_amount, now)
        &&& credit_step(pre.reward_account, post.reward_account, p)
        &&& post.energy_meter_account == pre.energy_meter_account
        &&& post.property == pre.property
    }
}

/// The outcome of an energy reading of `usage_amount` at `now` on `pre`:
/// `usage_refusal` decides whether it is taken; a refused one changes
/// nothing; a taken one is recorded on the meter and its points, returned,
/// are credited to the ledger.
pub open spec fn energy_reading_taken(
    pre: ReceiveEnvironmentData,
    post: ReceiveEnvironmentData,
    usage_amount: u64,
    now: i64,
    r: Result<u64, GreenmoveError>,
) -> bool {
    let m = pre.energy_meter_account;
    let refusal = usage_refusal(
        m.property == pre.property,
        m.last_calculated_timestamp,
        m.total_energy_consumed,
        m.total_energy_saved,
        m.amounts(),
        pre.reward_account.total_reward_balance,
        usage_amount,
        now,
    );
    &&& r.is_ok() <==> refusal.is_none()
    &&& r matches Err(e) ==> Some(e) == refusal && post == pre
    &&& r matches Ok(p) ==> {
        &&& p == points_for(baseline_of(m.amounts()), usage_amount as int)
        &&& m.records_reading(post.energy_meter_account, usage_amount, now)
        &&& credit_step(pre.reward_account, post.reward_account, p)
        &&& post.water_meter_account == pre.water_meter_account
        &&& post.property == pre.property
    }
}

/// A water reading older than its meter's last one is refused and changes
/// nothing: no history, total or balance moves. When the meter belongs to the
/// property, the refusal is `TimestampsOutOfOrder`.
pub proof fn lemma_late_water_reading_refused(
    pre: ReceiveEnvironmentData,
    post: ReceiveEnvironmentData,
    usage_amount: u64,
    now: i64,
    r: Result<u64, GreenmoveError>,
)
    requires
        water_reading_taken(pre, post, usage_amount, now, r),
        now < pre.water_meter_account.last_calculated_timestamp,
    ensures
        r.is_err(),
        post == pre,
        pre.water_meter_account.property == pre.property ==> r == Err::<u64, GreenmoveError>(
            GreenmoveError::TimestampsOutOfOrder,
        ),
{
}

/// An energy reading older than its meter's last one is refused and changes
/// nothing: no history, total or balance moves. When the meter belongs to the
/// property, the refusal is `TimestampsOutOfOrder`.
pub proof fn lemma_late_energy_reading_refused(
    pre: ReceiveEnvironmentData,
    post: ReceiveEnvironmentData,
    usage_amount: u64,
    now: i64,
    r: Result<u64, GreenmoveError>,
)
    requires
        energy_reading_taken(pre, post, usage_amount, now, r),
        now < pre.energy_meter_account.last_calculated_timestamp,
    ensures
        r.is_err(),
        post == pre,
        pre.energy_meter_account.property == pre.property ==> r == Err::<u64, GreenmoveError>(
            GreenmoveError::TimestampsOutOfOrder,
        ),
{
}

/// A water reading, taken or refused, keeps the meter's history and totals in
/// agreement.
pub proof fn lemma_water_reading_keeps_meter_consistent(
    pre: ReceiveEnvironmentData,
    post: ReceiveEnvironmentData,
    usage_amount: u64,
    now: i64,
    r: Result<u64, GreenmoveError>,
)
    requires
        pre.water_meter_account.wf(),
        water_reading_taken(pre, post, usage_amount, now, r),
    ensures
        post.water_meter_account.wf(),
{
    if r.is_ok() {
        let m = pre.water_meter_account;
        let n = post.water_meter_account;
        lemma_append_reading(
            m.amounts(),
            m.baselines(),
            m.stamps(),
            m.last_calculated_timestamp,
            m.total_water_consumed,
            m.total_water_saved,
            usage_amount,
            now,
        );
        assert(n.amounts() =~= m.amounts().push(usage_amount));
        assert(n.baselines() =~= m.baselines().push(baseline_of(m.amounts()) as u64));
        assert(n.stamps() =~= m.stamps().push(now));
    }
}

/// Starting from a water meter with no readings, after any run of readings,
/// each taken or refused, the total consumed is the sum of the recorded
/// amounts and the total saved is the sum of what each record saved against
/// its baseline.
pub proof fn lemma_water_totals_after_readings(
    states: Seq<ReceiveEnvironmentData>,
    amounts: Seq<u64>,
    times: Seq<i64>,
    results: Seq<Result<u64, GreenmoveError>>,
)
    requires
        states.len() == amounts.len() + 1,
        times.len() == amounts.len(),
        results.len() == amounts.len(),
        states[0].water_meter_account.usage_history@.len() == 0,
        states[0].water_meter_account.total_water_consumed == 0,
        states[0].water_meter_account.total_water_saved == 0,
        forall|i: int|
            0 <= i < amounts.len() ==> water_reading_taken(
                #[trigger] states[i],
                states[i + 1],
                amounts[i],
                times[i],
                results[i],
            ),
    ensures
        states.last().water_meter_account.wf(),
        states.last().water_meter_account.total_water_consumed == sum_of(states.last().water_meter_account.amounts()),
        states.last().water_meter_account.total_water_saved == savings_total(
            states.last().water_meter_account.amounts(),
            states.last().water_meter_account.baselines(),
        ),
    decreases amounts.len(),
{
    if amounts.len() == 0 {
        let m = states[0].water_meter_account;
        assert(m.amounts() =~= Seq::<u64>::empty());
        assert(m.baselines() =~= Seq::<u64>::empty());
        assert(m.stamps() =~= Seq::<i64>::empty());
    } else {
        let k = amounts.len() - 1;
        lemma_water_totals_after_readings(
            states.drop_last(),
            amounts.drop_last(),
            times.drop_last(),
            results.drop_last(),
        );
        assert(states.drop_last().last() == states[k]);
        assert(water_reading_taken(states[k], states[k + 1], amounts[k], times[k], results[k]));
        lemma_water_reading_keeps_meter_consistent(
            states[k],
            states[k + 1],
            amounts[k],
            times[k],
            results[k],
        );
    }
}

/// An energy reading, taken or refused, keeps the meter's history and totals in
/// agreement.
pub proof fn lemma_energy_reading_keeps_meter_consistent(
    pre: ReceiveEnvironmentData,
    post: ReceiveEnvironmentData,
    usage_amount: u64,
    now: i64,
    r: Result<u64, GreenmoveError>,
)
    requires
        pre.energy_meter_account.wf(),
        energy_reading_taken(pre, post, usage_amount, now, r),
    ensures
        post.energy_meter_account.wf(),
{
    if r.is_ok() {
        let m = pre.energy_meter_account;
        let n = post.energy_meter_account;
        lemma_append_reading(
            m.amounts(),
            m.baselines(),
            m.stamps(),
            m.last_calculated_timestamp,
            m.total_energy_consumed,
            m.total_energy_saved,
            usage_amount,
            now,
        );
        assert(n.amounts() =~= m.amounts().push(usage_amount));
        assert(n.baselines() =~= m.baselines().push(baseline_of(m.amounts()) as u64));
        assert(n.stamps() =~= m.stamps().push(now));
    }
}

/// Starting from an energy meter with no readings, after any run of readings,
/// each taken or refused, the total consumed is the sum of the recorded
/// amounts and the total saved is the sum of what each record saved against
/// its baseline.
pub proof fn lemma_energy_totals_after_readings(
    states: Seq<ReceiveEnvironmentData>,
    amounts: Seq<u64>,
    times: Seq<i64>,
    results: Seq<Result<u64, GreenmoveError>>,
)
    requires
        states.len() == amounts.len() + 1,
        times.len() == amounts.len(),
        results.len() == amounts.len(),
        states[0].energy_meter_account.consumption_history@.len() == 0,
        states[0].energy_meter_account.total_energy_consumed == 0,
        states[0].energy_meter_account.total_energy_saved == 0,
        forall|i: int|
            0 <= i < amounts.len() ==> energy_reading_taken(
                #[trigger] states[i],
                states[i + 1],
                amounts[i],
                times[i],
                results[i],
            ),
    ensures
        states.last().energy_meter_account.wf(),
        states.last().energy_meter_account.total_energy_consumed == sum_of(states.last().energy_meter_account.amounts()),
        states.last().energy_meter_account.total_energy_saved == savings_total(
            states.last().energy_meter_account.amounts(),
            states.last().energy_meter_account.baselines(),
        ),
    decreases amounts.len(),
{
    if amounts.len() == 0 {
        let m = states[0].energy_meter_account;
        assert(m.amounts() =~= Seq::<u64>::empty());
        assert(m.baselines() =~= Seq::<u64>::empty());
        assert(m.stamps() =~= Seq::<i64>::empty());
    } else {
        let k = amounts.len() - 1;
        lemma_energy_totals_after_readings(
            states.drop_last(),
            amounts.drop_last(),
            times.drop_last(),
            results.drop_last(),
        );
        assert(states.drop_last().last() == states[k]);
        assert(energy_reading_taken(states[k], states[k + 1], amounts[k], times[k], results[k]));
        lemma_energy_reading_keeps_meter_consistent(
            states[k],
            states[k + 1],
            amounts[k],
            times[k],
            results[k],
        );
    }
}

impl ReceiveEnvironmentData {
    /// Baseline for the next water reading: the truncated mean of the last
    /// six amounts in `usage_history`, or 0 when it is empty.
    pub fn calculate_baseline_water(usage_history: &Vec<WaterUsageRecord>) -> (r: u64)
        ensures
            r == baseline_of(water_amounts(usage_history@)),
    {
        let ghost amounts = water_amounts(usage_history@);
        let n = usage_history.len();
        let start: usize = if n > BASELINE_WINDOW { n - BASELINE_WINDOW } else { 0 };
        let mut total: u128 = 0;
        let mut j: usize = start;
        while j < n
            invariant
                n == amounts.len(),
                amounts == water_amounts(usage_history@),
                start <= j <= n,
                n - start <= BASELINE_WINDOW,
                total == sum_of(amounts.subrange(start as int, j as int)),
            decreases n - j,
        {
            proof {
                let s = amounts.subrange(start as int, j as int);
                lemma_sum_bounds(s);
                assert(amounts.subrange(start as int, j + 1).drop_last() == s);
            }
            total = total + usage_history[j].amount as u128;
            j = j + 1;
        }
        proof {
            assert(amounts.subrange(start as int, n as int) == recent_window(amounts));
            lemma_baseline_bounds(amounts);
        }
        let count: usize = n - start;
        if count > 0 {
            (total / count as u128) as u64
        } else {
            0
        }
    }

    /// Baseline for the next energy reading, computed as for water.
    pub fn calculate_baseline_energy(consumption_history: &Vec<EnergyConsumptionRecord>) -> (r: u64)
        ensures
            r == baseline_of(energy_amounts(consumption_history@)),
    {
        let ghost amounts = energy_amounts(consumption_history@);
        let n = consumption_history.len();
        let start: usize = if n > BASELINE_WINDOW { n - BASELINE_WINDOW } else { 0 };
        let mut total: u128 = 0;
        let mut j: usize = start;
        while j < n
            invariant
                n == amounts.len(),
                amounts == energy_amounts(consumption_history@),
                start <= j <= n,
                n - start <= BASELINE_WINDOW,
                total == sum_of(amounts.subrange(start as int, j as int)),
            decreases n - j,
        {
            proof {
                let s = amounts.subrange(start as int, j as int);
                lemma_sum_bounds(s);
                assert(amounts.subrange(start as int, j + 1).drop_last() == s);
            }
            total = total + consumption_history[j].amount as u128;
            j = j + 1;
        }
        proof {
            assert(amounts.subrange(start as int, n as int) == recent_window(amounts));
            lemma_baseline_bounds(amounts);
        }
        let count: usize = n - start;
        if count > 0 {
            (total / count as u128) as u64
        } else {
            0
        }
    }

    /// Points for a reading of `current_usage` against `baseline_usage`:
    /// 100, 50, 25 or 10 for a reduction of at least 16, 11, 6 or 1 percent,
    /// else 0; always 0 without a baseline. The percentage is compared
    /// exactly, by cross-multiplication.
    pub fn calculate_points(baseline_usage: u64, current_usage: u64) -> (r: u64)
        ensures
            r == points_for(baseline_usage as int, current_usage as int),
    {
        if baseline_usage == 0 {
            return 0;
        }
        let saved: u64 = if current_usage < baseline_usage {
            baseline_usage - current_usage
        } else {
            0
        };
        let scaled: u128 = saved as u128 * 100;
        let base: u128 = baseline_usage as u128;
        if scaled >= 16 * base {
            100
        } else if scaled >= 11 * base {
            50
        } else if scaled >= 6 * base {
            25
        } else if scaled >= 1 * base {
            10
        } else {
            0
        }
    }

    /// Takes a water reading of `usage_amount` at `now`: scores it against
    /// the baseline of the history before it, appends it, updates the meter's
    /// totals and credits the points, which it returns. Refused, with nothing
    /// changed, as `usage_refusal` says.
    pub fn receive_water_usage(&mut self, usage_amount: u64, now: i64) -> (r: Result<u64, GreenmoveError>)
        ensures
            old(self).water_meter_account.wf() ==> final(self).water_meter_account.wf(),
            water_reading_taken(*old(self), *final(self), usage_amount, now, r),
    {
        let baseline = Self::calculate_baseline_water(&self.water_meter_account.usage_history);
        let points = Self::calculate_points(baseline, usage_amount);
        let saved: u64 = if usage_amount < baseline {
            baseline - usage_amount
        } else {
            0
        };
        if !same_key(&self.water_meter_account.property, &self.property) {
            return Err(GreenmoveError::InvalidPropertyAccount);
        }
        if now < self.water_meter_account.last_calculated_timestamp {
            return Err(GreenmoveError::TimestampsOutOfOrder);
        }
        if usage_amount > u64::MAX - self.water_meter_account.total_water_consumed
            || saved > u64::MAX - self.water_meter_account.total_water_saved {
            return Err(GreenmoveError::InvalidUsageData);
        }
        if points > u64::MAX - self.reward_account.total_reward_balance {
            return Err(GreenmoveError::InvalidAmount);
        }
        let ghost pre = self.water_meter_account;
        proof {
            if pre.wf() {
                lemma_append_reading(
                    pre.amounts(),
                    pre.baselines(),
                    pre.stamps(),
                    pre.last_calculated_timestamp,
                    pre.total_water_consumed,
                    pre.total_water_saved,
                    usage_amount,
                    now,
                );
            }
        }
        self.water_meter_account.usage_history.push(
            WaterUsageRecord { timestamp: now, amount: usage_amount, baseline_usage: baseline },
        );
        self.water_meter_account.last_calculated_timestamp = now;
        self.water_meter_account.total_water_consumed = self.water_meter_account.total_water_consumed
            + usage_amount;
        self.water_meter_account.total_water_saved = self.water_meter_account.total_water_saved
            + saved;
        proof {
            let post = self.water_meter_account;
            assert(post.amounts() =~= pre.amounts().push(usage_amount));
            assert(post.baselines() =~= pre.baselines().push(baseline));
            assert(post.stamps() =~= pre.stamps().push(now));
        }
        self.reward_account.credit(points);
        Ok(points)
    }

    /// Takes an energy reading of `usage_amount` at `now`: scores it against
    /// the baseline of the history before it, appends it, updates the meter's
    /// totals and credits the points, which it returns. Refused, with nothing
    /// changed, as `usage_refusal` says.
    pub fn receive_energy_consumption(&mut self, usage_amount: u64, now: i64) -> (r: Result<u64, GreenmoveError>)
        ensures
            old(self).energy_meter_account.wf() ==> final(self).energy_meter_account.wf(),
            energy_reading_taken(*old(self), *final(self), usage_amount, now, r),
    {
        let baseline = Self::calculate_baseline_energy(&self.energy_meter_account.consumption_history);
        let points = Self::calculate_points(baseline, usage_amount);
        let saved: u64 = if usage_amount < baseline {
            baseline - usage_amount
        } else {
            0
        };
        if !same_key(&self.energy_meter_account.property, &self.property) {
            return Err(GreenmoveError::InvalidPropertyAccount);
        }
        if now < self.energy_meter_account.last_calculated_timestamp {
            return Err(GreenmoveError::TimestampsOutOfOrder);
        }
        if usage_amount > u64::MAX - self.energy_meter_account.total_energy_consumed
            || saved > u64::MAX - self.energy_meter_account.total_energy_saved {
            return Err(GreenmoveError::InvalidUsageData);
        }
        if points > u64::MAX - self.reward_account.total_reward_balance {
            return Err(GreenmoveError::InvalidAmount);
        }
        let ghost pre = self.energy_meter_account;
        proof {
            if pre.wf() {
                lemma_append_reading(
                    pre.amounts(),
                    pre.baselines(),
                    pre.stamps(),
                    pre.last_calculated_timestamp,
                    pre.total_energy_consumed,
                    pre.total_energy_saved,
                    usage_amount,
                    now,
                );
            }
        }
        self.energy_meter_account.consumption_history.push(
            EnergyConsumptionRecord { timestamp: now, amount: usage_amount, baseline_usage: baseline },
        );
        self.energy_meter_account.last_calculated_timestamp = now;
        self.energy_meter_account.total_energy_consumed = self.energy_meter_account.total_energy_consumed
            + usage_amount;
        self.energy_meter_account.total_energy_saved = self.energy_meter_account.total_energy_saved
            + saved;
        proof {
            let post = self.energy_meter_account;
            assert(post.amounts() =~= pre.amounts().push(usage_amount));
            assert(post.baselines() =~= pre.baselines().push(baseline));
            assert(post.stamps() =~= pre.stamps().push(now));
        }
        self.reward_account.credit(points);
        Ok(points)
    }
}

/// The account that a redemption touches: the owner's reward ledger.
#[derive(Clone, Debug)]
pub struct RedeemRewards {
    pub reward_account: UserReward,
}

impl RedeemRewards {
    /// Redeems `reward_amount` points at `now` from the ledger, as
    /// `UserReward::redeem` does.
    pub fn redeem_rewards(&mut self, reward_amount: u64, now: i64) -> (r: Result<(), GreenmoveError>)
        ensures
            r.is_ok() <==> redeem_refusal(old(self).reward_account.total_reward_balance, reward_amount).is_none(),
            r.is_ok() ==> redeem_step(old(self).reward_account, final(self).reward_account, reward_amount, now),
            r matches Err(e) ==> Some(e) == redeem_refusal(old(self).reward_account.total_reward_balance, reward_amount)
                && *final(self) == *old(self),
    {
        self.reward_account.redeem(reward_amount, now)
    }
}

} // verus!
