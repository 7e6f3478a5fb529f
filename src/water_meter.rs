use anchor_lang::prelude::Pubkey;
use vstd::prelude::*;

use crate::usage::{baseline_of, ledger_consistent, recent_window, saved_of, savings_total, sum_of};

verus! {

/// A water meter: its property, its own address, the identifier that the
/// utility gave it, the feed allowed to report for it, and its ledger of
/// readings with running totals.
#[derive(Clone, Debug)]
pub struct WaterMeter {
    pub property: Pubkey,
    pub water_meter_account: Pubkey,
    pub water_external_id: String,
    pub usage_history: Vec<WaterUsageRecord>,
    pub last_calculated_timestamp: i64,
    pub depin_feed_address: Pubkey,
    pub total_water_saved: u64,
    pub total_water_consumed: u64,
    pub bump: u8,
}

/// One reading, with the baseline it was scored against when it came in.
#[derive(Clone, Copy, Debug, PartialEq, Eq, Structural)]
pub struct WaterUsageRecord {
    pub timestamp: i64,
    pub amount: u64,
    pub baseline_usage: u64,
}

pub open spec fn water_amounts(h: Seq<WaterUsageRecord>) -> Seq<u64> {
    h.map_values(|r: WaterUsageRecord| r.amount)
}

impl WaterMeter {
    /// The amounts of the readings, oldest first.
    pub open spec fn amounts(&self) -> Seq<u64> {
        water_amounts(self.usage_history@)
    }

    pub open spec fn baselines(&self) -> Seq<u64> {
        self.usage_history@.map_values(|r: WaterUsageRecord| r.baseline_usage)
    }

    pub open spec fn stamps(&self) -> Seq<i64> {
        self.usage_history@.map_values(|r: WaterUsageRecord| r.timestamp)
    }

    /// History and totals agree (see `ledger_consistent`).
    pub open spec fn wf(&self) -> bool {
        ledger_consistent(
            self.amounts(),
            self.baselines(),
            self.stamps(),
            self.last_calculated_timestamp,
            self.total_water_consumed,
            self.total_water_saved,
        )
    }

    /// `post` is this meter after a reading of `amount` at `now`: the record,
    /// scored against the baseline of the readings before it, is appended and
    /// the running totals grow by the reading and by what it saved.
    pub open spec fn records_reading(self, post: WaterMeter, amount: u64, now: i64) -> bool {
        let base = baseline_of(self.amounts());
        &&& post.usage_history@ == self.usage_history@.push(
            WaterUsageRecord { timestamp: now, amount, baseline_usage: base as u64 },
        )
        &&& post.last_calculated_timestamp == now
        &&& post.total_water_consumed == self.total_water_consumed + amount
        &&& post.total_water_saved == self.total_water_saved + saved_of(base, amount as int)
        &&& post.property == self.property
        &&& post.water_meter_account == self.water_meter_account
        &&& post.water_external_id == self.water_external_id
        &&& post.depin_feed_address == self.depin_feed_address
        &&& post.bump == self.bump
    }

    /// A meter with no readings yet.
    pub fn new(
        property: Pubkey,
        water_meter_account: Pubkey,
        water_external_id: String,
        depin_feed_address: Pubkey,
        bump: u8,
    ) -> (r: WaterMeter)
        ensures
            r.wf(),
            r.property == property,
            r.water_meter_account == water_meter_account,
            r.water_external_id == water_external_id,
            r.usage_history@.len() == 0,
            r.last_calculated_timestamp == 0,
            r.depin_feed_address == depin_feed_address,
            r.total_water_saved == 0,
            r.total_water_consumed == 0,
            r.bump == bump,
    {
        WaterMeter {
            property,
            water_meter_account,
            water_external_id,
            usage_history: Vec::new(),
            last_calculated_timestamp: 0,
            depin_feed_address,
            total_water_saved: 0,
            total_water_consumed: 0,
            bump,
        }
    }
}

/// On a consistent meter, whatever readings it has taken, the total consumed
/// is the sum of the recorded amounts and the total saved is the sum of what
/// each record saved against its own baseline.
pub proof fn lemma_water_totals_are_sums(m: WaterMeter)
    requires
        m.wf(),
    ensures
        m.total_water_consumed == sum_of(m.amounts()),
        m.total_water_saved == savings_total(m.amounts(), m.baselines()),
{
}

/// On a consistent meter the baseline of the `k`-th record was computed from
/// the readings before it alone, and only from the most recent of those, at
/// most six.
pub proof fn lemma_water_baseline_from_prior_readings(m: WaterMeter, k: int)
    requires
        m.wf(),
        0 <= k < m.usage_history@.len(),
    ensures
        m.usage_history@[k].baseline_usage == baseline_of(recent_window(m.amounts().take(k))),
        recent_window(m.amounts().take(k)) == m.amounts().subrange(
            if k > 6 {
                k - 6
            } else {
                0
            },
            k,
        ),
{
    assert(m.baselines()[k] == m.usage_history@[k].baseline_usage);
    assert(m.amounts().take(k) == m.amounts().subrange(0, k));
    assert(recent_window(m.amounts().take(k)) =~= m.amounts().subrange(
        if k > 6 {
            k - 6
        } else {
            0
        },
        k,
    ));
}

} // verus!
