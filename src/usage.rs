use vstd::prelude::*;

use crate::errors::GreenmoveError;

verus! {

/// How many of the most recent readings the baseline averages over.
pub const BASELINE_WINDOW: usize = 6;

/// Sum of a sequence of readings, as an unbounded integer.
pub open spec fn sum_of(s: Seq<u64>) -> int
    decreases s.len(),
{
    if s.len() == 0 {
        0
    } else {
        sum_of(s.drop_last()) + s.last()
    }
}

/// The readings that the baseline looks at: the last `BASELINE_WINDOW` of
/// them, or all of them when there are fewer.
pub open spec fn recent_window(s: Seq<u64>) -> Seq<u64> {
    if s.len() <= BASELINE_WINDOW {
        s
    } else {
        s.subrange(s.len() - BASELINE_WINDOW, s.len() as int)
    }
}

/// Rolling baseline: the truncated mean of the recent window; 0 for no history.
pub open spec fn baseline_of(s: Seq<u64>) -> int {
    let w = recent_window(s);
    if w.len() == 0 {
        0
    } else {
        sum_of(w) / (w.len() as int)
    }
}

/// What a reading saved against its baseline, never negative.
pub open spec fn saved_of(baseline: int, actual: int) -> int {
    if actual < baseline {
        baseline - actual
    } else {
        0
    }
}

/// Whether the reduction `100 * saved / baseline`, taken as a real number,
/// reaches `pct` percent. Stated without division, so it is exact.
pub open spec fn reduction_reaches(baseline: int, actual: int, pct: int) -> bool {
    100 * saved_of(baseline, actual) >= pct * baseline
}

/// Points awarded for a reading against its baseline: tiers at 16, 11, 6 and
/// 1 percent reduction, highest first; nothing without a baseline.
pub open spec fn points_for(baseline: int, actual: int) -> int {
    if baseline == 0 {
        0
    } else if reduction_reaches(baseline, actual, 16) {
        100
    } else if reduction_reaches(baseline, actual, 11) {
        50
    } else if reduction_reaches(baseline, actual, 6) {
        25
    } else if reduction_reaches(baseline, actual, 1) {
        10
    } else {
        0
    }
}

pub proof fn lemma_sum_bounds(s: Seq<u64>)
    ensures
        0 <= sum_of(s) <= s.len() * (u64::MAX as int),
    decreases s.len(),
{
    if s.len() > 0 {
        lemma_sum_bounds(s.drop_last());
    }
}

/// The baseline is a mean of `u64` readings, so it is itself a `u64`.
pub proof fn lemma_baseline_bounds(s: Seq<u64>)
    ensures
        0 <= baseline_of(s) <= u64::MAX,
{
    let w = recent_window(s);
    lemma_sum_bounds(w);
    if w.len() > 0 {
        let t = sum_of(w);
        let n = w.len() as int;
        assert(t / n <= u64::MAX) by (nonlinear_arith)
            requires
                0 <= t <= n * (u64::MAX as int),
                n > 0,
        ;
        assert(t / n >= 0) by (nonlinear_arith)
            requires
                0 <= t,
                n > 0,
        ;
    }
}

/// Running total of what each reading saved against the baseline it was
/// scored with.
pub open spec fn savings_total(amounts: Seq<u64>, baselines: Seq<u64>) -> int
    decreases amounts.len(),
{
    if amounts.len() == 0 || baselines.len() == 0 {
        0
    } else {
        savings_total(amounts.drop_last(), baselines.drop_last()) + saved_of(
            baselines.last() as int,
            amounts.last() as int,
        )
    }
}

/// A meter's history and its running totals agree: each record carries the
/// baseline of the readings before it, timestamps never go back and do not
/// pass the meter's last timestamp, and the totals are the sums over the
/// records.
pub open spec fn ledger_consistent(
    amounts: Seq<u64>,
    baselines: Seq<u64>,
    stamps: Seq<i64>,
    last: i64,
    consumed: u64,
    saved: u64,
) -> bool {
    &&& baselines.len() == amounts.len()
    &&& stamps.len() == amounts.len()
    &&& forall|i: int| 0 <= i < amounts.len() ==> baselines[i] == baseline_of(#[trigger] amounts.take(i))
    &&& forall|i: int, j: int| 0 <= i <= j < stamps.len() ==> stamps[i] <= stamps[j]
    &&& forall|i: int| 0 <= i < stamps.len() ==> #[trigger] stamps[i] <= last
    &&& consumed == sum_of(amounts)
    &&& saved == savings_total(amounts, baselines)
}

/// Appending a reading scored against the current baseline, at a time no
/// earlier than the last one, keeps history and totals in agreement.
pub proof fn lemma_append_reading(
    amounts: Seq<u64>,
    baselines: Seq<u64>,
    stamps: Seq<i64>,
    last: i64,
    consumed: u64,
    saved: u64,
    amount: u64,
    now: i64,
)
    requires
        ledger_consistent(amounts, baselines, stamps, last, consumed, saved),
        last <= now,
        consumed + amount <= u64::MAX,
        saved + saved_of(baseline_of(amounts), amount as int) <= u64::MAX,
    ensures
        ledger_consistent(
            amounts.push(amount),
            baselines.push(baseline_of(amounts) as u64),
            stamps.push(now),
            now,
            (consumed + amount) as u64,
            (saved + saved_of(baseline_of(amounts), amount as int)) as u64,
        ),
{
    lemma_baseline_bounds(amounts);
    let a2 = amounts.push(amount);
    let b2 = baselines.push(baseline_of(amounts) as u64);
    let t2 = stamps.push(now);
    assert(a2.drop_last() == amounts);
    assert(b2.drop_last() == baselines);
    assert forall|i: int| 0 <= i < a2.len() implies b2[i] == baseline_of(#[trigger] a2.take(i)) by {
        assert(a2.take(i) == if i < amounts.len() { amounts.take(i) } else { amounts });
        if i < amounts.len() {
            assert(b2[i] == baselines[i]);
        } else {
            assert(amounts.take(amounts.len() as int) == amounts);
        }
    }
    assert forall|i: int| 0 <= i < t2.len() implies #[trigger] t2[i] <= now by {
        if i < stamps.len() {
            assert(t2[i] == stamps[i]);
        }
    }
    assert forall|i: int, j: int| 0 <= i <= j < t2.len() implies t2[i] <= t2[j] by {
        if j < stamps.len() {
            assert(t2[i] == stamps[i] && t2[j] == stamps[j]);
        } else if i < stamps.len() {
            assert(t2[i] == stamps[i]);
        }
    }
}

/// The baseline depends on the readings only through the recent window: it
/// is the baseline of that window, which holds at most `BASELINE_WINDOW`
/// readings, and histories that end in the same window have the same
/// baseline.
pub proof fn lemma_baseline_depends_on_window(a: Seq<u64>, b: Seq<u64>)
    ensures
        recent_window(a).len() <= BASELINE_WINDOW,
        recent_window(recent_window(a)) == recent_window(a),
        baseline_of(a) == baseline_of(recent_window(a)),
        recent_window(a) == recent_window(b) ==> baseline_of(a) == baseline_of(b),
{
}

/// Why a reading would be refused, checked in this order: the meter belongs
/// to another property, the reading is older than the meter's last one, a
/// meter total would overflow, or the reward balance would overflow.
pub open spec fn usage_refusal(
    property_matches: bool,
    last: i64,
    consumed: u64,
    saved: u64,
    amounts: Seq<u64>,
    balance: u64,
    amount: u64,
    now: i64,
) -> Option<GreenmoveError> {
    let base = baseline_of(amounts);
    if !property_matches {
        Some(GreenmoveError::InvalidPropertyAccount)
    } else if now < last {
        Some(GreenmoveError::TimestampsOutOfOrder)
    } else if consumed + amount > u64::MAX || saved + saved_of(base, amount as int) > u64::MAX {
        Some(GreenmoveError::InvalidUsageData)
    } else if balance + points_for(base, amount as int) > u64::MAX {
        Some(GreenmoveError::InvalidAmount)
    } else {
        None
    }
}

} // verus!
