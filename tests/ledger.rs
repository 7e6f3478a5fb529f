use anchor_lang::prelude::Pubkey;
use water_conservation::program;
use water_conservation::{
    EnergyMeter, GreenmoveError, ReceiveEnvironmentData, RedeemRewards, UserReward, WaterMeter,
};

fn key(b: u8) -> Pubkey {
    Pubkey::new_from_array([b; 32])
}

fn accounts() -> ReceiveEnvironmentData {
    ReceiveEnvironmentData {
        property: key(1),
        water_meter_account: WaterMeter::new(key(1), key(2), "W-1".to_string(), key(3), 254),
        energy_meter_account: EnergyMeter::new(key(1), key(4), "E-1".to_string(), key(5), 253),
        reward_account: UserReward::new(key(9), 252),
    }
}

#[test]
fn first_reading_earns_nothing() {
    let mut a = accounts();
    assert_eq!(a.receive_water_usage(50, 10), Ok(0));
    let m = &a.water_meter_account;
    assert_eq!(m.total_water_consumed, 50);
    assert_eq!(m.total_water_saved, 0);
    assert_eq!(m.usage_history.len(), 1);
    assert_eq!(m.usage_history[0].baseline_usage, 0);
    assert_eq!(m.usage_history[0].amount, 50);
    assert_eq!(m.usage_history[0].timestamp, 10);
    assert_eq!(m.last_calculated_timestamp, 10);
    assert_eq!(a.reward_account.total_reward_balance, 0);
}

#[test]
fn reading_twenty_percent_below_baseline_earns_top_tier() {
    let mut a = accounts();
    for t in 0..6 {
        assert!(a.receive_water_usage(100, t).is_ok());
    }
    let saved_before = a.water_meter_account.total_water_saved;
    let balance_before = a.reward_account.total_reward_balance;
    assert_eq!(a.receive_water_usage(80, 6), Ok(100));
    assert_eq!(a.water_meter_account.usage_history[6].baseline_usage, 100);
    assert_eq!(a.water_meter_account.total_water_saved, saved_before + 20);
    assert_eq!(a.reward_account.total_reward_balance, balance_before + 100);
}

#[test]
fn totals_are_sums_over_history() {
    let mut a = accounts();
    let readings = [120u64, 90, 100, 130, 60, 75, 110, 95];
    for (t, r) in readings.iter().enumerate() {
        assert!(a.receive_water_usage(*r, t as i64).is_ok());
    }
    let m = &a.water_meter_account;
    let consumed: u64 = m.usage_history.iter().map(|r| r.amount).sum();
    let saved: u64 = m
        .usage_history
        .iter()
        .map(|r| r.baseline_usage.saturating_sub(r.amount))
        .sum();
    assert_eq!(m.total_water_consumed, consumed);
    assert_eq!(m.total_water_consumed, readings.iter().sum::<u64>());
    assert_eq!(m.total_water_saved, saved);
    // Baselines: 0, 120, 105, 103, 110, 100, 95, 94.
    let baselines: Vec<u64> = m.usage_history.iter().map(|r| r.baseline_usage).collect();
    assert_eq!(baselines, vec![0, 120, 105, 103, 110, 100, 95, 94]);
}

#[test]
fn energy_readings_score_like_water() {
    let mut a = accounts();
    for t in 0..6 {
        assert!(a.receive_energy_consumption(200, t).is_ok());
    }
    assert_eq!(a.receive_energy_consumption(170, 7), Ok(50));
    assert_eq!(a.energy_meter_account.total_energy_consumed, 1370);
    assert_eq!(a.energy_meter_account.total_energy_saved, 30);
    assert_eq!(a.reward_account.total_reward_balance, 50);
    assert_eq!(a.water_meter_account.usage_history.len(), 0);
}

#[test]
fn late_reading_is_refused_and_changes_nothing() {
    let mut a = accounts();
    assert!(a.receive_water_usage(100, 50).is_ok());
    assert!(a.receive_water_usage(90, 60).is_ok());
    let before = a.clone();
    assert_eq!(a.receive_water_usage(10, 59), Err(GreenmoveError::TimestampsOutOfOrder));
    assert_eq!(a.water_meter_account.usage_history, before.water_meter_account.usage_history);
    assert_eq!(a.water_meter_account.total_water_consumed, before.water_meter_account.total_water_consumed);
    assert_eq!(a.water_meter_account.total_water_saved, before.water_meter_account.total_water_saved);
    assert_eq!(a.water_meter_account.last_calculated_timestamp, 60);
    assert_eq!(a.reward_account.total_reward_balance, before.reward_account.total_reward_balance);
    // Same timestamp as the last one is accepted.
    assert!(a.receive_water_usage(10, 60).is_ok());
}

#[test]
fn reading_for_meter_of_other_property_is_refused() {
    let mut a = accounts();
    a.property = key(7);
    assert_eq!(a.receive_water_usage(10, 1), Err(GreenmoveError::InvalidPropertyAccount));
    assert_eq!(a.receive_energy_consumption(10, 1), Err(GreenmoveError::InvalidPropertyAccount));
    assert_eq!(a.water_meter_account.usage_history.len(), 0);
}

#[test]
fn overflowing_total_is_invalid_usage_data() {
    let mut a = accounts();
    assert!(a.receive_water_usage(u64::MAX, 1).is_ok());
    assert_eq!(a.receive_water_usage(1, 2), Err(GreenmoveError::InvalidUsageData));
    assert_eq!(a.water_meter_account.total_water_consumed, u64::MAX);
    assert_eq!(a.water_meter_account.usage_history.len(), 1);
}

#[test]
fn overflowing_balance_is_invalid_amount() {
    let mut a = accounts();
    a.reward_account.total_reward_balance = u64::MAX - 50;
    for t in 0..6 {
        assert!(a.receive_water_usage(100, t).is_ok());
    }
    assert_eq!(a.receive_water_usage(0, 7), Err(GreenmoveError::InvalidAmount));
    assert_eq!(a.water_meter_account.usage_history.len(), 6);
    assert_eq!(a.reward_account.total_reward_balance, u64::MAX - 50);
}

#[test]
fn reading_must_name_its_meter() {
    let mut a = accounts();
    assert_eq!(
        program::receive_water_usage(&mut a, &"W-2".to_string(), 10, 1),
        Err(GreenmoveError::InvalidWaterExternalId)
    );
    assert_eq!(
        program::receive_energy_consumption(&mut a, &"W-1".to_string(), 10, 1),
        Err(GreenmoveError::InvalidEnergyExternalId)
    );
    assert_eq!(program::receive_water_usage(&mut a, &"W-1".to_string(), 10, 1), Ok(0));
    assert_eq!(program::receive_energy_consumption(&mut a, &"E-1".to_string(), 10, 1), Ok(0));
    assert_eq!(a.water_meter_account.total_water_consumed, 10);
    assert_eq!(a.energy_meter_account.total_energy_consumed, 10);
}

#[test]
fn redeem_more_than_balance_is_insufficient_points() {
    let mut r = RedeemRewards { reward_account: UserReward::new(key(9), 1) };
    r.reward_account.credit(40);
    assert_eq!(r.redeem_rewards(50, 100), Err(GreenmoveError::InsufficientPoints));
    assert_eq!(r.reward_account.total_reward_balance, 40);
    assert!(r.reward_account.redemption_history.is_empty());
}

#[test]
fn redeem_zero_is_invalid_amount() {
    let mut r = UserReward::new(key(9), 1);
    r.credit(40);
    assert_eq!(r.redeem(0, 100), Err(GreenmoveError::InvalidAmount));
    assert_eq!(r.total_reward_balance, 40);
}

#[test]
fn balance_is_credits_minus_redemptions() {
    let mut r = UserReward::new(key(9), 1);
    r.credit(100);
    r.credit(25);
    assert_eq!(r.redeem(60, 5), Ok(()));
    assert_eq!(r.redeem(70, 6), Err(GreenmoveError::InsufficientPoints));
    r.credit(10);
    assert_eq!(r.redeem(75, 7), Ok(()));
    assert_eq!(r.total_reward_balance, 0);
    assert_eq!(r.redemption_history.len(), 2);
    assert_eq!(r.redemption_history[0].amount, 60);
    assert_eq!(r.redemption_history[0].timestamp, 5);
    assert_eq!(r.redemption_history[1].amount, 75);
    let redeemed: u64 = r.redemption_history.iter().map(|x| x.amount).sum();
    assert_eq!(r.total_reward_balance, 135 - redeemed);
}

#[test]
fn error_messages() {
    assert_eq!(GreenmoveError::InsufficientPoints.message(), "Insufficient points");
    assert_eq!(GreenmoveError::TimestampsOutOfOrder.message(), "Timestamps are out of order");
}

#[test]
fn baselines_ignore_readings_on_other_meter() {
    let water = [100u64, 80, 120, 90, 110, 70, 95, 105];
    let mut alone = accounts();
    for (t, w) in water.iter().enumerate() {
        assert!(alone.receive_water_usage(*w, t as i64).is_ok());
    }
    let mut mixed = accounts();
    for (t, w) in water.iter().enumerate() {
        assert!(mixed.receive_energy_consumption(1000 + t as u64, t as i64).is_ok());
        assert!(mixed.receive_water_usage(*w, t as i64).is_ok());
        assert!(mixed.receive_energy_consumption(5, t as i64).is_ok());
    }
    assert_eq!(
        alone.water_meter_account.usage_history,
        mixed.water_meter_account.usage_history
    );
    assert_eq!(
        alone.water_meter_account.total_water_saved,
        mixed.water_meter_account.total_water_saved
    );
}

#[test]
fn baseline_of_each_record_uses_at_most_six_prior_readings() {
    let mut a = accounts();
    let readings = [600u64, 10, 20, 30, 40, 50, 60, 70];
    for (t, r) in readings.iter().enumerate() {
        assert!(a.receive_water_usage(*r, t as i64).is_ok());
    }
    // The seventh reading sees all six before it; the eighth no longer sees 600.
    assert_eq!(a.water_meter_account.usage_history[6].baseline_usage, 125);
    assert_eq!(a.water_meter_account.usage_history[7].baseline_usage, 35);
}
