use anchor_lang::prelude::Pubkey;
use water_conservation::{ConnectDepin, ConnectDepinBumps, GreenmoveError, Property, UserReward};

fn key(b: u8) -> Pubkey {
    Pubkey::new_from_array([b; 32])
}

fn fresh() -> ConnectDepin {
    ConnectDepin {
        user: key(1),
        user_data: None,
        property_key: key(2),
        property_account: None,
        water_meter_key: key(3),
        water_meter_account: None,
        energy_meter_key: key(4),
        energy_meter_account: None,
        reward_key: key(5),
        reward_account: None,
    }
}

fn bumps() -> ConnectDepinBumps {
    ConnectDepinBumps {
        user_data: 250,
        property_account: 251,
        water_meter_account: 252,
        energy_meter_account: 253,
        reward_account: 254,
    }
}

fn register(c: &mut ConnectDepin, p: &str, w: &str, e: &str, track: bool) -> Result<(), GreenmoveError> {
    c.connect_depin_feed_address(
        p.to_string(),
        w.to_string(),
        e.to_string(),
        key(6),
        key(7),
        track,
        1_700_000_000,
        &bumps(),
    )
}

#[test]
fn registration_with_energy_links_everything() {
    let mut c = fresh();
    assert_eq!(register(&mut c, "PROP-1", "WATER-1", "ENERGY-1", true), Ok(()));
    let u = c.user_data.as_ref().unwrap();
    assert_eq!(u.owner, key(1));
    assert_eq!(u.property_account, vec![key(2)]);
    assert_eq!(u.reward_account, key(5));
    assert_eq!(u.registration_timestamp, 1_700_000_000);
    assert_eq!(u.bump, 250);
    let p = c.property_account.as_ref().unwrap();
    assert_eq!(p.owner, key(1));
    assert_eq!(p.property_external_id, "PROP-1");
    assert_eq!(p.water_meter_accounts, vec![key(3)]);
    assert_eq!(p.energy_meter_accounts, vec![key(4)]);
    assert_eq!(p.bump, 251);
    let w = c.water_meter_account.as_ref().unwrap();
    assert_eq!(w.property, key(2));
    assert_eq!(w.water_meter_account, key(3));
    assert_eq!(w.water_external_id, "WATER-1");
    assert_eq!(w.depin_feed_address, key(6));
    assert!(w.usage_history.is_empty());
    assert_eq!(w.total_water_consumed, 0);
    assert_eq!(w.bump, 252);
    let e = c.energy_meter_account.as_ref().unwrap();
    assert_eq!(e.property, key(2));
    assert_eq!(e.energy_meter_account, key(4));
    assert_eq!(e.energy_external_id, "ENERGY-1");
    assert_eq!(e.depin_feed_address, key(7));
    assert_eq!(e.bump, 253);
    let r = c.reward_account.as_ref().unwrap();
    assert_eq!(r.owner, key(1));
    assert_eq!(r.total_reward_balance, 0);
    assert_eq!(r.bump, 254);
}

#[test]
fn registration_without_energy_creates_no_energy_meter() {
    let mut c = fresh();
    assert_eq!(register(&mut c, "PROP-1", "WATER-1", "", false), Ok(()));
    assert!(c.energy_meter_account.is_none());
    assert!(c.property_account.as_ref().unwrap().energy_meter_accounts.is_empty());
    assert!(c.water_meter_account.is_some());
}

#[test]
fn registered_property_cannot_be_registered_again() {
    let mut c = fresh();
    assert_eq!(register(&mut c, "PROP-1", "WATER-1", "ENERGY-1", true), Ok(()));
    let mut again = c.clone();
    assert_eq!(
        register(&mut again, "PROP-1", "WATER-2", "ENERGY-2", true),
        Err(GreenmoveError::InvalidPropertyExternalId)
    );
    assert_eq!(again.water_meter_account.unwrap().water_external_id, "WATER-1");
}

#[test]
fn malformed_identifiers_are_refused() {
    let long = "X".repeat(33);
    let mut c = fresh();
    assert_eq!(register(&mut c, &long, "W", "E", true), Err(GreenmoveError::InvalidPropertyExternalId));
    assert_eq!(register(&mut c, "", "W", "E", true), Err(GreenmoveError::InvalidPropertyExternalId));
    assert_eq!(register(&mut c, "P", &long, "E", true), Err(GreenmoveError::InvalidWaterExternalId));
    assert_eq!(register(&mut c, "P", "W", &long, true), Err(GreenmoveError::InvalidEnergyExternalId));
    assert!(c.user_data.is_none());
    assert!(c.property_account.is_none());
    assert!(c.reward_account.is_none());
    let exact = "X".repeat(32);
    assert_eq!(register(&mut c, &exact, &exact, &long, false), Ok(()));
}

#[test]
fn identifier_length_counts_bytes() {
    // Eleven three-byte characters: 33 bytes.
    let wide = "\u{20AC}".repeat(11);
    let mut c = fresh();
    assert_eq!(register(&mut c, &wide, "W", "E", true), Err(GreenmoveError::InvalidPropertyExternalId));
}

#[test]
fn existing_meter_is_refused() {
    let mut c = fresh();
    let mut other = fresh();
    assert_eq!(register(&mut other, "P0", "W0", "E0", true), Ok(()));
    c.energy_meter_account = other.energy_meter_account.clone();
    assert_eq!(register(&mut c, "P", "W", "E", true), Err(GreenmoveError::InvalidEnergyExternalId));
    c.water_meter_account = other.water_meter_account.clone();
    assert_eq!(register(&mut c, "P", "W", "E", true), Err(GreenmoveError::InvalidWaterExternalId));
}

#[test]
fn returning_participant_keeps_ledger() {
    let mut c = fresh();
    assert_eq!(register(&mut c, "PROP-1", "WATER-1", "ENERGY-1", false), Ok(()));
    let mut ledger: UserReward = c.reward_account.clone().unwrap();
    ledger.credit(75);
    let mut second = ConnectDepin {
        user: key(1),
        user_data: c.user_data.clone(),
        property_key: key(12),
        property_account: None,
        water_meter_key: key(13),
        water_meter_account: None,
        energy_meter_key: key(14),
        energy_meter_account: None,
        reward_key: key(5),
        reward_account: Some(ledger),
    };
    assert_eq!(register(&mut second, "PROP-2", "WATER-2", "ENERGY-2", false), Ok(()));
    let u = second.user_data.as_ref().unwrap();
    assert_eq!(u.property_account, vec![key(2), key(12)]);
    assert_eq!(u.registration_timestamp, 1_700_000_000);
    assert_eq!(second.reward_account.as_ref().unwrap().total_reward_balance, 75);
    let p: &Property = second.property_account.as_ref().unwrap();
    assert_eq!(p.property_external_id, "PROP-2");
}
