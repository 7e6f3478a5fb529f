use vstd::prelude::*;

pub mod energy_meter;
pub mod errors;
pub mod instructions;
pub mod keys;
pub mod program;
pub mod property;
pub mod registration;
pub mod reward;
pub mod usage;
pub mod user;
pub mod water_meter;

pub use energy_meter::{EnergyConsumptionRecord, EnergyMeter};
pub use errors::GreenmoveError;
pub use instructions::{ReceiveEnvironmentData, RedeemRewards};
pub use property::Property;
pub use registration::{ConnectDepin, ConnectDepinBumps};
pub use reward::{RedemptionRecord, UserReward};
pub use user::User;
pub use water_meter::{WaterMeter, WaterUsageRecord};

verus! {

} // verus!
