use vstd::prelude::*;

verus! {

/// Every way an operation of the core can be refused. No operation changes
/// state before it fails.
#[derive(Debug, Clone, Copy, PartialEq, Eq, Structural)]
pub enum GreenmoveError {
    InvalidAmount,
    InsufficientBalance,
    InvalidState,
    InvalidInstruction,
    InvalidDepinFeedAddress,
    InvalidPropertyAccount,
    InvalidTimestamp,
    TimestampsOutOfOrder,
    ExcessiveEnergyConsumption,
    ExcessiveWaterConsumption,
    InsufficientPoints,
    InvalidUsageData,
    InvalidEnergyConsumptionData,
    InvalidPropertyExternalId,
    InvalidWaterExternalId,
    InvalidEnergyExternalId,
}

impl GreenmoveError {
    /// The message that goes with the error, as a caller would show it.
    pub fn message(&self) -> (r: &'static str) {
        match self {
            GreenmoveError::InvalidAmount => "Invalid amount",
            GreenmoveError::InsufficientBalance => "Insufficient balance",
            GreenmoveError::InvalidState => "Invalid state",
            GreenmoveError::InvalidInstruction => "Invalid instruction",
            GreenmoveError::InvalidDepinFeedAddress => "Invalid Depin Feed Address",
            GreenmoveError::InvalidPropertyAccount => "Invalid Property Account",
            GreenmoveError::InvalidTimestamp => "Invalid Timestamp",
            GreenmoveError::TimestampsOutOfOrder => "Timestamps are out of order",
            GreenmoveError::ExcessiveEnergyConsumption => "Excessive energy consumption",
            GreenmoveError::ExcessiveWaterConsumption => "Excessive water consumption",
            GreenmoveError::InsufficientPoints => "Insufficient points",
            GreenmoveError::InvalidUsageData => "Invalid usage data",
            GreenmoveError::InvalidEnergyConsumptionData => "Invalid energy consumption data",
            GreenmoveError::InvalidPropertyExternalId => "Invalid property external ID",
            GreenmoveError::InvalidWaterExternalId => "Invalid water external ID",
            GreenmoveError::InvalidEnergyExternalId => "Invalid energy external ID",
        }
    }
}

} // verus!
