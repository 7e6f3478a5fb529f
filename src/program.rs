use vstd::prelude::*;

use crate::errors::GreenmoveError;
use crate::instructions::{energy_reading_taken, water_reading_taken, ReceiveEnvironmentData};

verus! {

/// Takes a water reading addressed to the meter `water_external_id`. A
/// reading for another meter is refused with `InvalidWaterExternalId` and
/// changes nothing; otherwise it goes as `receive_water_usage` says.
pub fn receive_water_usage(
    accounts: &mut ReceiveEnvironmentData,
    water_external_id: &String,
    usage_amount: u64,
    now: i64,
) -> (r: Result<u64, GreenmoveError>)
    ensures
        old(accounts).water_meter_account.wf() ==> final(accounts).water_meter_account.wf(),
        old(accounts).water_meter_account.water_external_id@ != water_external_id@ ==> r == Err::<u64, GreenmoveError>(GreenmoveError::InvalidWaterExternalId)
            && *final(accounts) == *old(accounts),
        old(accounts).water_meter_account.water_external_id@ == water_external_id@ ==> water_reading_taken(*old(accounts), *final(accounts), usage_amount, now, r),
{
    if accounts.water_meter_account.water_external_id != *water_external_id {
        return Err(GreenmoveError::InvalidWaterExternalId);
    }
    accounts.receive_water_usage(usage_amount, now)
}

/// Takes an energy reading addressed to the meter `energy_external_id`. A
/// reading for another meter is refused with `InvalidEnergyExternalId` and
/// changes nothing; otherwise it goes as `receive_energy_consumption` says.
pub fn receive_energy_consumption(
    accounts: &mut ReceiveEnvironmentData,
    energy_external_id: &String,
    usage_amount: u64,
    now: i64,
) -> (r: Result<u64, GreenmoveError>)
    ensures
        old(accounts).energy_meter_account.wf() ==> final(accounts).energy_meter_account.wf(),
        old(accounts).energy_meter_account.energy_external_id@ != energy_external_id@ ==> r == Err::<u64, GreenmoveError>(GreenmoveError::InvalidEnergyExternalId)
            && *final(accounts) == *old(accounts),
        old(accounts).energy_meter_account.energy_external_id@ == energy_external_id@ ==> energy_reading_taken(*old(accounts), *final(accounts), usage_amount, now, r),
{
    if accounts.energy_meter_account.energy_external_id != *energy_external_id {
        return Err(GreenmoveError::InvalidEnergyExternalId);
    }
    accounts.receive_energy_consumption(usage_amount, now)
}

} // verus!
