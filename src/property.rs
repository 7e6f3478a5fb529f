use anchor_lang::prelude::Pubkey;
use vstd::prelude::*;

verus! {

/// A site owned by a participant, under the identifier that an outside
/// authority gave it, with the addresses of its meters in the order they
/// were linked.
#[derive(Clone, Debug)]
pub struct Property {
    pub owner: Pubkey,
    pub property_external_id: String,
    pub water_meter_accounts: Vec<Pubkey>,
    pub energy_meter_accounts: Vec<Pubkey>,
    pub bump: u8,
}

} // verus!
