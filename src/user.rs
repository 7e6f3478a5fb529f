use anchor_lang::prelude::Pubkey;
use vstd::prelude::*;

verus! {

/// A registered participant: its key, the addresses of its properties and
/// of its one reward ledger, and when it registered.
#[derive(Clone, Debug)]
pub struct User {
    pub owner: Pubkey,
    pub property_account: Vec<Pubkey>,
    pub reward_account: Pubkey,
    pub registration_timestamp: i64,
    pub bump: u8,
}

} // verus!
