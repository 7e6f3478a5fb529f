use anchor_lang::prelude::Pubkey;
use vstd::prelude::*;
use vstd::utf8::encode_utf8;

use crate::energy_meter::EnergyMeter;
use crate::errors::GreenmoveError;
use crate::property::Property;
use crate::reward::UserReward;
use crate::user::User;
use crate::water_meter::WaterMeter;

verus! {

/// Longest external identifier, in bytes: each one takes part in the seeds
/// that an account address is derived from.
pub const MAX_EXTERNAL_ID_LEN: usize = 32;

/// An external identifier is well formed when it is given and fits in a seed.
pub open spec fn external_id_ok(id: Seq<char>) -> bool {
    0 < encode_utf8(id).len() <= MAX_EXTERNAL_ID_LEN
}

fn external_id_fits(id: &String) -> (r: bool)
    ensures
        r == external_id_ok(id@),
{
    let n = id.as_str().as_bytes().len();
    0 < n && n <= MAX_EXTERNAL_ID_LEN
}

/// Bump seeds of the accounts that registration creates.
#[derive(Clone, Copy, Debug, PartialEq, Eq, Structural)]
pub struct ConnectDepinBumps {
    pub user_data: u8,
    pub property_account: u8,
    pub water_meter_account: u8,
    pub energy_meter_account: u8,
    pub reward_account: u8,
}

/// What registration works on: the participant's key, and for each account
/// it may create, the address that storage derived for it and what is
/// stored there now (`None` where the address is free).
#[derive(Clone, Debug)]
pub struct ConnectDepin {
    pub user: Pubkey,
    pub user_data: Option<User>,
    pub property_key: Pubkey,
    pub property_account: Option<Property>,
    pub water_meter_key: Pubkey,
    pub water_meter_account: Option<WaterMeter>,
    pub energy_meter_key: Pubkey,
    pub energy_meter_account: Option<EnergyMeter>,
    pub reward_key: Pubkey,
    pub reward_account: Option<UserReward>,
}

impl ConnectDepin {
    /// Why registration would be refused: an identifier that is malformed,
    /// or whose account already exists under this owner; checked property
    /// first, then water, then energy (only when energy is tracked).
    pub open spec fn registration_refusal(
        self,
        property_external_id: Seq<char>,
        water_external_id: Seq<char>,
        energy_external_id: Seq<char>,
        track_energy: bool,
    ) -> Option<GreenmoveError> {
        if !external_id_ok(property_external_id) || self.property_account.is_some() {
            Some(GreenmoveError::InvalidPropertyExternalId)
        } else if !external_id_ok(water_external_id) || self.water_meter_account.is_some() {
            Some(GreenmoveError::InvalidWaterExternalId)
        } else if track_energy && (!external_id_ok(energy_external_id)
            || self.energy_meter_account.is_some()) {
            Some(GreenmoveError::InvalidEnergyExternalId)
        } else {
            None
        }
    }

    /// Registers a property with its water meter, an energy meter when
    /// `track_energy` is set, and the participant with its reward ledger
    /// where they do not exist yet. All of it happens, or, when
    /// `registration_refusal` gives an error, none of it.
    pub fn connect_depin_feed_address(
        &mut self,
        property_external_id: String,
        water_external_id: String,
        energy_external_id: String,
        water_depin_feed_address: Pubkey,
        energy_depin_feed_address: Pubkey,
        track_energy: bool,
        now: i64,
        bumps: &ConnectDepinBumps,
    ) -> (r: Result<(), GreenmoveError>)
        ensures
            ({
                let refusal = old(self).registration_refusal(
                    property_external_id@,
                    water_external_id@,
                    energy_external_id@,
                    track_energy,
                );
                &&& r.is_ok() <==> refusal.is_none()
                &&& r matches Err(e) ==> Some(e) == refusal && *final(self) == *old(self)
            }),
            r.is_ok() ==> final(self).registered(
                *old(self),
                property_external_id@,
                water_external_id@,
                energy_external_id@,
                water_depin_feed_address,
                energy_depin_feed_address,
                track_energy,
                now,
                *bumps,
            ),
    {
        if !external_id_fits(&property_external_id) || self.property_account.is_some() {
            return Err(GreenmoveError::InvalidPropertyExternalId);
        }
        if !external_id_fits(&water_external_id) || self.water_meter_account.is_some() {
            return Err(GreenmoveError::InvalidWaterExternalId);
        }
        if track_energy && (!external_id_fits(&energy_external_id)
            || self.energy_meter_account.is_some()) {
            return Err(GreenmoveError::InvalidEnergyExternalId);
        }
        let user_data = match self.user_data.take() {
            Some(mut existing) => {
                existing.property_account.push(self.property_key);
                existing
            },
            None => {
                let mut property_account: Vec<Pubkey> = Vec::new();
                property_account.push(self.property_key);
                User {
                    owner: self.user,
                    property_account,
                    reward_account: self.reward_key,
                    registration_timestamp: now,
                    bump: bumps.user_data,
                }
            },
        };
        self.user_data = Some(user_data);
        let mut water_meter_accounts: Vec<Pubkey> = Vec::new();
        water_meter_accounts.push(self.water_meter_key);
        let mut energy_meter_accounts: Vec<Pubkey> = Vec::new();
        if track_energy {
            energy_meter_accounts.push(self.energy_meter_key);
        }
        self.property_account = Some(
            Property {
                owner: self.user,
                property_external_id,
                water_meter_accounts,
                energy_meter_accounts,
                bump: bumps.property_account,
            },
        );
        self.water_meter_account = Some(
            WaterMeter::new(
                self.property_key,
                self.water_meter_key,
                water_external_id,
                water_depin_feed_address,
                bumps.water_meter_account,
            ),
        );
        if track_energy {
            self.energy_meter_account = Some(
                EnergyMeter::new(
                    self.property_key,
                    self.energy_meter_key,
                    energy_external_id,
                    energy_depin_feed_address,
                    bumps.energy_meter_account,
                ),
            );
        }
        if self.reward_account.is_none() {
            self.reward_account = Some(UserReward::new(self.user, bumps.reward_account));
        }
        Ok(())
    }

    /// `self` is `pre` after a successful registration: the property exists,
    /// owned by the participant and linking its new meters; the meters are
    /// empty ledgers pointing back at the property; the participant lists the
    /// property, and keeps its record and ledger if it had them.
    pub open spec fn registered(
        self,
        pre: ConnectDepin,
        property_external_id: Seq<char>,
        water_external_id: Seq<char>,
        energy_external_id: Seq<char>,
        water_depin_feed_address: Pubkey,
        energy_depin_feed_address: Pubkey,
        track_energy: bool,
        now: i64,
        bumps: ConnectDepinBumps,
    ) -> bool {
        &&& self.user == pre.user
        &&& self.property_key == pre.property_key
        &&& self.water_meter_key == pre.water_meter_key
        &&& self.energy_meter_key == pre.energy_meter_key
        &&& self.reward_key == pre.reward_key
        &&& self.property_account matches Some(p) && {
            &&& p.owner == pre.user
            &&& p.property_external_id@ == property_external_id
            &&& p.water_meter_accounts@ == seq![pre.water_meter_key]
            &&& p.energy_meter_accounts@ == (if track_energy {
                seq![pre.energy_meter_key]
            } else {
                Seq::<Pubkey>::empty()
            })
            &&& p.bump == bumps.property_account
        }
        &&& self.water_meter_account matches Some(w) && {
            &&& w.wf()
            &&& w.usage_history@.len() == 0
            &&& w.property == pre.property_key
            &&& w.water_meter_account == pre.water_meter_key
            &&& w.water_external_id@ == water_external_id
            &&& w.depin_feed_address == water_depin_feed_address
            &&& w.last_calculated_timestamp == 0
            &&& w.total_water_consumed == 0
            &&& w.total_water_saved == 0
            &&& w.bump == bumps.water_meter_account
        }
        &&& if track_energy {
            self.energy_meter_account matches Some(e) && {
                &&& e.wf()
                &&& e.consumption_history@.len() == 0
                &&& e.property == pre.property_key
                &&& e.energy_meter_account == pre.energy_meter_key
                &&& e.energy_external_id@ == energy_external_id
                &&& e.depin_feed_address == energy_depin_feed_address
                &&& e.last_calculated_timestamp == 0
                &&& e.total_energy_consumed == 0
                &&& e.total_energy_saved == 0
                &&& e.bump == bumps.energy_meter_account
            }
        } else {
            self.energy_meter_account == pre.energy_meter_account
        }
        &&& self.user_data matches Some(u) && match pre.user_data {
            Some(old_u) => {
                &&& u.owner == old_u.owner
                &&& u.property_account@ == old_u.property_account@.push(pre.property_key)
                &&& u.reward_account == old_u.reward_account
                &&& u.registration_timestamp == old_u.registration_timestamp
                &&& u.bump == old_u.bump
            },
            None => {
                &&& u.owner == pre.user
                &&& u.property_account@ == seq![pre.property_key]
                &&& u.reward_account == pre.reward_key
                &&& u.registration_timestamp == now
                &&& u.bump == bumps.user_data
            },
        }
        &&& self.reward_account matches Some(rw) && match pre.reward_account {
            Some(old_rw) => rw == old_rw,
            None => {
                &&& rw.owner == pre.user
                &&& rw.total_reward_balance == 0
                &&& rw.redemption_history@.len() == 0
                &&& rw.bump == bumps.reward_account
            },
        }
    }
}

} // verus!
