use vstd::prelude::*;

use crate::common::{copy_bytes, Message, Response};
use crate::pet::msg::PetInfo;

verus! {

/// Number of seconds in an hour.
pub const SECONDS_PER_HOUR: u64 = 3600;

/// Converts a number of hours into seconds.
pub fn hours_to_seconds(num_of_hours: u64) -> (seconds: u64)
    requires
        num_of_hours * SECONDS_PER_HOUR <= u64::MAX,
    ensures
        seconds == num_of_hours * SECONDS_PER_HOUR,
{
    num_of_hours * SECONDS_PER_HOUR
}

/// Where another contract lives.
#[derive(Clone, Debug, PartialEq, Eq)]
pub struct ContractInfo {
    pub addr: String,
    pub hash: String,
}

impl ContractInfo {
    /// A copy of this contract's location.
    pub fn copy(&self) -> (info: ContractInfo)
        ensures
            info == *self,
    {
        ContractInfo { addr: self.addr.clone(), hash: self.hash.clone() }
    }
}

/// The pet contract's configuration.
#[derive(Clone, Debug, PartialEq, Eq)]
pub struct State {
    /// The food token contract.
    pub food_contract: ContractInfo,
    /// How pets live and what a meal costs.
    pub pet_info: PetInfo,
    /// The human address of the market, the only account that may create pets.
    pub market_addr: String,
    /// Canonical address of the account that instantiated the contract,
    /// where the host could convert it.
    pub owner: Option<Vec<u8>>,
}

/// A pet last fed at `last_feeding` may be fed at `now`: it is hungry again
/// and has not starved.
pub open spec fn feeding_window_open(pet_info: PetInfo, last_feeding: u64, now: u64) -> bool {
    let elapsed = now - last_feeding;
    pet_info.full_hours * SECONDS_PER_HOUR <= elapsed && elapsed <= pet_info.alive_hours * SECONDS_PER_HOUR
}

/// The feeding check runs without an underflow or overflow; the contract
/// panics on every other input.
pub open spec fn feeding_check_runs(pet_info: PetInfo, last_feeding: u64, now: u64) -> bool {
    &&& last_feeding <= now
    &&& pet_info.full_hours * SECONDS_PER_HOUR <= u64::MAX
    &&& now - last_feeding >= pet_info.full_hours * SECONDS_PER_HOUR
        ==> pet_info.alive_hours * SECONDS_PER_HOUR <= u64::MAX
}

/// The feeding window is exactly from `full_hours` to `alive_hours` hours
/// after the last meal, both ends included: a pet can be fed at every time in
/// it, and at no time before or after it.
pub proof fn law_feeding_window(pet_info: PetInfo, last_feeding: u64, now: u64)
    requires
        last_feeding <= now,
    ensures
        pet_info.full_hours * 3600 <= now - last_feeding <= pet_info.alive_hours * 3600
            ==> feeding_window_open(pet_info, last_feeding, now),
        now - last_feeding < pet_info.full_hours * 3600 ==> !feeding_window_open(pet_info, last_feeding, now),
        now - last_feeding > pet_info.alive_hours * 3600 ==> !feeding_window_open(pet_info, last_feeding, now),
{
}

impl State {
    /// The owner's canonical address, if known.
    pub fn get_owner(&self) -> (owner: Option<Vec<u8>>)
        ensures
            match self.owner {
                Some(o) => owner matches Some(c) && c@ == o@,
                None => owner is None,
            },
    {
        match &self.owner {
            Some(o) => Some(copy_bytes(o)),
            None => None,
        }
    }

    /// The market's human address.
    pub fn get_market_addr(&self) -> (addr: String)
        ensures
            addr == self.market_addr,
    {
        self.market_addr.clone()
    }

    /// How pets live.
    pub fn get_pet_info(&self) -> (info: PetInfo)
        ensures
            info == self.pet_info,
    {
        self.pet_info
    }

    /// The food token contract.
    pub fn get_snip_info(&self) -> (info: ContractInfo)
        ensures
            info == self.food_contract,
    {
        self.food_contract.copy()
    }

    /// The response that burns `amount` of `address`'s food tokens.
    pub fn burn_tokens(&self, amount: u128, address: String) -> (res: Response)
        ensures
            res.messages@ == seq![
                Message::BurnFrom {
                    owner: address,
                    amount,
                    callback_code_hash: self.food_contract.hash,
                    contract_addr: self.food_contract.addr,
                },
            ],
    {
        let info = self.get_snip_info();
        let mut messages: Vec<Message> = Vec::new();
        messages.push(Message::BurnFrom { owner: address, amount, callback_code_hash: info.hash, contract_addr: info.addr });
        Response { messages }
    }

    /// Whether a pet last fed at `last_feeding_timestamp` may be fed at `current_time`.
    pub fn can_pet_be_fed(&self, last_feeding_timestamp: u64, current_time: u64) -> (fed: bool)
        requires
            feeding_check_runs(self.pet_info, last_feeding_timestamp, current_time),
        ensures
            fed == feeding_window_open(self.pet_info, last_feeding_timestamp, current_time),
    {
        let time_difference = current_time - last_feeding_timestamp;
        if time_difference < hours_to_seconds(self.get_pet_info().full_hours)
            || time_difference > hours_to_seconds(self.get_pet_info().alive_hours) {
            false
        } else {
            true
        }
    }

    /// Replaces how pets live, and nothing else.
    pub fn change_pet_info(&mut self, pet_info: PetInfo)
        ensures
            final(self).pet_info == pet_info,
            final(self).food_contract == old(self).food_contract,
            final(self).market_addr == old(self).market_addr,
            final(self).owner == old(self).owner,
    {
        self.pet_info = pet_info;
    }
}

} // verus!
