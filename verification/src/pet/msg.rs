use vstd::prelude::*;

use crate::pet::state::ContractInfo;

verus! {

/// How pets live: they may be fed once `full_hours` have passed since their
/// last meal and no later than `alive_hours` after it; a meal costs
/// `feeding_price` food tokens.
#[derive(Clone, Copy, Debug, PartialEq, Eq)]
pub struct PetInfo {
    pub full_hours: u64,
    pub alive_hours: u64,
    pub feeding_price: u128,
}

/// The pet contract's instantiation message.
#[derive(Clone, Debug, PartialEq, Eq)]
pub struct InitMsg {
    pub snip_info: ContractInfo,
    pub pet_info: PetInfo,
    pub market_addr: String,
}

/// The pet contract's handle messages.
#[derive(Clone, Debug, PartialEq, Eq)]
pub enum HandleMsg {
    /// Feed the sender's pet `pet_name`, burning `amount` of the sender's food tokens.
    FeedPet { amount: u128, viewing_key: String, pet_name: String },
    /// Create a pet for `owner`; only the market may.
    CreateNewPet { pet_name: String, owner: String },
    /// Create a viewing key for the sender.
    CreateViewingKey { entropy: String },
}

/// The pet contract's queries.
#[derive(Clone, Debug, PartialEq, Eq)]
pub enum QueryMsg {
    /// The pet named `name`.
    Pet { name: String },
    /// Page `page_num` (from 1) of the pets owned by `address`, `page_size` per page.
    Pets { page_num: u64, page_size: u64, viewing_key: String, address: String },
}

/// When a pet was last fed.
#[derive(Clone, Debug, PartialEq, Eq)]
pub struct LastFeedingResponse {
    pub timestamp: u64,
}

/// A newly created viewing key.
#[derive(Clone, Debug, PartialEq, Eq)]
pub struct ViewingKeyResponse {
    pub key: String,
}

} // verus!
