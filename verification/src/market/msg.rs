use vstd::prelude::*;

verus! {

/// The market's instantiation message.
#[derive(Clone, Debug, PartialEq, Eq)]
pub struct InitMsg {
    /// Address of the SNIP-20 food token contract.
    pub snip_addr: String,
    /// Code hash of the food token contract.
    pub snip_hash: String,
    pub pet_addr: String,
    pub pet_hash: String,
    /// The price of a pet, in `uscrt`.
    pub pet_price: u128,
}

/// The market's handle messages.
#[derive(Clone, Debug, PartialEq, Eq)]
pub enum HandleMsg {
    /// Buy food tokens with the `uscrt` sent along.
    BuyFood,
    /// Buy a pet named `pet_name` from the pet contract at `pet_addr`.
    BuyPet { pet_name: String, pet_addr: String, pet_hash: String },
    /// Set the price of a pet; only the owner may.
    ChangePetPrice { price: u128 },
}

/// The market's queries.
#[derive(Clone, Debug, PartialEq, Eq)]
pub enum QueryMsg {
    /// The total amount of `uscrt` the market has received.
    Amount,
}

/// The answer to [`QueryMsg::Amount`].
#[derive(Clone, Debug, PartialEq, Eq)]
pub struct TotalAmountResponse {
    pub amount: u128,
}

/// The message sent to the pet contract to create a pet.
#[derive(Clone, Debug, PartialEq, Eq)]
pub enum PetMsg {
    CreateNewPet { pet_name: String, owner: String },
}

impl PetMsg {
    /// The message that asks the pet contract to create `pet_name` for `owner`.
    pub fn create_new_pet(pet_name: &str, owner: String) -> (msg: PetMsg)
        ensures
            msg matches PetMsg::CreateNewPet { pet_name: n, owner: o } && n@ == pet_name@ && o == owner,
    {
        PetMsg::CreateNewPet { pet_name: pet_name.to_owned(), owner }
    }
}

} // verus!
