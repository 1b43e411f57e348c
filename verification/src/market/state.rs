use vstd::prelude::*;

use crate::common::{copy_bytes, Message, Response};
use crate::market::msg::PetMsg;

verus! {

/// `m` asks the pet contract at `pet_addr` to create a pet named `pet_name` for `owner`.
pub open spec fn is_create_pet_msg(m: Message, pet_addr: String, pet_hash: String, pet_name: Seq<char>, owner: String) -> bool {
    match m {
        Message::Execute { contract_addr, callback_code_hash, msg: PetMsg::CreateNewPet { pet_name: n, owner: o } } =>
            contract_addr == pet_addr && callback_code_hash == pet_hash && n@ == pet_name && o == owner,
        _ => false,
    }
}

/// The message `buy_pet` builds asks the pet contract at `pet_addr` for a
/// pet named exactly `pet_name`, character for character, owned by `owner`.
pub proof fn law_create_pet_msg_carries_name(m: Message, pet_addr: String, pet_hash: String, pet_name: Seq<char>, owner: String)
    requires
        is_create_pet_msg(m, pet_addr, pet_hash, pet_name, owner),
    ensures
        match m {
            Message::Execute { contract_addr, callback_code_hash, msg: PetMsg::CreateNewPet { pet_name: n, owner: o } } => {
                &&& contract_addr == pet_addr
                &&& callback_code_hash == pet_hash
                &&& n@.len() == pet_name.len()
                &&& forall|k: int| 0 <= k < pet_name.len() ==> n@[k] == pet_name[k]
                &&& o == owner
            },
            _ => false,
        },
{
}

/// Where another contract lives.
#[derive(Clone, Debug, PartialEq, Eq)]
pub struct ContractInfo {
    pub addr: String,
    pub hash: String,
}

/// The market's configuration and running total.
#[derive(Clone, Debug, PartialEq, Eq)]
pub struct State {
    /// All `uscrt` received so far.
    pub total_amount: u128,
    /// The price of a pet, in `uscrt`.
    pub pet_price: u128,
    /// The food token contract.
    pub food_contract: ContractInfo,
    /// Canonical address of the account that instantiated the market.
    pub owner: Vec<u8>,
}

impl State {
    /// Address of the food token contract.
    pub fn get_snip_addr(&self) -> (addr: String)
        ensures
            addr == self.food_contract.addr,
    {
        self.food_contract.addr.clone()
    }

    /// Code hash of the food token contract.
    pub fn get_snip_hash(&self) -> (hash: String)
        ensures
            hash == self.food_contract.hash,
    {
        self.food_contract.hash.clone()
    }

    /// The price of a pet.
    pub fn get_pet_price(&self) -> (price: u128)
        ensures
            price == self.pet_price,
    {
        self.pet_price
    }

    /// The owner's canonical address.
    pub fn get_owner(&self) -> (owner: Vec<u8>)
        ensures
            owner@ == self.owner@,
    {
        copy_bytes(&self.owner)
    }

    /// Sets the price of a pet and nothing else.
    pub fn change_pet_price(&mut self, price: u128)
        ensures
            final(self).pet_price == price,
            final(self).total_amount == old(self).total_amount,
            final(self).food_contract == old(self).food_contract,
            final(self).owner == old(self).owner,
    {
        self.pet_price = price;
    }

    /// Adds `amount` to the running total and changes nothing else.
    pub fn increase_total_amount(&mut self, amount: u128)
        requires
            old(self).total_amount + amount <= u128::MAX,
        ensures
            final(self).total_amount == old(self).total_amount + amount,
            final(self).pet_price == old(self).pet_price,
            final(self).food_contract == old(self).food_contract,
            final(self).owner == old(self).owner,
    {
        self.total_amount = self.total_amount + amount;
    }

    /// The response that mints `amount` food tokens for `recipient`.
    pub fn mint_tokens(recipient: String, amount: u128, contract_hash: String, contract_addr: String) -> (res: Response)
        ensures
            res.messages@ == seq![Message::Mint { recipient, amount, callback_code_hash: contract_hash, contract_addr }],
    {
        let mut messages: Vec<Message> = Vec::new();
        messages.push(Message::Mint { recipient, amount, callback_code_hash: contract_hash, contract_addr });
        Response { messages }
    }

    /// The response that asks the pet contract to create `pet_name` for `owner_addr`.
    pub fn buy_pet(owner_addr: String, pet_name: &str, pet_hash: String, pet_addr: String) -> (res: Response)
        ensures
            res.messages@.len() == 1,
            is_create_pet_msg(res.messages@[0], pet_addr, pet_hash, pet_name@, owner_addr),
    {
        let msg = PetMsg::create_new_pet(pet_name, owner_addr);
        let mut messages: Vec<Message> = Vec::new();
        messages.push(Message::Execute { contract_addr: pet_addr, callback_code_hash: pet_hash, msg });
        Response { messages }
    }
}

} // verus!
