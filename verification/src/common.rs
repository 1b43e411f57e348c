use vstd::prelude::*;

use crate::market::msg::PetMsg;

verus! {

/// An amount of one denomination of native tokens sent along with a message.
#[derive(Clone, Debug, PartialEq, Eq)]
pub struct Coin {
    pub denom: String,
    pub amount: u128,
}

/// What the contracts read of the environment a message comes with.
#[derive(Clone, Debug, PartialEq, Eq)]
pub struct Env {
    /// The human address of the account that sent the message.
    pub sender: String,
    /// The native tokens sent along with the message.
    pub sent_funds: Vec<Coin>,
    /// The time of the current block, in seconds.
    pub block_time: u64,
}

/// A message that a contract sends out to another contract.
#[derive(Clone, Debug, PartialEq, Eq)]
pub enum Message {
    /// A SNIP-20 `mint` of `amount` tokens to `recipient`, sent to the token
    /// contract at `contract_addr` (block size 0, no memo, no padding).
    Mint { recipient: String, amount: u128, callback_code_hash: String, contract_addr: String },
    /// A SNIP-20 `burn_from` of `amount` tokens owned by `owner`, sent to the
    /// token contract at `contract_addr` (block size 0, no memo, no padding).
    BurnFrom { owner: String, amount: u128, callback_code_hash: String, contract_addr: String },
    /// An execution of another contract with `msg` as its JSON body and no funds attached.
    Execute { contract_addr: String, callback_code_hash: String, msg: PetMsg },
}

/// The answer of a successful handle: the messages it sends out.
#[derive(Clone, Debug, PartialEq, Eq)]
pub struct Response {
    pub messages: Vec<Message>,
}

impl Response {
    /// A response that sends nothing.
    pub fn empty() -> (res: Response)
        ensures
            res.messages@.len() == 0,
    {
        Response { messages: Vec::new() }
    }
}

/// Why a handle or query is refused. `E` is the error type of the host's
/// address conversion and of the queries made to other contracts.
#[derive(Clone, Debug, PartialEq, Eq)]
pub enum ContractError<E> {
    /// The sender may not do this.
    Unauthorized,
    /// Fewer tokens than the price were sent or held.
    NotEnoughTokens,
    /// A pet of that name exists already.
    PetNameExists,
    /// The pet is not hungry yet, or has starved.
    PetCannotBeFed,
    /// No pet was ever stored.
    PetsNotCreated,
    /// No pet has that name.
    PetNotFound,
    /// The host or another contract answered with an error.
    Api(E),
}

/// Compares two byte strings, such as canonical addresses.
pub fn bytes_eq(a: &Vec<u8>, b: &Vec<u8>) -> (res: bool)
    ensures
        res == (a@ == b@),
{
    if a.len() != b.len() {
        return false;
    }
    let mut i: usize = 0;
    while i < a.len()
        invariant
            a.len() == b.len(),
            i <= a.len(),
            forall|j: int| 0 <= j < i ==> a@[j] == b@[j],
        decreases a.len() - i,
    {
        if a[i] != b[i] {
            return false;
        }
        i = i + 1;
    }
    assert(a@ =~= b@);
    true
}

/// Copies a byte string.
pub fn copy_bytes(a: &Vec<u8>) -> (res: Vec<u8>)
    ensures
        res@ == a@,
{
    let mut res: Vec<u8> = Vec::new();
    let mut i: usize = 0;
    while i < a.len()
        invariant
            i <= a.len(),
            res@ =~= a@.take(i as int),
        decreases a.len() - i,
    {
        res.push(a[i]);
        i = i + 1;
    }
    assert(a@.take(a.len() as int) =~= a@);
    res
}

} // verus!
