use vstd::prelude::*;

use crate::common::{bytes_eq, ContractError, Response};
use crate::common::Env;
use crate::pet::msg::{HandleMsg, InitMsg, QueryMsg};
use crate::pet::pet::{
    get_pet_post, lemma_position_of, lemma_position_of_push, lemma_position_of_unique, lemma_position_of_update,
    names_unique, owned_by, page_of, pets_view, position_of, store_created, store_view, Pet, PetView,
};
use crate::pet::state::{feeding_check_runs, feeding_window_open, State};

verus! {

/// The pet store as the contract keeps it: no two pets share a name, and the
/// ids run 1, 2, ... up to `total` in store order.
pub open spec fn store_wf(pets: Seq<PetView>, total: u64) -> bool {
    &&& names_unique(pets)
    &&& pets.len() == total
    &&& forall|i: int| 0 <= i < pets.len() ==> #[trigger] pets[i].0 == i + 1
}

/// The pet `p` after a meal at `now`.
pub open spec fn fed(p: PetView, now: u64) -> PetView {
    (p.0, p.1, now, p.3)
}

/// Creating a pet runs without an overflow of the id counter or of the
/// store's length; the contract panics on every other input.
pub open spec fn create_pet_runs<E>(
    state: State,
    total: u64,
    store: Option<Vec<Pet>>,
    sender: String,
    pet_name: String,
    owner_canonical: Result<Vec<u8>, E>,
) -> bool {
    sender@ == state.market_addr@ && position_of(store_view(store), pet_name@) is None ==> {
        &&& total < u64::MAX
        &&& owner_canonical is Ok ==> store_view(store).len() < u32::MAX
    }
}

/// The outcome of creating a pet: only the market may, the name must be new,
/// and the new pet gets the next id, is fed at `now` and belongs to `owner`.
/// Once the sender is accepted the store exists, and once the name is found
/// new the id counter has advanced, whatever follows.
pub open spec fn create_pet_post<E>(
    state: State,
    old_total: u64,
    new_total: u64,
    old_store: Option<Vec<Pet>>,
    new_store: Option<Vec<Pet>>,
    sender: String,
    pet_name: String,
    owner_canonical: Result<Vec<u8>, E>,
    now: u64,
    res: Result<Response, ContractError<E>>,
) -> bool {
    let pets = store_view(old_store);
    if sender@ != state.market_addr@ {
        res == Err::<Response, ContractError<E>>(ContractError::Unauthorized) && new_total == old_total
            && new_store == old_store
    } else if position_of(pets, pet_name@) is Some {
        res == Err::<Response, ContractError<E>>(ContractError::PetNameExists) && new_total == old_total
            && store_created(old_store, new_store)
    } else {
        match owner_canonical {
            Err(e) => res == Err::<Response, ContractError<E>>(ContractError::Api(e)) && new_total == old_total + 1
                && store_created(old_store, new_store),
            Ok(o) => {
                &&& res is Ok
                &&& res->Ok_0.messages@.len() == 0
                &&& new_total == old_total + 1
                &&& new_store is Some
                &&& store_view(new_store) == pets.push((new_total, pet_name@, now, o@))
            },
        }
    }
}

/// Feeding runs without an underflow or overflow in the feeding check;
/// the contract panics on every other input.
pub open spec fn feed_runs<E>(
    state: State,
    store: Option<Vec<Pet>>,
    sender_canonical: Result<Vec<u8>, E>,
    pet_name: String,
    now: u64,
) -> bool {
    match position_of(store_view(store), pet_name@) {
        Some(i) => match sender_canonical {
            Ok(c) => store_view(store)[i].3 == c@ ==> feeding_check_runs(state.pet_info, store_view(store)[i].2, now),
            Err(_) => true,
        },
        None => true,
    }
}

/// Feeding gets as far as the balance check: the pet exists, belongs to the
/// sender and is in its feeding window.
pub open spec fn feed_reaches_balance<E>(
    state: State,
    store: Option<Vec<Pet>>,
    sender_canonical: Result<Vec<u8>, E>,
    pet_name: String,
    now: u64,
) -> bool {
    &&& store is Some
    &&& position_of(store_view(store), pet_name@) is Some
    &&& sender_canonical is Ok
    &&& store_view(store)[position_of(store_view(store), pet_name@)->Some_0].3 == sender_canonical->Ok_0@
    &&& feeding_window_open(
        state.pet_info,
        store_view(store)[position_of(store_view(store), pet_name@)->Some_0].2,
        now,
    )
}

/// The outcome of feeding: the pet must exist and belong to the sender, be
/// in its feeding window, and the sender must hold at least the feeding
/// price; then the pet is fed at `now` and `amount` of the sender's food
/// tokens are burnt. A refused request changes nothing.
pub open spec fn feed_post<E>(
    state: State,
    old_store: Option<Vec<Pet>>,
    new_store: Option<Vec<Pet>>,
    sender: String,
    sender_canonical: Result<Vec<u8>, E>,
    now: u64,
    amount: u128,
    balance: Option<Result<u128, E>>,
    pet_name: String,
    res: Result<Response, ContractError<E>>,
) -> bool {
    let pets = store_view(old_store);
    let unchanged = new_store == old_store;
    if old_store is None {
        res == Err::<Response, ContractError<E>>(ContractError::PetsNotCreated) && unchanged
    } else {
        match position_of(pets, pet_name@) {
            None => res == Err::<Response, ContractError<E>>(ContractError::PetNotFound) && unchanged,
            Some(i) => match sender_canonical {
                Err(e) => res == Err::<Response, ContractError<E>>(ContractError::Api(e)) && unchanged,
                Ok(c) => if pets[i].3 != c@ {
                    res == Err::<Response, ContractError<E>>(ContractError::Unauthorized) && unchanged
                } else if !feeding_window_open(state.pet_info, pets[i].2, now) {
                    res == Err::<Response, ContractError<E>>(ContractError::PetCannotBeFed) && unchanged
                } else {
                    match balance->Some_0 {
                        Err(e) => res == Err::<Response, ContractError<E>>(ContractError::Api(e)) && unchanged,
                        Ok(b) => if b < state.pet_info.feeding_price {
                            res == Err::<Response, ContractError<E>>(ContractError::NotEnoughTokens) && unchanged
                        } else {
                            &&& res is Ok
                            &&& res->Ok_0.messages@ == seq![
                                crate::common::Message::BurnFrom {
                                    owner: sender,
                                    amount,
                                    callback_code_hash: state.food_contract.hash,
                                    contract_addr: state.food_contract.addr,
                                },
                            ]
                            &&& new_store is Some
                            &&& store_view(new_store) == pets.update(i, fed(pets[i], now))
                        },
                    }
                },
            },
        }
    }
}

/// Whether `try_create_pet` may be called: the answer to `create_pet_runs`.
pub fn create_pet_can_run<E>(
    state: &State,
    total: u64,
    store: &Option<Vec<Pet>>,
    sender: &String,
    pet_name: &String,
    owner_canonical: &Result<Vec<u8>, E>,
) -> (ok: bool)
    ensures
        ok == create_pet_runs(*state, total, *store, *sender, *pet_name, *owner_canonical),
{
    if *sender != state.market_addr || Pet::has_name(store, pet_name.as_str()) {
        return true;
    }
    let len: usize = match store {
        Some(v) => v.len(),
        None => 0,
    };
    total < u64::MAX && (owner_canonical.is_err() || len < 4294967295usize)
}

/// Whether `try_feed` may be called: the answer to `feed_runs`.
pub fn feed_can_run<E>(
    state: &State,
    store: &Option<Vec<Pet>>,
    sender_canonical: &Result<Vec<u8>, E>,
    pet_name: &String,
    now: u64,
) -> (ok: bool)
    ensures
        ok == feed_runs(*state, *store, *sender_canonical, *pet_name, now),
{
    let pet = match Pet::get_pet::<E>(store, pet_name.as_str()) {
        Err(_) => return true,
        Ok(p) => p,
    };
    let canonical = match sender_canonical {
        Err(_) => return true,
        Ok(c) => c,
    };
    if !bytes_eq(&pet.owner, canonical) {
        return true;
    }
    if pet.last_feeding > now {
        return false;
    }
    match state.pet_info.full_hours.checked_mul(3600) {
        None => false,
        Some(full) => now - pet.last_feeding < full || state.pet_info.alive_hours.checked_mul(3600).is_some(),
    }
}

/// Creates the pet contract's configuration and an id counter at 0. The
/// sender is recorded as owner where the host could convert its address;
/// instantiation succeeds either way.
pub fn init<E>(sender_canonical: Result<Vec<u8>, E>, msg: InitMsg) -> (res: (State, u64))
    ensures
        res == ((
            State {
                food_contract: msg.snip_info,
                pet_info: msg.pet_info,
                market_addr: msg.market_addr,
                owner: match sender_canonical {
                    Ok(c) => Some(c),
                    Err(_) => None::<Vec<u8>>,
                },
            },
            0u64,
        )),
        store_wf(store_view(None), res.1),
{
    let owner = match sender_canonical {
        Ok(c) => Some(c),
        Err(_) => None,
    };
    (State { food_contract: msg.snip_info, pet_info: msg.pet_info, market_addr: msg.market_addr, owner }, 0)
}

/// Creates a pet on the market's request. `owner_canonical` is the host's
/// canonical form of `owner`, the new pet's owner.
pub fn try_create_pet<E>(
    state: &State,
    total: &mut u64,
    store: &mut Option<Vec<Pet>>,
    sender: String,
    pet_name: String,
    owner_canonical: Result<Vec<u8>, E>,
    now: u64,
) -> (res: Result<Response, ContractError<E>>)
    requires
        create_pet_runs(*state, *old(total), *old(store), sender, pet_name, owner_canonical),
    ensures
        create_pet_post(*state, *old(total), *final(total), *old(store), *final(store), sender, pet_name, owner_canonical, now, res),
        res is Ok ==> position_of(store_view(*final(store)), pet_name@) == Some(store_view(*old(store)).len() as int),
        !(res matches Err(ContractError::Api(_))) && store_wf(store_view(*old(store)), *old(total))
            ==> store_wf(store_view(*final(store)), *final(total)),
{
    if sender != state.get_market_addr() {
        return Err(ContractError::Unauthorized);
    }
    let ghost old_pets = store_view(*store);
    if Pet::name_already_exists(store, pet_name.as_str()) {
        return Err(ContractError::PetNameExists);
    }
    let id = Pet::next_id(total);
    let owner = match owner_canonical {
        Err(e) => return Err(ContractError::Api(e)),
        Ok(o) => o,
    };
    let new_pet = Pet::new(id, pet_name, now, owner);
    Pet::create(store, &new_pet);
    proof {
        lemma_position_of_push(old_pets, new_pet@, new_pet.name@);
        let pets = store_view(*store);
        if names_unique(old_pets) {
            lemma_position_of(old_pets, new_pet.name@);
            assert(names_unique(pets));
        }
    }
    Ok(Response::empty())
}

/// Feeds the sender's pet `pet_name` and burns `amount` of the sender's food
/// tokens. `sender_canonical` is the host's canonical form of `sender`;
/// `balance` is the food token contract's answer to the balance query of
/// `feed_balance_query`, needed only once the pet is found hungry and the
/// sender's own.
pub fn try_feed<E>(
    state: &State,
    store: &mut Option<Vec<Pet>>,
    sender: String,
    sender_canonical: Result<Vec<u8>, E>,
    now: u64,
    amount: u128,
    balance: Option<Result<u128, E>>,
    pet_name: String,
) -> (res: Result<Response, ContractError<E>>)
    requires
        feed_runs(*state, *old(store), sender_canonical, pet_name, now),
        feed_reaches_balance(*state, *old(store), sender_canonical, pet_name, now) ==> balance is Some,
    ensures
        feed_post(*state, *old(store), *final(store), sender, sender_canonical, now, amount, balance, pet_name, res),
        position_of(store_view(*final(store)), pet_name@) == position_of(store_view(*old(store)), pet_name@),
        forall|total: u64| store_wf(store_view(*old(store)), total) ==> store_wf(store_view(*final(store)), total),
{
    let ghost pets = store_view(*store);
    let mut pet = match Pet::get_pet(store, pet_name.as_str()) {
        Err(e) => return Err(e),
        Ok(p) => p,
    };
    let ghost i = position_of(pets, pet_name@)->Some_0;
    proof {
        lemma_position_of(pets, pet_name@);
    }
    let canonical = match sender_canonical {
        Err(e) => return Err(ContractError::Api(e)),
        Ok(c) => c,
    };
    if !bytes_eq(&pet.owner, &canonical) {
        return Err(ContractError::Unauthorized);
    }
    if !state.can_pet_be_fed(pet.last_feeding, now) {
        return Err(ContractError::PetCannotBeFed);
    }
    let held = match balance.unwrap() {
        Err(e) => return Err(ContractError::Api(e)),
        Ok(b) => b,
    };
    if held < state.get_pet_info().feeding_price {
        return Err(ContractError::NotEnoughTokens);
    }
    pet.last_feeding = now;
    assert(pet@ == fed(pets[i], now));
    match Pet::update::<E>(store, &pet) {
        Err(e) => return Err(e),
        Ok(()) => {},
    }
    proof {
        lemma_position_of_update(pets, i, pet@, pet_name@);
        let after = store_view(*store);
        assert forall|j: int| 0 <= j < after.len() implies after[j].1 == pets[j].1 && after[j].0 == pets[j].0 by {}
    }
    Ok(state.burn_tokens(amount, sender))
}

/// The pet named `name`.
pub fn query_pet<E>(store: &Option<Vec<Pet>>, name: String) -> (res: Result<Pet, ContractError<E>>)
    ensures
        get_pet_post(store_view(*store), *store is Some, name@, res),
{
    Pet::get_pet(store, name.as_str())
}

/// A page query runs without a failed conversion or an overflow; the
/// contract panics on every other input.
pub open spec fn query_pets_runs<E>(
    store: Option<Vec<Pet>>,
    page_num: u64,
    page_size: u64,
    key_check: Result<(), E>,
    address_canonical: Result<Vec<u8>, E>,
) -> bool {
    key_check is Ok ==> {
        &&& page_num <= usize::MAX
        &&& page_size <= usize::MAX
        &&& address_canonical is Ok && store is Some ==> page_num >= 1 && page_size * (page_num - 1) <= usize::MAX
    }
}

/// Whether `query_pets` may be called: the answer to `query_pets_runs`.
pub fn query_pets_can_run<E>(
    store: &Option<Vec<Pet>>,
    page_num: u64,
    page_size: u64,
    key_check: &Result<(), E>,
    address_canonical: &Result<Vec<u8>, E>,
) -> (ok: bool)
    ensures
        ok == query_pets_runs(*store, page_num, page_size, *key_check, *address_canonical),
{
    if key_check.is_err() {
        return true;
    }
    if page_num > usize::MAX as u64 || page_size > usize::MAX as u64 {
        return false;
    }
    if address_canonical.is_err() || store.is_none() {
        return true;
    }
    if page_num == 0 {
        return false;
    }
    match page_size.checked_mul(page_num - 1) {
        None => false,
        Some(skip) => skip <= usize::MAX as u64,
    }
}

/// The outcome of a page query: the viewing key must be accepted and the
/// address converted; then the answer is page `page_num` (from 1) of the
/// owner's pets, `page_size` per page, in store order.
pub open spec fn query_pets_post<E>(
    store: Option<Vec<Pet>>,
    page_num: u64,
    page_size: u64,
    key_check: Result<(), E>,
    address_canonical: Result<Vec<u8>, E>,
    res: Result<Vec<Pet>, ContractError<E>>,
) -> bool {
    match key_check {
        Err(e) => res == Err::<Vec<Pet>, ContractError<E>>(ContractError::Api(e)),
        Ok(()) => match address_canonical {
            Err(e) => res == Err::<Vec<Pet>, ContractError<E>>(ContractError::Api(e)),
            Ok(owner) => match store {
                None => res == Err::<Vec<Pet>, ContractError<E>>(ContractError::PetsNotCreated),
                Some(v) => res is Ok && pets_view(res->Ok_0@) == page_of(
                    owned_by(pets_view(v@), owner@),
                    page_size * (page_num - 1),
                    page_size as int,
                ),
            },
        },
    }
}

/// Page `page_num` of the pets owned by `address`. `key_check` is the outcome
/// of checking the viewing key given for `address`; `address_canonical` is the
/// host's canonical form of `address`.
pub fn query_pets<E>(
    store: &Option<Vec<Pet>>,
    page_num: u64,
    page_size: u64,
    key_check: Result<(), E>,
    address_canonical: Result<Vec<u8>, E>,
) -> (res: Result<Vec<Pet>, ContractError<E>>)
    requires
        query_pets_runs(*store, page_num, page_size, key_check, address_canonical),
    ensures
        query_pets_post(*store, page_num, page_size, key_check, address_canonical, res),
{
    match key_check {
        Err(e) => return Err(ContractError::Api(e)),
        Ok(()) => {},
    }
    let num = page_num as usize;
    let size = page_size as usize;
    let owner = match address_canonical {
        Err(e) => return Err(ContractError::Api(e)),
        Ok(o) => o,
    };
    Pet::get_pets(store, num, size, &owner)
}

/// A pet that was just created is what a look-up of its name gives back.
pub proof fn law_created_pet_is_found<E>(pets: Seq<PetView>, new_pet: PetView, res: Result<Pet, ContractError<E>>)
    requires
        position_of(pets, new_pet.1) is None,
        get_pet_post(pets.push(new_pet), true, new_pet.1, res),
    ensures
        res is Ok,
        res->Ok_0@ == new_pet,
{
    lemma_position_of_push(pets, new_pet, new_pet.1);
}

/// After a pet is fed, a look-up of its name gives the pet back, fed at that
/// time and otherwise unchanged.
pub proof fn law_fed_pet_is_found<E>(pets: Seq<PetView>, name: Seq<char>, now: u64, res: Result<Pet, ContractError<E>>)
    requires
        position_of(pets, name) is Some,
        get_pet_post(pets.update(position_of(pets, name)->Some_0, fed(pets[position_of(pets, name)->Some_0], now)), true, name, res),
    ensures
        res is Ok,
        res->Ok_0@ == fed(pets[position_of(pets, name)->Some_0], now),
{
    let i = position_of(pets, name)->Some_0;
    lemma_position_of(pets, name);
    lemma_position_of_update(pets, i, fed(pets[i], now), name);
}

/// In a well-kept store every name leads to the one pet that carries it.
pub proof fn law_name_finds_its_pet(pets: Seq<PetView>, total: u64, i: int)
    requires
        store_wf(pets, total),
        0 <= i < pets.len(),
    ensures
        position_of(pets, pets[i].1) == Some(i),
        pets[i].0 == i + 1,
{
    lemma_position_of_unique(pets, i);
}

/// Every pet in the list of an owner's pets belongs to that owner, and the
/// list is no longer than the store.
pub proof fn law_owned_pets_belong_to_owner(pets: Seq<PetView>, owner: Seq<u8>)
    ensures
        owned_by(pets, owner).len() <= pets.len(),
        forall|k: int| 0 <= k < owned_by(pets, owner).len() ==> (#[trigger] owned_by(pets, owner)[k]).3 == owner,
    decreases pets.len(),
{
    if pets.len() > 0 {
        law_owned_pets_belong_to_owner(pets.drop_last(), owner);
    }
}

/// A page holds at most `size` pets, all owned by the owner asked for.
pub proof fn law_page_is_owned(pets: Seq<PetView>, owner: Seq<u8>, start: int, size: int)
    requires
        0 <= start,
        0 <= size,
    ensures
        page_of(owned_by(pets, owner), start, size).len() <= size,
        forall|k: int| 0 <= k < page_of(owned_by(pets, owner), start, size).len()
            ==> (#[trigger] page_of(owned_by(pets, owner), start, size)[k]).3 == owner,
{
    law_owned_pets_belong_to_owner(pets, owner);
    let s = owned_by(pets, owner);
    let lo = if start < s.len() { start } else { s.len() as int };
    assert forall|k: int| 0 <= k < page_of(s, start, size).len() implies (#[trigger] page_of(s, start, size)[k]).3 == owner by {
        assert(page_of(s, start, size)[k] == s[lo + k]);
    }
}

/// Consecutive pages follow each other without a gap or an overlap: pages
/// `n` and `n + 1` together are the double-size page at page `n`'s start.
pub proof fn law_consecutive_pages<A>(s: Seq<A>, size: int, page_num: int)
    requires
        size >= 0,
        page_num >= 1,
    ensures
        page_of(s, size * (page_num - 1), size) + page_of(s, size * page_num, size)
            == page_of(s, size * (page_num - 1), 2 * size),
{
    assert(size * page_num == size * (page_num - 1) + size) by (nonlinear_arith);
    assert(size * (page_num - 1) >= 0) by (nonlinear_arith)
        requires
            size >= 0,
            page_num >= 1,
    ;
    assert(page_of(s, size * (page_num - 1), size) + page_of(s, size * page_num, size)
        =~= page_of(s, size * (page_num - 1), 2 * size));
}

/// Pages 1 to `k` of `size` items each, put together in order.
pub open spec fn pages_upto<A>(s: Seq<A>, size: int, k: nat) -> Seq<A>
    decreases k,
{
    if k == 0 {
        Seq::empty()
    } else {
        pages_upto(s, size, (k - 1) as nat) + page_of(s, size * (k - 1), size)
    }
}

/// Pages 1 to `k` together are the first `k * size` items (all of them
/// where fewer exist): pages are disjoint, in order, and leave no gap.
/// With `s` the pets an owner has, these are the pages `get_pets` returns.
pub proof fn law_pages_cover<A>(s: Seq<A>, size: int, k: nat)
    requires
        size >= 0,
    ensures
        pages_upto(s, size, k) == s.take(if size * k < s.len() { size * k } else { s.len() as int }),
    decreases k,
{
    if k == 0 {
        assert(size * k == 0) by (nonlinear_arith)
            requires
                k == 0,
        ;
        assert(s.take(0) =~= Seq::<A>::empty());
    } else {
        law_pages_cover(s, size, (k - 1) as nat);
        assert(size * k == size * (k - 1) + size) by (nonlinear_arith);
        assert(size * (k - 1) >= 0) by (nonlinear_arith)
            requires
                size >= 0,
                k >= 1,
        ;
        let hi = if size * k < s.len() { size * k } else { s.len() as int };
        assert(pages_upto(s, size, k) =~= s.take(hi));
    }
}

/// What the host answered for a handle message.
pub struct HostAnswers<E> {
    /// The canonical form of the sender's address.
    pub sender_canonical: Result<Vec<u8>, E>,
    /// For `CreateNewPet`: the canonical form of the new pet's owner.
    pub owner_canonical: Option<Result<Vec<u8>, E>>,
    /// For `FeedPet`: the food token contract's answer to the query that
    /// `feed_balance_query` asks for, where it asks for one.
    pub balance: Option<Result<u128, E>>,
}

/// A balance query to the food token contract: the balance of `address`
/// under `viewing_key`.
#[derive(Clone, Debug, PartialEq, Eq)]
pub struct BalanceQuery {
    pub address: String,
    pub viewing_key: String,
    pub callback_code_hash: String,
    pub contract_addr: String,
}

/// A request to create a viewing key for `account` from `entropy`.
#[derive(Clone, Debug, PartialEq, Eq)]
pub struct ViewingKeyRequest {
    pub account: String,
    pub entropy: String,
}

/// What the host must do or be asked before a handle message is handled.
#[derive(Clone, Debug, PartialEq, Eq)]
pub struct HandleRequests {
    /// The address to convert for the new pet's owner.
    pub convert_owner: Option<String>,
    /// The viewing key to create; such a message reads neither the
    /// configuration, the id counter nor the pet store.
    pub create_viewing_key: Option<ViewingKeyRequest>,
}

/// What the host must do or be asked for `msg`: convert the new pet's
/// owner's address for `CreateNewPet`, and create a viewing key for the
/// sender for `CreateViewingKey`, as `handle` would answer.
pub fn handle_requests(env: &Env, msg: &HandleMsg) -> (req: HandleRequests)
    ensures
        req.convert_owner == match *msg {
            HandleMsg::CreateNewPet { owner, .. } => Some(owner),
            _ => None::<String>,
        },
        req.create_viewing_key == match *msg {
            HandleMsg::CreateViewingKey { entropy } => Some(ViewingKeyRequest { account: env.sender, entropy }),
            _ => None::<ViewingKeyRequest>,
        },
{
    match msg {
        HandleMsg::CreateNewPet { owner, .. } => HandleRequests { convert_owner: Some(owner.clone()), create_viewing_key: None },
        HandleMsg::FeedPet { .. } => HandleRequests { convert_owner: None, create_viewing_key: None },
        HandleMsg::CreateViewingKey { entropy } => HandleRequests {
            convert_owner: None,
            create_viewing_key: Some(ViewingKeyRequest { account: env.sender.clone(), entropy: entropy.clone() }),
        },
    }
}

/// Whether feeding `pet_name` at `now` gets as far as the balance check: the
/// answer to `feed_reaches_balance`, where the feeding check runs.
pub fn feed_needs_balance<E>(
    state: &State,
    store: &Option<Vec<Pet>>,
    sender_canonical: &Result<Vec<u8>, E>,
    pet_name: &String,
    now: u64,
) -> (needed: bool)
    ensures
        feed_runs(*state, *store, *sender_canonical, *pet_name, now)
            ==> needed == feed_reaches_balance(*state, *store, *sender_canonical, *pet_name, now),
{
    if !feed_can_run(state, store, sender_canonical, pet_name, now) {
        return false;
    }
    let pet = match Pet::get_pet::<E>(store, pet_name.as_str()) {
        Err(_) => return false,
        Ok(p) => p,
    };
    proof {
        lemma_position_of(store_view(*store), pet_name@);
    }
    let canonical = match sender_canonical {
        Err(_) => return false,
        Ok(c) => c,
    };
    if !bytes_eq(&pet.owner, canonical) {
        return false;
    }
    state.can_pet_be_fed(pet.last_feeding, now)
}

/// The balance query feeding asks the food token contract for: the sender's
/// balance under the message's viewing key, asked only where feeding gets as
/// far as the balance check.
pub fn feed_balance_query<E>(
    state: &State,
    store: &Option<Vec<Pet>>,
    env: &Env,
    sender_canonical: &Result<Vec<u8>, E>,
    msg: &HandleMsg,
) -> (query: Option<BalanceQuery>)
    ensures
        match *msg {
            HandleMsg::FeedPet { viewing_key, pet_name, .. } => feed_runs(
                *state,
                *store,
                *sender_canonical,
                pet_name,
                env.block_time,
            ) ==> query == if feed_reaches_balance(*state, *store, *sender_canonical, pet_name, env.block_time) {
                Some(
                    BalanceQuery {
                        address: env.sender,
                        viewing_key,
                        callback_code_hash: state.food_contract.hash,
                        contract_addr: state.food_contract.addr,
                    },
                )
            } else {
                None::<BalanceQuery>
            },
            _ => query is None,
        },
{
    match msg {
        HandleMsg::FeedPet { viewing_key, pet_name, .. } => {
            if feed_needs_balance(state, store, sender_canonical, pet_name, env.block_time) {
                let info = state.get_snip_info();
                Some(
                    BalanceQuery {
                        address: env.sender.clone(),
                        viewing_key: viewing_key.clone(),
                        callback_code_hash: info.hash,
                        contract_addr: info.addr,
                    },
                )
            } else {
                None
            }
        },
        _ => None,
    }
}

/// What a handled message leads to.
#[derive(Debug, PartialEq, Eq)]
pub enum HandleOutcome {
    /// Answer with this response.
    Respond(Response),
    /// Create a viewing key for `account` from `entropy` and answer with it.
    CreateViewingKey { account: String, entropy: String },
}

/// `res` is the handle outcome that answers with the handler's result `r`.
pub open spec fn responds_with<E>(res: Result<HandleOutcome, ContractError<E>>, r: Result<Response, ContractError<E>>) -> bool {
    match r {
        Ok(x) => res == Ok::<HandleOutcome, ContractError<E>>(HandleOutcome::Respond(x)),
        Err(e) => res == Err::<HandleOutcome, ContractError<E>>(e),
    }
}

/// The host's answers are there for the message, and its handler runs
/// without a panic.
pub open spec fn handle_runs<E>(
    state: State,
    total: u64,
    store: Option<Vec<Pet>>,
    env: Env,
    msg: HandleMsg,
    answers: HostAnswers<E>,
) -> bool {
    match msg {
        HandleMsg::FeedPet { pet_name, .. } => feed_runs(state, store, answers.sender_canonical, pet_name, env.block_time)
            && (feed_reaches_balance(state, store, answers.sender_canonical, pet_name, env.block_time)
            ==> answers.balance is Some),
        HandleMsg::CreateNewPet { pet_name, .. } => answers.owner_canonical is Some
            && create_pet_runs(state, total, store, env.sender, pet_name, answers.owner_canonical->Some_0),
        HandleMsg::CreateViewingKey { .. } => true,
    }
}

/// Whether `handle` may be called: the answer to `handle_runs`.
pub fn handle_can_run<E>(
    state: &State,
    total: u64,
    store: &Option<Vec<Pet>>,
    env: &Env,
    msg: &HandleMsg,
    answers: &HostAnswers<E>,
) -> (ok: bool)
    ensures
        ok == handle_runs(*state, total, *store, *env, *msg, *answers),
{
    match msg {
        HandleMsg::FeedPet { pet_name, .. } => feed_can_run(state, store, &answers.sender_canonical, pet_name, env.block_time)
            && (answers.balance.is_some()
            || !feed_needs_balance(state, store, &answers.sender_canonical, pet_name, env.block_time)),
        HandleMsg::CreateNewPet { pet_name, .. } => match &answers.owner_canonical {
            None => false,
            Some(owner) => create_pet_can_run(state, total, store, &env.sender, pet_name, owner),
        },
        HandleMsg::CreateViewingKey { .. } => true,
    }
}

/// Dispatches a handle message to its handler: feeding, creating a pet, or
/// creating a viewing key for the sender.
pub fn handle<E>(
    state: &State,
    total: &mut u64,
    store: &mut Option<Vec<Pet>>,
    env: Env,
    msg: HandleMsg,
    answers: HostAnswers<E>,
) -> (res: Result<HandleOutcome, ContractError<E>>)
    requires
        handle_runs(*state, *old(total), *old(store), env, msg, answers),
    ensures
        match msg {
            HandleMsg::FeedPet { amount, pet_name, .. } => {
                &&& *final(total) == *old(total)
                &&& exists|r: Result<Response, ContractError<E>>| #[trigger] responds_with(res, r) && feed_post(
                    *state,
                    *old(store),
                    *final(store),
                    env.sender,
                    answers.sender_canonical,
                    env.block_time,
                    amount,
                    answers.balance,
                    pet_name,
                    r,
                )
            },
            HandleMsg::CreateNewPet { pet_name, .. } => exists|r: Result<Response, ContractError<E>>|
                #[trigger] responds_with(res, r) && create_pet_post(
                    *state,
                    *old(total),
                    *final(total),
                    *old(store),
                    *final(store),
                    env.sender,
                    pet_name,
                    answers.owner_canonical->Some_0,
                    env.block_time,
                    r,
                ),
            HandleMsg::CreateViewingKey { entropy } => {
                &&& res == Ok::<HandleOutcome, ContractError<E>>(
                    HandleOutcome::CreateViewingKey { account: env.sender, entropy },
                )
                &&& *final(total) == *old(total)
                &&& *final(store) == *old(store)
            },
        },
        !(res matches Err(ContractError::Api(_))) && store_wf(store_view(*old(store)), *old(total))
            ==> store_wf(store_view(*final(store)), *final(total)),
{
    let r = match msg {
        HandleMsg::FeedPet { amount, pet_name, .. } => {
            try_feed(state, store, env.sender, answers.sender_canonical, env.block_time, amount, answers.balance, pet_name)
        },
        HandleMsg::CreateNewPet { pet_name, .. } => {
            let owner_canonical = answers.owner_canonical.unwrap();
            try_create_pet(state, total, store, env.sender, pet_name, owner_canonical, env.block_time)
        },
        HandleMsg::CreateViewingKey { entropy } => {
            return Ok(HandleOutcome::CreateViewingKey { account: env.sender, entropy });
        },
    };
    let res = match r {
        Ok(x) => Ok(HandleOutcome::Respond(x)),
        Err(e) => Err(e),
    };
    assert(responds_with(res, r));
    res
}

/// What a query answers with.
#[derive(Debug, PartialEq, Eq)]
pub enum QueryAnswer {
    /// One pet.
    Pet(Pet),
    /// A page of an owner's pets.
    Pets(Vec<Pet>),
}

/// A query can be answered without a panic: a page query comes with the
/// host's answers and runs.
pub open spec fn query_runs<E>(
    store: Option<Vec<Pet>>,
    msg: QueryMsg,
    key_check: Option<Result<(), E>>,
    address_canonical: Option<Result<Vec<u8>, E>>,
) -> bool {
    match msg {
        QueryMsg::Pet { .. } => true,
        QueryMsg::Pets { page_num, page_size, .. } => key_check is Some && address_canonical is Some
            && query_pets_runs(store, page_num, page_size, key_check->Some_0, address_canonical->Some_0),
    }
}

/// Whether `query` may be called: the answer to `query_runs`.
pub fn query_can_run<E>(
    store: &Option<Vec<Pet>>,
    msg: &QueryMsg,
    key_check: &Option<Result<(), E>>,
    address_canonical: &Option<Result<Vec<u8>, E>>,
) -> (ok: bool)
    ensures
        ok == query_runs(*store, *msg, *key_check, *address_canonical),
{
    match msg {
        QueryMsg::Pet { .. } => true,
        QueryMsg::Pets { page_num, page_size, .. } => match (key_check, address_canonical) {
            (Some(k), Some(a)) => query_pets_can_run(store, *page_num, *page_size, k, a),
            _ => false,
        },
    }
}

/// A viewing-key check: `viewing_key` must be `address`'s key.
#[derive(Clone, Debug, PartialEq, Eq)]
pub struct KeyCheck {
    pub address: String,
    pub viewing_key: String,
}

/// What the host must be asked before a query is answered: for `Pets`, to
/// check the viewing key given for the address, and to convert that same
/// address.
pub fn query_requests(msg: &QueryMsg) -> (req: Option<KeyCheck>)
    ensures
        req == match *msg {
            QueryMsg::Pets { viewing_key, address, .. } => Some(KeyCheck { address, viewing_key }),
            QueryMsg::Pet { .. } => None::<KeyCheck>,
        },
{
    match msg {
        QueryMsg::Pets { viewing_key, address, .. } => Some(
            KeyCheck { address: address.clone(), viewing_key: viewing_key.clone() },
        ),
        QueryMsg::Pet { .. } => None,
    }
}

/// Answers a query. For `Pets`, `key_check` is the outcome of checking the
/// viewing key given for the address, and `address_canonical` the address's
/// canonical form.
pub fn query<E>(
    store: &Option<Vec<Pet>>,
    msg: QueryMsg,
    key_check: Option<Result<(), E>>,
    address_canonical: Option<Result<Vec<u8>, E>>,
) -> (res: Result<QueryAnswer, ContractError<E>>)
    requires
        query_runs(*store, msg, key_check, address_canonical),
    ensures
        match msg {
            QueryMsg::Pet { name } => match res {
                Ok(QueryAnswer::Pet(p)) => get_pet_post(store_view(*store), *store is Some, name@, Ok::<Pet, ContractError<E>>(p)),
                Ok(QueryAnswer::Pets(_)) => false,
                Err(e) => get_pet_post(store_view(*store), *store is Some, name@, Err::<Pet, ContractError<E>>(e)),
            },
            QueryMsg::Pets { page_num, page_size, .. } => match res {
                Ok(QueryAnswer::Pets(v)) => query_pets_post(
                    *store,
                    page_num,
                    page_size,
                    key_check->Some_0,
                    address_canonical->Some_0,
                    Ok::<Vec<Pet>, ContractError<E>>(v),
                ),
                Ok(QueryAnswer::Pet(_)) => false,
                Err(e) => query_pets_post(
                    *store,
                    page_num,
                    page_size,
                    key_check->Some_0,
                    address_canonical->Some_0,
                    Err::<Vec<Pet>, ContractError<E>>(e),
                ),
            },
        },
{
    match msg {
        QueryMsg::Pet { name } => match query_pet(store, name) {
            Ok(p) => Ok(QueryAnswer::Pet(p)),
            Err(e) => Err(e),
        },
        QueryMsg::Pets { page_num, page_size, .. } => {
            let key_check = key_check.unwrap();
            let address_canonical = address_canonical.unwrap();
            match query_pets(store, page_num, page_size, key_check, address_canonical) {
                Ok(v) => Ok(QueryAnswer::Pets(v)),
                Err(e) => Err(e),
            }
        },
    }
}

/// Ids increase along the store and never exceed the counter.
pub open spec fn ids_increasing(pets: Seq<PetView>, total: u64) -> bool {
    &&& forall|i: int, j: int| 0 <= i < j < pets.len() ==> pets[i].0 < pets[j].0
    &&& forall|i: int| 0 <= i < pets.len() ==> #[trigger] pets[i].0 <= total
}

/// Creating a pet, whatever the result, never reuses an id: ids keep
/// increasing along the store, stay within the counter, and the counter
/// never goes back.
pub proof fn law_create_never_reuses_ids<E>(
    state: State,
    old_total: u64,
    new_total: u64,
    old_store: Option<Vec<Pet>>,
    new_store: Option<Vec<Pet>>,
    sender: String,
    pet_name: String,
    owner_canonical: Result<Vec<u8>, E>,
    now: u64,
    res: Result<Response, ContractError<E>>,
)
    requires
        ids_increasing(store_view(old_store), old_total),
        create_pet_post(state, old_total, new_total, old_store, new_store, sender, pet_name, owner_canonical, now, res),
    ensures
        ids_increasing(store_view(new_store), new_total),
        new_total >= old_total,
{
}

/// Creating a pet, whatever the result, keeps the names in the store
/// pairwise distinct: a name already stored is never appended.
pub proof fn law_create_keeps_names_unique<E>(
    state: State,
    old_total: u64,
    new_total: u64,
    old_store: Option<Vec<Pet>>,
    new_store: Option<Vec<Pet>>,
    sender: String,
    pet_name: String,
    owner_canonical: Result<Vec<u8>, E>,
    now: u64,
    res: Result<Response, ContractError<E>>,
)
    requires
        names_unique(store_view(old_store)),
        create_pet_post(state, old_total, new_total, old_store, new_store, sender, pet_name, owner_canonical, now, res),
    ensures
        names_unique(store_view(new_store)),
{
    lemma_position_of(store_view(old_store), pet_name@);
}

/// The market creating a pet under a name that no stored pet carries
/// always succeeds: the pet gets the next id, is fed at `now` and belongs to
/// the given owner, appended after the stored pets.
pub proof fn law_new_name_is_created<E>(
    state: State,
    old_total: u64,
    new_total: u64,
    old_store: Option<Vec<Pet>>,
    new_store: Option<Vec<Pet>>,
    sender: String,
    pet_name: String,
    owner_canonical: Result<Vec<u8>, E>,
    now: u64,
    res: Result<Response, ContractError<E>>,
)
    requires
        create_pet_post(state, old_total, new_total, old_store, new_store, sender, pet_name, owner_canonical, now, res),
        sender@ == state.market_addr@,
        forall|j: int| 0 <= j < store_view(old_store).len() ==> (#[trigger] store_view(old_store)[j]).1 != pet_name@,
        owner_canonical is Ok,
    ensures
        res is Ok,
        new_total == old_total + 1,
        store_view(new_store) == store_view(old_store).push(
            (new_total, pet_name@, now, owner_canonical->Ok_0@),
        ),
{
    lemma_position_of(store_view(old_store), pet_name@);
}

/// The market creating a pet under a name that a stored pet carries is
/// refused, and no pet is added and no id used.
pub proof fn law_taken_name_is_refused<E>(
    state: State,
    old_total: u64,
    new_total: u64,
    old_store: Option<Vec<Pet>>,
    new_store: Option<Vec<Pet>>,
    sender: String,
    pet_name: String,
    owner_canonical: Result<Vec<u8>, E>,
    now: u64,
    res: Result<Response, ContractError<E>>,
    j: int,
)
    requires
        create_pet_post(state, old_total, new_total, old_store, new_store, sender, pet_name, owner_canonical, now, res),
        sender@ == state.market_addr@,
        0 <= j < store_view(old_store).len(),
        store_view(old_store)[j].1 == pet_name@,
    ensures
        res == Err::<Response, ContractError<E>>(ContractError::PetNameExists),
        new_total == old_total,
        store_view(new_store) == store_view(old_store),
{
    lemma_position_of(store_view(old_store), pet_name@);
}

/// The owner feeding its pet inside the feeding window, holding at least the
/// feeding price, succeeds: the pet is fed at `now` and `amount` of the
/// owner's food tokens are burnt. Outside the window the meal is refused.
pub proof fn law_owner_feeds_in_window<E>(
    state: State,
    old_store: Option<Vec<Pet>>,
    new_store: Option<Vec<Pet>>,
    sender: String,
    sender_canonical: Result<Vec<u8>, E>,
    now: u64,
    amount: u128,
    balance: Option<Result<u128, E>>,
    pet_name: String,
    res: Result<Response, ContractError<E>>,
    i: int,
)
    requires
        feed_post(state, old_store, new_store, sender, sender_canonical, now, amount, balance, pet_name, res),
        old_store is Some,
        names_unique(store_view(old_store)),
        0 <= i < store_view(old_store).len(),
        store_view(old_store)[i].1 == pet_name@,
        sender_canonical is Ok,
        sender_canonical->Ok_0@ == store_view(old_store)[i].3,
        store_view(old_store)[i].2 <= now,
    ensures
        ({
            let elapsed = now - store_view(old_store)[i].2;
            state.pet_info.full_hours * 3600 <= elapsed <= state.pet_info.alive_hours * 3600
                && balance is Some && balance->Some_0 is Ok
                && balance->Some_0->Ok_0 >= state.pet_info.feeding_price ==> {
                &&& res is Ok
                &&& res->Ok_0.messages@ == seq![
                    crate::common::Message::BurnFrom {
                        owner: sender,
                        amount,
                        callback_code_hash: state.food_contract.hash,
                        contract_addr: state.food_contract.addr,
                    },
                ]
                &&& store_view(new_store) == store_view(old_store).update(
                    i,
                    (store_view(old_store)[i].0, pet_name@, now, store_view(old_store)[i].3),
                )
            }
        }),
        ({
            let elapsed = now - store_view(old_store)[i].2;
            elapsed < state.pet_info.full_hours * 3600 || elapsed > state.pet_info.alive_hours * 3600
                ==> res == Err::<Response, ContractError<E>>(ContractError::PetCannotBeFed)
        }),
{
    lemma_position_of_unique(store_view(old_store), i);
}

/// Looking a pet up finds a pet carrying exactly that name, the first in
/// store order, wherever one exists; where none does, the look-up fails.
pub proof fn law_lookup_by_exact_name<E>(pets: Seq<PetView>, name: Seq<char>, res: Result<Pet, ContractError<E>>)
    requires
        get_pet_post(pets, true, name, res),
    ensures
        (exists|j: int| 0 <= j < pets.len() && (#[trigger] pets[j]).1 == name) ==> {
            &&& res is Ok
            &&& res->Ok_0@.1 == name
            &&& exists|j: int| 0 <= j < pets.len() && (#[trigger] pets[j]) == res->Ok_0@
                && forall|k: int| 0 <= k < j ==> (#[trigger] pets[k]).1 != name
        },
        (forall|j: int| 0 <= j < pets.len() ==> (#[trigger] pets[j]).1 != name)
            ==> res == Err::<Pet, ContractError<E>>(ContractError::PetNotFound),
{
    lemma_position_of(pets, name);
}

/// The list of an owner's pets is exactly the store's pets whose owner it
/// is, in store order: none is left out and none is added.
pub proof fn law_owned_pets_are_the_owners_pets(pets: Seq<PetView>, owner: Seq<u8>)
    ensures
        owned_by(pets, owner) == pets.filter(|p: PetView| p.3 == owner),
    decreases pets.len(),
{
    reveal(Seq::filter);
    if pets.len() > 0 {
        law_owned_pets_are_the_owners_pets(pets.drop_last(), owner);
    }
}

} // verus!
