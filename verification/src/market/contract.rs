use vstd::prelude::*;
use vstd::string::StringExecFns;

use crate::common::{bytes_eq, Coin, ContractError, Env, Message, Response};
use crate::market::msg::{HandleMsg, InitMsg, PetMsg, QueryMsg, TotalAmountResponse};
use crate::market::state::{is_create_pet_msg, ContractInfo, State};

verus! {

/// How many `uscrt` buy one food token.
pub const USCRT_PER_FOOD: u128 = 10000;

/// `c` is paid in the chain's native denomination, `uscrt`.
pub open spec fn is_uscrt(c: Coin) -> bool {
    c.denom@ == "uscrt"@
}

/// The sum of the `uscrt` amounts among `coins`.
pub open spec fn uscrt_sum(coins: Seq<Coin>) -> int
    decreases coins.len(),
{
    if coins.len() == 0 {
        0
    } else {
        uscrt_sum(coins.drop_last()) + if is_uscrt(coins.last()) {
            coins.last().amount as int
        } else {
            0
        }
    }
}

/// Some coin among `coins` is `uscrt`.
pub open spec fn has_uscrt(coins: Seq<Coin>) -> bool {
    exists|i: int| 0 <= i < coins.len() && is_uscrt(#[trigger] coins[i])
}

/// The payment in `coins` can be added up without overflow.
pub open spec fn payable(coins: Seq<Coin>) -> bool {
    has_uscrt(coins) && uscrt_sum(coins) <= u128::MAX
}

/// Everything but the running total is as it was.
pub open spec fn same_config(a: State, b: State) -> bool {
    &&& a.pet_price == b.pet_price
    &&& a.food_contract == b.food_contract
    &&& a.owner == b.owner
}

/// The outcome of buying food with `funds`: the total grows by the payment,
/// and one food token per 10000 `uscrt` is minted for the sender.
pub open spec fn buy_food_post(old: State, new: State, sender: String, funds: Seq<Coin>, res: Response) -> bool {
    &&& new.total_amount == old.total_amount + uscrt_sum(funds)
    &&& same_config(old, new)
    &&& res.messages@ == seq![
        Message::Mint {
            recipient: sender,
            amount: (uscrt_sum(funds) / USCRT_PER_FOOD as int) as u128,
            callback_code_hash: old.food_contract.hash,
            contract_addr: old.food_contract.addr,
        },
    ]
}

/// The outcome of buying a pet with `funds`: refused, with nothing changed,
/// when the payment is below the price; otherwise the total grows by the
/// payment and the pet contract is asked to create the pet for the sender.
pub open spec fn buy_pet_post<E>(
    old: State,
    new: State,
    sender: String,
    funds: Seq<Coin>,
    pet_name: String,
    pet_addr: String,
    pet_hash: String,
    res: Result<Response, ContractError<E>>,
) -> bool {
    if uscrt_sum(funds) < old.pet_price {
        &&& res == Err::<Response, ContractError<E>>(ContractError::NotEnoughTokens)
        &&& new == old
    } else {
        &&& res is Ok
        &&& new.total_amount == old.total_amount + uscrt_sum(funds)
        &&& same_config(old, new)
        &&& res->Ok_0.messages@.len() == 1
        &&& is_create_pet_msg(res->Ok_0.messages@[0], pet_addr, pet_hash, pet_name@, sender)
    }
}

/// The outcome of a price change: only the owner may change the price, and
/// nothing else changes.
pub open spec fn change_price_post<E>(
    old: State,
    new: State,
    sender_canonical: Result<Vec<u8>, E>,
    price: u128,
    res: Result<Response, ContractError<E>>,
) -> bool {
    match sender_canonical {
        Err(e) => res == Err::<Response, ContractError<E>>(ContractError::Api(e)) && new == old,
        Ok(c) => if c@ == old.owner@ {
            &&& res is Ok
            &&& res->Ok_0.messages@.len() == 0
            &&& new.pet_price == price
            &&& new.total_amount == old.total_amount
            &&& new.food_contract == old.food_contract
            &&& new.owner == old.owner
        } else {
            res == Err::<Response, ContractError<E>>(ContractError::Unauthorized) && new == old
        },
    }
}

/// The `uscrt` sums of prefixes of `coins` grow with the prefix.
pub proof fn lemma_uscrt_sum_prefix(coins: Seq<Coin>, i: int, j: int)
    requires
        0 <= i <= j <= coins.len(),
    ensures
        0 <= uscrt_sum(coins.take(i)) <= uscrt_sum(coins.take(j)),
    decreases j - i,
{
    if i < j {
        lemma_uscrt_sum_prefix(coins, i, j - 1);
        assert(coins.take(j).drop_last() =~= coins.take(j - 1));
    } else {
        lemma_uscrt_sum_nonneg(coins.take(i));
    }
}

/// A `uscrt` sum is never negative.
pub proof fn lemma_uscrt_sum_nonneg(coins: Seq<Coin>)
    ensures
        uscrt_sum(coins) >= 0,
    decreases coins.len(),
{
    if coins.len() > 0 {
        lemma_uscrt_sum_nonneg(coins.drop_last());
    }
}

/// The `uscrt` sum of two lists of coins put together is the sum of their sums.
pub proof fn lemma_uscrt_sum_append(a: Seq<Coin>, b: Seq<Coin>)
    ensures
        uscrt_sum(a + b) == uscrt_sum(a) + uscrt_sum(b),
    decreases b.len(),
{
    if b.len() == 0 {
        assert(a + b =~= a);
    } else {
        assert((a + b).drop_last() =~= a + b.drop_last());
        lemma_uscrt_sum_append(a, b.drop_last());
    }
}

/// The `uscrt` coins among `coins`, in order.
pub open spec fn uscrt_coins(coins: Seq<Coin>) -> Seq<Coin> {
    coins.filter(|c: Coin| is_uscrt(c))
}

/// Coins of other denominations add nothing to the `uscrt` sum.
pub proof fn law_uscrt_sum_ignores_other_denoms(coins: Seq<Coin>)
    ensures
        uscrt_sum(uscrt_coins(coins)) == uscrt_sum(coins),
    decreases coins.len(),
{
    reveal(Seq::filter);
    if coins.len() > 0 {
        law_uscrt_sum_ignores_other_denoms(coins.drop_last());
        let rest = uscrt_coins(coins.drop_last());
        if is_uscrt(coins.last()) {
            assert(rest.push(coins.last()).drop_last() =~= rest);
        }
    }
}

/// The `uscrt` sum does not depend on the order of the coins.
pub proof fn law_uscrt_sum_any_order(a: Seq<Coin>, b: Seq<Coin>)
    requires
        a.to_multiset() == b.to_multiset(),
    ensures
        uscrt_sum(a) == uscrt_sum(b),
    decreases a.len(),
{
    a.to_multiset_ensures();
    b.to_multiset_ensures();
    if a.len() > 0 {
        let x = a.last();
        let d = a.drop_last();
        d.to_multiset_ensures();
        assert(d.push(x) =~= a);
        assert(a.to_multiset().count(x) > 0);
        assert(b.contains(x));
        let j = choose|j: int| 0 <= j < b.len() && b[j] == x;
        let r = b.remove(j);
        assert(r.to_multiset() =~= d.to_multiset());
        law_uscrt_sum_any_order(d, r);
        let left = b.subrange(0, j);
        let right = b.subrange(j + 1, b.len() as int);
        assert(r =~= left + right);
        assert(b =~= left + seq![x] + right);
        lemma_uscrt_sum_append(left, right);
        lemma_uscrt_sum_append(left, seq![x]);
        lemma_uscrt_sum_append(left + seq![x], right);
        assert(seq![x].drop_last() =~= Seq::<Coin>::empty());
        assert(uscrt_sum(Seq::<Coin>::empty()) == 0);
        assert(uscrt_sum(seq![x]) == uscrt_sum(seq![x].drop_last()) + (if is_uscrt(x) { x.amount as int } else { 0 }));
        assert(uscrt_sum(a) == uscrt_sum(d) + (if is_uscrt(x) { x.amount as int } else { 0 }));
        assert(uscrt_sum(r) == uscrt_sum(left) + uscrt_sum(right));
        assert(uscrt_sum(b) == uscrt_sum(left + seq![x]) + uscrt_sum(right));
    } else {
        assert(b.len() == 0);
    }
}

/// What `calculate_amount` returns depends only on the `uscrt` coins sent,
/// in any order: reordering the coins or adding coins of other
/// denominations leaves it unchanged.
pub proof fn law_payment_depends_only_on_uscrt_coins(a: Seq<Coin>, b: Seq<Coin>)
    requires
        uscrt_coins(a).to_multiset() == uscrt_coins(b).to_multiset(),
    ensures
        uscrt_sum(a) == uscrt_sum(b),
{
    law_uscrt_sum_ignores_other_denoms(a);
    law_uscrt_sum_ignores_other_denoms(b);
    law_uscrt_sum_any_order(uscrt_coins(a), uscrt_coins(b));
}

/// A single coin pays its amount exactly when its denomination is the
/// string "uscrt", and nothing otherwise.
pub proof fn law_coin_pays_iff_uscrt(c: Coin)
    ensures
        uscrt_sum(seq![c]) == if c.denom@ == "uscrt"@ {
            c.amount as int
        } else {
            0
        },
{
    assert(seq![c].drop_last() =~= Seq::<Coin>::empty());
    assert(uscrt_sum(Seq::<Coin>::empty()) == 0);
    assert(seq![c].last() == c);
}

/// Sending one more coin raises the payment by that coin's amount if its
/// denomination is "uscrt", and leaves it unchanged otherwise.
pub proof fn law_payment_grows_by_uscrt_coins(coins: Seq<Coin>, c: Coin)
    ensures
        uscrt_sum(coins.push(c)) == uscrt_sum(coins) + if c.denom@ == "uscrt"@ {
            c.amount as int
        } else {
            0
        },
{
    assert(coins.push(c).drop_last() =~= coins);
}

/// Coins none of which is in "uscrt" pay nothing, and count as no payment.
pub proof fn law_other_denoms_pay_nothing(coins: Seq<Coin>)
    requires
        forall|i: int| 0 <= i < coins.len() ==> (#[trigger] coins[i]).denom@ != "uscrt"@,
    ensures
        uscrt_sum(coins) == 0,
        !has_uscrt(coins),
    decreases coins.len(),
{
    if coins.len() > 0 {
        let d = coins.drop_last();
        assert forall|i: int| 0 <= i < d.len() implies (#[trigger] d[i]).denom@ != "uscrt"@ by {
            assert(d[i] == coins[i]);
        }
        law_other_denoms_pay_nothing(d);
        assert(coins.last() == coins[coins.len() - 1]);
    }
}

/// Some payment is sent exactly when some coin's denomination is "uscrt".
pub proof fn law_payment_present_iff_uscrt_coin(coins: Seq<Coin>)
    ensures
        has_uscrt(coins) <==> exists|i: int| 0 <= i < coins.len() && (#[trigger] coins[i]).denom@ == "uscrt"@,
{
}

/// Buying food mints, for the sender, the payment in whole units of 10000
/// `uscrt` (rounded down), and adds the whole payment to the running total.
pub proof fn law_food_is_payment_over_ten_thousand(
    old: State,
    new: State,
    sender: String,
    funds: Seq<Coin>,
    res: Response,
)
    requires
        buy_food_post(old, new, sender, funds, res),
        uscrt_sum(funds) <= u128::MAX,
    ensures
        new.total_amount == old.total_amount + uscrt_sum(funds),
        res.messages@.len() == 1,
        match res.messages@[0] {
            Message::Mint { recipient, amount, callback_code_hash, contract_addr } => {
                &&& recipient == sender
                &&& amount * 10000 <= uscrt_sum(funds) < (amount + 1) * 10000
                &&& callback_code_hash == old.food_contract.hash
                &&& contract_addr == old.food_contract.addr
            },
            _ => false,
        },
{
    lemma_uscrt_sum_nonneg(funds);
    let sum = uscrt_sum(funds);
    let q = sum / 10000;
    assert(q * 10000 <= sum < (q + 1) * 10000) by (nonlinear_arith)
        requires
            q == sum / 10000,
            sum >= 0,
    ;
}

/// A purchase paid at least the price sends the pet contract at `pet_addr`
/// a request for a pet carrying exactly the name the buyer asked for, owned
/// by the buyer; a lower payment is refused and changes nothing.
pub proof fn law_bought_pet_has_requested_name<E>(
    old: State,
    new: State,
    sender: String,
    funds: Seq<Coin>,
    pet_name: String,
    pet_addr: String,
    pet_hash: String,
    res: Result<Response, ContractError<E>>,
)
    requires
        buy_pet_post(old, new, sender, funds, pet_name, pet_addr, pet_hash, res),
    ensures
        uscrt_sum(funds) < old.pet_price ==> res == Err::<Response, ContractError<E>>(ContractError::NotEnoughTokens)
            && new == old,
        uscrt_sum(funds) >= old.pet_price ==> {
            &&& res is Ok
            &&& new.total_amount == old.total_amount + uscrt_sum(funds)
            &&& res->Ok_0.messages@.len() == 1
            &&& match res->Ok_0.messages@[0] {
                Message::Execute { contract_addr, callback_code_hash, msg } => {
                    &&& contract_addr == pet_addr
                    &&& callback_code_hash == pet_hash
                    &&& match msg {
                        PetMsg::CreateNewPet { pet_name: n, owner } => {
                            &&& n@.len() == pet_name@.len()
                            &&& forall|k: int| 0 <= k < n@.len() ==> n@[k] == pet_name@[k]
                            &&& owner == sender
                        },
                    }
                },
                _ => false,
            }
        },
{
}

/// Only the owner changes the price, and to exactly the price asked for;
/// anyone else is refused and nothing changes.
pub proof fn law_owner_sets_price<E>(
    old: State,
    new: State,
    sender_canonical: Result<Vec<u8>, E>,
    price: u128,
    res: Result<Response, ContractError<E>>,
)
    requires
        change_price_post(old, new, sender_canonical, price, res),
    ensures
        sender_canonical is Ok && sender_canonical->Ok_0@ == old.owner@ ==> res is Ok && new.pet_price == price
            && new.total_amount == old.total_amount && new.owner == old.owner,
        sender_canonical is Ok && sender_canonical->Ok_0@ != old.owner@
            ==> res == Err::<Response, ContractError<E>>(ContractError::Unauthorized) && new == old,
        res is Ok ==> sender_canonical is Ok && sender_canonical->Ok_0@ == old.owner@,
{
}

/// Adds up the `uscrt` sent along; the contract panics when none was sent
/// or the sum overflows.
pub fn calculate_amount(coins: Vec<Coin>) -> (amount: u128)
    requires
        payable(coins@),
    ensures
        amount == uscrt_sum(coins@),
{
    let uscrt = String::from_str("uscrt");
    let mut sum: u128 = 0;
    let mut i: usize = 0;
    while i < coins.len()
        invariant
            i <= coins.len(),
            uscrt@ == "uscrt"@,
            payable(coins@),
            sum == uscrt_sum(coins@.take(i as int)),
        decreases coins.len() - i,
    {
        proof {
            lemma_uscrt_sum_prefix(coins@, i + 1, coins@.len() as int);
            assert(coins@.take(coins@.len() as int) =~= coins@);
            assert(coins@.take(i + 1).drop_last() =~= coins@.take(i as int));
        }
        if coins[i].denom == uscrt {
            sum = sum + coins[i].amount;
        }
        i = i + 1;
    }
    assert(coins@.take(coins@.len() as int) =~= coins@);
    sum
}

/// The payment in `coins`, or `None` where adding it up would panic: no
/// `uscrt` was sent, or the sum overflows.
pub fn checked_amount(coins: &Vec<Coin>) -> (res: Option<u128>)
    ensures
        res == if payable(coins@) {
            Some(uscrt_sum(coins@) as u128)
        } else {
            None::<u128>
        },
{
    let uscrt = String::from_str("uscrt");
    let mut sum: u128 = 0;
    let mut found = false;
    let mut i: usize = 0;
    while i < coins.len()
        invariant
            i <= coins.len(),
            uscrt@ == "uscrt"@,
            sum == uscrt_sum(coins@.take(i as int)),
            found == exists|j: int| 0 <= j < i && is_uscrt(#[trigger] coins@[j]),
        decreases coins.len() - i,
    {
        proof {
            assert(coins@.take(i + 1).drop_last() =~= coins@.take(i as int));
        }
        if coins[i].denom == uscrt {
            if sum > u128::MAX - coins[i].amount {
                proof {
                    lemma_uscrt_sum_prefix(coins@, i + 1, coins@.len() as int);
                    assert(coins@.take(coins@.len() as int) =~= coins@);
                }
                return None;
            }
            sum = sum + coins[i].amount;
            found = true;
        }
        i = i + 1;
    }
    assert(coins@.take(coins@.len() as int) =~= coins@);
    if found {
        Some(sum)
    } else {
        None
    }
}

/// Whether `handle` may be called: the answer to `handle_runs`.
pub fn handle_can_run(state: &State, env: &Env, msg: &HandleMsg) -> (ok: bool)
    ensures
        ok == handle_runs(*state, *env, *msg),
{
    proof {
        lemma_uscrt_sum_nonneg(env.sent_funds@);
    }
    match msg {
        HandleMsg::ChangePetPrice { .. } => true,
        HandleMsg::BuyFood => match checked_amount(&env.sent_funds) {
            None => false,
            Some(amount) => state.total_amount <= u128::MAX - amount,
        },
        HandleMsg::BuyPet { .. } => match checked_amount(&env.sent_funds) {
            None => false,
            Some(amount) => amount < state.pet_price || state.total_amount <= u128::MAX - amount,
        },
    }
}

/// Creates the market's state; the sender becomes its owner.
pub fn init<E>(sender_canonical: Result<Vec<u8>, E>, msg: InitMsg) -> (res: Result<State, ContractError<E>>)
    ensures
        match sender_canonical {
            Err(e) => res == Err::<State, ContractError<E>>(ContractError::Api(e)),
            Ok(c) => res == Ok::<State, ContractError<E>>(State {
                total_amount: 0,
                pet_price: msg.pet_price,
                food_contract: ContractInfo { addr: msg.snip_addr, hash: msg.snip_hash },
                owner: c,
            }),
        },
{
    match sender_canonical {
        Err(e) => Err(ContractError::Api(e)),
        Ok(owner) => Ok(State {
            total_amount: 0,
            pet_price: msg.pet_price,
            food_contract: ContractInfo { addr: msg.snip_addr, hash: msg.snip_hash },
            owner,
        }),
    }
}

/// Sells food: records the payment and mints one food token per 10000 `uscrt`.
pub fn try_buy_food(state: &mut State, sender: String, sent_funds: Vec<Coin>) -> (res: Response)
    requires
        payable(sent_funds@),
        old(state).total_amount + uscrt_sum(sent_funds@) <= u128::MAX,
    ensures
        buy_food_post(*old(state), *final(state), sender, sent_funds@, res),
{
    let ghost funds = sent_funds@;
    let amount = calculate_amount(sent_funds);
    let food_amount = amount / USCRT_PER_FOOD;
    state.increase_total_amount(amount);
    State::mint_tokens(sender, food_amount, state.get_snip_hash(), state.get_snip_addr())
}

/// Sells a pet: refuses a payment below the price; otherwise records the
/// payment and asks the pet contract to create the pet for the sender.
pub fn try_buy_pet<E>(
    state: &mut State,
    sender: String,
    sent_funds: Vec<Coin>,
    pet_name: String,
    pet_addr: String,
    pet_hash: String,
) -> (res: Result<Response, ContractError<E>>)
    requires
        payable(sent_funds@),
        uscrt_sum(sent_funds@) >= old(state).pet_price ==> old(state).total_amount + uscrt_sum(sent_funds@) <= u128::MAX,
    ensures
        buy_pet_post(*old(state), *final(state), sender, sent_funds@, pet_name, pet_addr, pet_hash, res),
{
    let amount = calculate_amount(sent_funds);
    if amount < state.get_pet_price() {
        return Err(ContractError::NotEnoughTokens);
    }
    state.increase_total_amount(amount);
    Ok(State::buy_pet(sender, pet_name.as_str(), pet_hash, pet_addr))
}

/// Changes the price of a pet; only the owner may.
pub fn try_change_pet_price<E>(state: &mut State, sender_canonical: Result<Vec<u8>, E>, price: u128) -> (res: Result<
    Response,
    ContractError<E>,
>)
    ensures
        change_price_post(*old(state), *final(state), sender_canonical, price, res),
{
    let canonical = match sender_canonical {
        Err(e) => return Err(ContractError::Api(e)),
        Ok(c) => c,
    };
    if !bytes_eq(&canonical, &state.owner) {
        return Err(ContractError::Unauthorized);
    }
    state.change_pet_price(price);
    Ok(Response::empty())
}

/// A handle message can run without an arithmetic overflow; the contract
/// panics on every other input.
pub open spec fn handle_runs(state: State, env: Env, msg: HandleMsg) -> bool {
    match msg {
        HandleMsg::BuyFood => payable(env.sent_funds@) && state.total_amount + uscrt_sum(env.sent_funds@) <= u128::MAX,
        HandleMsg::BuyPet { .. } => payable(env.sent_funds@) && (uscrt_sum(env.sent_funds@) >= state.pet_price
            ==> state.total_amount + uscrt_sum(env.sent_funds@) <= u128::MAX),
        HandleMsg::ChangePetPrice { .. } => true,
    }
}

/// The outcome of a handle message: that of the handler it names.
pub open spec fn handle_post<E>(
    old: State,
    new: State,
    env: Env,
    sender_canonical: Result<Vec<u8>, E>,
    msg: HandleMsg,
    res: Result<Response, ContractError<E>>,
) -> bool {
    match msg {
        HandleMsg::BuyFood => res is Ok && buy_food_post(old, new, env.sender, env.sent_funds@, res->Ok_0),
        HandleMsg::BuyPet { pet_name, pet_addr, pet_hash } =>
            buy_pet_post(old, new, env.sender, env.sent_funds@, pet_name, pet_addr, pet_hash, res),
        HandleMsg::ChangePetPrice { price } => change_price_post(old, new, sender_canonical, price, res),
    }
}

/// The `uscrt` a handled message adds to the running total: the payment of
/// a successful purchase, and nothing otherwise.
pub open spec fn credited<E>(env: Env, msg: HandleMsg, res: Result<Response, ContractError<E>>) -> int {
    if res is Ok && (msg is BuyFood || msg is BuyPet) {
        uscrt_sum(env.sent_funds@)
    } else {
        0
    }
}

/// The `uscrt` a sequence of handled messages adds to the running total.
pub open spec fn credited_total<E>(envs: Seq<Env>, msgs: Seq<HandleMsg>, results: Seq<Result<Response, ContractError<E>>>) -> int
    decreases envs.len(),
{
    if envs.len() == 0 {
        0
    } else {
        credited_total(envs.drop_last(), msgs.drop_last(), results.drop_last())
            + credited(envs.last(), msgs.last(), results.last())
    }
}

/// Over any sequence of handled messages, the running total grows by exactly
/// the payments of the successful purchases (from 0 right after `init`):
/// price changes and refused messages add nothing.
pub proof fn law_running_total<E>(
    states: Seq<State>,
    envs: Seq<Env>,
    sender_canonicals: Seq<Result<Vec<u8>, E>>,
    msgs: Seq<HandleMsg>,
    results: Seq<Result<Response, ContractError<E>>>,
)
    requires
        states.len() == envs.len() + 1,
        sender_canonicals.len() == envs.len(),
        msgs.len() == envs.len(),
        results.len() == envs.len(),
        forall|i: int| 0 <= i < envs.len()
            ==> handle_post(#[trigger] states[i], states[i + 1], envs[i], sender_canonicals[i], msgs[i], results[i]),
    ensures
        states.last().total_amount == states[0].total_amount + credited_total(envs, msgs, results),
    decreases envs.len(),
{
    if envs.len() > 0 {
        let n = envs.len() - 1;
        let states_before = states.drop_last();
        assert forall|i: int| 0 <= i < n implies handle_post(
            #[trigger] states_before[i],
            states_before[i + 1],
            envs.drop_last()[i],
            sender_canonicals.drop_last()[i],
            msgs.drop_last()[i],
            results.drop_last()[i],
        ) by {
            assert(states_before[i] == states[i]);
            assert(handle_post(states[i], states[i + 1], envs[i], sender_canonicals[i], msgs[i], results[i]));
        }
        law_running_total(states_before, envs.drop_last(), sender_canonicals.drop_last(), msgs.drop_last(), results.drop_last());
        assert(handle_post(states[n], states[n + 1], envs[n], sender_canonicals[n], msgs[n], results[n]));
    }
}

/// Dispatches a handle message. `sender_canonical` is the host's canonical
/// form of `env.sender`.
pub fn handle<E>(state: &mut State, env: Env, sender_canonical: Result<Vec<u8>, E>, msg: HandleMsg) -> (res: Result<
    Response,
    ContractError<E>,
>)
    requires
        handle_runs(*old(state), env, msg),
    ensures
        handle_post(*old(state), *final(state), env, sender_canonical, msg, res),
        final(state).total_amount >= old(state).total_amount,
        final(state).food_contract == old(state).food_contract,
        final(state).owner == old(state).owner,
        final(state).pet_price != old(state).pet_price ==> (msg is ChangePetPrice
            && sender_canonical is Ok && sender_canonical->Ok_0@ == old(state).owner@),
{
    proof {
        lemma_uscrt_sum_nonneg(env.sent_funds@);
    }
    match msg {
        HandleMsg::BuyFood => Ok(try_buy_food(state, env.sender, env.sent_funds)),
        HandleMsg::BuyPet { pet_name, pet_addr, pet_hash } =>
            try_buy_pet(state, env.sender, env.sent_funds, pet_name, pet_addr, pet_hash),
        HandleMsg::ChangePetPrice { price } => try_change_pet_price(state, sender_canonical, price),
    }
}

/// Answers a query.
pub fn query(state: &State, msg: QueryMsg) -> (res: TotalAmountResponse)
    ensures
        res.amount == state.total_amount,
{
    match msg {
        QueryMsg::Amount => query_amount(state),
    }
}

/// The total amount of `uscrt` received.
fn query_amount(state: &State) -> (res: TotalAmountResponse)
    ensures
        res.amount == state.total_amount,
{
    TotalAmountResponse { amount: state.total_amount }
}

} // verus!
