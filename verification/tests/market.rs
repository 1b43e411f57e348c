use pet_market::snip20::token_message;
use pet_market::common::{Coin, ContractError, Env, Message};
use pet_market::market::contract::{calculate_amount, checked_amount, handle_can_run, handle, init, query, try_buy_food, try_buy_pet, try_change_pet_price};
use pet_market::market::msg::{HandleMsg, InitMsg, PetMsg, QueryMsg};
use pet_market::market::state::{ContractInfo, State};

fn coin(denom: &str, amount: u128) -> Coin {
    Coin { denom: denom.to_string(), amount }
}

fn market() -> State {
    State {
        total_amount: 0,
        pet_price: 500,
        food_contract: ContractInfo { addr: "food".to_string(), hash: "food_hash".to_string() },
        owner: vec![1, 2, 3],
    }
}

#[test]
fn calculate_amount_adds_only_uscrt() {
    let coins = vec![coin("uscrt", 100), coin("earth", 7), coin("uscrt", 23)];
    assert_eq!(calculate_amount(coins), 123);
}

#[test]
fn calculate_amount_single_coin() {
    assert_eq!(calculate_amount(vec![coin("uscrt", 0)]), 0);
    assert_eq!(calculate_amount(vec![coin("uscrt", u128::MAX)]), u128::MAX);
}

#[test]
fn init_makes_sender_owner() {
    let msg = InitMsg {
        snip_addr: "food".to_string(),
        snip_hash: "food_hash".to_string(),
        pet_addr: "pets".to_string(),
        pet_hash: "pets_hash".to_string(),
        pet_price: 500,
    };
    let state = init::<String>(Ok(vec![1, 2, 3]), msg.clone()).unwrap();
    assert_eq!(state, market());
    assert_eq!(init::<String>(Err("bad address".to_string()), msg), Err(ContractError::Api("bad address".to_string())));
}

#[test]
fn buy_food_mints_one_token_per_ten_thousand() {
    let mut state = market();
    let res = try_buy_food(&mut state, "alice".to_string(), vec![coin("uscrt", 25_000), coin("atom", 9)]);
    assert_eq!(state.total_amount, 25_000);
    assert_eq!(
        res.messages,
        vec![Message::Mint {
            recipient: "alice".to_string(),
            amount: 2,
            callback_code_hash: "food_hash".to_string(),
            contract_addr: "food".to_string(),
        }]
    );
    let res = try_buy_food(&mut state, "bob".to_string(), vec![coin("uscrt", 9_999)]);
    assert_eq!(state.total_amount, 34_999);
    assert!(matches!(&res.messages[0], Message::Mint { amount: 0, .. }));
}

#[test]
fn buy_pet_below_price_is_refused() {
    let mut state = market();
    let res = try_buy_pet::<String>(&mut state, "alice".to_string(), vec![coin("uscrt", 499)], "rex".to_string(), "pets".to_string(), "ph".to_string());
    assert_eq!(res, Err(ContractError::NotEnoughTokens));
    assert_eq!(state, market());
}

#[test]
fn buy_pet_at_price_asks_pet_contract() {
    let mut state = market();
    let res = try_buy_pet::<String>(&mut state, "alice".to_string(), vec![coin("uscrt", 500)], "rex".to_string(), "pets".to_string(), "ph".to_string())
        .unwrap();
    assert_eq!(state.total_amount, 500);
    assert_eq!(
        res.messages,
        vec![Message::Execute {
            contract_addr: "pets".to_string(),
            callback_code_hash: "ph".to_string(),
            msg: PetMsg::CreateNewPet { pet_name: "rex".to_string(), owner: "alice".to_string() },
        }]
    );
}

#[test]
fn only_owner_changes_price() {
    let mut state = market();
    assert_eq!(try_change_pet_price::<String>(&mut state, Ok(vec![9]), 1), Err(ContractError::Unauthorized));
    assert_eq!(state.pet_price, 500);
    assert_eq!(try_change_pet_price::<String>(&mut state, Err("bad".to_string()), 1), Err(ContractError::Api("bad".to_string())));
    let res = try_change_pet_price::<String>(&mut state, Ok(vec![1, 2, 3]), 1).unwrap();
    assert!(res.messages.is_empty());
    assert_eq!(state.pet_price, 1);
    assert_eq!(state.total_amount, 0);
}

#[test]
fn handle_dispatches_and_total_never_drops() {
    let mut state = market();
    let env = Env { sender: "alice".to_string(), sent_funds: vec![coin("uscrt", 600)], block_time: 10 };
    let before = state.total_amount;
    handle::<String>(&mut state, env.clone(), Ok(vec![7]), HandleMsg::BuyFood).unwrap();
    assert!(state.total_amount >= before);
    let res = handle::<String>(
        &mut state,
        env.clone(),
        Ok(vec![7]),
        HandleMsg::BuyPet { pet_name: "rex".to_string(), pet_addr: "pets".to_string(), pet_hash: "ph".to_string() },
    );
    assert!(res.is_ok());
    assert_eq!(state.total_amount, 1200);
    let res = handle::<String>(&mut state, env, Ok(vec![7]), HandleMsg::ChangePetPrice { price: 3 });
    assert_eq!(res, Err(ContractError::Unauthorized));
    assert_eq!(state.pet_price, 500);
    assert_eq!(query(&state, QueryMsg::Amount).amount, 1200);
}

#[test]
fn state_getters_and_setters() {
    let mut state = market();
    assert_eq!(state.get_snip_addr(), "food");
    assert_eq!(state.get_snip_hash(), "food_hash");
    assert_eq!(state.get_pet_price(), 500);
    assert_eq!(state.get_owner(), vec![1, 2, 3]);
    state.change_pet_price(42);
    state.increase_total_amount(8);
    assert_eq!(state.pet_price, 42);
    assert_eq!(state.total_amount, 8);
    let res = State::mint_tokens("bob".to_string(), 4, "h".to_string(), "a".to_string());
    assert_eq!(
        res.messages,
        vec![Message::Mint { recipient: "bob".to_string(), amount: 4, callback_code_hash: "h".to_string(), contract_addr: "a".to_string() }]
    );
    assert_eq!(PetMsg::create_new_pet("rex", "bob".to_string()), PetMsg::CreateNewPet { pet_name: "rex".to_string(), owner: "bob".to_string() });
}

#[test]
fn running_total_counts_successful_purchases_only() {
    let mut state = init::<String>(
        Ok(vec![1, 2, 3]),
        InitMsg {
            snip_addr: "food".to_string(),
            snip_hash: "food_hash".to_string(),
            pet_addr: "pets".to_string(),
            pet_hash: "ph".to_string(),
            pet_price: 500,
        },
    )
    .unwrap();
    assert_eq!(query(&state, QueryMsg::Amount).amount, 0);
    let pay = |n: u128| Env { sender: "alice".to_string(), sent_funds: vec![coin("uscrt", n), coin("atom", 5)], block_time: 0 };
    let buy_pet = || HandleMsg::BuyPet { pet_name: "rex".to_string(), pet_addr: "pets".to_string(), pet_hash: "ph".to_string() };
    handle::<String>(&mut state, pay(30_000), Ok(vec![9]), HandleMsg::BuyFood).unwrap();
    assert!(handle::<String>(&mut state, pay(100), Ok(vec![9]), buy_pet()).is_err());
    handle::<String>(&mut state, pay(700), Ok(vec![9]), buy_pet()).unwrap();
    handle::<String>(&mut state, pay(1), Ok(vec![1, 2, 3]), HandleMsg::ChangePetPrice { price: 10 }).unwrap();
    handle::<String>(&mut state, pay(10), Ok(vec![9]), buy_pet()).unwrap();
    assert_eq!(query(&state, QueryMsg::Amount).amount, 30_000 + 700 + 10);
}

#[test]
fn payment_ignores_order_and_other_denoms() {
    let a = vec![coin("uscrt", 3), coin("uscrt", 40)];
    let b = vec![coin("atom", 1000), coin("uscrt", 40), coin("luna", 9), coin("uscrt", 3)];
    assert_eq!(calculate_amount(a), calculate_amount(b));
}

#[test]
fn checked_amount_and_can_run() {
    assert_eq!(checked_amount(&vec![coin("atom", 5)]), None);
    assert_eq!(checked_amount(&vec![coin("uscrt", u128::MAX), coin("uscrt", 1)]), None);
    assert_eq!(checked_amount(&vec![coin("uscrt", 2), coin("atom", 5), coin("uscrt", 3)]), Some(5));
    let state = market();
    let env = Env { sender: "a".to_string(), sent_funds: vec![coin("atom", 5)], block_time: 0 };
    assert!(!handle_can_run(&state, &env, &HandleMsg::BuyFood));
    assert!(handle_can_run(&state, &env, &HandleMsg::ChangePetPrice { price: 1 }));
    let env = Env { sender: "a".to_string(), sent_funds: vec![coin("uscrt", 5)], block_time: 0 };
    assert!(handle_can_run(&state, &env, &HandleMsg::BuyFood));
}

#[test]
fn token_messages_go_to_the_token_contract() {
    let mint = Message::Mint { recipient: "alice".to_string(), amount: 2, callback_code_hash: "h".to_string(), contract_addr: "food".to_string() };
    let w = token_message(&mint).unwrap().unwrap();
    assert_eq!(w.contract_addr, "food");
    assert_eq!(w.callback_code_hash, "h");
    assert!(w.send.is_empty());
    assert_eq!(String::from_utf8(w.msg).unwrap(), r#"{"mint":{"recipient":"alice","amount":"2","memo":null,"padding":null}}"#);
    let burn = Message::BurnFrom { owner: "bob".to_string(), amount: 7, callback_code_hash: "h".to_string(), contract_addr: "food".to_string() };
    let w = token_message(&burn).unwrap().unwrap();
    assert_eq!(w.contract_addr, "food");
    assert_eq!(String::from_utf8(w.msg).unwrap(), r#"{"burn_from":{"owner":"bob","amount":"7","memo":null,"padding":null}}"#);
    let exec = Message::Execute {
        contract_addr: "pets".to_string(),
        callback_code_hash: "p".to_string(),
        msg: PetMsg::CreateNewPet { pet_name: "rex".to_string(), owner: "a".to_string() },
    };
    assert!(token_message(&exec).is_none());
}
