use pet_market::common::{ContractError, Message};
use pet_market::pet::contract::{init, query_pet, query_pets, try_create_pet, try_feed};
use pet_market::pet::msg::{InitMsg, LastFeedingResponse, PetInfo, ViewingKeyResponse};
use pet_market::pet::pet::Pet;
use pet_market::pet::state::{hours_to_seconds, ContractInfo, State};

const HOUR: u64 = 3600;

fn config() -> State {
    init::<String>(
        Ok(vec![0]),
        InitMsg {
            snip_info: ContractInfo { addr: "food".to_string(), hash: "food_hash".to_string() },
            pet_info: PetInfo { full_hours: 2, alive_hours: 10, feeding_price: 50 },
            market_addr: "market".to_string(),
        },
    )
    .0
}

fn create(state: &State, total: &mut u64, store: &mut Option<Vec<Pet>>, name: &str, owner: u8, now: u64) -> Result<(), ContractError<String>> {
    try_create_pet::<String>(state, total, store, "market".to_string(), name.to_string(), Ok(vec![owner]), now).map(|r| assert!(r.messages.is_empty()))
}

#[test]
fn hours_to_seconds_multiplies() {
    assert_eq!(hours_to_seconds(0), 0);
    assert_eq!(hours_to_seconds(2), 7200);
}

#[test]
fn init_starts_empty() {
    let (state, total) = init::<String>(
        Ok(vec![5]),
        InitMsg {
            snip_info: ContractInfo { addr: "food".to_string(), hash: "h".to_string() },
            pet_info: PetInfo { full_hours: 1, alive_hours: 2, feeding_price: 3 },
            market_addr: "m".to_string(),
        },
    );
    assert_eq!(total, 0);
    assert_eq!(state.get_owner(), Some(vec![5]));
    assert_eq!(state.get_market_addr(), "m");
}

#[test]
fn created_pet_is_found() {
    let state = config();
    let mut total = 0;
    let mut store = None;
    create(&state, &mut total, &mut store, "rex", 1, 100).unwrap();
    create(&state, &mut total, &mut store, "tom", 2, 200).unwrap();
    assert_eq!(total, 2);
    let rex = query_pet::<String>(&store, "rex".to_string()).unwrap();
    assert_eq!(rex, Pet { id: 1, name: "rex".to_string(), last_feeding: 100, owner: vec![1] });
    let tom = query_pet::<String>(&store, "tom".to_string()).unwrap();
    assert_eq!(tom.id, 2);
    assert_eq!(tom.last_feeding, 200);
}

#[test]
fn create_pet_refusals() {
    let state = config();
    let mut total = 0;
    let mut store = None;
    let res = try_create_pet::<String>(&state, &mut total, &mut store, "alice".to_string(), "rex".to_string(), Ok(vec![1]), 0);
    assert_eq!(res, Err(ContractError::Unauthorized));
    assert_eq!((total, store.is_none()), (0, true));
    create(&state, &mut total, &mut store, "rex", 1, 0).unwrap();
    assert_eq!(create(&state, &mut total, &mut store, "rex", 2, 0), Err(ContractError::PetNameExists));
    let res = try_create_pet::<String>(&state, &mut total, &mut store, "market".to_string(), "tom".to_string(), Err("bad".to_string()), 0);
    assert_eq!(res, Err(ContractError::Api("bad".to_string())));
    assert_eq!(total, 2);
    assert_eq!(store.as_ref().unwrap().len(), 1);
}

#[test]
fn lookups_before_any_pet() {
    let store: Option<Vec<Pet>> = None;
    assert_eq!(query_pet::<String>(&store, "rex".to_string()), Err(ContractError::PetsNotCreated));
    assert_eq!(query_pets::<String>(&store, 1, 10, Ok(()), Ok(vec![1])), Err(ContractError::PetsNotCreated));
    let empty: Option<Vec<Pet>> = Some(vec![]);
    assert_eq!(query_pet::<String>(&empty, "rex".to_string()), Err(ContractError::PetNotFound));
}

#[test]
fn feeding_in_window_burns_and_records() {
    let state = config();
    let mut total = 0;
    let mut store = None;
    create(&state, &mut total, &mut store, "rex", 1, 1000).unwrap();
    let now = 1000 + 3 * HOUR;
    let res = try_feed::<String>(&state, &mut store, "alice".to_string(), Ok(vec![1]), now, 7, Some(Ok(50)), "rex".to_string()).unwrap();
    assert_eq!(
        res.messages,
        vec![Message::BurnFrom { owner: "alice".to_string(), amount: 7, callback_code_hash: "food_hash".to_string(), contract_addr: "food".to_string() }]
    );
    assert_eq!(query_pet::<String>(&store, "rex".to_string()).unwrap().last_feeding, now);
}

#[test]
fn feeding_refusals() {
    let state = config();
    let mut total = 0;
    let mut store = None;
    assert_eq!(
        try_feed::<String>(&state, &mut store, "a".to_string(), Ok(vec![1]), 0, 1, Some(Ok(50)), "rex".to_string()),
        Err(ContractError::PetsNotCreated)
    );
    create(&state, &mut total, &mut store, "rex", 1, 1000).unwrap();
    let ok_time = 1000 + 5 * HOUR;
    assert_eq!(
        try_feed::<String>(&state, &mut store, "a".to_string(), Ok(vec![1]), ok_time, 1, Some(Ok(50)), "tom".to_string()),
        Err(ContractError::PetNotFound)
    );
    assert_eq!(
        try_feed::<String>(&state, &mut store, "a".to_string(), Err("e".to_string()), ok_time, 1, Some(Ok(50)), "rex".to_string()),
        Err(ContractError::Api("e".to_string()))
    );
    assert_eq!(
        try_feed::<String>(&state, &mut store, "a".to_string(), Ok(vec![2]), ok_time, 1, Some(Ok(50)), "rex".to_string()),
        Err(ContractError::Unauthorized)
    );
    assert_eq!(
        try_feed::<String>(&state, &mut store, "a".to_string(), Ok(vec![1]), 1000 + HOUR, 1, Some(Ok(50)), "rex".to_string()),
        Err(ContractError::PetCannotBeFed)
    );
    assert_eq!(
        try_feed::<String>(&state, &mut store, "a".to_string(), Ok(vec![1]), 1000 + 11 * HOUR, 1, Some(Ok(50)), "rex".to_string()),
        Err(ContractError::PetCannotBeFed)
    );
    assert_eq!(
        try_feed::<String>(&state, &mut store, "a".to_string(), Ok(vec![1]), ok_time, 1, Some(Err("q".to_string())), "rex".to_string()),
        Err(ContractError::Api("q".to_string()))
    );
    assert_eq!(
        try_feed::<String>(&state, &mut store, "a".to_string(), Ok(vec![1]), ok_time, 1, Some(Ok(49)), "rex".to_string()),
        Err(ContractError::NotEnoughTokens)
    );
    assert_eq!(query_pet::<String>(&store, "rex".to_string()).unwrap().last_feeding, 1000);
}

#[test]
fn feeding_window_edges() {
    let state = config();
    assert!(state.can_pet_be_fed(0, 2 * HOUR));
    assert!(state.can_pet_be_fed(0, 10 * HOUR));
    assert!(!state.can_pet_be_fed(0, 2 * HOUR - 1));
    assert!(!state.can_pet_be_fed(0, 10 * HOUR + 1));
}

#[test]
fn pages_of_owner_pets() {
    let state = config();
    let mut total = 0;
    let mut store = None;
    for (name, owner) in [("a", 1), ("b", 2), ("c", 1), ("d", 1), ("e", 2), ("f", 1)] {
        create(&state, &mut total, &mut store, name, owner, 0).unwrap();
    }
    let names = |page: u64, size: u64| -> Vec<String> {
        query_pets::<String>(&store, page, size, Ok(()), Ok(vec![1])).unwrap().into_iter().map(|p| p.name).collect()
    };
    assert_eq!(names(1, 2), vec!["a", "c"]);
    assert_eq!(names(2, 2), vec!["d", "f"]);
    assert_eq!(names(3, 2), Vec::<String>::new());
    assert_eq!(names(1, 10), vec!["a", "c", "d", "f"]);
    assert_eq!(names(2, 3), vec!["f"]);
    assert_eq!(query_pets::<String>(&store, 1, 2, Err("key".to_string()), Ok(vec![1])), Err(ContractError::Api("key".to_string())));
    assert_eq!(query_pets::<String>(&store, 1, 2, Ok(()), Err("addr".to_string())), Err(ContractError::Api("addr".to_string())));
}

#[test]
fn pet_store_operations() {
    let mut store: Option<Vec<Pet>> = None;
    let mut total = 0;
    assert!(!Pet::name_already_exists(&mut store, "rex"));
    assert_eq!(store, Some(vec![]));
    let id = Pet::next_id(&mut total);
    assert_eq!((id, total), (1, 1));
    Pet::create(&mut store, &Pet::new(id, "rex".to_string(), 5, vec![1]));
    assert!(Pet::name_already_exists(&mut store, "rex"));
    let mut rex = Pet::get_pet::<String>(&store, "rex").unwrap();
    rex.last_feeding = 9;
    assert_eq!(Pet::update::<String>(&mut store, &rex), Ok(()));
    assert_eq!(Pet::get_pet::<String>(&store, "rex").unwrap().last_feeding, 9);
    let ghost = Pet::new(2, "ghost".to_string(), 0, vec![]);
    assert_eq!(Pet::update::<String>(&mut store, &ghost), Err(ContractError::PetNotFound));
    assert_eq!(Pet::get_pets::<String>(&store, 1, 5, &vec![1]).unwrap().len(), 1);
}

#[test]
fn state_accessors_and_burn() {
    let mut state = config();
    assert_eq!(state.get_snip_info(), ContractInfo { addr: "food".to_string(), hash: "food_hash".to_string() });
    assert_eq!(state.get_pet_info().feeding_price, 50);
    state.change_pet_info(PetInfo { full_hours: 0, alive_hours: 1, feeding_price: 0 });
    assert_eq!(state.get_pet_info().alive_hours, 1);
    let res = state.burn_tokens(3, "bob".to_string());
    assert_eq!(
        res.messages,
        vec![Message::BurnFrom { owner: "bob".to_string(), amount: 3, callback_code_hash: "food_hash".to_string(), contract_addr: "food".to_string() }]
    );
    assert_eq!(LastFeedingResponse { timestamp: 4 }.timestamp, 4);
    assert_eq!(ViewingKeyResponse { key: "k".to_string() }.key, "k");
}

use pet_market::common::{Env, Response};
use pet_market::pet::contract::{
    feed_can_run, handle, handle_can_run, query, query_can_run, HandleOutcome, HostAnswers, QueryAnswer,
};
use pet_market::pet::msg::{HandleMsg, QueryMsg};
use pet_market::pet::pet::{store_writes, PetWrite};

fn env(sender: &str, time: u64) -> Env {
    Env { sender: sender.to_string(), sent_funds: vec![], block_time: time }
}

#[test]
fn pet_handle_dispatches() {
    let state = config();
    let mut total = 0;
    let mut store = None;
    let create = HandleMsg::CreateNewPet { pet_name: "rex".to_string(), owner: "alice".to_string() };
    let answers = HostAnswers::<String> { sender_canonical: Ok(vec![0]), owner_canonical: Some(Ok(vec![1])), balance: None };
    assert!(handle_can_run(&state, total, &store, &env("market", 100), &create, &answers));
    let out = handle(&state, &mut total, &mut store, env("market", 100), create, answers).unwrap();
    assert_eq!(out, HandleOutcome::Respond(Response::empty()));
    assert_eq!(total, 1);
    let feed = HandleMsg::FeedPet { amount: 4, viewing_key: "k".to_string(), pet_name: "rex".to_string() };
    let answers = HostAnswers::<String> { sender_canonical: Ok(vec![1]), owner_canonical: None, balance: Some(Ok(60)) };
    let out = handle(&state, &mut total, &mut store, env("alice", 100 + 3 * HOUR), feed, answers).unwrap();
    assert!(matches!(out, HandleOutcome::Respond(r) if r.messages.len() == 1));
    let key = HandleMsg::CreateViewingKey { entropy: "e".to_string() };
    let answers = HostAnswers::<String> { sender_canonical: Ok(vec![1]), owner_canonical: None, balance: None };
    let out = handle(&state, &mut total, &mut store, env("alice", 0), key, answers).unwrap();
    assert_eq!(out, HandleOutcome::CreateViewingKey { account: "alice".to_string(), entropy: "e".to_string() });
    let feed = HandleMsg::FeedPet { amount: 4, viewing_key: "k".to_string(), pet_name: "rex".to_string() };
    let answers = HostAnswers::<String> { sender_canonical: Ok(vec![1]), owner_canonical: None, balance: None };
    assert!(!handle_can_run(&state, total, &store, &env("alice", 0), &feed, &answers));
}

#[test]
fn pet_query_dispatches() {
    let state = config();
    let mut total = 0;
    let mut store = None;
    create(&state, &mut total, &mut store, "rex", 1, 5).unwrap();
    let msg = QueryMsg::Pet { name: "rex".to_string() };
    assert!(query_can_run::<String>(&store, &msg, &None, &None));
    match query::<String>(&store, msg, None, None).unwrap() {
        QueryAnswer::Pet(p) => assert_eq!(p.last_feeding, 5),
        other => panic!("unexpected {:?}", other),
    }
    let msg = QueryMsg::Pets { page_num: 1, page_size: 3, viewing_key: "k".to_string(), address: "alice".to_string() };
    assert!(query_can_run::<String>(&store, &msg, &Some(Ok(())), &Some(Ok(vec![1]))));
    match query::<String>(&store, msg, Some(Ok(())), Some(Ok(vec![1]))).unwrap() {
        QueryAnswer::Pets(v) => assert_eq!(v.len(), 1),
        other => panic!("unexpected {:?}", other),
    }
    let bad = QueryMsg::Pets { page_num: 0, page_size: 3, viewing_key: "k".to_string(), address: "alice".to_string() };
    assert!(!query_can_run::<String>(&store, &bad, &Some(Ok(())), &Some(Ok(vec![1]))));
}

#[test]
fn pages_one_to_k_cover_owner_pets() {
    let state = config();
    let mut total = 0;
    let mut store = None;
    for (i, owner) in [1u8, 2, 1, 1, 1, 2, 1].iter().enumerate() {
        create(&state, &mut total, &mut store, &format!("p{}", i), *owner, 0).unwrap();
    }
    let mut all = Vec::new();
    for page in 1..=3u64 {
        let got = query_pets::<String>(&store, page, 2, Ok(()), Ok(vec![1])).unwrap();
        assert!(got.len() <= 2);
        all.extend(got.into_iter().map(|p| p.name));
    }
    assert_eq!(all, vec!["p0", "p2", "p3", "p4", "p6"]);
}

#[test]
fn store_writes_rewrite_only_changes() {
    let a = Pet::new(1, "a".to_string(), 0, vec![1]);
    let b = Pet::new(2, "b".to_string(), 0, vec![1]);
    let before = Some(vec![a.copy(), b.copy()]);
    let mut b2 = b.copy();
    b2.last_feeding = 9;
    let c = Pet::new(3, "c".to_string(), 4, vec![2]);
    let after = Some(vec![a.copy(), b2.copy(), c.copy()]);
    assert_eq!(store_writes(&before, &after), vec![PetWrite::SetAt { index: 1, pet: b2 }, PetWrite::Push { pet: c.copy() }]);
    assert_eq!(store_writes(&None, &Some(vec![c.copy()])), vec![PetWrite::Push { pet: c }]);
    assert_eq!(store_writes(&before, &None), vec![]);
}

#[test]
fn feed_can_run_checks_time() {
    let state = config();
    let mut total = 0;
    let mut store = None;
    create(&state, &mut total, &mut store, "rex", 1, 1000).unwrap();
    assert!(!feed_can_run::<String>(&state, &store, &Ok(vec![1]), &"rex".to_string(), 999));
    assert!(feed_can_run::<String>(&state, &store, &Ok(vec![2]), &"rex".to_string(), 999));
    assert!(feed_can_run::<String>(&state, &store, &Ok(vec![1]), &"rex".to_string(), 1000));
}

use pet_market::pet::contract::{feed_balance_query, feed_needs_balance, handle_requests, query_requests, BalanceQuery, KeyCheck, ViewingKeyRequest};

#[test]
fn pet_init_succeeds_without_owner() {
    let (state, total) = init::<String>(
        Err("bad".to_string()),
        InitMsg {
            snip_info: ContractInfo { addr: "food".to_string(), hash: "h".to_string() },
            pet_info: PetInfo { full_hours: 1, alive_hours: 2, feeding_price: 3 },
            market_addr: "m".to_string(),
        },
    );
    assert_eq!(total, 0);
    assert_eq!(state.get_owner(), None);
}

#[test]
fn update_creates_missing_store() {
    let mut store: Option<Vec<Pet>> = None;
    let pet = Pet::new(1, "rex".to_string(), 0, vec![]);
    assert_eq!(Pet::update::<String>(&mut store, &pet), Err(ContractError::PetNotFound));
    assert_eq!(store, Some(vec![]));
}

#[test]
fn balance_is_asked_only_for_a_hungry_own_pet() {
    let state = config();
    let mut total = 0;
    let mut store = None;
    create(&state, &mut total, &mut store, "rex", 1, 1000).unwrap();
    let feed = HandleMsg::FeedPet { amount: 1, viewing_key: "vk".to_string(), pet_name: "rex".to_string() };
    let ok_time = 1000 + 3 * HOUR;
    assert_eq!(
        feed_balance_query::<String>(&state, &store, &env("alice", ok_time), &Ok(vec![1]), &feed),
        Some(BalanceQuery {
            address: "alice".to_string(),
            viewing_key: "vk".to_string(),
            callback_code_hash: "food_hash".to_string(),
            contract_addr: "food".to_string(),
        })
    );
    assert_eq!(feed_balance_query::<String>(&state, &store, &env("bob", ok_time), &Ok(vec![2]), &feed), None);
    assert_eq!(feed_balance_query::<String>(&state, &store, &env("alice", 1000 + HOUR), &Ok(vec![1]), &feed), None);
    assert!(!feed_needs_balance::<String>(&state, &store, &Ok(vec![1]), &"tom".to_string(), ok_time));
    // Without the balance, a refused meal is still refused the same way.
    assert_eq!(
        try_feed::<String>(&state, &mut store, "bob".to_string(), Ok(vec![2]), ok_time, 1, None, "rex".to_string()),
        Err(ContractError::Unauthorized)
    );
}

#[test]
fn host_requests_name_the_right_addresses() {
    let create = HandleMsg::CreateNewPet { pet_name: "rex".to_string(), owner: "alice".to_string() };
    let req = handle_requests(&env("market", 0), &create);
    assert_eq!(req.convert_owner, Some("alice".to_string()));
    assert_eq!(req.create_viewing_key, None);
    let key = HandleMsg::CreateViewingKey { entropy: "e".to_string() };
    let req = handle_requests(&env("bob", 0), &key);
    assert_eq!(req.create_viewing_key, Some(ViewingKeyRequest { account: "bob".to_string(), entropy: "e".to_string() }));
    let pets = QueryMsg::Pets { page_num: 1, page_size: 2, viewing_key: "k".to_string(), address: "carol".to_string() };
    assert_eq!(query_requests(&pets), Some(KeyCheck { address: "carol".to_string(), viewing_key: "k".to_string() }));
    assert_eq!(query_requests(&QueryMsg::Pet { name: "rex".to_string() }), None);
}
