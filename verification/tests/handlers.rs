use counting_contract::contract::exec::donate_would_overflow;
use counting_contract::error::ContractError;
use counting_contract::msg::{coin, coins, Attribute, BankMsg, Coin, ExecMsg, InstantiateMsg,
    MessageInfo, QueryMsg, ValueResp};
use counting_contract::num::dec_string;
use counting_contract::state::StateStore;
use counting_contract::{execute, instantiate, query};

fn info(sender: &str, funds: Vec<Coin>) -> MessageInfo {
    MessageInfo { sender: sender.to_string(), funds }
}

fn fresh(owner: &str, counter: u64) -> StateStore {
    let mut store = StateStore::new();
    instantiate(
        &mut store,
        &info(owner, vec![]),
        InstantiateMsg { counter, minimal_donation: coin(10, "atom") },
    )
    .unwrap();
    store
}

#[test]
fn instantiate_zero_then_value() {
    let store = fresh("owner", 0);
    assert_eq!(query(&store, QueryMsg::Value {}).unwrap(), ValueResp { value: 0 });
}

#[test]
fn instantiate_large_then_value() {
    let store = fresh("owner", 123456789);
    assert_eq!(query(&store, QueryMsg::Value {}).unwrap(), ValueResp { value: 123456789 });
}

#[test]
fn incremented_returns_plus_one() {
    let store = fresh("owner", 5);
    assert_eq!(
        query(&store, QueryMsg::Incremented { value: 0 }).unwrap(),
        ValueResp { value: 1 }
    );
    assert_eq!(
        query(&store, QueryMsg::Incremented { value: 41 }).unwrap(),
        ValueResp { value: 42 }
    );
    // A query mutates nothing: the stored counter is what it was.
    assert_eq!(query(&store, QueryMsg::Value {}).unwrap(), ValueResp { value: 5 });
}

#[test]
fn incremented_overflow_is_hard_error() {
    let store = fresh("owner", 0);
    let r = query(&store, QueryMsg::Incremented { value: u64::MAX });
    assert_eq!(r, Err(ContractError::Overflow));
}

#[test]
fn donate_below_threshold_leaves_counter() {
    let mut store = fresh("owner", 3);
    execute(&mut store, &info("sender", coins(9, "atom")), vec![], ExecMsg::Donate {}).unwrap();
    assert_eq!(query(&store, QueryMsg::Value {}).unwrap(), ValueResp { value: 3 });
}

#[test]
fn donate_wrong_denom_leaves_counter() {
    let mut store = fresh("owner", 3);
    execute(&mut store, &info("sender", coins(100, "uatom")), vec![], ExecMsg::Donate {})
        .unwrap();
    assert_eq!(query(&store, QueryMsg::Value {}).unwrap(), ValueResp { value: 3 });
}

#[test]
fn donate_at_threshold_increments() {
    let mut store = fresh("owner", 3);
    execute(&mut store, &info("sender", coins(10, "atom")), vec![], ExecMsg::Donate {}).unwrap();
    assert_eq!(query(&store, QueryMsg::Value {}).unwrap(), ValueResp { value: 4 });
}

#[test]
fn donate_many_qualifying_increments_once() {
    let mut store = fresh("owner", 0);
    let funds = vec![coin(10, "atom"), coin(20, "atom"), coin(5, "atom"), coin(15, "atom")];
    execute(&mut store, &info("sender", funds), vec![], ExecMsg::Donate {}).unwrap();
    assert_eq!(query(&store, QueryMsg::Value {}).unwrap(), ValueResp { value: 1 });
}

#[test]
fn donate_attributes_report_result() {
    let mut store = fresh("owner", 0);
    let resp = execute(&mut store, &info("sender", coins(10, "atom")), vec![], ExecMsg::Donate {})
        .unwrap();
    assert_eq!(
        resp.attributes,
        vec![
            Attribute { key: "action".to_string(), value: "poke".to_string() },
            Attribute { key: "sender".to_string(), value: "sender".to_string() },
            Attribute { key: "counter".to_string(), value: "1".to_string() },
        ]
    );
    assert!(resp.messages.is_empty());
}

#[test]
fn reset_by_non_owner_is_unauthorized() {
    let mut store = fresh("owner", 7);
    let r = execute(&mut store, &info("sender", vec![]), vec![], ExecMsg::Reset { counter: 10 });
    assert_eq!(r, Err(ContractError::Unauthorized { owner: "owner".to_string() }));
    // The rejected call left no mutation behind.
    assert_eq!(query(&store, QueryMsg::Value {}).unwrap(), ValueResp { value: 7 });
}

#[test]
fn reset_by_owner_overwrites() {
    let mut store = fresh("owner", 7);
    execute(&mut store, &info("owner", vec![]), vec![], ExecMsg::Reset { counter: 3 }).unwrap();
    assert_eq!(query(&store, QueryMsg::Value {}).unwrap(), ValueResp { value: 3 });
    let resp = execute(&mut store, &info("owner", vec![]), vec![], ExecMsg::Reset { counter: 0 })
        .unwrap();
    assert_eq!(query(&store, QueryMsg::Value {}).unwrap(), ValueResp { value: 0 });
    assert_eq!(
        resp.attributes,
        vec![
            Attribute { key: "action".to_string(), value: "reset".to_string() },
            Attribute { key: "sender".to_string(), value: "owner".to_string() },
            Attribute { key: "counter".to_string(), value: "0".to_string() },
        ]
    );
}

#[test]
fn withdraw_by_non_owner_is_unauthorized() {
    let mut store = fresh("owner", 0);
    let r = execute(
        &mut store,
        &info("sender", vec![]),
        coins(10, "atom"),
        ExecMsg::Withdraw {},
    );
    assert_eq!(r, Err(ContractError::Unauthorized { owner: "owner".to_string() }));
}

#[test]
fn withdraw_moves_entire_balance() {
    let mut store = fresh("owner", 0);
    let balance = vec![coin(7, "atom"), coin(3, "uatom")];
    let resp = execute(&mut store, &info("owner", vec![]), balance.clone(), ExecMsg::Withdraw {})
        .unwrap();
    assert_eq!(
        resp.messages,
        vec![BankMsg::Send { to_address: "owner".to_string(), amount: balance }]
    );
    assert_eq!(
        resp.attributes,
        vec![
            Attribute { key: "action".to_string(), value: "withdraw".to_string() },
            Attribute { key: "sender".to_string(), value: "owner".to_string() },
        ]
    );
}

#[test]
fn withdraw_to_empty_caps_sends_full_balance() {
    let mut store = fresh("owner", 0);
    let balance = vec![coin(10, "atom"), coin(5, "uatom")];
    let resp = execute(
        &mut store,
        &info("owner", vec![]),
        balance.clone(),
        ExecMsg::WithdrawTo { receiver: "community".to_string(), funds: vec![] },
    )
    .unwrap();
    assert_eq!(
        resp.messages,
        vec![BankMsg::Send { to_address: "community".to_string(), amount: balance }]
    );
}

#[test]
fn withdraw_to_caps_clamp_per_denomination() {
    let mut store = fresh("owner", 0);
    let balance = vec![coin(10, "atom"), coin(5, "uatom")];
    let resp = execute(
        &mut store,
        &info("owner", vec![]),
        balance,
        ExecMsg::WithdrawTo { receiver: "community".to_string(), funds: coins(3, "atom") },
    )
    .unwrap();
    // "atom" is clamped to its cap; "uatom" is unlisted, so it caps at zero.
    assert_eq!(
        resp.messages,
        vec![BankMsg::Send {
            to_address: "community".to_string(),
            amount: vec![coin(3, "atom"), coin(0, "uatom")],
        }]
    );
}

#[test]
fn withdraw_to_cap_above_balance_sends_balance() {
    let mut store = fresh("owner", 0);
    let resp = execute(
        &mut store,
        &info("owner", vec![]),
        coins(10, "atom"),
        ExecMsg::WithdrawTo { receiver: "community".to_string(), funds: coins(50, "atom") },
    )
    .unwrap();
    assert_eq!(
        resp.messages,
        vec![BankMsg::Send { to_address: "community".to_string(), amount: coins(10, "atom") }]
    );
}

#[test]
fn withdraw_to_first_listed_cap_wins() {
    let mut store = fresh("owner", 0);
    let resp = execute(
        &mut store,
        &info("owner", vec![]),
        coins(10, "atom"),
        ExecMsg::WithdrawTo {
            receiver: "community".to_string(),
            funds: vec![coin(3, "atom"), coin(8, "atom")],
        },
    )
    .unwrap();
    assert_eq!(
        resp.messages,
        vec![BankMsg::Send { to_address: "community".to_string(), amount: coins(3, "atom") }]
    );
}

#[test]
fn withdraw_to_by_non_owner_is_unauthorized() {
    let mut store = fresh("owner", 0);
    let r = execute(
        &mut store,
        &info("sender", vec![]),
        coins(10, "atom"),
        ExecMsg::WithdrawTo { receiver: "community".to_string(), funds: vec![] },
    );
    assert_eq!(r, Err(ContractError::Unauthorized { owner: "owner".to_string() }));
}

#[test]
fn value_before_instantiation_is_not_found() {
    let store = StateStore::new();
    assert_eq!(query(&store, QueryMsg::Value {}), Err(ContractError::NotFound));
}

#[test]
fn donate_before_instantiation_is_not_found() {
    let mut store = StateStore::new();
    let r = execute(&mut store, &info("sender", vec![]), vec![], ExecMsg::Donate {});
    assert_eq!(r, Err(ContractError::NotFound));
}

#[test]
fn reset_before_instantiation_is_not_found() {
    let mut store = StateStore::new();
    let r = execute(&mut store, &info("sender", vec![]), vec![], ExecMsg::Reset { counter: 1 });
    assert_eq!(r, Err(ContractError::NotFound));
}

#[test]
fn donate_overflow_guard_detects_the_excluded_input() {
    let mut store = fresh("owner", 0);
    execute(&mut store, &info("owner", vec![]), vec![], ExecMsg::Reset { counter: u64::MAX })
        .unwrap();
    // A qualifying fund would push the counter past its range.
    assert!(donate_would_overflow(&store, &info("sender", coins(10, "atom"))));
    // A non-qualifying one would not, and donating it leaves the counter.
    assert!(!donate_would_overflow(&store, &info("sender", coins(9, "atom"))));
    execute(&mut store, &info("sender", coins(9, "atom")), vec![], ExecMsg::Donate {}).unwrap();
    assert_eq!(query(&store, QueryMsg::Value {}).unwrap(), ValueResp { value: u64::MAX });
}

#[test]
fn storage_fault_is_its_own_kind() {
    assert_ne!(ContractError::StorageFault, ContractError::NotFound);
    assert_ne!(ContractError::StorageFault, ContractError::Overflow);
    assert_eq!(ContractError::StorageFault, ContractError::StorageFault.clone());
}

#[test]
fn decimal_rendering_is_exact() {
    assert_eq!(dec_string(0), "0");
    assert_eq!(dec_string(7), "7");
    assert_eq!(dec_string(10), "10");
    assert_eq!(dec_string(42), "42");
    assert_eq!(dec_string(1000), "1000");
    assert_eq!(dec_string(u64::MAX), "18446744073709551615");
}

#[test]
fn coin_helpers_build_the_pair() {
    let c = coin(10, "atom");
    assert_eq!(c.denom, "atom");
    assert_eq!(c.amount, 10);
    assert_eq!(coins(10, "atom"), vec![c]);
}
