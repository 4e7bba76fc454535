//! Direct tests of the contract core, the state store, the decimal
//! rendering, and the error paths.

use counting_contract::contract::donate;
use counting_contract::contract::has_qualifying_entry;
use counting_contract::contract::instantiate;
use counting_contract::contract::value;
use counting_contract::contract::withdraw;
use counting_contract::decimal::u64_to_decimal;
use counting_contract::error::ContractError;
use counting_contract::msg::Coin;
use counting_contract::msg::InstantiateMsg;
use counting_contract::msg::MessageInfo;
use counting_contract::msg::ValueResp;
use counting_contract::response::Attribute;
use counting_contract::response::BankMsg;
use counting_contract::state::StateStore;

fn coin(amount: u128, denom: &str) -> Coin {
    Coin { denom: denom.to_string(), amount }
}

fn info(sender: &str, funds: Vec<Coin>) -> MessageInfo {
    MessageInfo { sender: sender.to_string(), funds }
}

fn fresh_state(threshold: Coin, owner: &str) -> StateStore {
    let mut state = StateStore::new();
    let msg = InstantiateMsg { minimal_donation: threshold };
    instantiate(&mut state, msg, info(owner, vec![])).unwrap();
    state
}

fn attr(key: &str, value: &str) -> Attribute {
    Attribute { key: key.to_string(), value: value.to_string() }
}

#[test]
fn decimal_rendering() {
    assert_eq!(u64_to_decimal(0).as_str(), "0");
    assert_eq!(u64_to_decimal(7).as_str(), "7");
    assert_eq!(u64_to_decimal(10).as_str(), "10");
    assert_eq!(u64_to_decimal(42).as_str(), "42");
    assert_eq!(u64_to_decimal(1000).as_str(), "1000");
    assert_eq!(u64_to_decimal(u64::MAX).as_str(), "18446744073709551615");
}

#[test]
fn state_store_roundtrip() {
    let mut state = StateStore::new();
    assert_eq!(state.load_counter(), Err(ContractError::StorageIntegrityFailure));
    assert_eq!(state.load_minimal_donation(), Err(ContractError::StorageIntegrityFailure));
    assert_eq!(state.load_owner(), Err(ContractError::StorageIntegrityFailure));

    state.save_counter(3);
    state.save_minimal_donation(coin(10, "atom"));
    state.save_owner("owner".to_string());

    assert_eq!(state.load_counter(), Ok(3));
    assert_eq!(state.load_minimal_donation(), Ok(coin(10, "atom")));
    assert_eq!(state.load_owner(), Ok("owner".to_string()));
}

#[test]
fn instantiate_seeds_all_three_values() {
    let state = fresh_state(coin(10, "atom"), "owner");
    assert_eq!(state.counter, Some(0));
    assert_eq!(state.minimal_donation, Some(coin(10, "atom")));
    assert_eq!(state.owner, Some("owner".to_string()));
}

#[test]
fn query_on_uninitialized_store_fails() {
    let state = StateStore::new();
    assert_eq!(value(&state), Err(ContractError::StorageIntegrityFailure));
}

#[test]
fn donate_on_uninitialized_store_fails() {
    let mut state = StateStore::new();
    let r = donate(&mut state, info("alice", vec![coin(10, "atom")]));
    assert_eq!(r, Err(ContractError::StorageIntegrityFailure));
}

#[test]
fn withdraw_on_uninitialized_store_fails() {
    let state = StateStore::new();
    let r = withdraw(&state, info("alice", vec![]), vec![]);
    assert_eq!(r, Err(ContractError::StorageIntegrityFailure));
}

#[test]
fn qualifying_entry_rules() {
    let min = coin(10, "atom");
    // Equal amount and denomination qualifies.
    assert!(has_qualifying_entry(&vec![coin(10, "atom")], &min));
    // More than the threshold qualifies.
    assert!(has_qualifying_entry(&vec![coin(11, "atom")], &min));
    // Below the threshold does not.
    assert!(!has_qualifying_entry(&vec![coin(9, "atom")], &min));
    // Another denomination does not, however large.
    assert!(!has_qualifying_entry(&vec![coin(100, "btc")], &min));
    // Nothing attached does not.
    assert!(!has_qualifying_entry(&vec![], &min));
    // Entries of one denomination are not summed.
    assert!(!has_qualifying_entry(&vec![coin(5, "atom"), coin(5, "atom")], &min));
    // One qualifying entry suffices, wherever it stands.
    assert!(has_qualifying_entry(
        &vec![coin(9, "atom"), coin(100, "btc"), coin(10, "atom")],
        &min
    ));
}

#[test]
fn donate_below_threshold_is_noop_success() {
    let mut state = fresh_state(coin(10, "atom"), "owner");
    let r = donate(&mut state, info("alice", vec![coin(9, "atom")])).unwrap();
    assert_eq!(state.counter, Some(0));
    assert_eq!(
        r.attributes,
        vec![attr("action", "poke"), attr("sender", "alice"), attr("counter", "0")]
    );
    assert_eq!(r.messages, vec![]);
}

#[test]
fn donate_same_denom_entries_are_not_summed() {
    let mut state = fresh_state(coin(10, "atom"), "owner");
    donate(&mut state, info("alice", vec![coin(5, "atom"), coin(5, "atom")])).unwrap();
    assert_eq!(state.counter, Some(0));
}

#[test]
fn donate_qualifying_increments_once() {
    let mut state = fresh_state(coin(10, "atom"), "owner");
    let r = donate(
        &mut state,
        info("alice", vec![coin(9, "atom"), coin(100, "btc"), coin(12, "atom")]),
    )
    .unwrap();
    assert_eq!(state.counter, Some(1));
    assert_eq!(
        r.attributes,
        vec![attr("action", "poke"), attr("sender", "alice"), attr("counter", "1")]
    );
    // The threshold and the owner stay as initialization left them.
    assert_eq!(state.minimal_donation, Some(coin(10, "atom")));
    assert_eq!(state.owner, Some("owner".to_string()));
}

#[test]
fn repeated_qualifying_donations_count_up() {
    let mut state = fresh_state(coin(10, "atom"), "owner");
    for _ in 0..5 {
        donate(&mut state, info("alice", vec![coin(10, "atom")])).unwrap();
    }
    assert_eq!(value(&state), Ok(ValueResp { value: 5 }));
}

#[test]
fn withdraw_by_owner_transfers_entire_balance() {
    let state = fresh_state(coin(10, "atom"), "owner");
    let balance = vec![coin(15, "atom"), coin(3, "btc")];
    let r = withdraw(&state, info("owner", vec![]), balance.clone()).unwrap();
    assert_eq!(
        r.messages,
        vec![BankMsg::Send { to_address: "owner".to_string(), amount: balance }]
    );
    assert_eq!(r.attributes, vec![attr("action", "withdraw"), attr("sender", "owner")]);
    // The counter is untouched.
    assert_eq!(state.counter, Some(0));
}

#[test]
fn withdraw_by_stranger_is_refused() {
    let state = fresh_state(coin(10, "atom"), "owner");
    let r = withdraw(&state, info("member", vec![]), vec![coin(15, "atom")]);
    assert_eq!(r, Err(ContractError::Unauthorized { owner: "owner".to_string() }));
    assert_eq!(state.counter, Some(0));
}

#[test]
fn withdraw_of_empty_balance_sends_nothing() {
    let state = fresh_state(coin(10, "atom"), "owner");
    let r = withdraw(&state, info("owner", vec![]), vec![]).unwrap();
    assert_eq!(
        r.messages,
        vec![BankMsg::Send { to_address: "owner".to_string(), amount: vec![] }]
    );
}
