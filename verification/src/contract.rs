//! The contract core: one-time initialization, the counter query, and the
//! two commands — donate and withdraw.
//!
//! Every operation takes the state store it works on as an explicit value.
//! The host performs the outside work around these functions: it keeps the
//! store between invocations, moves attached funds into the contract's
//! custody, reports the contract's bank balance, and carries out the bank
//! instructions of a successful response.

use vstd::prelude::*;

use crate::decimal::spec_decimal;
use crate::decimal::u64_to_decimal;
use crate::error::ContractError;
use crate::msg::Coin;
use crate::msg::InstantiateMsg;
use crate::msg::MessageInfo;
use crate::msg::ValueResp;
use crate::response::BankMsg;
use crate::response::Response;
use crate::state::is_initialized;
use crate::state::StateStore;

verus! {

/// One attached entry qualifies when it has the threshold's denomination and
/// at least its amount.
pub open spec fn coin_qualifies(c: Coin, min: Coin) -> bool {
    c.denom@ == min.denom@ && c.amount >= min.amount
}

/// A donation qualifies when at least one attached entry does; entries of
/// the same denomination are not summed.
pub open spec fn any_qualifies(funds: Seq<Coin>, min: Coin) -> bool {
    exists|i: int| 0 <= i < funds.len() && coin_qualifies(#[trigger] funds[i], min)
}

/// The store as initialization leaves it: counter zero, the given threshold,
/// and the caller as owner.
pub open spec fn instantiated_state(msg: InstantiateMsg, sender: String) -> StateStore {
    StateStore {
        counter: Some(0u64),
        minimal_donation: Some(msg.minimal_donation),
        owner: Some(sender),
    }
}

/// What the counter query reads.
pub open spec fn spec_value(s: StateStore) -> Option<u64> {
    s.counter
}

/// A donation can be processed once counter and threshold are in the store;
/// it does not read the owner.
pub open spec fn donate_ready(s: StateStore) -> bool {
    s.counter is Some && s.minimal_donation is Some
}

/// The counter after one donation: up by one exactly when the attached funds
/// qualify, otherwise unchanged.
pub open spec fn counter_after_donate(c: u64, funds: Seq<Coin>, min: Coin) -> u64 {
    if any_qualifies(funds, min) {
        (c + 1) as u64
    } else {
        c
    }
}

/// The whole store after one donation: only the counter can move, and only
/// when the store was ready and the funds qualify.
pub open spec fn state_after_donate(s: StateStore, funds: Seq<Coin>) -> StateStore {
    if donate_ready(s) {
        StateStore {
            counter: Some(counter_after_donate(s.counter.unwrap(), funds, s.minimal_donation.unwrap())),
            minimal_donation: s.minimal_donation,
            owner: s.owner,
        }
    } else {
        s
    }
}

/// The auditing shape of a successful donate response: no bank instruction,
/// and the action, the sender, and the resulting counter as attributes.
pub open spec fn is_donate_response(r: Response, sender: Seq<char>, counter: u64) -> bool {
    &&& r.messages@.len() == 0
    &&& r.attributes@.len() == 3
    &&& r.attributes@[0].key@ == "action"@
    &&& r.attributes@[0].value@ == "poke"@
    &&& r.attributes@[1].key@ == "sender"@
    &&& r.attributes@[1].value@ == sender
    &&& r.attributes@[2].key@ == "counter"@
    &&& r.attributes@[2].value@ == spec_decimal(counter as nat)
}

/// The shape of a successful withdraw response: one instruction moving the
/// entire reported balance to the owner, plus the auditing attributes.
pub open spec fn is_withdraw_response(
    r: Response,
    owner: Seq<char>,
    sender: Seq<char>,
    balance: Seq<Coin>,
) -> bool {
    &&& r.messages@.len() == 1
    &&& r.messages@[0] matches BankMsg::Send { to_address, amount } && to_address@ == owner
        && amount@ == balance
    &&& r.attributes@.len() == 2
    &&& r.attributes@[0].key@ == "action"@
    &&& r.attributes@[0].value@ == "withdraw"@
    &&& r.attributes@[1].key@ == "sender"@
    &&& r.attributes@[1].value@ == sender
}

/// One-time setup: seed the store with counter zero, the threshold from the
/// constructor input, and the caller as owner. Cannot fail.
pub fn instantiate(state: &mut StateStore, msg: InstantiateMsg, info: MessageInfo) -> (r: Result<
    Response,
    ContractError,
>)
    ensures
        *final(state) == instantiated_state(msg, info.sender),
        r matches Ok(resp) && resp.attributes@.len() == 0 && resp.messages@.len() == 0,
{
    state.save_counter(0);
    state.save_minimal_donation(msg.minimal_donation);
    state.save_owner(info.sender);
    Ok(Response::new())
}

/// Read the counter. Fails only on a store that initialization never filled.
pub fn value(state: &StateStore) -> (r: Result<ValueResp, ContractError>)
    ensures
        state.counter matches Some(c) ==> r == Ok::<ValueResp, ContractError>(
            ValueResp { value: c },
        ),
        state.counter is None ==> r == Err::<ValueResp, ContractError>(
            ContractError::StorageIntegrityFailure,
        ),
{
    let value = match state.load_counter() {
        Ok(v) => v,
        Err(e) => {
            return Err(e);
        },
    };
    Ok(ValueResp { value })
}

/// Whether some attached entry meets the threshold.
pub fn has_qualifying_entry(funds: &Vec<Coin>, min: &Coin) -> (r: bool)
    ensures
        r == any_qualifies(funds@, *min),
{
    let mut i: usize = 0;
    while i < funds.len()
        invariant
            i <= funds@.len(),
            forall|j: int| 0 <= j < i ==> !coin_qualifies(#[trigger] funds@[j], *min),
        decreases funds@.len() - i,
    {
        let c = &funds[i];
        if c.denom == min.denom && c.amount >= min.amount {
            return true;
        }
        i = i + 1;
    }
    false
}

/// Process a donation: bump the counter exactly when some attached entry
/// meets the threshold; a donation below it is a no-op success, never an
/// error. The attached funds themselves enter the contract's custody by host
/// convention whether or not they qualify.
pub fn donate(state: &mut StateStore, info: MessageInfo) -> (r: Result<Response, ContractError>)
    requires
        old(state).counter matches Some(c) ==> c < u64::MAX,
    ensures
        *final(state) == state_after_donate(*old(state), info.funds@),
        donate_ready(*old(state)) ==> (r matches Ok(resp) && is_donate_response(
            resp,
            info.sender@,
            counter_after_donate(
                old(state).counter.unwrap(),
                info.funds@,
                old(state).minimal_donation.unwrap(),
            ),
        )),
        !donate_ready(*old(state)) ==> r == Err::<Response, ContractError>(
            ContractError::StorageIntegrityFailure,
        ),
{
    let minimal_donation = match state.load_minimal_donation() {
        Ok(m) => m,
        Err(e) => {
            return Err(e);
        },
    };
    let mut value = match state.load_counter() {
        Ok(v) => v,
        Err(e) => {
            return Err(e);
        },
    };

    if has_qualifying_entry(&info.funds, &minimal_donation) {
        value = value + 1;
        state.save_counter(value);
    }

    let counter_str = u64_to_decimal(value);
    let resp = Response::new().add_attribute("action", "poke").add_attribute(
        "sender",
        info.sender.as_str(),
    ).add_attribute("counter", counter_str.as_str());
    Ok(resp)
}

/// Withdraw the contract's whole held balance to the owner. Only the owner
/// may call this; anyone else is refused and nothing changes. The caller
/// hands in the contract's full balance as the host's bank reports it, and
/// the host carries out the returned transfer instruction.
pub fn withdraw(state: &StateStore, info: MessageInfo, balance: Vec<Coin>) -> (r: Result<
    Response,
    ContractError,
>)
    ensures
        state.owner is None ==> r == Err::<Response, ContractError>(
            ContractError::StorageIntegrityFailure,
        ),
        state.owner matches Some(o) ==> {
            &&& o@ != info.sender@ ==> (r matches Err(e) && e matches ContractError::Unauthorized {
                owner,
            } && owner@ == o@)
            &&& o@ == info.sender@ ==> (r matches Ok(resp) && is_withdraw_response(
                resp,
                o@,
                info.sender@,
                balance@,
            ))
        },
{
    let owner = match state.load_owner() {
        Ok(o) => o,
        Err(e) => {
            return Err(e);
        },
    };
    if !(info.sender == owner) {
        return Err(ContractError::Unauthorized { owner });
    }

    let bank_msg = BankMsg::Send { to_address: owner, amount: balance };
    let resp = Response::new().add_message(bank_msg).add_attribute(
        "action",
        "withdraw",
    ).add_attribute("sender", info.sender.as_str());
    Ok(resp)
}

/// Initialization fills all three slots, and immediately after it the
/// counter reads zero, whatever the threshold and whoever the caller.
pub proof fn lemma_value_after_initialize(msg: InstantiateMsg, sender: String)
    ensures
        is_initialized(instantiated_state(msg, sender)),
        spec_value(instantiated_state(msg, sender)) == Some(0u64),
{
}

/// A donation whose attached funds hold no qualifying entry leaves the
/// store exactly as it was.
pub proof fn lemma_non_qualifying_donation_is_noop(s: StateStore, funds: Seq<Coin>)
    requires
        s.minimal_donation matches Some(min) && !any_qualifies(funds, min),
    ensures
        state_after_donate(s, funds) == s,
{
}

/// A donation with at least one qualifying entry moves the counter up by
/// exactly one, however many non-qualifying entries come along, and touches
/// neither threshold nor owner.
pub proof fn lemma_qualifying_donation_increments(s: StateStore, funds: Seq<Coin>)
    requires
        donate_ready(s),
        any_qualifies(funds, s.minimal_donation.unwrap()),
        s.counter.unwrap() < u64::MAX,
    ensures
        state_after_donate(s, funds).counter == Some((s.counter.unwrap() + 1) as u64),
        state_after_donate(s, funds).minimal_donation == s.minimal_donation,
        state_after_donate(s, funds).owner == s.owner,
{
}

/// The store after a row of donations, each with the same attached funds.
pub open spec fn state_after_donations(s: StateStore, funds: Seq<Coin>, n: nat) -> StateStore
    decreases n,
{
    if n == 0 {
        s
    } else {
        state_after_donate(state_after_donations(s, funds, (n - 1) as nat), funds)
    }
}

/// Qualifying donations count one by one: N of them from a fresh counter
/// leave it at exactly N, with threshold and owner untouched.
pub proof fn lemma_repeated_qualifying_donations(s: StateStore, funds: Seq<Coin>, n: nat)
    requires
        s.counter == Some(0u64),
        s.minimal_donation matches Some(min) && any_qualifies(funds, min),
        n <= u64::MAX,
    ensures
        state_after_donations(s, funds, n).counter == Some(n as u64),
        state_after_donations(s, funds, n).minimal_donation == s.minimal_donation,
        state_after_donations(s, funds, n).owner == s.owner,
    decreases n,
{
    if n > 0 {
        lemma_repeated_qualifying_donations(s, funds, (n - 1) as nat);
    }
}

} // verus!
