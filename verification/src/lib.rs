//! A minimal counting contract: it keeps a donation counter, increments it
//! for every donation that meets a configured minimal threshold, and lets
//! the owner withdraw the whole held balance.
//!
//! The three entry points below dispatch incoming messages to the contract
//! core in [`contract`]. The host around them owns the outside work: it
//! keeps the [`state::StateStore`] between invocations, decodes messages,
//! reports the contract's bank balance, and carries out the bank
//! instructions of a successful [`response::Response`].

use vstd::prelude::*;

pub mod contract;
pub mod decimal;
pub mod error;
pub mod msg;
pub mod response;
pub mod state;

use contract::counter_after_donate;
use contract::donate_ready;
use contract::instantiated_state;
use contract::is_donate_response;
use contract::is_withdraw_response;
use contract::state_after_donate;
use error::ContractError;
use msg::Coin;
use msg::ExecMsg;
use msg::InstantiateMsg;
use msg::MessageInfo;
use msg::QueryMsg;
use msg::ValueResp;
use response::Response;
use state::StateStore;

verus! {

/// One-time setup: seed the store from the constructor input and the
/// calling context. The host fixes the owner to the initializing caller.
pub fn instantiate(state: &mut StateStore, info: MessageInfo, msg: InstantiateMsg) -> (r: Result<
    Response,
    ContractError,
>)
    ensures
        *final(state) == instantiated_state(msg, info.sender),
        r matches Ok(resp) && resp.attributes@.len() == 0 && resp.messages@.len() == 0,
{
    contract::instantiate(state, msg, info)
}

/// Answer a read-only query against the store.
pub fn query(state: &StateStore, msg: QueryMsg) -> (r: Result<ValueResp, ContractError>)
    ensures
        state.counter matches Some(c) ==> r == Ok::<ValueResp, ContractError>(
            ValueResp { value: c },
        ),
        state.counter is None ==> r == Err::<ValueResp, ContractError>(
            ContractError::StorageIntegrityFailure,
        ),
{
    match msg {
        QueryMsg::Value {  } => contract::value(state),
    }
}

/// Apply one command to the store. For a withdrawal the caller hands in the
/// contract's full balance as the host's bank reports it.
pub fn execute(
    state: &mut StateStore,
    info: MessageInfo,
    contract_balance: Vec<Coin>,
    msg: ExecMsg,
) -> (r: Result<Response, ContractError>)
    requires
        msg is Donate ==> (old(state).counter matches Some(c) ==> c < u64::MAX),
    ensures
        msg is Donate ==> {
            &&& *final(state) == state_after_donate(*old(state), info.funds@)
            &&& donate_ready(*old(state)) ==> (r matches Ok(resp) && is_donate_response(
                resp,
                info.sender@,
                counter_after_donate(
                    old(state).counter.unwrap(),
                    info.funds@,
                    old(state).minimal_donation.unwrap(),
                ),
            ))
            &&& !donate_ready(*old(state)) ==> r == Err::<Response, ContractError>(
                ContractError::StorageIntegrityFailure,
            )
        },
        msg is Withdraw ==> {
            &&& *final(state) == *old(state)
            &&& old(state).owner is None ==> r == Err::<Response, ContractError>(
                ContractError::StorageIntegrityFailure,
            )
            &&& old(state).owner matches Some(o) ==> {
                &&& o@ != info.sender@ ==> (r matches Err(e)
                    && e matches ContractError::Unauthorized { owner } && owner@ == o@)
                &&& o@ == info.sender@ ==> (r matches Ok(resp)
                    && is_withdraw_response(resp, o@, info.sender@, contract_balance@))
            }
        },
{
    match msg {
        ExecMsg::Donate {  } => contract::donate(state, info),
        ExecMsg::Withdraw {  } => contract::withdraw(state, info, contract_balance),
    }
}

} // verus!
