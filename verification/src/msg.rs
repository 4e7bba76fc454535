//! Message and value types of the contract's external interface.

use vstd::prelude::*;

verus! {

/// An amount of one native asset: a denomination and a quantity.
#[derive(Debug, PartialEq, Eq)]
pub struct Coin {
    pub denom: String,
    pub amount: u128,
}

impl Clone for Coin {
    fn clone(&self) -> (r: Coin)
        ensures
            r == *self,
    {
        Coin { denom: self.denom.clone(), amount: self.amount }
    }
}

/// The calling context of one execute message: who sent it and which funds
/// they attached.
#[derive(Debug)]
pub struct MessageInfo {
    pub sender: String,
    pub funds: Vec<Coin>,
}

/// Constructor input: the minimal donation that makes the counter move.
#[derive(Debug)]
pub struct InstantiateMsg {
    pub minimal_donation: Coin,
}

/// The read-only queries the contract answers.
#[derive(Debug)]
pub enum QueryMsg {
    Value {},
}

/// The state-changing commands the contract accepts.
#[derive(Debug)]
pub enum ExecMsg {
    Donate {},
    Withdraw {},
}

/// Answer to [`QueryMsg::Value`]: the current counter.
#[derive(Debug, Clone, Copy, PartialEq, Eq, Structural)]
pub struct ValueResp {
    pub value: u64,
}

} // verus!
