//! The result of an execute call: auditing attributes plus outbound
//! instructions handed back to the host for it to perform.

use vstd::prelude::*;
use vstd::string::StringExecFns;

use crate::msg::Coin;

verus! {

/// One auditing attribute of a response: a key and a value.
#[derive(Debug, PartialEq, Eq)]
pub struct Attribute {
    pub key: String,
    pub value: String,
}

/// An instruction to the host's bank subsystem.
#[derive(Debug, PartialEq, Eq)]
pub enum BankMsg {
    /// Move `amount` from the contract's custody to `to_address`.
    Send { to_address: String, amount: Vec<Coin> },
}

/// What an execute call hands back: attributes for auditing and bank
/// instructions for the host to carry out.
#[derive(Debug, PartialEq, Eq)]
pub struct Response {
    pub attributes: Vec<Attribute>,
    pub messages: Vec<BankMsg>,
}

impl Response {
    /// An empty response: no attributes, no instructions.
    pub fn new() -> (r: Response)
        ensures
            r.attributes@.len() == 0,
            r.messages@.len() == 0,
    {
        Response { attributes: Vec::new(), messages: Vec::new() }
    }

    /// Append one auditing attribute; everything already present stays.
    pub fn add_attribute(self, key: &str, value: &str) -> (r: Response)
        ensures
            r.attributes@.len() == self.attributes@.len() + 1,
            forall|i: int|
                0 <= i < self.attributes@.len() ==> r.attributes@[i] == self.attributes@[i],
            r.attributes@.last().key@ == key@,
            r.attributes@.last().value@ == value@,
            r.messages@ == self.messages@,
    {
        let mut attributes = self.attributes;
        attributes.push(
            Attribute { key: String::from_str(key), value: String::from_str(value) },
        );
        Response { attributes, messages: self.messages }
    }

    /// Append one bank instruction; everything already present stays.
    pub fn add_message(self, msg: BankMsg) -> (r: Response)
        ensures
            r.messages@ == self.messages@.push(msg),
            r.attributes@ == self.attributes@,
    {
        let mut messages = self.messages;
        messages.push(msg);
        Response { attributes: self.attributes, messages }
    }
}

} // verus!
