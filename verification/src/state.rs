//! The state store: typed persistence for the contract's three values.
//!
//! The host hands every invocation a storage handle; this type models it as
//! an explicit value with one slot per persisted key, so that each operation
//! receives the store it works on and returns it changed or untouched.

use vstd::prelude::*;

use crate::error::ContractError;
use crate::msg::Coin;

verus! {

/// Typed key-value persistence for the contract: the donation counter, the
/// minimal-donation threshold, and the owner identity. A fresh store holds
/// none of them; initialization fills all three.
#[derive(Debug)]
pub struct StateStore {
    pub counter: Option<u64>,
    pub minimal_donation: Option<Coin>,
    pub owner: Option<String>,
}

/// The store as initialization leaves it: all three values present.
pub open spec fn is_initialized(s: StateStore) -> bool {
    s.counter is Some && s.minimal_donation is Some && s.owner is Some
}

impl StateStore {
    /// A fresh, never-initialized store.
    pub fn new() -> (s: StateStore)
        ensures
            s.counter is None,
            s.minimal_donation is None,
            s.owner is None,
    {
        StateStore { counter: None, minimal_donation: None, owner: None }
    }

    /// Persist the counter; the other slots keep their values.
    pub fn save_counter(&mut self, value: u64)
        ensures
            final(self).counter == Some(value),
            final(self).minimal_donation == old(self).minimal_donation,
            final(self).owner == old(self).owner,
    {
        self.counter = Some(value);
    }

    /// Persist the threshold; the other slots keep their values.
    pub fn save_minimal_donation(&mut self, min: Coin)
        ensures
            final(self).minimal_donation == Some(min),
            final(self).counter == old(self).counter,
            final(self).owner == old(self).owner,
    {
        self.minimal_donation = Some(min);
    }

    /// Persist the owner identity; the other slots keep their values.
    pub fn save_owner(&mut self, owner: String)
        ensures
            final(self).owner == Some(owner),
            final(self).counter == old(self).counter,
            final(self).minimal_donation == old(self).minimal_donation,
    {
        self.owner = Some(owner);
    }

    /// Load the counter, or fail when it was never written.
    pub fn load_counter(&self) -> (r: Result<u64, ContractError>)
        ensures
            self.counter matches Some(c) ==> r == Ok::<u64, ContractError>(c),
            self.counter is None ==> r == Err::<u64, ContractError>(
                ContractError::StorageIntegrityFailure,
            ),
    {
        match self.counter {
            Some(c) => Ok(c),
            None => Err(ContractError::StorageIntegrityFailure),
        }
    }

    /// Load the threshold, or fail when it was never written.
    pub fn load_minimal_donation(&self) -> (r: Result<Coin, ContractError>)
        ensures
            self.minimal_donation matches Some(m) ==> r == Ok::<Coin, ContractError>(m),
            self.minimal_donation is None ==> r == Err::<Coin, ContractError>(
                ContractError::StorageIntegrityFailure,
            ),
    {
        match &self.minimal_donation {
            Some(m) => Ok(m.clone()),
            None => Err(ContractError::StorageIntegrityFailure),
        }
    }

    /// Load the owner identity, or fail when it was never written.
    pub fn load_owner(&self) -> (r: Result<String, ContractError>)
        ensures
            self.owner matches Some(o) ==> r == Ok::<String, ContractError>(o),
            self.owner is None ==> r == Err::<String, ContractError>(
                ContractError::StorageIntegrityFailure,
            ),
    {
        match &self.owner {
            Some(o) => Ok(o.clone()),
            None => Err(ContractError::StorageIntegrityFailure),
        }
    }
}

} // verus!
