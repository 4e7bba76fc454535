//! The contract's error taxonomy.

use vstd::prelude::*;

verus! {

/// Everything that can go wrong inside the contract core.
#[derive(Debug, PartialEq, Eq)]
pub enum ContractError {
    /// A withdrawal was attempted by someone other than the owner; carries
    /// the owner's identity for diagnostics.
    Unauthorized { owner: String },
    /// A load of counter, threshold or owner found nothing: initialization
    /// was skipped or the store is corrupted. Fatal, never recovered locally.
    StorageIntegrityFailure,
}

} // verus!
