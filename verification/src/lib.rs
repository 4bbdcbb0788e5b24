//! Verified core of the Lumina vesting contracts: the vesting vault's state
//! machine, the administrative timelock, performance oracles and the insurance
//! treasury's storage.
use vstd::prelude::*;

pub mod arith;
pub mod account;
pub mod table;
pub mod insurance;
pub mod vault_errors;
pub mod oracle;
pub mod timelock;
pub mod vault_types;
pub mod vault;
pub mod vault_oracle;
pub mod vault_claims;
pub mod vault_governance;
pub mod vault_reassign;
pub mod vault_features;
pub mod vault_settings;
pub mod vault_exits;
pub mod vault_sunset;
pub mod governance;
pub mod schedules;
pub mod voting;
pub mod revocation;
pub mod collateral;
pub mod contract_settings;
pub mod laws;

verus! {

} // verus!
