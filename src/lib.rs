//! A minimal multi-asset ledger: signed callers create fungible assets, issue
//! further supply and move balances between accounts, while the total supply of
//! each asset stays equal to the sum of its balances.

pub mod laws;
pub mod model;
pub mod pallet;
pub mod sums;
pub mod types;

pub use model::LedgerView;
pub use pallet::Pallet;
pub use types::{AccountId, AssetId, Balance, Error, Event};
