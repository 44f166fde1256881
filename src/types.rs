use vstd::prelude::*;

verus! {

/// Identifier of an asset, handed out in sequence from zero.
pub type AssetId = u32;

/// Identity of an account, as authenticated by the host.
pub type AccountId = u64;

/// An amount of one asset.
pub type Balance = u128;

/// Why an operation was rejected.
#[derive(Clone, Copy, Debug, PartialEq, Eq, Structural)]
pub enum Error {
    /// Not enough balance to perform the operation.
    InsufficientBalance,
    /// Arithmetic overflow occurred.
    Overflow,
    /// Asset does not exist.
    AssetNotFound,
    /// Cannot transfer to self.
    TransferToSelf,
}

/// A notification that a committed operation deposits.
#[derive(Clone, Copy, Debug, PartialEq, Eq, Structural)]
pub enum Event {
    /// New asset created.
    AssetCreated { asset_id: AssetId, creator: AccountId, initial_supply: Balance },
    /// Tokens transferred.
    Transferred { asset_id: AssetId, from: AccountId, to: AccountId, amount: Balance },
    /// Additional tokens issued.
    TokensIssued { asset_id: AssetId, issuer: AccountId, amount: Balance },
}

} // verus!
