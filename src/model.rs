//! The ledger as a mathematical state machine: its state, and what each
//! operation returns and leaves behind.

use vstd::prelude::*;
use crate::sums::asset_total;
use crate::types::{AccountId, AssetId, Balance, Error, Event};

verus! {

/// The largest value a balance or a total supply can take.
pub const MAX_BALANCE: u128 = 0xffff_ffff_ffff_ffff_ffff_ffff_ffff_ffff;

/// The largest asset identifier.
pub const MAX_ASSET_ID: u32 = 0xffff_ffff;

/// The state of the ledger: its three stores and the notifications it has deposited.
pub struct LedgerView {
    /// Total supply of each asset; an asset exists iff it has an entry here.
    pub total_supply: Map<AssetId, Balance>,
    /// Balance of each account in each asset; an absent entry reads as zero.
    pub balances: Map<(AssetId, AccountId), Balance>,
    /// The identifier the next created asset receives.
    pub next_asset_id: AssetId,
    /// Notifications deposited by committed operations, oldest first.
    pub events: Seq<Event>,
}

impl LedgerView {
    /// The ledger before any operation.
    pub open spec fn empty() -> LedgerView {
        LedgerView {
            total_supply: Map::empty(),
            balances: Map::empty(),
            next_asset_id: 0,
            events: Seq::empty(),
        }
    }

    /// Whether `asset` has been created.
    pub open spec fn asset_exists(self, asset: AssetId) -> bool {
        self.total_supply.contains_key(asset)
    }

    /// The total supply of `asset`, zero where it does not exist.
    pub open spec fn supply_of(self, asset: AssetId) -> Balance {
        if self.total_supply.contains_key(asset) {
            self.total_supply[asset]
        } else {
            0
        }
    }

    /// The balance of `account` in `asset`, zero where no entry is stored.
    pub open spec fn balance_in(self, asset: AssetId, account: AccountId) -> Balance {
        if self.balances.contains_key((asset, account)) {
            self.balances[(asset, account)]
        } else {
            0
        }
    }

    /// The stores agree: every asset's supply is the sum of its balances, and
    /// every existing asset's identifier lies below the counter.
    pub open spec fn consistent(self) -> bool {
        &&& self.balances.dom().finite()
        &&& forall|a: AssetId| #[trigger]
            asset_total(self.balances, a) == self.supply_of(a) as int
        &&& forall|a: AssetId| #[trigger]
            self.total_supply.contains_key(a) ==> a < self.next_asset_id
    }

    /// The same stores, with everything but the notifications compared.
    pub open spec fn same_stores(self, other: LedgerView) -> bool {
        &&& self.total_supply == other.total_supply
        &&& self.balances == other.balances
        &&& self.next_asset_id == other.next_asset_id
    }

    /// The state after `caller` creates an asset with `initial_supply`.
    pub open spec fn after_create(self, caller: AccountId, initial_supply: Balance) -> LedgerView
        recommends
            self.next_asset_id < MAX_ASSET_ID,
    {
        let id = self.next_asset_id;
        LedgerView {
            total_supply: self.total_supply.insert(id, initial_supply),
            balances: self.balances.insert((id, caller), initial_supply),
            next_asset_id: (id + 1) as AssetId,
            events: self.events.push(
                Event::AssetCreated { asset_id: id, creator: caller, initial_supply },
            ),
        }
    }

    /// What a transfer of `amount` of `asset` from `from` to `to` returns:
    /// the first failing check, in order, or success.
    pub open spec fn transfer_outcome(
        self,
        from: AccountId,
        asset: AssetId,
        to: AccountId,
        amount: Balance,
    ) -> Result<(), Error> {
        if from == to {
            Err(Error::TransferToSelf)
        } else if self.balance_in(asset, from) < amount {
            Err(Error::InsufficientBalance)
        } else if self.balance_in(asset, to) + amount > MAX_BALANCE {
            Err(Error::Overflow)
        } else {
            Ok(())
        }
    }

    /// The state after that transfer: unchanged where it is rejected.
    pub open spec fn after_transfer(
        self,
        from: AccountId,
        asset: AssetId,
        to: AccountId,
        amount: Balance,
    ) -> LedgerView {
        if self.transfer_outcome(from, asset, to, amount) is Ok {
            LedgerView {
                balances: self.balances.insert(
                    (asset, from),
                    (self.balance_in(asset, from) - amount) as Balance,
                ).insert((asset, to), (self.balance_in(asset, to) + amount) as Balance),
                events: self.events.push(Event::Transferred { asset_id: asset, from, to, amount }),
                ..self
            }
        } else {
            self
        }
    }

    /// What issuing `amount` of `asset` to `caller` returns: the first failing
    /// check, in order, or success.
    pub open spec fn issue_outcome(
        self,
        caller: AccountId,
        asset: AssetId,
        amount: Balance,
    ) -> Result<(), Error> {
        if !self.asset_exists(asset) {
            Err(Error::AssetNotFound)
        } else if self.supply_of(asset) + amount > MAX_BALANCE {
            Err(Error::Overflow)
        } else if self.balance_in(asset, caller) + amount > MAX_BALANCE {
            Err(Error::Overflow)
        } else {
            Ok(())
        }
    }

    /// The state after that issue: unchanged where it is rejected.
    pub open spec fn after_issue(
        self,
        caller: AccountId,
        asset: AssetId,
        amount: Balance,
    ) -> LedgerView {
        if self.issue_outcome(caller, asset, amount) is Ok {
            LedgerView {
                total_supply: self.total_supply.insert(
                    asset,
                    (self.supply_of(asset) + amount) as Balance,
                ),
                balances: self.balances.insert(
                    (asset, caller),
                    (self.balance_in(asset, caller) + amount) as Balance,
                ),
                events: self.events.push(
                    Event::TokensIssued { asset_id: asset, issuer: caller, amount },
                ),
                ..self
            }
        } else {
            self
        }
    }

    /// The state after a run of transfers of `asset`, each given as
    /// (sender, receiver, amount), applied in order.
    pub open spec fn after_transfers(
        self,
        asset: AssetId,
        calls: Seq<(AccountId, AccountId, Balance)>,
    ) -> LedgerView
        decreases calls.len(),
    {
        if calls.len() == 0 {
            self
        } else {
            self.after_transfer(calls[0].0, asset, calls[0].1, calls[0].2).after_transfers(
                asset,
                calls.drop_first(),
            )
        }
    }

    /// The state after a run of asset creations, each given as (creator,
    /// initial supply), applied in order.
    pub open spec fn after_creates(self, calls: Seq<(AccountId, Balance)>) -> LedgerView
        decreases calls.len(),
    {
        if calls.len() == 0 {
            self
        } else {
            self.after_create(calls[0].0, calls[0].1).after_creates(calls.drop_first())
        }
    }

    /// The identifiers that a run of asset creations returns, in order.
    pub open spec fn created_ids(self, calls: Seq<(AccountId, Balance)>) -> Seq<AssetId>
        decreases calls.len(),
    {
        if calls.len() == 0 {
            Seq::empty()
        } else {
            seq![self.next_asset_id] + self.after_create(calls[0].0, calls[0].1).created_ids(
                calls.drop_first(),
            )
        }
    }
}

} // verus!
