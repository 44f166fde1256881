//! The ledger itself: three stores and the operations on them. Every check runs
//! before any write, so a rejected call leaves the ledger as it found it.

use std::collections::BTreeMap;
use vstd::prelude::*;
use crate::laws::{
    lemma_create_keeps_consistent, lemma_empty_consistent, lemma_issue_keeps_consistent,
    lemma_transfer_keeps_consistent,
};
use crate::model::{LedgerView, MAX_ASSET_ID};
use crate::types::{AccountId, AssetId, Balance, Error, Event};

verus! {

/// A multi-asset ledger.
pub struct Pallet {
    total_supply: BTreeMap<AssetId, Balance>,
    balances: BTreeMap<(AssetId, AccountId), Balance>,
    next_asset_id: AssetId,
    events: Vec<Event>,
}

impl View for Pallet {
    type V = LedgerView;

    closed spec fn view(&self) -> LedgerView {
        LedgerView {
            total_supply: self.total_supply@,
            balances: self.balances@,
            next_asset_id: self.next_asset_id,
            events: self.events@,
        }
    }
}

impl Pallet {
    /// A ledger with no assets, no balances and the counter at zero.
    pub fn new() -> (r: Pallet)
        ensures
            r@ == LedgerView::empty(),
            r@.consistent(),
    {
        proof {
            lemma_empty_consistent();
        }
        Pallet {
            total_supply: BTreeMap::new(),
            balances: BTreeMap::new(),
            next_asset_id: 0,
            events: Vec::new(),
        }
    }

    /// The total supply of `asset_id`, zero where the asset does not exist.
    pub fn total_supply(&self, asset_id: AssetId) -> (r: Balance)
        ensures
            r == self@.supply_of(asset_id),
    {
        match self.total_supply.get(&asset_id) {
            Some(v) => *v,
            None => 0,
        }
    }

    /// The balance of `account` in `asset_id`, zero where none is stored.
    pub fn balance_of(&self, asset_id: AssetId, account: AccountId) -> (r: Balance)
        ensures
            r == self@.balance_in(asset_id, account),
    {
        match self.balances.get(&(asset_id, account)) {
            Some(v) => *v,
            None => 0,
        }
    }

    /// The identifier the next created asset receives.
    pub fn next_asset_id(&self) -> (r: AssetId)
        ensures
            r == self@.next_asset_id,
    {
        self.next_asset_id
    }

    /// The notifications deposited so far, oldest first.
    pub fn events(&self) -> (r: &Vec<Event>)
        ensures
            r@ == self@.events,
    {
        &self.events
    }

    /// Creates an asset owned wholly by `caller` with `initial_supply` units,
    /// and returns its identifier.
    pub fn create_asset(&mut self, caller: AccountId, initial_supply: Balance) -> (r: AssetId)
        requires
            old(self)@.next_asset_id < MAX_ASSET_ID,
        ensures
            r == old(self)@.next_asset_id,
            final(self)@ == old(self)@.after_create(caller, initial_supply),
            old(self)@.consistent() ==> final(self)@.consistent(),
    {
        proof {
            if self@.consistent() {
                lemma_create_keeps_consistent(self@, caller, initial_supply);
            }
        }
        let asset_id = self.next_asset_id;
        self.next_asset_id = asset_id + 1;
        self.total_supply.insert(asset_id, initial_supply);
        self.balances.insert((asset_id, caller), initial_supply);
        self.events.push(Event::AssetCreated { asset_id, creator: caller, initial_supply });
        asset_id
    }

    /// Moves `amount` of `asset_id` from `caller` to `to`.
    pub fn transfer(
        &mut self,
        caller: AccountId,
        asset_id: AssetId,
        to: AccountId,
        amount: Balance,
    ) -> (r: Result<(), Error>)
        ensures
            r == old(self)@.transfer_outcome(caller, asset_id, to, amount),
            final(self)@ == old(self)@.after_transfer(caller, asset_id, to, amount),
            r is Err ==> final(self)@ == old(self)@,
            caller == to ==> r == Err::<(), Error>(Error::TransferToSelf),
            final(self)@.total_supply == old(self)@.total_supply,
            old(self)@.consistent() ==> final(self)@.consistent(),
    {
        proof {
            if self@.consistent() {
                lemma_transfer_keeps_consistent(self@, caller, asset_id, to, amount);
            }
        }
        if caller == to {
            return Err(Error::TransferToSelf);
        }
        let from_balance = self.balance_of(asset_id, caller);
        if from_balance < amount {
            return Err(Error::InsufficientBalance);
        }
        let new_from_balance = match from_balance.checked_sub(amount) {
            Some(v) => v,
            None => return Err(Error::Overflow),
        };
        let new_to_balance = match self.balance_of(asset_id, to).checked_add(amount) {
            Some(v) => v,
            None => return Err(Error::Overflow),
        };
        self.balances.insert((asset_id, caller), new_from_balance);
        self.balances.insert((asset_id, to), new_to_balance);
        self.events.push(Event::Transferred { asset_id, from: caller, to, amount });
        Ok(())
    }

    /// Adds `amount` of the existing asset `asset_id` to its supply and to
    /// `caller`'s balance.
    pub fn issue_tokens(
        &mut self,
        caller: AccountId,
        asset_id: AssetId,
        amount: Balance,
    ) -> (r: Result<(), Error>)
        ensures
            r == old(self)@.issue_outcome(caller, asset_id, amount),
            final(self)@ == old(self)@.after_issue(caller, asset_id, amount),
            r is Err ==> final(self)@ == old(self)@,
            old(self)@.consistent() ==> final(self)@.consistent(),
    {
        proof {
            if self@.consistent() {
                lemma_issue_keeps_consistent(self@, caller, asset_id, amount);
            }
        }
        if !self.total_supply.contains_key(&asset_id) {
            return Err(Error::AssetNotFound);
        }
        let new_total_supply = match self.total_supply(asset_id).checked_add(amount) {
            Some(v) => v,
            None => return Err(Error::Overflow),
        };
        let new_balance = match self.balance_of(asset_id, caller).checked_add(amount) {
            Some(v) => v,
            None => return Err(Error::Overflow),
        };
        self.total_supply.insert(asset_id, new_total_supply);
        self.balances.insert((asset_id, caller), new_balance);
        self.events.push(Event::TokensIssued { asset_id, issuer: caller, amount });
        Ok(())
    }

    /// Reads the balance of `account` in `asset_id` and the asset's total
    /// supply, both zero where nothing is stored. Any signed caller may ask.
    pub fn get_balance(
        &self,
        _caller: AccountId,
        asset_id: AssetId,
        account: AccountId,
    ) -> (r: (Balance, Balance))
        ensures
            r.0 == self@.balance_in(asset_id, account),
            r.1 == self@.supply_of(asset_id),
    {
        (self.balance_of(asset_id, account), self.total_supply(asset_id))
    }
}

} // verus!
