//! What holds of the ledger over every input and every sequence of calls.

use vstd::prelude::*;
use crate::model::{LedgerView, MAX_ASSET_ID, MAX_BALANCE};
use crate::sums::{asset_total, lemma_term_le_total, lemma_total_empty, lemma_total_insert, term};
use crate::types::{AccountId, AssetId, Balance, Error};

verus! {

/// The empty ledger is consistent.
pub proof fn lemma_empty_consistent()
    ensures
        LedgerView::empty().consistent(),
{
    assert forall|a: AssetId| #[trigger]
        asset_total(LedgerView::empty().balances, a) == LedgerView::empty().supply_of(a) as int by {
        lemma_total_empty(a);
    }
}

/// Creating an asset keeps the ledger consistent: the new identifier was never
/// used, so the creator's balance is the only one the new asset holds.
pub proof fn lemma_create_keeps_consistent(
    s: LedgerView,
    caller: AccountId,
    initial_supply: Balance,
)
    requires
        s.consistent(),
        s.next_asset_id < MAX_ASSET_ID,
    ensures
        s.after_create(caller, initial_supply).consistent(),
        !s.asset_exists(s.next_asset_id),
{
    let id = s.next_asset_id;
    let t = s.after_create(caller, initial_supply);
    lemma_term_le_total(s.balances, id, (id, caller));
    assert forall|a: AssetId| #[trigger] asset_total(t.balances, a) == t.supply_of(a) as int by {
        lemma_total_insert(s.balances, a, (id, caller), initial_supply);
        assert(asset_total(s.balances, a) == s.supply_of(a) as int);
    }
    lemma_total_insert(s.balances, id, (id, caller), initial_supply);
}

/// A transfer keeps the ledger consistent and leaves every total supply as it was.
pub proof fn lemma_transfer_keeps_consistent(
    s: LedgerView,
    from: AccountId,
    asset: AssetId,
    to: AccountId,
    amount: Balance,
)
    requires
        s.consistent(),
    ensures
        s.after_transfer(from, asset, to, amount).consistent(),
        s.after_transfer(from, asset, to, amount).total_supply == s.total_supply,
        forall|a: AssetId|
            asset_total(#[trigger] s.after_transfer(from, asset, to, amount).balances, a)
                == asset_total(s.balances, a),
{
    let t = s.after_transfer(from, asset, to, amount);
    if s.transfer_outcome(from, asset, to, amount) is Ok {
        let from_left = (s.balance_in(asset, from) - amount) as Balance;
        let to_now = (s.balance_in(asset, to) + amount) as Balance;
        let b1 = s.balances.insert((asset, from), from_left);
        assert forall|a: AssetId| #[trigger]
            asset_total(t.balances, a) == asset_total(s.balances, a) by {
            lemma_total_insert(s.balances, a, (asset, from), from_left);
            lemma_total_insert(b1, a, (asset, to), to_now);
            assert(term(b1, a, (asset, to)) == term(s.balances, a, (asset, to)));
        }
        assert forall|a: AssetId| #[trigger]
            asset_total(t.balances, a) == t.supply_of(a) as int by {
            assert(asset_total(s.balances, a) == s.supply_of(a) as int);
        }
    }
}

/// Issuing keeps the ledger consistent.
pub proof fn lemma_issue_keeps_consistent(
    s: LedgerView,
    caller: AccountId,
    asset: AssetId,
    amount: Balance,
)
    requires
        s.consistent(),
    ensures
        s.after_issue(caller, asset, amount).consistent(),
{
    let t = s.after_issue(caller, asset, amount);
    if s.issue_outcome(caller, asset, amount) is Ok {
        let now = (s.balance_in(asset, caller) + amount) as Balance;
        assert forall|a: AssetId| #[trigger]
            asset_total(t.balances, a) == t.supply_of(a) as int by {
            lemma_total_insert(s.balances, a, (asset, caller), now);
            assert(asset_total(s.balances, a) == s.supply_of(a) as int);
        }
    }
}

/// Supply conservation: over any run of transfers of one asset, its total
/// supply does not change, and after every step it equals the sum of the
/// asset's balances over all accounts.
pub proof fn lemma_transfers_conserve_supply(
    s: LedgerView,
    asset: AssetId,
    calls: Seq<(AccountId, AccountId, Balance)>,
)
    requires
        s.consistent(),
    ensures
        s.after_transfers(asset, calls).supply_of(asset) == s.supply_of(asset),
        asset_total(s.after_transfers(asset, calls).balances, asset) == s.supply_of(asset) as int,
        s.after_transfers(asset, calls).consistent(),
    decreases calls.len(),
{
    if calls.len() != 0 {
        let t = s.after_transfer(calls[0].0, asset, calls[0].1, calls[0].2);
        lemma_transfer_keeps_consistent(s, calls[0].0, asset, calls[0].1, calls[0].2);
        lemma_transfers_conserve_supply(t, asset, calls.drop_first());
    }
}

/// Monotonic identifiers: a run of creations returns the counter's value, then
/// each next integer in turn, so the identifiers strictly increase, never
/// repeat, and none names an asset that existed before.
pub proof fn lemma_created_ids_increase(s: LedgerView, calls: Seq<(AccountId, Balance)>)
    requires
        s.next_asset_id + calls.len() <= MAX_ASSET_ID,
    ensures
        s.created_ids(calls).len() == calls.len(),
        forall|i: int|
            0 <= i < calls.len() ==> #[trigger] s.created_ids(calls)[i] == s.next_asset_id + i,
        forall|i: int, j: int|
            0 <= i < j < calls.len() ==> #[trigger] s.created_ids(calls)[i]
                < #[trigger] s.created_ids(calls)[j],
        s.after_creates(calls).next_asset_id == s.next_asset_id + calls.len(),
        s.consistent() ==> forall|i: int|
            0 <= i < calls.len() ==> !s.asset_exists(#[trigger] s.created_ids(calls)[i]),
    decreases calls.len(),
{
    if calls.len() != 0 {
        let t = s.after_create(calls[0].0, calls[0].1);
        lemma_created_ids_increase(t, calls.drop_first());
        let ids = s.created_ids(calls);
        let rest = t.created_ids(calls.drop_first());
        assert(ids =~= seq![s.next_asset_id] + rest);
        assert forall|i: int| 0 <= i < calls.len() implies #[trigger] ids[i]
            == s.next_asset_id + i by {
            if i > 0 {
                assert(ids[i] == rest[i - 1]);
            }
        }
    }
}

/// Atomicity on failure: a rejected transfer or issue leaves the ledger,
/// stores and notifications alike, exactly as it was.
pub proof fn lemma_rejected_calls_change_nothing(
    s: LedgerView,
    caller: AccountId,
    asset: AssetId,
    to: AccountId,
    amount: Balance,
)
    ensures
        s.transfer_outcome(caller, asset, to, amount) is Err
            ==> s.after_transfer(caller, asset, to, amount) == s,
        s.issue_outcome(caller, asset, amount) is Err ==> s.after_issue(caller, asset, amount) == s,
{
}

/// No self-transfer: sending any amount, zero included, to oneself is
/// rejected as a transfer to self and changes nothing.
pub proof fn lemma_no_self_transfer(
    s: LedgerView,
    caller: AccountId,
    asset: AssetId,
    amount: Balance,
)
    ensures
        s.transfer_outcome(caller, asset, caller, amount)
            == Err::<(), Error>(Error::TransferToSelf),
        s.after_transfer(caller, asset, caller, amount) == s,
{
}

/// Overflow guard for transfers: one that passes the earlier checks but would
/// lift the receiver's balance past the largest value fails with an overflow
/// and writes nothing.
pub proof fn lemma_transfer_overflow_guard(
    s: LedgerView,
    from: AccountId,
    asset: AssetId,
    to: AccountId,
    amount: Balance,
)
    requires
        from != to,
        s.balance_in(asset, from) >= amount,
        s.balance_in(asset, to) + amount > MAX_BALANCE,
    ensures
        s.transfer_outcome(from, asset, to, amount) == Err::<(), Error>(Error::Overflow),
        s.after_transfer(from, asset, to, amount) == s,
{
}

/// Overflow guard for issuing: issuing into an existing asset that would lift
/// its total supply or the caller's balance past the largest value fails with
/// an overflow and writes nothing.
pub proof fn lemma_issue_overflow_guard(
    s: LedgerView,
    caller: AccountId,
    asset: AssetId,
    amount: Balance,
)
    requires
        s.asset_exists(asset),
        s.supply_of(asset) + amount > MAX_BALANCE
            || s.balance_in(asset, caller) + amount > MAX_BALANCE,
    ensures
        s.issue_outcome(caller, asset, amount) == Err::<(), Error>(Error::Overflow),
        s.after_issue(caller, asset, amount) == s,
{
}

} // verus!
