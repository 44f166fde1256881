//! Sums of the balances that one asset holds over all accounts.

use vstd::prelude::*;
use crate::types::{AccountId, AssetId, Balance};

verus! {

/// What the entry under `k` adds to the total of `asset`.
pub open spec fn term(
    b: Map<(AssetId, AccountId), Balance>,
    asset: AssetId,
    k: (AssetId, AccountId),
) -> int {
    if k.0 == asset && b.contains_key(k) {
        b[k] as int
    } else {
        0
    }
}

/// The sum of the entries of `asset` among the keys `keys`.
pub open spec fn sum_over(
    b: Map<(AssetId, AccountId), Balance>,
    asset: AssetId,
    keys: Set<(AssetId, AccountId)>,
) -> int
    decreases keys.len(),
    when keys.finite()
{
    if keys.len() == 0 {
        0
    } else {
        let k = keys.choose();
        term(b, asset, k) + sum_over(b, asset, keys.remove(k))
    }
}

/// The sum of the balances of `asset` over every account.
pub open spec fn asset_total(b: Map<(AssetId, AccountId), Balance>, asset: AssetId) -> int {
    sum_over(b, asset, b.dom())
}

/// Any key of the set can be taken out of the sum first.
pub proof fn lemma_sum_remove(
    b: Map<(AssetId, AccountId), Balance>,
    asset: AssetId,
    s: Set<(AssetId, AccountId)>,
    x: (AssetId, AccountId),
)
    requires
        s.finite(),
        s.contains(x),
    ensures
        sum_over(b, asset, s) == term(b, asset, x) + sum_over(b, asset, s.remove(x)),
    decreases s.len(),
{
    let y = s.choose();
    if y != x {
        lemma_sum_remove(b, asset, s.remove(y), x);
        lemma_sum_remove(b, asset, s.remove(x), y);
        assert(s.remove(y).remove(x) =~= s.remove(x).remove(y));
    }
}

/// Two maps whose entries agree on a set have the same sum over it.
pub proof fn lemma_sum_frame(
    b1: Map<(AssetId, AccountId), Balance>,
    b2: Map<(AssetId, AccountId), Balance>,
    asset: AssetId,
    s: Set<(AssetId, AccountId)>,
)
    requires
        s.finite(),
        forall|k: (AssetId, AccountId)| s.contains(k) ==> term(b1, asset, k) == term(b2, asset, k),
    ensures
        sum_over(b1, asset, s) == sum_over(b2, asset, s),
    decreases s.len(),
{
    if s.len() != 0 {
        let k = s.choose();
        lemma_sum_frame(b1, b2, asset, s.remove(k));
    }
}

/// A sum of balances is never negative.
pub proof fn lemma_sum_nonneg(
    b: Map<(AssetId, AccountId), Balance>,
    asset: AssetId,
    s: Set<(AssetId, AccountId)>,
)
    requires
        s.finite(),
    ensures
        sum_over(b, asset, s) >= 0,
    decreases s.len(),
{
    if s.len() != 0 {
        let k = s.choose();
        lemma_sum_nonneg(b, asset, s.remove(k));
    }
}

/// The empty map holds nothing of any asset.
pub proof fn lemma_total_empty(asset: AssetId)
    ensures
        asset_total(Map::empty(), asset) == 0,
{
    assert(Map::<(AssetId, AccountId), Balance>::empty().dom() =~= Set::empty());
}

/// No single balance of an asset exceeds its total.
pub proof fn lemma_term_le_total(
    b: Map<(AssetId, AccountId), Balance>,
    asset: AssetId,
    k: (AssetId, AccountId),
)
    requires
        b.dom().finite(),
    ensures
        0 <= term(b, asset, k) <= asset_total(b, asset),
{
    lemma_sum_nonneg(b, asset, b.dom());
    if b.contains_key(k) {
        lemma_sum_remove(b, asset, b.dom(), k);
        lemma_sum_nonneg(b, asset, b.dom().remove(k));
    }
}

/// Writing one balance moves the total of its asset by the difference.
pub proof fn lemma_total_insert(
    b: Map<(AssetId, AccountId), Balance>,
    asset: AssetId,
    k: (AssetId, AccountId),
    v: Balance,
)
    requires
        b.dom().finite(),
    ensures
        b.insert(k, v).dom().finite(),
        asset_total(b.insert(k, v), asset) == asset_total(b, asset) - term(b, asset, k)
            + (if k.0 == asset { v as int } else { 0 }),
{
    let b2 = b.insert(k, v);
    if b.contains_key(k) {
        assert(b2.dom() =~= b.dom());
        lemma_sum_remove(b, asset, b.dom(), k);
        lemma_sum_remove(b2, asset, b.dom(), k);
        lemma_sum_frame(b, b2, asset, b.dom().remove(k));
    } else {
        assert(b2.dom().remove(k) =~= b.dom());
        lemma_sum_remove(b2, asset, b2.dom(), k);
        lemma_sum_frame(b, b2, asset, b.dom());
    }
}

} // verus!
