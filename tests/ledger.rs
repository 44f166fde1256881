use asset_ledger::{Error, Event, Pallet};

const A: u64 = 1;
const B: u64 = 2;
const C: u64 = 3;

fn after_first_transfer() -> Pallet {
    let mut p = Pallet::new();
    assert_eq!(p.create_asset(A, 1000), 0);
    assert_eq!(p.transfer(A, 0, B, 300), Ok(()));
    p
}

#[test]
fn create_asset_assigns_first_id_and_credits_creator() {
    let mut p = Pallet::new();
    let id = p.create_asset(A, 1000);
    assert_eq!(id, 0);
    assert_eq!(p.balance_of(0, A), 1000);
    assert_eq!(p.total_supply(0), 1000);
    assert_eq!(p.next_asset_id(), 1);
    assert_eq!(
        p.events(),
        &vec![Event::AssetCreated { asset_id: 0, creator: A, initial_supply: 1000 }]
    );
}

#[test]
fn transfer_moves_balance_and_keeps_supply() {
    let p = after_first_transfer();
    assert_eq!(p.balance_of(0, A), 700);
    assert_eq!(p.balance_of(0, B), 300);
    assert_eq!(p.total_supply(0), 1000);
    assert_eq!(
        p.events().last(),
        Some(&Event::Transferred { asset_id: 0, from: A, to: B, amount: 300 })
    );
}

#[test]
fn transfer_beyond_balance_is_rejected_without_change() {
    let mut p = after_first_transfer();
    let events_before = p.events().len();
    assert_eq!(p.transfer(A, 0, B, 5000), Err(Error::InsufficientBalance));
    assert_eq!(p.balance_of(0, A), 700);
    assert_eq!(p.balance_of(0, B), 300);
    assert_eq!(p.total_supply(0), 1000);
    assert_eq!(p.next_asset_id(), 1);
    assert_eq!(p.events().len(), events_before);
}

#[test]
fn issue_into_unknown_asset_is_rejected() {
    let mut p = after_first_transfer();
    assert_eq!(p.issue_tokens(B, 99, 10), Err(Error::AssetNotFound));
    assert_eq!(p.total_supply(99), 0);
    assert_eq!(p.balance_of(99, B), 0);
    assert_eq!(p.events().len(), 2);
}

#[test]
fn issue_adds_to_supply_and_issuer() {
    let mut p = after_first_transfer();
    assert_eq!(p.issue_tokens(A, 0, 500), Ok(()));
    assert_eq!(p.total_supply(0), 1500);
    assert_eq!(p.balance_of(0, A), 1200);
    assert_eq!(p.balance_of(0, B), 300);
    assert_eq!(
        p.events().last(),
        Some(&Event::TokensIssued { asset_id: 0, issuer: A, amount: 500 })
    );
}

#[test]
fn any_account_may_issue() {
    let mut p = after_first_transfer();
    assert_eq!(p.issue_tokens(C, 0, 7), Ok(()));
    assert_eq!(p.balance_of(0, C), 7);
    assert_eq!(p.total_supply(0), 1007);
}

#[test]
fn transfers_conserve_supply() {
    let mut p = Pallet::new();
    p.create_asset(A, 1000);
    let calls = [(A, B, 400u128), (B, C, 150), (C, A, 150), (A, C, 2000), (B, B, 1), (C, B, 0)];
    for (from, to, amount) in calls {
        let _ = p.transfer(from, 0, to, amount);
        assert_eq!(p.total_supply(0), 1000);
        assert_eq!(p.balance_of(0, A) + p.balance_of(0, B) + p.balance_of(0, C), 1000);
    }
    assert_eq!(p.balance_of(0, A), 750);
    assert_eq!(p.balance_of(0, B), 250);
    assert_eq!(p.balance_of(0, C), 0);
}

#[test]
fn created_ids_increase_by_one() {
    let mut p = Pallet::new();
    let ids: Vec<u32> = (0..5u32).map(|i| p.create_asset(A, i as u128)).collect();
    assert_eq!(ids, vec![0, 1, 2, 3, 4]);
    assert_eq!(p.next_asset_id(), 5);
    for (i, id) in ids.iter().enumerate() {
        assert_eq!(p.total_supply(*id), i as u128);
    }
}

#[test]
fn zero_supply_asset_exists() {
    let mut p = Pallet::new();
    let id = p.create_asset(A, 0);
    assert_eq!(p.total_supply(id), 0);
    assert_eq!(p.issue_tokens(B, id, 5), Ok(()));
    assert_eq!(p.total_supply(id), 5);
    assert_eq!(p.balance_of(id, B), 5);
}

#[test]
fn self_transfer_is_rejected_for_every_amount() {
    let mut p = after_first_transfer();
    for amount in [0u128, 1, 700, 5000, u128::MAX] {
        assert_eq!(p.transfer(A, 0, A, amount), Err(Error::TransferToSelf));
    }
    assert_eq!(p.transfer(C, 42, C, 0), Err(Error::TransferToSelf));
    assert_eq!(p.balance_of(0, A), 700);
    assert_eq!(p.events().len(), 2);
}

#[test]
fn issue_past_largest_supply_overflows() {
    let mut p = Pallet::new();
    let id = p.create_asset(A, u128::MAX - 10);
    assert_eq!(p.issue_tokens(B, id, 11), Err(Error::Overflow));
    assert_eq!(p.total_supply(id), u128::MAX - 10);
    assert_eq!(p.balance_of(id, B), 0);
    assert_eq!(p.issue_tokens(B, id, 10), Ok(()));
    assert_eq!(p.total_supply(id), u128::MAX);
    assert_eq!(p.issue_tokens(A, id, 1), Err(Error::Overflow));
    assert_eq!(p.balance_of(id, A), u128::MAX - 10);
}

#[test]
fn largest_balance_moves_whole() {
    let mut p = Pallet::new();
    let id = p.create_asset(A, u128::MAX);
    assert_eq!(p.transfer(A, id, B, u128::MAX), Ok(()));
    assert_eq!(p.balance_of(id, A), 0);
    assert_eq!(p.balance_of(id, B), u128::MAX);
    assert_eq!(p.total_supply(id), u128::MAX);
}

// Kept as specified: a transfer in an asset that was never created is judged
// on the sender's zero balance, not on whether the asset exists.
#[test]
fn transfer_in_unknown_asset_reads_zero_balance() {
    let mut p = Pallet::new();
    assert_eq!(p.transfer(A, 7, B, 1), Err(Error::InsufficientBalance));
    assert_eq!(p.transfer(A, 7, B, 0), Ok(()));
    assert_eq!(p.total_supply(7), 0);
    assert_eq!(p.balance_of(7, B), 0);
}

#[test]
fn get_balance_reads_both_values() {
    let p = after_first_transfer();
    assert_eq!(p.get_balance(C, 0, B), (300, 1000));
    assert_eq!(p.get_balance(C, 0, C), (0, 1000));
    assert_eq!(p.get_balance(A, 5, A), (0, 0));
}

#[test]
fn assets_are_kept_apart() {
    let mut p = Pallet::new();
    let x = p.create_asset(A, 100);
    let y = p.create_asset(B, 50);
    assert_eq!(p.transfer(A, x, B, 30), Ok(()));
    assert_eq!(p.transfer(B, y, A, 60), Err(Error::InsufficientBalance));
    assert_eq!(p.balance_of(x, B), 30);
    assert_eq!(p.balance_of(y, B), 50);
    assert_eq!(p.balance_of(y, A), 0);
    assert_eq!(p.total_supply(y), 50);
}
