use tigerbeetle_client::account::{self, Account, Balance, Filter};
use tigerbeetle_client::query_filter::{self, QueryFilter};
use tigerbeetle_client::transfer::{self, Transfer};

#[test]
fn transfer_new_sets_id_only() {
    let t = Transfer::new(42);
    assert_eq!(t.id(), 42);
    assert_eq!(t.amount(), 0);
    assert_eq!(t.ledger(), 0);
    assert_eq!(t.timestamp(), 0);
    assert_eq!(t.flags().bits(), 0);
}

#[test]
fn transfer_builders_and_setters() {
    let mut t = Transfer::new(1)
        .with_debit_account_id(10)
        .with_credit_account_id(20)
        .with_amount(300)
        .with_pending_id(7)
        .with_user_data_128(u128::MAX)
        .with_user_data_64(64)
        .with_user_data_32(32)
        .with_timeout(5)
        .with_ledger(777)
        .with_code(2)
        .with_flags(transfer::Flags::from_bits_retain(transfer::Flags::PENDING));
    assert_eq!(t.debit_account_id(), 10);
    assert_eq!(t.credit_account_id(), 20);
    assert_eq!(t.amount(), 300);
    assert_eq!(t.pending_id(), 7);
    assert_eq!(t.user_data_128(), u128::MAX);
    assert_eq!(t.user_data_64(), 64);
    assert_eq!(t.user_data_32(), 32);
    assert_eq!(t.timeout(), 5);
    assert_eq!(t.ledger(), 777);
    assert_eq!(t.code(), 2);
    assert!(t.flags().contains(transfer::Flags::from_bits_retain(transfer::Flags::PENDING)));
    t.set_id(2);
    t.set_amount(1);
    assert_eq!(t.id(), 2);
    assert_eq!(t.amount(), 1);
    assert_eq!(t.debit_account_id(), 10);
    let raw = t.into_raw();
    assert_eq!(raw.amount, 1);
    let mut back = Transfer::from_raw(raw);
    back.as_raw_mut().ledger = 9;
    assert_eq!(back.ledger(), 9);
    assert_eq!(back.as_raw().code, 2);
}

#[test]
fn query_filter_fields() {
    let f = QueryFilter::new(10)
        .with_user_data_128(1)
        .with_user_data_64(2)
        .with_user_data_32(3)
        .with_ledger(4)
        .with_code(5)
        .with_timestamp_min(6)
        .with_timestamp_max(7)
        .with_flags(query_filter::Flags::from_bits_retain(query_filter::Flags::REVERSED));
    assert_eq!(f.limit(), 10);
    assert_eq!(f.user_data_128(), 1);
    assert_eq!(f.user_data_64(), 2);
    assert_eq!(f.user_data_32(), 3);
    assert_eq!(f.ledger(), 4);
    assert_eq!(f.code(), 5);
    assert_eq!(f.timestamp_min(), 6);
    assert_eq!(f.timestamp_max(), 7);
    assert_eq!(f.flags().bits(), 1);
    let mut g = f;
    g.set_limit(3);
    assert_eq!(g.limit(), 3);
}

#[test]
fn balance_fields() {
    let mut raw = account::balance::Raw::zeroed();
    raw.timestamp = 99;
    let b = Balance::from_raw(raw)
        .with_debits_pending(1)
        .with_debits_posted(2)
        .with_credits_pending(3)
        .with_credits_posted(4);
    assert_eq!(b.debits_pending(), 1);
    assert_eq!(b.debits_posted(), 2);
    assert_eq!(b.credits_pending(), 3);
    assert_eq!(b.credits_posted(), 4);
    assert_eq!(b.timestamp(), 99);
}

#[test]
fn account_and_filter_fields() {
    let a = Account::new(1, 777, 2).with_user_data_32(1);
    assert_eq!(a.id(), 1);
    assert_eq!(a.ledger(), 777);
    assert_eq!(a.code(), 2);
    assert_eq!(a.user_data_32(), 1);
    assert_eq!(a.debits_posted(), 0);
    let f = Filter::new(5, 100).with_flags(account::filter::Flags::from_bits_retain(
        account::filter::Flags::DEBITS | account::filter::Flags::CREDITS,
    ));
    assert_eq!(f.account_id(), 5);
    assert_eq!(f.limit(), 100);
    assert_eq!(f.flags().bits(), 3);
}
