use tigerbeetle_client::account::{Account, Filter};
use tigerbeetle_client::codec::{
    decode_account_results, decode_accounts, decode_balances, decode_transfer_results,
    decode_transfers, encode_account_filter, encode_accounts, encode_ids, encode_query_filter,
    encode_transfers, ACCOUNT_FILTER_SIZE, QUERY_FILTER_SIZE, TRANSFER_SIZE,
};
use tigerbeetle_client::query_filter::QueryFilter;
use tigerbeetle_client::transfer::Transfer;

#[test]
fn transfer_layout_is_little_endian_in_field_order() {
    let t = Transfer::new(0x0102)
        .with_debit_account_id(3)
        .with_amount(5)
        .with_user_data_64(0x0a0b)
        .with_ledger(777)
        .with_code(2);
    let bytes = encode_transfers(&[t]);
    assert_eq!(bytes.len(), TRANSFER_SIZE);
    assert_eq!(&bytes[0..3], &[0x02, 0x01, 0x00]);
    assert_eq!(bytes[16], 3);
    assert_eq!(bytes[48], 5);
    assert_eq!(&bytes[96..98], &[0x0b, 0x0a]);
    assert_eq!(&bytes[112..116], &777u32.to_le_bytes());
    assert_eq!(&bytes[116..118], &[2, 0]);
}

#[test]
fn transfers_round_trip() {
    let a = Transfer::new(1).with_amount(10).with_timeout(3).with_code(9);
    let b = Transfer::new(u128::MAX - 1).with_user_data_128(77).with_ledger(4);
    let bytes = encode_transfers(&[a, b]);
    assert_eq!(bytes.len(), 2 * TRANSFER_SIZE);
    let back = decode_transfers(&bytes);
    assert_eq!(back.len(), 2);
    assert_eq!(back[0].into_raw(), a.into_raw());
    assert_eq!(back[1].into_raw(), b.into_raw());
}

#[test]
fn accounts_round_trip_with_reserved_zero() {
    let a = Account::new(5, 1, 2).with_user_data_32(0xffff_ffff);
    let bytes = encode_accounts(&[a]);
    assert_eq!(bytes.len(), 128);
    assert_eq!(&bytes[108..112], &[0, 0, 0, 0]);
    let back = decode_accounts(&bytes);
    assert_eq!(back.len(), 1);
    assert_eq!(back[0].into_raw(), a.into_raw());
}

#[test]
fn trailing_partial_record_is_ignored() {
    let bytes = vec![1u8; 128 + 5];
    assert_eq!(decode_balances(&bytes).len(), 1);
    assert_eq!(decode_balances(&bytes[..127]).len(), 0);
    assert_eq!(decode_balances(&bytes)[0].timestamp(), u64::from_le_bytes([1; 8]));
}

#[test]
fn ids_are_sixteen_bytes_each() {
    let bytes = encode_ids(&[1, 2]);
    assert_eq!(bytes.len(), 32);
    assert_eq!(bytes[0], 1);
    assert_eq!(bytes[16], 2);
    assert!(encode_ids(&[]).is_empty());
}

#[test]
fn filter_layouts() {
    let q = QueryFilter::new(8).with_code(3).with_timestamp_min(1);
    let bytes = encode_query_filter(&q);
    assert_eq!(bytes.len(), QUERY_FILTER_SIZE);
    assert_eq!(&bytes[32..34], &[3, 0]);
    assert_eq!(&bytes[34..40], &[0; 6]);
    assert_eq!(bytes[40], 1);
    assert_eq!(&bytes[56..60], &8u32.to_le_bytes());
    let f = Filter::new(9, 4);
    let bytes = encode_account_filter(&f);
    assert_eq!(bytes.len(), ACCOUNT_FILTER_SIZE);
    assert_eq!(bytes[0], 9);
    assert_eq!(&bytes[120..124], &4u32.to_le_bytes());
}

#[test]
fn creation_results_decode_in_order() {
    let mut payload = Vec::new();
    payload.extend_from_slice(&1u32.to_le_bytes());
    payload.extend_from_slice(&21u32.to_le_bytes());
    payload.extend_from_slice(&3u32.to_le_bytes());
    payload.extend_from_slice(&54u32.to_le_bytes());
    let accounts = decode_account_results(&payload);
    assert_eq!(accounts.len(), 2);
    assert_eq!((accounts[0].index, accounts[0].result), (1, 21));
    let transfers = decode_transfer_results(&payload);
    assert_eq!((transfers[1].index, transfers[1].result), (3, 54));
}
