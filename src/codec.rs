//! The byte layout of the records that packets carry and replies return.
//!
//! Every record has a fixed size. Its fields are laid out in declaration
//! order, each little-endian, with reserved bytes set to zero; a batch is
//! its records back to back.
use vstd::prelude::*;
use vstd::bytes::*;
use vstd::slice::slice_subrange;
use crate::account::{Account, Balance, Filter};
use crate::error::{RawCreateAccountsIndividualApiResult, RawCreateTransfersIndividualApiResult};
use crate::query_filter::QueryFilter;
use crate::transfer::Transfer;

verus! {

pub open spec fn u128_at(s: Seq<u8>, o: int) -> u128 {
    spec_u128_from_le_bytes(s.subrange(o, o + 16))
}

pub open spec fn u64_at(s: Seq<u8>, o: int) -> u64 {
    spec_u64_from_le_bytes(s.subrange(o, o + 8))
}

pub open spec fn u32_at(s: Seq<u8>, o: int) -> u32 {
    spec_u32_from_le_bytes(s.subrange(o, o + 4))
}

pub open spec fn u16_at(s: Seq<u8>, o: int) -> u16 {
    spec_u16_from_le_bytes(s.subrange(o, o + 2))
}

/// `n` zero bytes.
pub open spec fn zeros(n: nat) -> Seq<u8> {
    Seq::new(n, |i: int| 0u8)
}

fn read_u128(s: &[u8], o: usize) -> (r: u128)
    requires
        o + 16 <= s@.len() <= usize::MAX,
    ensures
        r == u128_at(s@, o as int),
{
    u128_from_le_bytes(slice_subrange(s, o, o + 16))
}

fn read_u64(s: &[u8], o: usize) -> (r: u64)
    requires
        o + 8 <= s@.len() <= usize::MAX,
    ensures
        r == u64_at(s@, o as int),
{
    u64_from_le_bytes(slice_subrange(s, o, o + 8))
}

fn read_u32(s: &[u8], o: usize) -> (r: u32)
    requires
        o + 4 <= s@.len() <= usize::MAX,
    ensures
        r == u32_at(s@, o as int),
{
    u32_from_le_bytes(slice_subrange(s, o, o + 4))
}

fn read_u16(s: &[u8], o: usize) -> (r: u16)
    requires
        o + 2 <= s@.len() <= usize::MAX,
    ensures
        r == u16_at(s@, o as int),
{
    u16_from_le_bytes(slice_subrange(s, o, o + 2))
}

fn push_u128(out: &mut Vec<u8>, x: u128)
    ensures
        final(out)@ == old(out)@ + spec_u128_to_le_bytes(x),
{
    let mut bytes = u128_to_le_bytes(x);
    out.append(&mut bytes);
}

fn push_u64(out: &mut Vec<u8>, x: u64)
    ensures
        final(out)@ == old(out)@ + spec_u64_to_le_bytes(x),
{
    let mut bytes = u64_to_le_bytes(x);
    out.append(&mut bytes);
}

fn push_u32(out: &mut Vec<u8>, x: u32)
    ensures
        final(out)@ == old(out)@ + spec_u32_to_le_bytes(x),
{
    let mut bytes = u32_to_le_bytes(x);
    out.append(&mut bytes);
}

fn push_u16(out: &mut Vec<u8>, x: u16)
    ensures
        final(out)@ == old(out)@ + spec_u16_to_le_bytes(x),
{
    let mut bytes = u16_to_le_bytes(x);
    out.append(&mut bytes);
}

fn push_zeros(out: &mut Vec<u8>, n: usize)
    ensures
        final(out)@ == old(out)@ + zeros(n as nat),
{
    let ghost start = out@;
    let mut i: usize = 0;
    while i < n
        invariant
            i <= n,
            out@ =~= start + zeros(i as nat),
        decreases n - i,
    {
        out.push(0u8);
        i = i + 1;
        assert(out@ =~= start + zeros(i as nat));
    }
}

/// Size in bytes of one encoded transfer.
pub const TRANSFER_SIZE: usize = 128;

/// The transfer encoded at offset `o` of `s`.
pub open spec fn spec_transfer_at(s: Seq<u8>, o: int) -> crate::transfer::Raw {
    crate::transfer::Raw {
        id: u128_at(s, o),
        debit_account_id: u128_at(s, o + 16),
        credit_account_id: u128_at(s, o + 32),
        amount: u128_at(s, o + 48),
        pending_id: u128_at(s, o + 64),
        user_data_128: u128_at(s, o + 80),
        user_data_64: u64_at(s, o + 96),
        user_data_32: u32_at(s, o + 104),
        timeout: u32_at(s, o + 108),
        ledger: u32_at(s, o + 112),
        code: u16_at(s, o + 116),
        flags: u16_at(s, o + 118),
        timestamp: u64_at(s, o + 120),
    }
}

fn transfer_at(s: &[u8], o: usize) -> (r: crate::transfer::Raw)
    requires
        o + TRANSFER_SIZE <= s@.len() <= usize::MAX,
    ensures
        r == spec_transfer_at(s@, o as int),
{
    let id = read_u128(s, o);
    let debit_account_id = read_u128(s, o + 16);
    let credit_account_id = read_u128(s, o + 32);
    let amount = read_u128(s, o + 48);
    let pending_id = read_u128(s, o + 64);
    let user_data_128 = read_u128(s, o + 80);
    let user_data_64 = read_u64(s, o + 96);
    let user_data_32 = read_u32(s, o + 104);
    let timeout = read_u32(s, o + 108);
    let ledger = read_u32(s, o + 112);
    let code = read_u16(s, o + 116);
    let flags = read_u16(s, o + 118);
    let timestamp = read_u64(s, o + 120);
    crate::transfer::Raw {
        id,
        debit_account_id,
        credit_account_id,
        amount,
        pending_id,
        user_data_128,
        user_data_64,
        user_data_32,
        timeout,
        ledger,
        code,
        flags,
        timestamp,
    }
}

/// The encoding of one transfer: its fields in order, little-endian, with
/// reserved bytes zero.
pub open spec fn spec_transfer_bytes(r: crate::transfer::Raw) -> Seq<u8> {
    spec_u128_to_le_bytes(r.id)
        + spec_u128_to_le_bytes(r.debit_account_id)
        + spec_u128_to_le_bytes(r.credit_account_id)
        + spec_u128_to_le_bytes(r.amount)
        + spec_u128_to_le_bytes(r.pending_id)
        + spec_u128_to_le_bytes(r.user_data_128)
        + spec_u64_to_le_bytes(r.user_data_64)
        + spec_u32_to_le_bytes(r.user_data_32)
        + spec_u32_to_le_bytes(r.timeout)
        + spec_u32_to_le_bytes(r.ledger)
        + spec_u16_to_le_bytes(r.code)
        + spec_u16_to_le_bytes(r.flags)
        + spec_u64_to_le_bytes(r.timestamp)
}

fn push_transfer(out: &mut Vec<u8>, r: crate::transfer::Raw)
    ensures
        final(out)@ == old(out)@ + spec_transfer_bytes(r),
{
    let ghost start = out@;
    push_u128(out, r.id);
    push_u128(out, r.debit_account_id);
    push_u128(out, r.credit_account_id);
    push_u128(out, r.amount);
    push_u128(out, r.pending_id);
    push_u128(out, r.user_data_128);
    push_u64(out, r.user_data_64);
    push_u32(out, r.user_data_32);
    push_u32(out, r.timeout);
    push_u32(out, r.ledger);
    push_u16(out, r.code);
    push_u16(out, r.flags);
    push_u64(out, r.timestamp);
    proof {
        assert(out@ =~= start + spec_transfer_bytes(r));
    }
}

/// Size in bytes of one encoded account.
pub const ACCOUNT_SIZE: usize = 128;

/// The account encoded at offset `o` of `s`.
pub open spec fn spec_account_at(s: Seq<u8>, o: int) -> crate::account::Raw {
    crate::account::Raw {
        id: u128_at(s, o),
        debits_pending: u128_at(s, o + 16),
        debits_posted: u128_at(s, o + 32),
        credits_pending: u128_at(s, o + 48),
        credits_posted: u128_at(s, o + 64),
        user_data_128: u128_at(s, o + 80),
        user_data_64: u64_at(s, o + 96),
        user_data_32: u32_at(s, o + 104),
        ledger: u32_at(s, o + 112),
        code: u16_at(s, o + 116),
        flags: u16_at(s, o + 118),
        timestamp: u64_at(s, o + 120),
    }
}

fn account_at(s: &[u8], o: usize) -> (r: crate::account::Raw)
    requires
        o + ACCOUNT_SIZE <= s@.len() <= usize::MAX,
    ensures
        r == spec_account_at(s@, o as int),
{
    let id = read_u128(s, o);
    let debits_pending = read_u128(s, o + 16);
    let debits_posted = read_u128(s, o + 32);
    let credits_pending = read_u128(s, o + 48);
    let credits_posted = read_u128(s, o + 64);
    let user_data_128 = read_u128(s, o + 80);
    let user_data_64 = read_u64(s, o + 96);
    let user_data_32 = read_u32(s, o + 104);
    let ledger = read_u32(s, o + 112);
    let code = read_u16(s, o + 116);
    let flags = read_u16(s, o + 118);
    let timestamp = read_u64(s, o + 120);
    crate::account::Raw {
        id,
        debits_pending,
        debits_posted,
        credits_pending,
        credits_posted,
        user_data_128,
        user_data_64,
        user_data_32,
        ledger,
        code,
        flags,
        timestamp,
    }
}

/// The encoding of one account: its fields in order, little-endian, with
/// reserved bytes zero.
pub open spec fn spec_account_bytes(r: crate::account::Raw) -> Seq<u8> {
    spec_u128_to_le_bytes(r.id)
        + spec_u128_to_le_bytes(r.debits_pending)
        + spec_u128_to_le_bytes(r.debits_posted)
        + spec_u128_to_le_bytes(r.credits_pending)
        + spec_u128_to_le_bytes(r.credits_posted)
        + spec_u128_to_le_bytes(r.user_data_128)
        + spec_u64_to_le_bytes(r.user_data_64)
        + spec_u32_to_le_bytes(r.user_data_32)
        + zeros(4)
        + spec_u32_to_le_bytes(r.ledger)
        + spec_u16_to_le_bytes(r.code)
        + spec_u16_to_le_bytes(r.flags)
        + spec_u64_to_le_bytes(r.timestamp)
}

fn push_account(out: &mut Vec<u8>, r: crate::account::Raw)
    ensures
        final(out)@ == old(out)@ + spec_account_bytes(r),
{
    let ghost start = out@;
    push_u128(out, r.id);
    push_u128(out, r.debits_pending);
    push_u128(out, r.debits_posted);
    push_u128(out, r.credits_pending);
    push_u128(out, r.credits_posted);
    push_u128(out, r.user_data_128);
    push_u64(out, r.user_data_64);
    push_u32(out, r.user_data_32);
    push_zeros(out, 4);
    push_u32(out, r.ledger);
    push_u16(out, r.code);
    push_u16(out, r.flags);
    push_u64(out, r.timestamp);
    proof {
        assert(out@ =~= start + spec_account_bytes(r));
    }
}

/// Size in bytes of one encoded balance.
pub const BALANCE_SIZE: usize = 128;

/// The balance encoded at offset `o` of `s`.
pub open spec fn spec_balance_at(s: Seq<u8>, o: int) -> crate::account::balance::Raw {
    crate::account::balance::Raw {
        debits_pending: u128_at(s, o),
        debits_posted: u128_at(s, o + 16),
        credits_pending: u128_at(s, o + 32),
        credits_posted: u128_at(s, o + 48),
        timestamp: u64_at(s, o + 64),
    }
}

fn balance_at(s: &[u8], o: usize) -> (r: crate::account::balance::Raw)
    requires
        o + BALANCE_SIZE <= s@.len() <= usize::MAX,
    ensures
        r == spec_balance_at(s@, o as int),
{
    let debits_pending = read_u128(s, o);
    let debits_posted = read_u128(s, o + 16);
    let credits_pending = read_u128(s, o + 32);
    let credits_posted = read_u128(s, o + 48);
    let timestamp = read_u64(s, o + 64);
    crate::account::balance::Raw {
        debits_pending,
        debits_posted,
        credits_pending,
        credits_posted,
        timestamp,
    }
}

/// The encoding of one balance: its fields in order, little-endian, with
/// reserved bytes zero.
pub open spec fn spec_balance_bytes(r: crate::account::balance::Raw) -> Seq<u8> {
    spec_u128_to_le_bytes(r.debits_pending)
        + spec_u128_to_le_bytes(r.debits_posted)
        + spec_u128_to_le_bytes(r.credits_pending)
        + spec_u128_to_le_bytes(r.credits_posted)
        + spec_u64_to_le_bytes(r.timestamp)
        + zeros(56)
}

fn push_balance(out: &mut Vec<u8>, r: crate::account::balance::Raw)
    ensures
        final(out)@ == old(out)@ + spec_balance_bytes(r),
{
    let ghost start = out@;
    push_u128(out, r.debits_pending);
    push_u128(out, r.debits_posted);
    push_u128(out, r.credits_pending);
    push_u128(out, r.credits_posted);
    push_u64(out, r.timestamp);
    push_zeros(out, 56);
    proof {
        assert(out@ =~= start + spec_balance_bytes(r));
    }
}

/// Size in bytes of one encoded query filter.
pub const QUERY_FILTER_SIZE: usize = 64;

/// The query filter encoded at offset `o` of `s`.
pub open spec fn spec_query_filter_at(s: Seq<u8>, o: int) -> crate::query_filter::Raw {
    crate::query_filter::Raw {
        user_data_128: u128_at(s, o),
        user_data_64: u64_at(s, o + 16),
        user_data_32: u32_at(s, o + 24),
        ledger: u32_at(s, o + 28),
        code: u16_at(s, o + 32),
        timestamp_min: u64_at(s, o + 40),
        timestamp_max: u64_at(s, o + 48),
        limit: u32_at(s, o + 56),
        flags: u32_at(s, o + 60),
    }
}

fn query_filter_at(s: &[u8], o: usize) -> (r: crate::query_filter::Raw)
    requires
        o + QUERY_FILTER_SIZE <= s@.len() <= usize::MAX,
    ensures
        r == spec_query_filter_at(s@, o as int),
{
    let user_data_128 = read_u128(s, o);
    let user_data_64 = read_u64(s, o + 16);
    let user_data_32 = read_u32(s, o + 24);
    let ledger = read_u32(s, o + 28);
    let code = read_u16(s, o + 32);
    let timestamp_min = read_u64(s, o + 40);
    let timestamp_max = read_u64(s, o + 48);
    let limit = read_u32(s, o + 56);
    let flags = read_u32(s, o + 60);
    crate::query_filter::Raw {
        user_data_128,
        user_data_64,
        user_data_32,
        ledger,
        code,
        timestamp_min,
        timestamp_max,
        limit,
        flags,
    }
}

/// The encoding of one query filter: its fields in order, little-endian, with
/// reserved bytes zero.
pub open spec fn spec_query_filter_bytes(r: crate::query_filter::Raw) -> Seq<u8> {
    spec_u128_to_le_bytes(r.user_data_128)
        + spec_u64_to_le_bytes(r.user_data_64)
        + spec_u32_to_le_bytes(r.user_data_32)
        + spec_u32_to_le_bytes(r.ledger)
        + spec_u16_to_le_bytes(r.code)
        + zeros(6)
        + spec_u64_to_le_bytes(r.timestamp_min)
        + spec_u64_to_le_bytes(r.timestamp_max)
        + spec_u32_to_le_bytes(r.limit)
        + spec_u32_to_le_bytes(r.flags)
}

fn push_query_filter(out: &mut Vec<u8>, r: crate::query_filter::Raw)
    ensures
        final(out)@ == old(out)@ + spec_query_filter_bytes(r),
{
    let ghost start = out@;
    push_u128(out, r.user_data_128);
    push_u64(out, r.user_data_64);
    push_u32(out, r.user_data_32);
    push_u32(out, r.ledger);
    push_u16(out, r.code);
    push_zeros(out, 6);
    push_u64(out, r.timestamp_min);
    push_u64(out, r.timestamp_max);
    push_u32(out, r.limit);
    push_u32(out, r.flags);
    proof {
        assert(out@ =~= start + spec_query_filter_bytes(r));
    }
}

/// Size in bytes of one encoded account filter.
pub const ACCOUNT_FILTER_SIZE: usize = 128;

/// The account filter encoded at offset `o` of `s`.
pub open spec fn spec_account_filter_at(s: Seq<u8>, o: int) -> crate::account::filter::Raw {
    crate::account::filter::Raw {
        account_id: u128_at(s, o),
        user_data_128: u128_at(s, o + 16),
        user_data_64: u64_at(s, o + 32),
        user_data_32: u32_at(s, o + 40),
        code: u16_at(s, o + 44),
        timestamp_min: u64_at(s, o + 104),
        timestamp_max: u64_at(s, o + 112),
        limit: u32_at(s, o + 120),
        flags: u32_at(s, o + 124),
    }
}

fn account_filter_at(s: &[u8], o: usize) -> (r: crate::account::filter::Raw)
    requires
        o + ACCOUNT_FILTER_SIZE <= s@.len() <= usize::MAX,
    ensures
        r == spec_account_filter_at(s@, o as int),
{
    let account_id = read_u128(s, o);
    let user_data_128 = read_u128(s, o + 16);
    let user_data_64 = read_u64(s, o + 32);
    let user_data_32 = read_u32(s, o + 40);
    let code = read_u16(s, o + 44);
    let timestamp_min = read_u64(s, o + 104);
    let timestamp_max = read_u64(s, o + 112);
    let limit = read_u32(s, o + 120);
    let flags = read_u32(s, o + 124);
    crate::account::filter::Raw {
        account_id,
        user_data_128,
        user_data_64,
        user_data_32,
        code,
        timestamp_min,
        timestamp_max,
        limit,
        flags,
    }
}

/// The encoding of one account filter: its fields in order, little-endian, with
/// reserved bytes zero.
pub open spec fn spec_account_filter_bytes(r: crate::account::filter::Raw) -> Seq<u8> {
    spec_u128_to_le_bytes(r.account_id)
        + spec_u128_to_le_bytes(r.user_data_128)
        + spec_u64_to_le_bytes(r.user_data_64)
        + spec_u32_to_le_bytes(r.user_data_32)
        + spec_u16_to_le_bytes(r.code)
        + zeros(58)
        + spec_u64_to_le_bytes(r.timestamp_min)
        + spec_u64_to_le_bytes(r.timestamp_max)
        + spec_u32_to_le_bytes(r.limit)
        + spec_u32_to_le_bytes(r.flags)
}

fn push_account_filter(out: &mut Vec<u8>, r: crate::account::filter::Raw)
    ensures
        final(out)@ == old(out)@ + spec_account_filter_bytes(r),
{
    let ghost start = out@;
    push_u128(out, r.account_id);
    push_u128(out, r.user_data_128);
    push_u64(out, r.user_data_64);
    push_u32(out, r.user_data_32);
    push_u16(out, r.code);
    push_zeros(out, 58);
    push_u64(out, r.timestamp_min);
    push_u64(out, r.timestamp_max);
    push_u32(out, r.limit);
    push_u32(out, r.flags);
    proof {
        assert(out@ =~= start + spec_account_filter_bytes(r));
    }
}

/// Size in bytes of one entry of a batch creation reply.
pub const RESULT_SIZE: usize = 8;

/// The account creation entry encoded at offset `o` of `s`.
pub open spec fn spec_account_result_at(s: Seq<u8>, o: int) -> RawCreateAccountsIndividualApiResult {
    RawCreateAccountsIndividualApiResult { index: u32_at(s, o), result: u32_at(s, o + 4) }
}

fn account_result_at(s: &[u8], o: usize) -> (r: RawCreateAccountsIndividualApiResult)
    requires
        o + RESULT_SIZE <= s@.len() <= usize::MAX,
    ensures
        r == spec_account_result_at(s@, o as int),
{
    RawCreateAccountsIndividualApiResult { index: read_u32(s, o), result: read_u32(s, o + 4) }
}

/// The transfer creation entry encoded at offset `o` of `s`.
pub open spec fn spec_transfer_result_at(s: Seq<u8>, o: int) -> RawCreateTransfersIndividualApiResult {
    RawCreateTransfersIndividualApiResult { index: u32_at(s, o), result: u32_at(s, o + 4) }
}

fn transfer_result_at(s: &[u8], o: usize) -> (r: RawCreateTransfersIndividualApiResult)
    requires
        o + RESULT_SIZE <= s@.len() <= usize::MAX,
    ensures
        r == spec_transfer_result_at(s@, o as int),
{
    RawCreateTransfersIndividualApiResult { index: read_u32(s, o), result: read_u32(s, o + 4) }
}

/// The encoding of one identifier: 16 bytes, little-endian.
pub open spec fn spec_id_bytes(id: u128) -> Seq<u8> {
    spec_u128_to_le_bytes(id)
}

fn push_id(out: &mut Vec<u8>, id: u128)
    ensures
        final(out)@ == old(out)@ + spec_id_bytes(id),
{
    push_u128(out, id);
}

/// The records behind a sequence of transfers.
pub open spec fn transfer_views(s: Seq<Transfer>) -> Seq<crate::transfer::Raw> {
    s.map_values(|x: Transfer| x@)
}

/// The first `n` transfers encoded back to back in `s`.
pub open spec fn spec_transfers_prefix(s: Seq<u8>, n: nat) -> Seq<crate::transfer::Raw> {
    Seq::new(n, |j: int| spec_transfer_at(s, TRANSFER_SIZE as int * j))
}

/// The transfers encoded back to back in `s`; trailing bytes that do not
/// make a whole record are ignored.
pub open spec fn spec_decode_transfers(s: Seq<u8>) -> Seq<crate::transfer::Raw> {
    spec_transfers_prefix(s, s.len() / (TRANSFER_SIZE as nat))
}

/// Decodes a reply payload made of transfers.
pub fn decode_transfers(payload: &[u8]) -> (r: Vec<Transfer>)
    ensures
        transfer_views(r@) == spec_decode_transfers(payload@),
{
    let len = payload.len();
    let count = len / TRANSFER_SIZE;
    let mut out: Vec<Transfer> = Vec::new();
    let mut i: usize = 0;
    while i < count
        invariant
            i <= count,
            count == len / TRANSFER_SIZE,
            len == payload@.len(),
            transfer_views(out@) =~= spec_transfers_prefix(payload@, i as nat),
        decreases count - i,
    {
        assert((i + 1) * TRANSFER_SIZE <= len) by (nonlinear_arith)
            requires
                i < count,
                count == len / TRANSFER_SIZE,
        ;
        let raw = transfer_at(payload, i * TRANSFER_SIZE);
        let ghost before = out@;
        out.push(Transfer::from_raw(raw));
        assert(transfer_views(out@) =~= transfer_views(before).push(raw));
        i = i + 1;
        assert(transfer_views(out@) =~= spec_transfers_prefix(payload@, i as nat));
    }
    out
}

/// The records behind a sequence of accounts.
pub open spec fn account_views(s: Seq<Account>) -> Seq<crate::account::Raw> {
    s.map_values(|x: Account| x@)
}

/// The first `n` accounts encoded back to back in `s`.
pub open spec fn spec_accounts_prefix(s: Seq<u8>, n: nat) -> Seq<crate::account::Raw> {
    Seq::new(n, |j: int| spec_account_at(s, ACCOUNT_SIZE as int * j))
}

/// The accounts encoded back to back in `s`; trailing bytes that do not
/// make a whole record are ignored.
pub open spec fn spec_decode_accounts(s: Seq<u8>) -> Seq<crate::account::Raw> {
    spec_accounts_prefix(s, s.len() / (ACCOUNT_SIZE as nat))
}

/// Decodes a reply payload made of accounts.
pub fn decode_accounts(payload: &[u8]) -> (r: Vec<Account>)
    ensures
        account_views(r@) == spec_decode_accounts(payload@),
{
    let len = payload.len();
    let count = len / ACCOUNT_SIZE;
    let mut out: Vec<Account> = Vec::new();
    let mut i: usize = 0;
    while i < count
        invariant
            i <= count,
            count == len / ACCOUNT_SIZE,
            len == payload@.len(),
            account_views(out@) =~= spec_accounts_prefix(payload@, i as nat),
        decreases count - i,
    {
        assert((i + 1) * ACCOUNT_SIZE <= len) by (nonlinear_arith)
            requires
                i < count,
                count == len / ACCOUNT_SIZE,
        ;
        let raw = account_at(payload, i * ACCOUNT_SIZE);
        let ghost before = out@;
        out.push(Account::from_raw(raw));
        assert(account_views(out@) =~= account_views(before).push(raw));
        i = i + 1;
        assert(account_views(out@) =~= spec_accounts_prefix(payload@, i as nat));
    }
    out
}

/// The records behind a sequence of balances.
pub open spec fn balance_views(s: Seq<Balance>) -> Seq<crate::account::balance::Raw> {
    s.map_values(|x: Balance| x@)
}

/// The first `n` balances encoded back to back in `s`.
pub open spec fn spec_balances_prefix(s: Seq<u8>, n: nat) -> Seq<crate::account::balance::Raw> {
    Seq::new(n, |j: int| spec_balance_at(s, BALANCE_SIZE as int * j))
}

/// The balances encoded back to back in `s`; trailing bytes that do not
/// make a whole record are ignored.
pub open spec fn spec_decode_balances(s: Seq<u8>) -> Seq<crate::account::balance::Raw> {
    spec_balances_prefix(s, s.len() / (BALANCE_SIZE as nat))
}

/// Decodes a reply payload made of balances.
pub fn decode_balances(payload: &[u8]) -> (r: Vec<Balance>)
    ensures
        balance_views(r@) == spec_decode_balances(payload@),
{
    let len = payload.len();
    let count = len / BALANCE_SIZE;
    let mut out: Vec<Balance> = Vec::new();
    let mut i: usize = 0;
    while i < count
        invariant
            i <= count,
            count == len / BALANCE_SIZE,
            len == payload@.len(),
            balance_views(out@) =~= spec_balances_prefix(payload@, i as nat),
        decreases count - i,
    {
        assert((i + 1) * BALANCE_SIZE <= len) by (nonlinear_arith)
            requires
                i < count,
                count == len / BALANCE_SIZE,
        ;
        let raw = balance_at(payload, i * BALANCE_SIZE);
        let ghost before = out@;
        out.push(Balance::from_raw(raw));
        assert(balance_views(out@) =~= balance_views(before).push(raw));
        i = i + 1;
        assert(balance_views(out@) =~= spec_balances_prefix(payload@, i as nat));
    }
    out
}

/// The first `n` account_results encoded back to back in `s`.
pub open spec fn spec_account_results_prefix(s: Seq<u8>, n: nat) -> Seq<RawCreateAccountsIndividualApiResult> {
    Seq::new(n, |j: int| spec_account_result_at(s, RESULT_SIZE as int * j))
}

/// The account_results encoded back to back in `s`; trailing bytes that do not
/// make a whole record are ignored.
pub open spec fn spec_decode_account_results(s: Seq<u8>) -> Seq<RawCreateAccountsIndividualApiResult> {
    spec_account_results_prefix(s, s.len() / (RESULT_SIZE as nat))
}

/// Decodes a reply payload made of account_results.
pub fn decode_account_results(payload: &[u8]) -> (r: Vec<RawCreateAccountsIndividualApiResult>)
    ensures
        r@ == spec_decode_account_results(payload@),
{
    let len = payload.len();
    let count = len / RESULT_SIZE;
    let mut out: Vec<RawCreateAccountsIndividualApiResult> = Vec::new();
    let mut i: usize = 0;
    while i < count
        invariant
            i <= count,
            count == len / RESULT_SIZE,
            len == payload@.len(),
            out@ =~= spec_account_results_prefix(payload@, i as nat),
        decreases count - i,
    {
        assert((i + 1) * RESULT_SIZE <= len) by (nonlinear_arith)
            requires
                i < count,
                count == len / RESULT_SIZE,
        ;
        let raw = account_result_at(payload, i * RESULT_SIZE);
        let ghost before = out@;
        out.push(raw);
        assert(out@ =~= before.push(raw));
        i = i + 1;
        assert(out@ =~= spec_account_results_prefix(payload@, i as nat));
    }
    out
}

/// The first `n` transfer_results encoded back to back in `s`.
pub open spec fn spec_transfer_results_prefix(s: Seq<u8>, n: nat) -> Seq<RawCreateTransfersIndividualApiResult> {
    Seq::new(n, |j: int| spec_transfer_result_at(s, RESULT_SIZE as int * j))
}

/// The transfer_results encoded back to back in `s`; trailing bytes that do not
/// make a whole record are ignored.
pub open spec fn spec_decode_transfer_results(s: Seq<u8>) -> Seq<RawCreateTransfersIndividualApiResult> {
    spec_transfer_results_prefix(s, s.len() / (RESULT_SIZE as nat))
}

/// Decodes a reply payload made of transfer_results.
pub fn decode_transfer_results(payload: &[u8]) -> (r: Vec<RawCreateTransfersIndividualApiResult>)
    ensures
        r@ == spec_decode_transfer_results(payload@),
{
    let len = payload.len();
    let count = len / RESULT_SIZE;
    let mut out: Vec<RawCreateTransfersIndividualApiResult> = Vec::new();
    let mut i: usize = 0;
    while i < count
        invariant
            i <= count,
            count == len / RESULT_SIZE,
            len == payload@.len(),
            out@ =~= spec_transfer_results_prefix(payload@, i as nat),
        decreases count - i,
    {
        assert((i + 1) * RESULT_SIZE <= len) by (nonlinear_arith)
            requires
                i < count,
                count == len / RESULT_SIZE,
        ;
        let raw = transfer_result_at(payload, i * RESULT_SIZE);
        let ghost before = out@;
        out.push(raw);
        assert(out@ =~= before.push(raw));
        i = i + 1;
        assert(out@ =~= spec_transfer_results_prefix(payload@, i as nat));
    }
    out
}

/// Transfers encoded back to back.
pub open spec fn spec_encode_transfers(s: Seq<crate::transfer::Raw>) -> Seq<u8>
    decreases s.len(),
{
    if s.len() == 0 {
        Seq::empty()
    } else {
        spec_encode_transfers(s.drop_last()) + spec_transfer_bytes(s.last())
    }
}

/// Encodes transfers as a request payload.
pub fn encode_transfers(items: &[Transfer]) -> (r: Vec<u8>)
    ensures
        r@ == spec_encode_transfers(transfer_views(items@)),
{
    let mut out: Vec<u8> = Vec::new();
    let mut i: usize = 0;
    while i < items.len()
        invariant
            i <= items@.len(),
            out@ == spec_encode_transfers(transfer_views(items@).take(i as int)),
        decreases items@.len() - i,
    {
        let raw = items[i].into_raw();
        proof {
            assert(transfer_views(items@).take(i as int + 1).drop_last() =~= transfer_views(items@).take(i as int));
        }
        push_transfer(&mut out, raw);
        i = i + 1;
    }
    proof {
        assert(transfer_views(items@).take(items@.len() as int) =~= transfer_views(items@));
    }
    out
}

/// Accounts encoded back to back.
pub open spec fn spec_encode_accounts(s: Seq<crate::account::Raw>) -> Seq<u8>
    decreases s.len(),
{
    if s.len() == 0 {
        Seq::empty()
    } else {
        spec_encode_accounts(s.drop_last()) + spec_account_bytes(s.last())
    }
}

/// Encodes accounts as a request payload.
pub fn encode_accounts(items: &[Account]) -> (r: Vec<u8>)
    ensures
        r@ == spec_encode_accounts(account_views(items@)),
{
    let mut out: Vec<u8> = Vec::new();
    let mut i: usize = 0;
    while i < items.len()
        invariant
            i <= items@.len(),
            out@ == spec_encode_accounts(account_views(items@).take(i as int)),
        decreases items@.len() - i,
    {
        let raw = items[i].into_raw();
        proof {
            assert(account_views(items@).take(i as int + 1).drop_last() =~= account_views(items@).take(i as int));
        }
        push_account(&mut out, raw);
        i = i + 1;
    }
    proof {
        assert(account_views(items@).take(items@.len() as int) =~= account_views(items@));
    }
    out
}

/// Ids encoded back to back.
pub open spec fn spec_encode_ids(s: Seq<u128>) -> Seq<u8>
    decreases s.len(),
{
    if s.len() == 0 {
        Seq::empty()
    } else {
        spec_encode_ids(s.drop_last()) + spec_id_bytes(s.last())
    }
}

/// Encodes ids as a request payload.
pub fn encode_ids(items: &[u128]) -> (r: Vec<u8>)
    ensures
        r@ == spec_encode_ids(items@),
{
    let mut out: Vec<u8> = Vec::new();
    let mut i: usize = 0;
    while i < items.len()
        invariant
            i <= items@.len(),
            out@ == spec_encode_ids(items@.take(i as int)),
        decreases items@.len() - i,
    {
        let raw = items[i];
        proof {
            assert(items@.take(i as int + 1).drop_last() =~= items@.take(i as int));
        }
        push_id(&mut out, raw);
        i = i + 1;
    }
    proof {
        assert(items@.take(items@.len() as int) =~= items@);
    }
    out
}

/// Encodes one query filter as a request payload.
pub fn encode_query_filter(item: &QueryFilter) -> (r: Vec<u8>)
    ensures
        r@ == spec_query_filter_bytes(item@),
{
    let mut out: Vec<u8> = Vec::new();
    push_query_filter(&mut out, item.into_raw());
    assert(out@ =~= spec_query_filter_bytes(item@));
    out
}

/// Encodes one account filter as a request payload.
pub fn encode_account_filter(item: &Filter) -> (r: Vec<u8>)
    ensures
        r@ == spec_account_filter_bytes(item@),
{
    let mut out: Vec<u8> = Vec::new();
    push_account_filter(&mut out, item.into_raw());
    assert(out@ =~= spec_account_filter_bytes(item@));
    out
}


proof fn lemma_transfer_bytes(r: crate::transfer::Raw)
    ensures
        spec_transfer_bytes(r).len() == 128,
        spec_transfer_at(spec_transfer_bytes(r), 0) == r,
{
    lemma_auto_spec_u128_to_from_le_bytes();
    lemma_auto_spec_u64_to_from_le_bytes();
    lemma_auto_spec_u32_to_from_le_bytes();
    lemma_auto_spec_u16_to_from_le_bytes();
    let b = spec_transfer_bytes(r);
    assert(b.subrange(0, 16) =~= spec_u128_to_le_bytes(r.id));
    assert(b.subrange(16, 32) =~= spec_u128_to_le_bytes(r.debit_account_id));
    assert(b.subrange(32, 48) =~= spec_u128_to_le_bytes(r.credit_account_id));
    assert(b.subrange(48, 64) =~= spec_u128_to_le_bytes(r.amount));
    assert(b.subrange(64, 80) =~= spec_u128_to_le_bytes(r.pending_id));
    assert(b.subrange(80, 96) =~= spec_u128_to_le_bytes(r.user_data_128));
    assert(b.subrange(96, 104) =~= spec_u64_to_le_bytes(r.user_data_64));
    assert(b.subrange(104, 108) =~= spec_u32_to_le_bytes(r.user_data_32));
    assert(b.subrange(108, 112) =~= spec_u32_to_le_bytes(r.timeout));
    assert(b.subrange(112, 116) =~= spec_u32_to_le_bytes(r.ledger));
    assert(b.subrange(116, 118) =~= spec_u16_to_le_bytes(r.code));
    assert(b.subrange(118, 120) =~= spec_u16_to_le_bytes(r.flags));
    assert(b.subrange(120, 128) =~= spec_u64_to_le_bytes(r.timestamp));
}

proof fn lemma_transfer_at_shift(x: Seq<u8>, o: int)
    requires
        0 <= o,
        o + 128 <= x.len(),
    ensures
        spec_transfer_at(x, o) == spec_transfer_at(x.subrange(o, o + 128), 0),
{
    assert(x.subrange(o, o + 128).subrange(0, 16) =~= x.subrange(o, o + 16));
    assert(x.subrange(o, o + 128).subrange(16, 32) =~= x.subrange(o + 16, o + 32));
    assert(x.subrange(o, o + 128).subrange(32, 48) =~= x.subrange(o + 32, o + 48));
    assert(x.subrange(o, o + 128).subrange(48, 64) =~= x.subrange(o + 48, o + 64));
    assert(x.subrange(o, o + 128).subrange(64, 80) =~= x.subrange(o + 64, o + 80));
    assert(x.subrange(o, o + 128).subrange(80, 96) =~= x.subrange(o + 80, o + 96));
    assert(x.subrange(o, o + 128).subrange(96, 104) =~= x.subrange(o + 96, o + 104));
    assert(x.subrange(o, o + 128).subrange(104, 108) =~= x.subrange(o + 104, o + 108));
    assert(x.subrange(o, o + 128).subrange(108, 112) =~= x.subrange(o + 108, o + 112));
    assert(x.subrange(o, o + 128).subrange(112, 116) =~= x.subrange(o + 112, o + 116));
    assert(x.subrange(o, o + 128).subrange(116, 118) =~= x.subrange(o + 116, o + 118));
    assert(x.subrange(o, o + 128).subrange(118, 120) =~= x.subrange(o + 118, o + 120));
    assert(x.subrange(o, o + 128).subrange(120, 128) =~= x.subrange(o + 120, o + 128));
}

proof fn lemma_encode_transfers(s: Seq<crate::transfer::Raw>)
    ensures
        spec_encode_transfers(s).len() == 128 * s.len(),
        forall|j: int|
            0 <= j < s.len() ==> #[trigger] spec_encode_transfers(s).subrange(128 * j, 128 * j + 128)
                == spec_transfer_bytes(s[j]),
    decreases s.len(),
{
    if s.len() > 0 {
        let init = s.drop_last();
        lemma_encode_transfers(init);
        lemma_transfer_bytes(s.last());
        let e = spec_encode_transfers(s);
        let e0 = spec_encode_transfers(init);
        assert(e == e0 + spec_transfer_bytes(s.last()));
        assert forall|j: int| 0 <= j < s.len() implies #[trigger] e.subrange(128 * j, 128 * j + 128)
            == spec_transfer_bytes(s[j]) by {
            if j < s.len() - 1 {
                assert(e.subrange(128 * j, 128 * j + 128) =~= e0.subrange(128 * j, 128 * j + 128));
                assert(init[j] == s[j]);
            } else {
                assert(e.subrange(128 * j, 128 * j + 128) =~= spec_transfer_bytes(s.last()));
            }
        }
    }
}

/// Decoding the encoding of a batch of transfers gives the batch back.
pub proof fn lemma_transfers_round_trip(s: Seq<crate::transfer::Raw>)
    ensures
        spec_decode_transfers(spec_encode_transfers(s)) == s,
{
    lemma_encode_transfers(s);
    let e = spec_encode_transfers(s);
    assert(e.len() / (128 as nat) == s.len()) by (nonlinear_arith)
        requires
            e.len() == 128 * s.len(),
    ;
    assert forall|j: int| 0 <= j < s.len() implies spec_transfer_at(e, 128 * j) == s[j] by {
        assert(0 <= 128 * j) by (nonlinear_arith)
            requires
                0 <= j,
        ;
        assert(128 * j + 128 <= e.len()) by (nonlinear_arith)
            requires
                j < s.len(),
                e.len() == 128 * s.len(),
        ;
        lemma_transfer_at_shift(e, 128 * j);
        assert(e.subrange(128 * j, 128 * j + 128) == spec_transfer_bytes(s[j]));
        lemma_transfer_bytes(s[j]);
    }
    assert(spec_decode_transfers(e) =~= s);
}


proof fn lemma_account_bytes(r: crate::account::Raw)
    ensures
        spec_account_bytes(r).len() == 128,
        spec_account_at(spec_account_bytes(r), 0) == r,
{
    lemma_auto_spec_u128_to_from_le_bytes();
    lemma_auto_spec_u64_to_from_le_bytes();
    lemma_auto_spec_u32_to_from_le_bytes();
    lemma_auto_spec_u16_to_from_le_bytes();
    let b = spec_account_bytes(r);
    assert(b.subrange(0, 16) =~= spec_u128_to_le_bytes(r.id));
    assert(b.subrange(16, 32) =~= spec_u128_to_le_bytes(r.debits_pending));
    assert(b.subrange(32, 48) =~= spec_u128_to_le_bytes(r.debits_posted));
    assert(b.subrange(48, 64) =~= spec_u128_to_le_bytes(r.credits_pending));
    assert(b.subrange(64, 80) =~= spec_u128_to_le_bytes(r.credits_posted));
    assert(b.subrange(80, 96) =~= spec_u128_to_le_bytes(r.user_data_128));
    assert(b.subrange(96, 104) =~= spec_u64_to_le_bytes(r.user_data_64));
    assert(b.subrange(104, 108) =~= spec_u32_to_le_bytes(r.user_data_32));
    assert(b.subrange(112, 116) =~= spec_u32_to_le_bytes(r.ledger));
    assert(b.subrange(116, 118) =~= spec_u16_to_le_bytes(r.code));
    assert(b.subrange(118, 120) =~= spec_u16_to_le_bytes(r.flags));
    assert(b.subrange(120, 128) =~= spec_u64_to_le_bytes(r.timestamp));
}

proof fn lemma_account_at_shift(x: Seq<u8>, o: int)
    requires
        0 <= o,
        o + 128 <= x.len(),
    ensures
        spec_account_at(x, o) == spec_account_at(x.subrange(o, o + 128), 0),
{
    assert(x.subrange(o, o + 128).subrange(0, 16) =~= x.subrange(o, o + 16));
    assert(x.subrange(o, o + 128).subrange(16, 32) =~= x.subrange(o + 16, o + 32));
    assert(x.subrange(o, o + 128).subrange(32, 48) =~= x.subrange(o + 32, o + 48));
    assert(x.subrange(o, o + 128).subrange(48, 64) =~= x.subrange(o + 48, o + 64));
    assert(x.subrange(o, o + 128).subrange(64, 80) =~= x.subrange(o + 64, o + 80));
    assert(x.subrange(o, o + 128).subrange(80, 96) =~= x.subrange(o + 80, o + 96));
    assert(x.subrange(o, o + 128).subrange(96, 104) =~= x.subrange(o + 96, o + 104));
    assert(x.subrange(o, o + 128).subrange(104, 108) =~= x.subrange(o + 104, o + 108));
    assert(x.subrange(o, o + 128).subrange(112, 116) =~= x.subrange(o + 112, o + 116));
    assert(x.subrange(o, o + 128).subrange(116, 118) =~= x.subrange(o + 116, o + 118));
    assert(x.subrange(o, o + 128).subrange(118, 120) =~= x.subrange(o + 118, o + 120));
    assert(x.subrange(o, o + 128).subrange(120, 128) =~= x.subrange(o + 120, o + 128));
}

proof fn lemma_encode_accounts(s: Seq<crate::account::Raw>)
    ensures
        spec_encode_accounts(s).len() == 128 * s.len(),
        forall|j: int|
            0 <= j < s.len() ==> #[trigger] spec_encode_accounts(s).subrange(128 * j, 128 * j + 128)
                == spec_account_bytes(s[j]),
    decreases s.len(),
{
    if s.len() > 0 {
        let init = s.drop_last();
        lemma_encode_accounts(init);
        lemma_account_bytes(s.last());
        let e = spec_encode_accounts(s);
        let e0 = spec_encode_accounts(init);
        assert(e == e0 + spec_account_bytes(s.last()));
        assert forall|j: int| 0 <= j < s.len() implies #[trigger] e.subrange(128 * j, 128 * j + 128)
            == spec_account_bytes(s[j]) by {
            if j < s.len() - 1 {
                assert(e.subrange(128 * j, 128 * j + 128) =~= e0.subrange(128 * j, 128 * j + 128));
                assert(init[j] == s[j]);
            } else {
                assert(e.subrange(128 * j, 128 * j + 128) =~= spec_account_bytes(s.last()));
            }
        }
    }
}

/// Decoding the encoding of a batch of accounts gives the batch back.
pub proof fn lemma_accounts_round_trip(s: Seq<crate::account::Raw>)
    ensures
        spec_decode_accounts(spec_encode_accounts(s)) == s,
{
    lemma_encode_accounts(s);
    let e = spec_encode_accounts(s);
    assert(e.len() / (128 as nat) == s.len()) by (nonlinear_arith)
        requires
            e.len() == 128 * s.len(),
    ;
    assert forall|j: int| 0 <= j < s.len() implies spec_account_at(e, 128 * j) == s[j] by {
        assert(0 <= 128 * j) by (nonlinear_arith)
            requires
                0 <= j,
        ;
        assert(128 * j + 128 <= e.len()) by (nonlinear_arith)
            requires
                j < s.len(),
                e.len() == 128 * s.len(),
        ;
        lemma_account_at_shift(e, 128 * j);
        assert(e.subrange(128 * j, 128 * j + 128) == spec_account_bytes(s[j]));
        lemma_account_bytes(s[j]);
    }
    assert(spec_decode_accounts(e) =~= s);
}

} // verus!
