//! Replies: the payload that the service sent back, copied out of the
//! completion, and read according to the operation it answers.
use vstd::prelude::*;
use vstd::slice::slice_to_vec;
use crate::account::{Account, Balance};
use crate::codec::{
    account_views, balance_views, decode_account_results, decode_accounts, decode_balances,
    decode_transfer_results, decode_transfers, spec_decode_account_results, spec_decode_accounts,
    spec_decode_balances, spec_decode_transfer_results, spec_decode_transfers, transfer_views,
};
use crate::error::{
    account_error_entries, account_failures, transfer_error_entries, transfer_failures,
    CreateAccountsApiError, CreateTransfersApiError,
};
use crate::packet::Operation;
use crate::transfer::Transfer;

verus! {

/// A copy of a reply payload, with the operation that it answers.
pub struct Reply {
    operation: Operation,
    payload: Vec<u8>,
}

impl Reply {
    pub closed spec fn spec_operation(&self) -> Operation {
        self.operation
    }

    pub closed spec fn spec_payload(&self) -> Seq<u8> {
        self.payload@
    }

    /// Copies a payload that is only borrowed for the duration of a
    /// completion.
    pub fn copy_from_reply(operation: Operation, payload: &[u8]) -> (r: Reply)
        ensures
            r.spec_operation() == operation,
            r.spec_payload() == payload@,
    {
        Reply { operation, payload: slice_to_vec(payload) }
    }

    pub fn operation(&self) -> (r: Operation)
        ensures
            r == self.spec_operation(),
    {
        self.operation
    }

    pub fn payload(&self) -> (r: &[u8])
        ensures
            r@ == self.spec_payload(),
    {
        self.payload.as_slice()
    }

    /// `Ok` when every account of the batch was created, else the entries
    /// that report a refusal.
    pub fn into_create_accounts(self) -> (r: Result<(), CreateAccountsApiError>)
        ensures
            r is Ok <==> account_failures(spec_decode_account_results(self.spec_payload())).len()
                == 0,
            r matches Err(e) ==> account_error_entries(e@) == account_failures(
                spec_decode_account_results(self.spec_payload()),
            ),
    {
        let results = decode_account_results(self.payload.as_slice());
        match CreateAccountsApiError::from_raw_results(results) {
            None => Ok(()),
            Some(e) => Err(e),
        }
    }

    /// `Ok` when every transfer of the batch was created, else the entries
    /// that report a refusal.
    pub fn into_create_transfers(self) -> (r: Result<(), CreateTransfersApiError>)
        ensures
            r is Ok <==> transfer_failures(spec_decode_transfer_results(self.spec_payload())).len()
                == 0,
            r matches Err(e) ==> transfer_error_entries(e@) == transfer_failures(
                spec_decode_transfer_results(self.spec_payload()),
            ),
    {
        let results = decode_transfer_results(self.payload.as_slice());
        match CreateTransfersApiError::from_raw_results(results) {
            None => Ok(()),
            Some(e) => Err(e),
        }
    }

    /// The account balances that the reply holds.
    pub fn into_get_account_balances(self) -> (r: Vec<Balance>)
        ensures
            balance_views(r@) == spec_decode_balances(self.spec_payload()),
    {
        decode_balances(self.payload.as_slice())
    }

    /// The transfers of an account that the reply holds.
    pub fn into_get_account_transfers(self) -> (r: Vec<Transfer>)
        ensures
            transfer_views(r@) == spec_decode_transfers(self.spec_payload()),
    {
        decode_transfers(self.payload.as_slice())
    }

    /// The looked-up accounts that the reply holds.
    pub fn into_lookup_accounts(self) -> (r: Vec<Account>)
        ensures
            account_views(r@) == spec_decode_accounts(self.spec_payload()),
    {
        decode_accounts(self.payload.as_slice())
    }

    /// The looked-up transfers that the reply holds.
    pub fn into_lookup_transfers(self) -> (r: Vec<Transfer>)
        ensures
            transfer_views(r@) == spec_decode_transfers(self.spec_payload()),
    {
        decode_transfers(self.payload.as_slice())
    }

    /// The accounts that matched a query that the reply holds.
    pub fn into_query_accounts(self) -> (r: Vec<Account>)
        ensures
            account_views(r@) == spec_decode_accounts(self.spec_payload()),
    {
        decode_accounts(self.payload.as_slice())
    }

    /// The transfers that matched a query that the reply holds.
    pub fn into_query_transfers(self) -> (r: Vec<Transfer>)
        ensures
            transfer_views(r@) == spec_decode_transfers(self.spec_payload()),
    {
        decode_transfers(self.payload.as_slice())
    }
}

} // verus!
