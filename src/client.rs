//! The request side of the client: connection checks, the context that a
//! request's packet owns, and the completion that delivers its outcome to
//! the caller through a one-shot reply channel.
//!
//! Each request has its own channel, so completions that arrive in any order
//! reach their own callers without a shared table.
use vstd::prelude::*;
use tokio::sync::oneshot::{Receiver, Sender};
use crate::account::{Account, Balance, Filter};
use crate::codec::{
    account_views, balance_views, encode_account_filter, encode_accounts, encode_ids,
    encode_query_filter, encode_transfers, spec_account_filter_bytes, spec_decode_account_results,
    spec_decode_accounts, spec_decode_balances, spec_decode_transfer_results,
    spec_decode_transfers, spec_encode_accounts, spec_encode_ids, spec_encode_transfers,
    spec_query_filter_bytes, transfer_views,
};
use crate::error::{
    account_error_entries, account_failures, transfer_error_entries, transfer_failures,
    CreateAccountsError, CreateTransfersError, NewClientError, NewClientErrorKind, SendError,
};
use crate::packet::{Operation, OperationKind, Packet, UserData};
use crate::query_filter::QueryFilter;
use crate::reply::Reply;
use crate::transfer::Transfer;

verus! {

/// tokio's one-shot sender, held opaque.
#[verifier::external_type_specification]
#[verifier::external_body]
#[verifier::reject_recursive_types(T)]
pub struct ExSender<T>(Sender<T>);

/// tokio's one-shot receiver, held opaque.
#[verifier::external_type_specification]
#[verifier::external_body]
#[verifier::reject_recursive_types(T)]
pub struct ExReceiver<T>(Receiver<T>);

/// tokio's error for a channel whose sender is gone, held opaque. Nothing
/// here uses it; the receiver's `Future` impl names it, so it is declared
/// with the receiver.
#[verifier::external_type_specification]
#[verifier::external_body]
pub struct ExRecvError(tokio::sync::oneshot::error::RecvError);

/// Relies on `tokio::sync::oneshot::channel`: a fresh sender and receiver of
/// one channel. Nothing is stated of them beyond their types.
pub assume_specification<T>[ tokio::sync::oneshot::channel::<T> ]() -> (Sender<T>, Receiver<T>);

/// Relies on `tokio::sync::oneshot::Sender::send`: it consumes the sender,
/// and when the receiver is gone it hands the value back unchanged.
pub assume_specification<T>[ Sender::<T>::send ](sender: Sender<T>, t: T) -> (r: Result<(), T>)
    ensures
        r matches Err(v) ==> v == t,
;

/// What a request delivers to its caller: the reply, or why there is none.
pub type Outcome = Result<Reply, SendError>;

/// The context that a request's packet owns: where to deliver the outcome,
/// and the payload, kept alive until the packet completes.
pub struct RequestContext {
    reply_sender: Sender<Outcome>,
    data: Vec<u8>,
}

impl RequestContext {
    pub closed spec fn spec_sender(&self) -> Sender<Outcome> {
        self.reply_sender
    }
}

impl UserData for RequestContext {
    closed spec fn spec_data(&self) -> Seq<u8> {
        self.data@
    }

    fn data(&self) -> (r: &[u8]) {
        self.data.as_slice()
    }
}

/// A packet for `operation` that carries `data`, and the receiver on which
/// its outcome will arrive.
pub fn request(data: Vec<u8>, operation: Operation) -> (r: (Packet<RequestContext>, Receiver<Outcome>))
    ensures
        r.0.spec_user_data().spec_data() == data@,
        r.0.spec_operation() == operation,
        r.0.spec_status() == 0,
{
    let (reply_sender, reply_receiver) = tokio::sync::oneshot::channel();
    let context = RequestContext { reply_sender, data };
    (Packet::new(context, operation), reply_receiver)
}

/// The outcome of a completed packet with the given status and operation:
/// the error that a non-zero status names, else a copy of the reply.
pub fn outcome(status: Result<(), SendError>, operation: Operation, reply: Option<&[u8]>) -> (r: Outcome)
    requires
        status is Ok ==> reply is Some,
    ensures
        match status {
            Ok(()) => r matches Ok(rep) && rep.spec_operation() == operation
                && rep.spec_payload() == reply.unwrap()@,
            Err(e) => r matches Err(e2) && e2@ == e@,
        },
{
    match status {
        Ok(()) => Ok(Reply::copy_from_reply(operation, reply.unwrap())),
        Err(e) => Err(e),
    }
}
/// Takes a completed packet apart: the sender to deliver on, and the
/// outcome to deliver. The packet's context is consumed here, once, and its
/// payload is released.
pub fn settle(packet: Packet<RequestContext>, reply: Option<&[u8]>) -> (r: (Sender<Outcome>, Outcome))
    requires
        packet.spec_status() != 0 || reply is Some,
    ensures
        r.0 == packet.spec_user_data().spec_sender(),
        match r.1 {
            Ok(rep) => {
                &&& packet.spec_status() == 0
                &&& rep.spec_operation() == packet.spec_operation()
                &&& rep.spec_payload() == reply.unwrap()@
            },
            Err(e) => packet.spec_status() != 0 && e@ == packet.spec_status(),
        },
{
    let status = packet.status();
    let operation = packet.operation();
    let context = packet.into_user_data();
    let RequestContext { reply_sender, data: _ } = context;
    (reply_sender, outcome(status, operation, reply))
}

/// Completes a packet: delivers its outcome to the caller that waits on the
/// packet's receiver. A caller that stopped waiting has dropped its
/// receiver; the outcome is then dropped as well, which is no error.
///
/// This is the one path on which a submitted packet ends, whether the
/// service answered it or it was never sent.
pub fn complete(packet: Packet<RequestContext>, reply: Option<&[u8]>)
    requires
        packet.spec_status() != 0 || reply is Some,
{
    let (sender, outcome) = settle(packet, reply);
    let _ = sender.send(outcome);
}

/// The length of an address list as the connection call takes it: a 32-bit
/// count of bytes. A longer list is refused as an invalid address before
/// anything is created.
pub fn address_length(len: usize) -> (r: Result<u32, NewClientError>)
    ensures
        len <= u32::MAX <==> r is Ok,
        r matches Ok(n) ==> n == len,
        r matches Err(e) ==> e@ == NewClientErrorKind::AddressInvalid.spec_code(),
{
    if len <= u32::MAX as usize {
        Ok(len as u32)
    } else {
        Err(NewClientError::from_kind(NewClientErrorKind::AddressInvalid).unwrap())
    }
}

/// The result of the connection call's status: zero is success, any other
/// code is the error that carries it.
pub fn init_result(status: u32) -> (r: Result<(), NewClientError>)
    ensures
        status == 0 <==> r is Ok,
        r matches Err(e) ==> e@ == status,
{
    match NewClientError::from_code(status) {
        None => Ok(()),
        Some(e) => Err(e),
    }
}

fn operation(kind: OperationKind) -> (r: Operation)
    requires
        kind != OperationKind::UnstableUncategorized,
    ensures
        r@ == kind.spec_code(),
{
    Operation::from_kind(kind).unwrap()
}

/// The request that creates `accounts`; `None` for an empty batch, which
/// needs no round trip.
pub fn create_accounts_request(accounts: &[Account]) -> (r: Option<(Packet<RequestContext>, Receiver<Outcome>)>)
    ensures
        accounts@.len() == 0 <==> r is None,
        r matches Some(p) ==> {
            &&& p.0.spec_user_data().spec_data() == spec_encode_accounts(account_views(accounts@))
            &&& p.0.spec_operation()@ == OperationKind::CreateAccounts.spec_code()
            &&& p.0.spec_status() == 0
        },
{
    if accounts.len() == 0 {
        None
    } else {
        Some(request(encode_accounts(accounts), operation(OperationKind::CreateAccounts)))
    }
}

/// The request that creates `transfers`; `None` for an empty batch, which
/// needs no round trip.
pub fn create_transfers_request(transfers: &[Transfer]) -> (r: Option<(Packet<RequestContext>, Receiver<Outcome>)>)
    ensures
        transfers@.len() == 0 <==> r is None,
        r matches Some(p) ==> {
            &&& p.0.spec_user_data().spec_data() == spec_encode_transfers(transfer_views(transfers@))
            &&& p.0.spec_operation()@ == OperationKind::CreateTransfers.spec_code()
            &&& p.0.spec_status() == 0
        },
{
    if transfers.len() == 0 {
        None
    } else {
        Some(request(encode_transfers(transfers), operation(OperationKind::CreateTransfers)))
    }
}

/// The request that looks up `ids` with a lookup operation; `None` for no
/// ids, which needs no round trip.
pub fn lookup_request(ids: &[u128], kind: OperationKind) -> (r: Option<(Packet<RequestContext>, Receiver<Outcome>)>)
    requires
        kind == OperationKind::LookupAccounts || kind == OperationKind::LookupTransfers,
    ensures
        ids@.len() == 0 <==> r is None,
        r matches Some(p) ==> {
            &&& p.0.spec_user_data().spec_data() == spec_encode_ids(ids@)
            &&& p.0.spec_operation()@ == kind.spec_code()
            &&& p.0.spec_status() == 0
        },
{
    if ids.len() == 0 {
        None
    } else {
        Some(request(encode_ids(ids), operation(kind)))
    }
}

/// The request that runs a query filter with a query operation.
pub fn query_request(filter: &QueryFilter, kind: OperationKind) -> (r: (Packet<RequestContext>, Receiver<Outcome>))
    requires
        kind == OperationKind::QueryAccounts || kind == OperationKind::QueryTransfers,
    ensures
        r.0.spec_user_data().spec_data() == spec_query_filter_bytes(filter@),
        r.0.spec_operation()@ == kind.spec_code(),
        r.0.spec_status() == 0,
{
    request(encode_query_filter(filter), operation(kind))
}

/// The request that reads an account's history with an account filter.
pub fn account_filter_request(filter: &Filter, kind: OperationKind) -> (r: (Packet<RequestContext>, Receiver<Outcome>))
    requires
        kind == OperationKind::GetAccountBalances || kind == OperationKind::GetAccountTransfers,
    ensures
        r.0.spec_user_data().spec_data() == spec_account_filter_bytes(filter@),
        r.0.spec_operation()@ == kind.spec_code(),
        r.0.spec_status() == 0,
{
    request(encode_account_filter(filter), operation(kind))
}

/// What a batch that creates accounts came to: the send error, or the
/// refused accounts, or `Ok` when all were created.
pub fn finish_create_accounts(outcome: Outcome) -> (r: Result<(), CreateAccountsError>)
    ensures
        match outcome {
            Err(e) => r matches Err(CreateAccountsError::Send(e2)) && e2@ == e@,
            Ok(rep) => {
                &&& r is Ok <==> account_failures(spec_decode_account_results(rep.spec_payload())).len() == 0
                &&& r matches Err(err) ==> err matches CreateAccountsError::Api(a)
                    && account_error_entries(a@) == account_failures(spec_decode_account_results(rep.spec_payload()))
            },
        },
{
    match outcome {
        Err(e) => Err(CreateAccountsError::Send(e)),
        Ok(reply) => match reply.into_create_accounts() {
            Ok(()) => Ok(()),
            Err(a) => Err(CreateAccountsError::Api(a)),
        },
    }
}

/// What a batch that creates transfers came to: the send error, or the
/// refused transfers, or `Ok` when all were created.
pub fn finish_create_transfers(outcome: Outcome) -> (r: Result<(), CreateTransfersError>)
    ensures
        match outcome {
            Err(e) => r matches Err(CreateTransfersError::Send(e2)) && e2@ == e@,
            Ok(rep) => {
                &&& r is Ok <==> transfer_failures(spec_decode_transfer_results(rep.spec_payload())).len() == 0
                &&& r matches Err(err) ==> err matches CreateTransfersError::Api(a)
                    && transfer_error_entries(a@) == transfer_failures(spec_decode_transfer_results(rep.spec_payload()))
            },
        },
{
    match outcome {
        Err(e) => Err(CreateTransfersError::Send(e)),
        Ok(reply) => match reply.into_create_transfers() {
            Ok(()) => Ok(()),
            Err(a) => Err(CreateTransfersError::Api(a)),
        },
    }
}

/// The accounts that a lookup or query returned, or its send error.
pub fn finish_accounts(outcome: Outcome) -> (r: Result<Vec<Account>, SendError>)
    ensures
        match outcome {
            Err(e) => r matches Err(e2) && e2@ == e@,
            Ok(rep) => r matches Ok(v) && account_views(v@) == spec_decode_accounts(rep.spec_payload()),
        },
{
    match outcome {
        Err(e) => Err(e),
        Ok(reply) => Ok(reply.into_lookup_accounts()),
    }
}

/// The transfers that a lookup, query or account history returned, or its
/// send error.
pub fn finish_transfers(outcome: Outcome) -> (r: Result<Vec<Transfer>, SendError>)
    ensures
        match outcome {
            Err(e) => r matches Err(e2) && e2@ == e@,
            Ok(rep) => r matches Ok(v) && transfer_views(v@) == spec_decode_transfers(rep.spec_payload()),
        },
{
    match outcome {
        Err(e) => Err(e),
        Ok(reply) => Ok(reply.into_lookup_transfers()),
    }
}

/// The balances that an account history returned, or its send error.
pub fn finish_balances(outcome: Outcome) -> (r: Result<Vec<Balance>, SendError>)
    ensures
        match outcome {
            Err(e) => r matches Err(e2) && e2@ == e@,
            Ok(rep) => r matches Ok(v) && balance_views(v@) == spec_decode_balances(rep.spec_payload()),
        },
{
    match outcome {
        Err(e) => Err(e),
        Ok(reply) => Ok(reply.into_get_account_balances()),
    }
}

} // verus!
