use tigerbeetle_client::account::Account;
use tigerbeetle_client::client::{
    address_length, complete, create_accounts_request, create_transfers_request,
    finish_accounts, finish_create_accounts, finish_transfers, init_result, lookup_request,
    request, Outcome, RequestContext,
};
use tigerbeetle_client::error::{CreateAccountErrorKind, CreateAccountsError, NewClientErrorKind, SendErrorKind};
use tigerbeetle_client::packet::{route, Operation, OperationKind, Packet, Submission, MESSAGE_BODY_SIZE_MAX};
use tigerbeetle_client::transfer::Transfer;
use tokio::sync::oneshot::Receiver;

fn lookup_op() -> Operation {
    Operation::from_kind(OperationKind::LookupTransfers).unwrap()
}

fn transfer_reply(id: u128) -> Vec<u8> {
    tigerbeetle_client::codec::encode_transfers(&[Transfer::new(id).with_amount(id * 10)])
}

#[test]
fn oversized_payload_completes_locally_with_too_much_data() {
    let (packet, mut rx) = request(vec![0u8; MESSAGE_BODY_SIZE_MAX + 1], lookup_op());
    let mut sent_bytes = 0usize;
    match route(packet) {
        Submission::Transmit(_, size) => sent_bytes += size as usize,
        Submission::Complete(p) => complete(p, None),
    }
    assert_eq!(sent_bytes, 0);
    let outcome = rx.try_recv().expect("one completion");
    let err = outcome.err().expect("an error");
    assert_eq!(err.kind(), SendErrorKind::TooMuchData);
}

#[test]
fn payload_at_the_limit_is_transmitted() {
    let (packet, _rx) = request(vec![7u8; MESSAGE_BODY_SIZE_MAX], lookup_op());
    match route(packet) {
        Submission::Transmit(p, size) => {
            assert_eq!(size as usize, MESSAGE_BODY_SIZE_MAX);
            assert_eq!(p.data().len(), MESSAGE_BODY_SIZE_MAX);
            assert!(p.status().is_ok());
        }
        Submission::Complete(_) => panic!("a payload that fits must be sent"),
    }
}

#[test]
fn cancelled_caller_does_not_break_completion() {
    let (packet, rx) = request(vec![1, 2, 3], lookup_op());
    drop(rx);
    let reply = transfer_reply(5);
    match route(packet) {
        Submission::Transmit(p, _) => complete(p, Some(&reply)),
        Submission::Complete(p) => complete(p, None),
    }
}

#[test]
fn out_of_order_completions_reach_their_own_callers() {
    let (first, mut rx_first) = lookup_request(&[1], OperationKind::LookupTransfers).unwrap();
    let (second, mut rx_second) = lookup_request(&[2], OperationKind::LookupTransfers).unwrap();
    let first = match route(first) {
        Submission::Transmit(p, _) => p,
        Submission::Complete(_) => panic!("small payload"),
    };
    let second = match route(second) {
        Submission::Transmit(p, _) => p,
        Submission::Complete(_) => panic!("small payload"),
    };
    // The foreign side answers the second request first.
    complete(second, Some(&transfer_reply(2)));
    assert!(rx_first.try_recv().is_err());
    complete(first, Some(&transfer_reply(1)));
    let got_second = finish_transfers(rx_second.try_recv().unwrap()).unwrap();
    let got_first = finish_transfers(rx_first.try_recv().unwrap()).unwrap();
    assert_eq!(got_first.len(), 1);
    assert_eq!(got_first[0].id(), 1);
    assert_eq!(got_first[0].amount(), 10);
    assert_eq!(got_second[0].id(), 2);
    assert_eq!(got_second[0].amount(), 20);
}

#[test]
fn every_submitted_packet_completes_exactly_once() {
    let n = 16usize;
    let mut receivers: Vec<Receiver<Outcome>> = Vec::new();
    let mut in_flight: Vec<(usize, Packet<RequestContext>)> = Vec::new();
    let mut local = 0usize;
    for i in 0..n {
        let size = if fastrand::bool() { MESSAGE_BODY_SIZE_MAX + 1 } else { fastrand::usize(0..64) };
        let (packet, rx) = request(vec![i as u8; size], lookup_op());
        receivers.push(rx);
        match route(packet) {
            Submission::Transmit(p, _) => in_flight.push((i, p)),
            Submission::Complete(p) => {
                local += 1;
                complete(p, None)
            }
        }
    }
    fastrand::shuffle(&mut in_flight);
    let foreign = in_flight.len();
    for (i, p) in in_flight {
        complete(p, Some(&transfer_reply(i as u128 + 1)));
    }
    assert_eq!(local + foreign, n);
    for (i, rx) in receivers.iter_mut().enumerate() {
        match rx.try_recv().expect("exactly one completion per packet") {
            Ok(reply) => {
                let transfers = reply.into_lookup_transfers();
                assert_eq!(transfers[0].id(), i as u128 + 1);
            }
            Err(e) => assert_eq!(e.kind(), SendErrorKind::TooMuchData),
        }
        // The channel is one-shot: nothing more can arrive.
        assert!(rx.try_recv().is_err());
    }
}

#[test]
fn address_too_long_is_invalid() {
    let err = address_length(u32::MAX as usize + 1).unwrap_err();
    assert_eq!(err.kind(), NewClientErrorKind::AddressInvalid);
    assert_eq!(address_length(4).unwrap(), 4);
    assert_eq!(address_length(u32::MAX as usize).unwrap(), u32::MAX);
}

#[test]
fn init_status_decodes() {
    assert!(init_result(0).is_ok());
    assert_eq!(init_result(4).unwrap_err().kind(), NewClientErrorKind::AddressLimitExceeded);
    assert_eq!(init_result(100).unwrap_err().kind(), NewClientErrorKind::UnstableUncategorized);
}

#[test]
fn empty_batches_need_no_round_trip() {
    assert!(create_accounts_request(&[]).is_none());
    assert!(create_transfers_request(&[]).is_none());
    assert!(lookup_request(&[], OperationKind::LookupAccounts).is_none());
}

#[test]
fn create_accounts_reports_refused_accounts() {
    let accounts = [Account::new(1, 777, 2), Account::new(2, 777, 2)];
    let (packet, mut rx) = create_accounts_request(&accounts).unwrap();
    assert_eq!(packet.data().len(), 256);
    assert_eq!(packet.operation().kind(), OperationKind::CreateAccounts);
    let mut reply = Vec::new();
    reply.extend_from_slice(&1u32.to_le_bytes());
    reply.extend_from_slice(&21u32.to_le_bytes());
    complete(packet, Some(&reply));
    match finish_create_accounts(rx.try_recv().unwrap()) {
        Err(CreateAccountsError::Api(api)) => {
            assert_eq!(api.as_slice().len(), 1);
            assert_eq!(api.as_slice()[0].index(), 1);
            assert_eq!(api.as_slice()[0].kind(), CreateAccountErrorKind::Exists);
        }
        _ => panic!("expected the refused account"),
    }
}

#[test]
fn create_accounts_all_created() {
    let accounts = [Account::new(1, 777, 2)];
    let (packet, mut rx) = create_accounts_request(&accounts).unwrap();
    complete(packet, Some(&[]));
    assert!(finish_create_accounts(rx.try_recv().unwrap()).is_ok());
}

#[test]
fn send_error_from_the_service_is_delivered() {
    let (mut packet, mut rx) = lookup_request(&[3], OperationKind::LookupAccounts).unwrap();
    packet.set_status(Err(tigerbeetle_client::error::SendError::from_code(5).unwrap()));
    complete(packet, Some(&[]));
    let err = finish_accounts(rx.try_recv().unwrap()).unwrap_err();
    assert_eq!(err.kind(), SendErrorKind::ClientShutdown);
}

#[test]
fn packet_context_is_replaceable_and_returned() {
    let mut packet = Packet::new(5u32, lookup_op());
    assert_eq!(*packet.user_data(), 5);
    *packet.user_data_mut() = 6;
    assert_eq!(packet.replace_user_data(7), 6);
    packet.set_operation(Operation::from_code(200));
    assert_eq!(packet.operation().code(), 200);
    assert_eq!(packet.into_user_data(), 7);
}
