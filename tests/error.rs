use tigerbeetle_client::error::{
    CreateAccountError, CreateAccountErrorKind, CreateAccountsApiError,
    CreateAccountsIndividualApiError, CreateTransferError, CreateTransferErrorKind,
    CreateTransfersApiError, CreateTransfersIndividualApiError, NewClientError,
    NewClientErrorKind, RawCreateAccountsIndividualApiResult,
    RawCreateTransfersIndividualApiResult, SendError, SendErrorKind,
};
use tigerbeetle_client::packet::{Operation, OperationKind};

#[test]
fn send_error_known_codes_decode_to_their_kind() {
    let expected = [
        (1u8, SendErrorKind::TooMuchData),
        (2, SendErrorKind::ClientEvicted),
        (3, SendErrorKind::ClientReleaseTooLow),
        (4, SendErrorKind::ClientReleaseTooHigh),
        (5, SendErrorKind::ClientShutdown),
        (6, SendErrorKind::InvalidOperation),
        (7, SendErrorKind::InvalidDataSize),
    ];
    for (code, kind) in expected {
        let e = SendError::from_code(code).unwrap();
        assert_eq!(e.kind(), kind);
        assert_eq!(e.code(), code);
    }
}

#[test]
fn send_error_unknown_codes_fall_back_and_keep_the_code() {
    for code in [8u8, 42, 255] {
        let e = SendError::from_code(code).unwrap();
        assert_eq!(e.kind(), SendErrorKind::UnstableUncategorized);
        assert_eq!(e.code(), code);
        assert_eq!(e.message(), "Unknown error status");
    }
}

#[test]
fn zero_is_success_not_an_error() {
    assert!(SendError::from_code(0).is_none());
    assert!(NewClientError::from_code(0).is_none());
    assert!(CreateAccountError::from_code(0).is_none());
    assert!(CreateTransferError::from_code(0).is_none());
}

#[test]
fn new_client_error_codes() {
    assert_eq!(NewClientError::from_code(3).unwrap().kind(), NewClientErrorKind::AddressInvalid);
    assert_eq!(NewClientError::from_code(6).unwrap().kind(), NewClientErrorKind::NetworkSubsystem);
    assert_eq!(NewClientError::from_code(1).unwrap().kind(), NewClientErrorKind::Unexpected);
    let unknown = NewClientError::from_code(7).unwrap();
    assert_eq!(unknown.kind(), NewClientErrorKind::UnstableUncategorized);
    assert_eq!(unknown.code(), 7);
    assert_eq!(
        NewClientError::from_code(3).unwrap().message(),
        "Replica addresses format is invalid"
    );
}

#[test]
fn create_account_error_codes() {
    let e = CreateAccountError::from_code(21).unwrap();
    assert_eq!(e.kind(), CreateAccountErrorKind::Exists);
    let e = CreateAccountError::from_code(26).unwrap();
    assert_eq!(e.kind(), CreateAccountErrorKind::ImportedEventTimestampMustNotRegress);
    let e = CreateAccountError::from_code(27).unwrap();
    assert_eq!(e.kind(), CreateAccountErrorKind::UnstableUncategorized);
    assert_eq!(e.code(), 27);
}

#[test]
fn create_transfer_error_reserved_code_falls_back() {
    let e = CreateTransferError::from_code(18).unwrap();
    assert_eq!(e.kind(), CreateTransferErrorKind::UnstableUncategorized);
    assert_eq!(e.code(), 18);
    assert_eq!(
        CreateTransferError::from_code(17).unwrap().kind(),
        CreateTransferErrorKind::TimeoutReservedForPendingTransfer
    );
    assert_eq!(
        CreateTransferError::from_code(19).unwrap().kind(),
        CreateTransferErrorKind::LedgerMustNotBeZero
    );
    assert_eq!(
        CreateTransferError::from_code(68).unwrap().kind(),
        CreateTransferErrorKind::IdAlreadyFailed
    );
    assert_eq!(
        CreateTransferError::from_code(69).unwrap().kind(),
        CreateTransferErrorKind::UnstableUncategorized
    );
}

#[test]
fn every_known_code_round_trips() {
    for code in 1u32..=6 {
        let kind = NewClientError::from_code(code).unwrap().kind();
        assert_eq!(NewClientError::from_kind(kind).unwrap().code(), code);
    }
    for code in 1u8..=7 {
        let kind = SendError::from_code(code).unwrap().kind();
        assert_eq!(SendError::from_kind(kind).unwrap().code(), code);
    }
    for code in 1u32..=26 {
        let kind = CreateAccountError::from_code(code).unwrap().kind();
        assert_ne!(kind, CreateAccountErrorKind::UnstableUncategorized);
        assert_eq!(CreateAccountError::from_kind(kind).unwrap().kind(), kind);
        assert_eq!(CreateAccountError::from_kind(kind).unwrap().code(), code);
    }
    for code in (1u32..=68).filter(|c| *c != 18) {
        let kind = CreateTransferError::from_code(code).unwrap().kind();
        assert_ne!(kind, CreateTransferErrorKind::UnstableUncategorized);
        assert_eq!(CreateTransferError::from_kind(kind).unwrap().kind(), kind);
        assert_eq!(CreateTransferError::from_kind(kind).unwrap().code(), code);
    }
}

#[test]
fn fallback_kind_cannot_be_constructed() {
    assert!(NewClientError::from_kind(NewClientErrorKind::UnstableUncategorized).is_none());
    assert!(SendError::from_kind(SendErrorKind::UnstableUncategorized).is_none());
    assert!(CreateAccountError::from_kind(CreateAccountErrorKind::UnstableUncategorized).is_none());
    assert!(CreateTransferError::from_kind(CreateTransferErrorKind::UnstableUncategorized).is_none());
    assert!(Operation::from_kind(OperationKind::UnstableUncategorized).is_none());
}

#[test]
fn operation_codes() {
    let op = Operation::from_kind(OperationKind::CreateAccounts).unwrap();
    assert_eq!(op.code(), 129);
    assert_eq!(Operation::from_code(136).kind(), OperationKind::QueryTransfers);
    assert_eq!(Operation::from_code(127).kind(), OperationKind::UnstableUncategorized);
    assert_eq!(Operation::from_code(137).kind(), OperationKind::UnstableUncategorized);
    assert_eq!(Operation::from_code(137).code(), 137);
}

#[test]
fn kind_names() {
    assert_eq!(
        CreateTransferErrorKind::ExceedsCredits.into_snake_case_str(),
        Some("exceeds_credits")
    );
    assert_eq!(SendErrorKind::UnstableUncategorized.into_snake_case_str(), None);
}

#[test]
fn individual_errors_keep_failures_only() {
    let raw = vec![
        RawCreateAccountsIndividualApiResult { index: 0, result: 0 },
        RawCreateAccountsIndividualApiResult { index: 1, result: 21 },
        RawCreateAccountsIndividualApiResult { index: 2, result: 0 },
        RawCreateAccountsIndividualApiResult { index: 3, result: 99 },
    ];
    let errors = CreateAccountsIndividualApiError::vec_from_raw_results(raw.clone());
    assert_eq!(errors.len(), 2);
    assert_eq!(errors[0].index(), 1);
    assert_eq!(errors[0].kind(), CreateAccountErrorKind::Exists);
    assert_eq!(errors[1].index(), 3);
    assert_eq!(errors[1].kind(), CreateAccountErrorKind::UnstableUncategorized);
    assert_eq!(errors[1].inner().code(), 99);
    let api = CreateAccountsApiError::from_raw_results(raw).unwrap();
    assert_eq!(api.as_slice().len(), 2);
    assert!(CreateAccountsIndividualApiError::from_raw_result(
        RawCreateAccountsIndividualApiResult { index: 5, result: 0 }
    )
    .is_none());
}

#[test]
fn api_error_is_never_empty() {
    assert!(CreateAccountsApiError::from_errors(Vec::new()).is_none());
    assert!(CreateTransfersApiError::from_errors(Vec::new()).is_none());
    let all_ok = vec![
        RawCreateTransfersIndividualApiResult { index: 0, result: 0 },
        RawCreateTransfersIndividualApiResult { index: 1, result: 0 },
    ];
    assert!(CreateTransfersApiError::from_raw_results(all_ok).is_none());
    let one = CreateTransfersIndividualApiError::from_raw_result(
        RawCreateTransfersIndividualApiResult { index: 4, result: 54 },
    )
    .unwrap();
    assert_eq!(one.kind(), CreateTransferErrorKind::ExceedsCredits);
    let api = CreateTransfersApiError::from_errors(vec![one]).unwrap();
    assert_eq!(api.as_slice()[0].index(), 4);
}
