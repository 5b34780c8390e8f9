//! Error kinds decoded from the wire protocol's numeric status codes.
//!
//! Each code family has a contiguous documented range, possibly with a
//! reserved hole. A code inside the range and outside the hole decodes to the
//! named kind whose canonical code it is; any other code decodes to the
//! `UnstableUncategorized` kind, and the error value still carries the code.
//! Zero means success in every family and is never an error.
use vstd::prelude::*;

verus! {

/// Lowest documented client construction status code.
pub const MIN_NEW_CLIENT_ERROR_CODE: u32 = 1;

/// Highest documented client construction status code.
pub const MAX_NEW_CLIENT_ERROR_CODE: u32 = 6;

/// Lowest documented submission status code.
pub const MIN_SEND_ERROR_CODE: u8 = 1;

/// Highest documented submission status code.
pub const MAX_SEND_ERROR_CODE: u8 = 7;

/// Lowest documented account creation result code.
pub const MIN_CREATE_ACCOUNT_ERROR_CODE: u32 = 1;

/// Highest documented account creation result code.
pub const MAX_CREATE_ACCOUNT_ERROR_CODE: u32 = 26;

/// Lowest documented transfer creation result code.
pub const MIN_CREATE_TRANSFER_ERROR_CODE: u32 = 1;

/// Highest documented transfer creation result code.
pub const MAX_CREATE_TRANSFER_ERROR_CODE: u32 = 68;

/// The one code inside the transfer creation range that names no kind: it
/// was retired from the protocol and is reserved.
pub const RESERVED_CREATE_TRANSFER_ERROR_CODE: u32 = 18;

/// Why a client could not be created.
#[derive(Clone, Copy, Debug, PartialEq, Eq, Structural)]
#[non_exhaustive]
pub enum NewClientErrorKind {
    Unexpected,
    OutOfMemory,
    AddressInvalid,
    AddressLimitExceeded,
    SystemResources,
    NetworkSubsystem,
    /// A code that this version of the client does not know.
    UnstableUncategorized,
}

impl NewClientErrorKind {
    /// Canonical code of a known kind; the fallback kind has none (zero).
    pub open spec fn spec_code(self) -> u32 {
        match self {
            NewClientErrorKind::Unexpected => 1,
            NewClientErrorKind::OutOfMemory => 2,
            NewClientErrorKind::AddressInvalid => 3,
            NewClientErrorKind::AddressLimitExceeded => 4,
            NewClientErrorKind::SystemResources => 5,
            NewClientErrorKind::NetworkSubsystem => 6,
            NewClientErrorKind::UnstableUncategorized => 0,
        }
    }

    /// The kind that a raw code decodes to.
    pub open spec fn spec_decode(code: u32) -> NewClientErrorKind {
        match code {
            1 => NewClientErrorKind::Unexpected,
            2 => NewClientErrorKind::OutOfMemory,
            3 => NewClientErrorKind::AddressInvalid,
            4 => NewClientErrorKind::AddressLimitExceeded,
            5 => NewClientErrorKind::SystemResources,
            6 => NewClientErrorKind::NetworkSubsystem,
            _ => NewClientErrorKind::UnstableUncategorized,
        }
    }

    pub(crate) fn code(self) -> (r: u32)
        ensures
            r == self.spec_code(),
    {
        match self {
            NewClientErrorKind::Unexpected => 1,
            NewClientErrorKind::OutOfMemory => 2,
            NewClientErrorKind::AddressInvalid => 3,
            NewClientErrorKind::AddressLimitExceeded => 4,
            NewClientErrorKind::SystemResources => 5,
            NewClientErrorKind::NetworkSubsystem => 6,
            NewClientErrorKind::UnstableUncategorized => 0,
        }
    }

    pub(crate) fn decode(code: u32) -> (r: NewClientErrorKind)
        ensures
            r == Self::spec_decode(code),
    {
        match code {
            1 => NewClientErrorKind::Unexpected,
            2 => NewClientErrorKind::OutOfMemory,
            3 => NewClientErrorKind::AddressInvalid,
            4 => NewClientErrorKind::AddressLimitExceeded,
            5 => NewClientErrorKind::SystemResources,
            6 => NewClientErrorKind::NetworkSubsystem,
            _ => NewClientErrorKind::UnstableUncategorized,
        }
    }

    /// The kind's name in snake case; the fallback kind gives `None`.
    pub fn into_snake_case_str(self) -> (r: Option<&'static str>)
        ensures
            r is None <==> self == NewClientErrorKind::UnstableUncategorized,
    {
        match self {
            NewClientErrorKind::Unexpected => Some("unexpected"),
            NewClientErrorKind::OutOfMemory => Some("out_of_memory"),
            NewClientErrorKind::AddressInvalid => Some("address_invalid"),
            NewClientErrorKind::AddressLimitExceeded => Some("address_limit_exceeded"),
            NewClientErrorKind::SystemResources => Some("system_resources"),
            NewClientErrorKind::NetworkSubsystem => Some("network_subsystem"),
            NewClientErrorKind::UnstableUncategorized => None,
        }
    }
}

/// A failed client construction, carrying its non-zero raw status code.
#[derive(Clone, Copy, Debug)]
pub struct NewClientError(u32);

impl View for NewClientError {
    type V = u32;

    closed spec fn view(&self) -> u32 {
        self.0
    }
}

impl NewClientError {
    #[verifier::type_invariant]
    spec fn inv(self) -> bool {
        self.0 != 0
    }

    /// The error for a raw code; zero means success and gives `None`.
    pub fn from_code(code: u32) -> (r: Option<NewClientError>)
        ensures
            code == 0 <==> r is None,
            r matches Some(e) ==> e@ == code,
    {
        if code == 0 {
            None
        } else {
            Some(NewClientError(code))
        }
    }

    /// The error for a known kind. The fallback kind has no canonical code,
    /// so it is refused with `None`.
    pub fn from_kind(kind: NewClientErrorKind) -> (r: Option<NewClientError>)
        ensures
            kind == NewClientErrorKind::UnstableUncategorized <==> r is None,
            r matches Some(e) ==> e@ == kind.spec_code(),
    {
        let code = kind.code();
        if code == 0 {
            None
        } else {
            Some(NewClientError(code))
        }
    }

    pub fn kind(self) -> (r: NewClientErrorKind)
        ensures
            r == NewClientErrorKind::spec_decode(self@),
    {
        NewClientErrorKind::decode(self.0)
    }

    pub fn code(self) -> (r: u32)
        ensures
            r == self@,
            r != 0,
    {
        proof {
            use_type_invariant(&self);
        }
        self.0
    }
}


impl NewClientError {
    /// A sentence that says what went wrong; the fallback kind gets a
    /// generic one, to be shown with the code.
    pub fn message(&self) -> (r: &'static str)
        ensures
            r@ == (match NewClientErrorKind::spec_decode(self@) {
                NewClientErrorKind::AddressInvalid => "Replica addresses format is invalid"@,
                NewClientErrorKind::AddressLimitExceeded => "Replica addresses limit exceeded"@,
                NewClientErrorKind::NetworkSubsystem => "Internal client had unexpected networking issues"@,
                NewClientErrorKind::OutOfMemory => "Internal client ran out of memory"@,
                NewClientErrorKind::SystemResources => "Internal client ran out of system resources"@,
                NewClientErrorKind::Unexpected => "Unexpected internal error"@,
                NewClientErrorKind::UnstableUncategorized => "Unknown error status"@,
            }),
    {
        match self.kind() {
            NewClientErrorKind::AddressInvalid => "Replica addresses format is invalid",
            NewClientErrorKind::AddressLimitExceeded => "Replica addresses limit exceeded",
            NewClientErrorKind::NetworkSubsystem => "Internal client had unexpected networking issues",
            NewClientErrorKind::OutOfMemory => "Internal client ran out of memory",
            NewClientErrorKind::SystemResources => "Internal client ran out of system resources",
            NewClientErrorKind::Unexpected => "Unexpected internal error",
            NewClientErrorKind::UnstableUncategorized => "Unknown error status",
        }
    }
}

/// Why a packet could not be submitted or was not answered.
#[derive(Clone, Copy, Debug, PartialEq, Eq, Structural)]
#[non_exhaustive]
pub enum SendErrorKind {
    TooMuchData,
    ClientEvicted,
    ClientReleaseTooLow,
    ClientReleaseTooHigh,
    ClientShutdown,
    InvalidOperation,
    InvalidDataSize,
    /// A code that this version of the client does not know.
    UnstableUncategorized,
}

impl SendErrorKind {
    /// Canonical code of a known kind; the fallback kind has none (zero).
    pub open spec fn spec_code(self) -> u8 {
        match self {
            SendErrorKind::TooMuchData => 1,
            SendErrorKind::ClientEvicted => 2,
            SendErrorKind::ClientReleaseTooLow => 3,
            SendErrorKind::ClientReleaseTooHigh => 4,
            SendErrorKind::ClientShutdown => 5,
            SendErrorKind::InvalidOperation => 6,
            SendErrorKind::InvalidDataSize => 7,
            SendErrorKind::UnstableUncategorized => 0,
        }
    }

    /// The kind that a raw code decodes to.
    pub open spec fn spec_decode(code: u8) -> SendErrorKind {
        match code {
            1 => SendErrorKind::TooMuchData,
            2 => SendErrorKind::ClientEvicted,
            3 => SendErrorKind::ClientReleaseTooLow,
            4 => SendErrorKind::ClientReleaseTooHigh,
            5 => SendErrorKind::ClientShutdown,
            6 => SendErrorKind::InvalidOperation,
            7 => SendErrorKind::InvalidDataSize,
            _ => SendErrorKind::UnstableUncategorized,
        }
    }

    pub(crate) fn code(self) -> (r: u8)
        ensures
            r == self.spec_code(),
    {
        match self {
            SendErrorKind::TooMuchData => 1,
            SendErrorKind::ClientEvicted => 2,
            SendErrorKind::ClientReleaseTooLow => 3,
            SendErrorKind::ClientReleaseTooHigh => 4,
            SendErrorKind::ClientShutdown => 5,
            SendErrorKind::InvalidOperation => 6,
            SendErrorKind::InvalidDataSize => 7,
            SendErrorKind::UnstableUncategorized => 0,
        }
    }

    pub(crate) fn decode(code: u8) -> (r: SendErrorKind)
        ensures
            r == Self::spec_decode(code),
    {
        match code {
            1 => SendErrorKind::TooMuchData,
            2 => SendErrorKind::ClientEvicted,
            3 => SendErrorKind::ClientReleaseTooLow,
            4 => SendErrorKind::ClientReleaseTooHigh,
            5 => SendErrorKind::ClientShutdown,
            6 => SendErrorKind::InvalidOperation,
            7 => SendErrorKind::InvalidDataSize,
            _ => SendErrorKind::UnstableUncategorized,
        }
    }

    /// The kind's name in snake case; the fallback kind gives `None`.
    pub fn into_snake_case_str(self) -> (r: Option<&'static str>)
        ensures
            r is None <==> self == SendErrorKind::UnstableUncategorized,
    {
        match self {
            SendErrorKind::TooMuchData => Some("too_much_data"),
            SendErrorKind::ClientEvicted => Some("client_evicted"),
            SendErrorKind::ClientReleaseTooLow => Some("client_release_too_low"),
            SendErrorKind::ClientReleaseTooHigh => Some("client_release_too_high"),
            SendErrorKind::ClientShutdown => Some("client_shutdown"),
            SendErrorKind::InvalidOperation => Some("invalid_operation"),
            SendErrorKind::InvalidDataSize => Some("invalid_data_size"),
            SendErrorKind::UnstableUncategorized => None,
        }
    }
}

/// A failed submission, carrying its non-zero raw status code.
#[derive(Clone, Copy, Debug)]
pub struct SendError(u8);

impl View for SendError {
    type V = u8;

    closed spec fn view(&self) -> u8 {
        self.0
    }
}

impl SendError {
    #[verifier::type_invariant]
    spec fn inv(self) -> bool {
        self.0 != 0
    }

    /// The error for a raw code; zero means success and gives `None`.
    pub fn from_code(code: u8) -> (r: Option<SendError>)
        ensures
            code == 0 <==> r is None,
            r matches Some(e) ==> e@ == code,
    {
        if code == 0 {
            None
        } else {
            Some(SendError(code))
        }
    }

    /// The error for a known kind. The fallback kind has no canonical code,
    /// so it is refused with `None`.
    pub fn from_kind(kind: SendErrorKind) -> (r: Option<SendError>)
        ensures
            kind == SendErrorKind::UnstableUncategorized <==> r is None,
            r matches Some(e) ==> e@ == kind.spec_code(),
    {
        let code = kind.code();
        if code == 0 {
            None
        } else {
            Some(SendError(code))
        }
    }

    pub fn kind(self) -> (r: SendErrorKind)
        ensures
            r == SendErrorKind::spec_decode(self@),
    {
        SendErrorKind::decode(self.0)
    }

    pub fn code(self) -> (r: u8)
        ensures
            r == self@,
            r != 0,
    {
        proof {
            use_type_invariant(&self);
        }
        self.0
    }
}


impl SendError {
    /// A sentence that says what went wrong; the fallback kind gets a
    /// generic one, to be shown with the code.
    pub fn message(&self) -> (r: &'static str)
        ensures
            r@ == (match SendErrorKind::spec_decode(self@) {
                SendErrorKind::TooMuchData => "Too much data provided on this batch"@,
                SendErrorKind::InvalidOperation => "Invalid operation"@,
                SendErrorKind::InvalidDataSize => "Invalid data size"@,
                SendErrorKind::ClientEvicted => "Client was evicted"@,
                SendErrorKind::ClientReleaseTooLow => "Client was evicted: release too old"@,
                SendErrorKind::ClientReleaseTooHigh => "Client was evicted: release too new"@,
                SendErrorKind::ClientShutdown => "Client was closed"@,
                SendErrorKind::UnstableUncategorized => "Unknown error status"@,
            }),
    {
        match self.kind() {
            SendErrorKind::TooMuchData => "Too much data provided on this batch",
            SendErrorKind::InvalidOperation => "Invalid operation",
            SendErrorKind::InvalidDataSize => "Invalid data size",
            SendErrorKind::ClientEvicted => "Client was evicted",
            SendErrorKind::ClientReleaseTooLow => "Client was evicted: release too old",
            SendErrorKind::ClientReleaseTooHigh => "Client was evicted: release too new",
            SendErrorKind::ClientShutdown => "Client was closed",
            SendErrorKind::UnstableUncategorized => "Unknown error status",
        }
    }
}

/// Why the service refused to create one account.
#[derive(Clone, Copy, Debug, PartialEq, Eq, Structural)]
#[non_exhaustive]
pub enum CreateAccountErrorKind {
    LinkedEventFailed,
    LinkedEventChainOpen,
    TimestampMustBeZero,
    ReservedField,
    ReservedFlag,
    IdMustNotBeZero,
    IdMustNotBeIntMax,
    FlagsAreMutuallyExclusive,
    DebitsPendingMustBeZero,
    DebitsPostedMustBeZero,
    CreditsPendingMustBeZero,
    CreditsPostedMustBeZero,
    LedgerMustNotBeZero,
    CodeMustNotBeZero,
    ExistsWithDifferentFlags,
    ExistsWithDifferentUserData128,
    ExistsWithDifferentUserData64,
    ExistsWithDifferentUserData32,
    ExistsWithDifferentLedger,
    ExistsWithDifferentCode,
    Exists,
    ImportedEventExpected,
    ImportedEventNotExpected,
    ImportedEventTimestampOutOfRange,
    ImportedEventTimestampMustNotAdvance,
    ImportedEventTimestampMustNotRegress,
    /// A code that this version of the client does not know.
    UnstableUncategorized,
}

impl CreateAccountErrorKind {
    /// Canonical code of a known kind; the fallback kind has none (zero).
    pub open spec fn spec_code(self) -> u32 {
        match self {
            CreateAccountErrorKind::LinkedEventFailed => 1,
            CreateAccountErrorKind::LinkedEventChainOpen => 2,
            CreateAccountErrorKind::TimestampMustBeZero => 3,
            CreateAccountErrorKind::ReservedField => 4,
            CreateAccountErrorKind::ReservedFlag => 5,
            CreateAccountErrorKind::IdMustNotBeZero => 6,
            CreateAccountErrorKind::IdMustNotBeIntMax => 7,
            CreateAccountErrorKind::FlagsAreMutuallyExclusive => 8,
            CreateAccountErrorKind::DebitsPendingMustBeZero => 9,
            CreateAccountErrorKind::DebitsPostedMustBeZero => 10,
            CreateAccountErrorKind::CreditsPendingMustBeZero => 11,
            CreateAccountErrorKind::CreditsPostedMustBeZero => 12,
            CreateAccountErrorKind::LedgerMustNotBeZero => 13,
            CreateAccountErrorKind::CodeMustNotBeZero => 14,
            CreateAccountErrorKind::ExistsWithDifferentFlags => 15,
            CreateAccountErrorKind::ExistsWithDifferentUserData128 => 16,
            CreateAccountErrorKind::ExistsWithDifferentUserData64 => 17,
            CreateAccountErrorKind::ExistsWithDifferentUserData32 => 18,
            CreateAccountErrorKind::ExistsWithDifferentLedger => 19,
            CreateAccountErrorKind::ExistsWithDifferentCode => 20,
            CreateAccountErrorKind::Exists => 21,
            CreateAccountErrorKind::ImportedEventExpected => 22,
            CreateAccountErrorKind::ImportedEventNotExpected => 23,
            CreateAccountErrorKind::ImportedEventTimestampOutOfRange => 24,
            CreateAccountErrorKind::ImportedEventTimestampMustNotAdvance => 25,
            CreateAccountErrorKind::ImportedEventTimestampMustNotRegress => 26,
            CreateAccountErrorKind::UnstableUncategorized => 0,
        }
    }

    /// The kind that a raw code decodes to.
    pub open spec fn spec_decode(code: u32) -> CreateAccountErrorKind {
        match code {
            1 => CreateAccountErrorKind::LinkedEventFailed,
            2 => CreateAccountErrorKind::LinkedEventChainOpen,
            3 => CreateAccountErrorKind::TimestampMustBeZero,
            4 => CreateAccountErrorKind::ReservedField,
            5 => CreateAccountErrorKind::ReservedFlag,
            6 => CreateAccountErrorKind::IdMustNotBeZero,
            7 => CreateAccountErrorKind::IdMustNotBeIntMax,
            8 => CreateAccountErrorKind::FlagsAreMutuallyExclusive,
            9 => CreateAccountErrorKind::DebitsPendingMustBeZero,
            10 => CreateAccountErrorKind::DebitsPostedMustBeZero,
            11 => CreateAccountErrorKind::CreditsPendingMustBeZero,
            12 => CreateAccountErrorKind::CreditsPostedMustBeZero,
            13 => CreateAccountErrorKind::LedgerMustNotBeZero,
            14 => CreateAccountErrorKind::CodeMustNotBeZero,
            15 => CreateAccountErrorKind::ExistsWithDifferentFlags,
            16 => CreateAccountErrorKind::ExistsWithDifferentUserData128,
            17 => CreateAccountErrorKind::ExistsWithDifferentUserData64,
            18 => CreateAccountErrorKind::ExistsWithDifferentUserData32,
            19 => CreateAccountErrorKind::ExistsWithDifferentLedger,
            20 => CreateAccountErrorKind::ExistsWithDifferentCode,
            21 => CreateAccountErrorKind::Exists,
            22 => CreateAccountErrorKind::ImportedEventExpected,
            23 => CreateAccountErrorKind::ImportedEventNotExpected,
            24 => CreateAccountErrorKind::ImportedEventTimestampOutOfRange,
            25 => CreateAccountErrorKind::ImportedEventTimestampMustNotAdvance,
            26 => CreateAccountErrorKind::ImportedEventTimestampMustNotRegress,
            _ => CreateAccountErrorKind::UnstableUncategorized,
        }
    }

    pub(crate) fn code(self) -> (r: u32)
        ensures
            r == self.spec_code(),
    {
        match self {
            CreateAccountErrorKind::LinkedEventFailed => 1,
            CreateAccountErrorKind::LinkedEventChainOpen => 2,
            CreateAccountErrorKind::TimestampMustBeZero => 3,
            CreateAccountErrorKind::ReservedField => 4,
            CreateAccountErrorKind::ReservedFlag => 5,
            CreateAccountErrorKind::IdMustNotBeZero => 6,
            CreateAccountErrorKind::IdMustNotBeIntMax => 7,
            CreateAccountErrorKind::FlagsAreMutuallyExclusive => 8,
            CreateAccountErrorKind::DebitsPendingMustBeZero => 9,
            CreateAccountErrorKind::DebitsPostedMustBeZero => 10,
            CreateAccountErrorKind::CreditsPendingMustBeZero => 11,
            CreateAccountErrorKind::CreditsPostedMustBeZero => 12,
            CreateAccountErrorKind::LedgerMustNotBeZero => 13,
            CreateAccountErrorKind::CodeMustNotBeZero => 14,
            CreateAccountErrorKind::ExistsWithDifferentFlags => 15,
            CreateAccountErrorKind::ExistsWithDifferentUserData128 => 16,
            CreateAccountErrorKind::ExistsWithDifferentUserData64 => 17,
            CreateAccountErrorKind::ExistsWithDifferentUserData32 => 18,
            CreateAccountErrorKind::ExistsWithDifferentLedger => 19,
            CreateAccountErrorKind::ExistsWithDifferentCode => 20,
            CreateAccountErrorKind::Exists => 21,
            CreateAccountErrorKind::ImportedEventExpected => 22,
            CreateAccountErrorKind::ImportedEventNotExpected => 23,
            CreateAccountErrorKind::ImportedEventTimestampOutOfRange => 24,
            CreateAccountErrorKind::ImportedEventTimestampMustNotAdvance => 25,
            CreateAccountErrorKind::ImportedEventTimestampMustNotRegress => 26,
            CreateAccountErrorKind::UnstableUncategorized => 0,
        }
    }

    pub(crate) fn decode(code: u32) -> (r: CreateAccountErrorKind)
        ensures
            r == Self::spec_decode(code),
    {
        match code {
            1 => CreateAccountErrorKind::LinkedEventFailed,
            2 => CreateAccountErrorKind::LinkedEventChainOpen,
            3 => CreateAccountErrorKind::TimestampMustBeZero,
            4 => CreateAccountErrorKind::ReservedField,
            5 => CreateAccountErrorKind::ReservedFlag,
            6 => CreateAccountErrorKind::IdMustNotBeZero,
            7 => CreateAccountErrorKind::IdMustNotBeIntMax,
            8 => CreateAccountErrorKind::FlagsAreMutuallyExclusive,
            9 => CreateAccountErrorKind::DebitsPendingMustBeZero,
            10 => CreateAccountErrorKind::DebitsPostedMustBeZero,
            11 => CreateAccountErrorKind::CreditsPendingMustBeZero,
            12 => CreateAccountErrorKind::CreditsPostedMustBeZero,
            13 => CreateAccountErrorKind::LedgerMustNotBeZero,
            14 => CreateAccountErrorKind::CodeMustNotBeZero,
            15 => CreateAccountErrorKind::ExistsWithDifferentFlags,
            16 => CreateAccountErrorKind::ExistsWithDifferentUserData128,
            17 => CreateAccountErrorKind::ExistsWithDifferentUserData64,
            18 => CreateAccountErrorKind::ExistsWithDifferentUserData32,
            19 => CreateAccountErrorKind::ExistsWithDifferentLedger,
            20 => CreateAccountErrorKind::ExistsWithDifferentCode,
            21 => CreateAccountErrorKind::Exists,
            22 => CreateAccountErrorKind::ImportedEventExpected,
            23 => CreateAccountErrorKind::ImportedEventNotExpected,
            24 => CreateAccountErrorKind::ImportedEventTimestampOutOfRange,
            25 => CreateAccountErrorKind::ImportedEventTimestampMustNotAdvance,
            26 => CreateAccountErrorKind::ImportedEventTimestampMustNotRegress,
            _ => CreateAccountErrorKind::UnstableUncategorized,
        }
    }

    /// The kind's name in snake case; the fallback kind gives `None`.
    pub fn into_snake_case_str(self) -> (r: Option<&'static str>)
        ensures
            r is None <==> self == CreateAccountErrorKind::UnstableUncategorized,
    {
        match self {
            CreateAccountErrorKind::LinkedEventFailed => Some("linked_event_failed"),
            CreateAccountErrorKind::LinkedEventChainOpen => Some("linked_event_chain_open"),
            CreateAccountErrorKind::TimestampMustBeZero => Some("timestamp_must_be_zero"),
            CreateAccountErrorKind::ReservedField => Some("reserved_field"),
            CreateAccountErrorKind::ReservedFlag => Some("reserved_flag"),
            CreateAccountErrorKind::IdMustNotBeZero => Some("id_must_not_be_zero"),
            CreateAccountErrorKind::IdMustNotBeIntMax => Some("id_must_not_be_int_max"),
            CreateAccountErrorKind::FlagsAreMutuallyExclusive => Some("flags_are_mutually_exclusive"),
            CreateAccountErrorKind::DebitsPendingMustBeZero => Some("debits_pending_must_be_zero"),
            CreateAccountErrorKind::DebitsPostedMustBeZero => Some("debits_posted_must_be_zero"),
            CreateAccountErrorKind::CreditsPendingMustBeZero => Some("credits_pending_must_be_zero"),
            CreateAccountErrorKind::CreditsPostedMustBeZero => Some("credits_posted_must_be_zero"),
            CreateAccountErrorKind::LedgerMustNotBeZero => Some("ledger_must_not_be_zero"),
            CreateAccountErrorKind::CodeMustNotBeZero => Some("code_must_not_be_zero"),
            CreateAccountErrorKind::ExistsWithDifferentFlags => Some("exists_with_different_flags"),
            CreateAccountErrorKind::ExistsWithDifferentUserData128 => Some("exists_with_different_user_data128"),
            CreateAccountErrorKind::ExistsWithDifferentUserData64 => Some("exists_with_different_user_data64"),
            CreateAccountErrorKind::ExistsWithDifferentUserData32 => Some("exists_with_different_user_data32"),
            CreateAccountErrorKind::ExistsWithDifferentLedger => Some("exists_with_different_ledger"),
            CreateAccountErrorKind::ExistsWithDifferentCode => Some("exists_with_different_code"),
            CreateAccountErrorKind::Exists => Some("exists"),
            CreateAccountErrorKind::ImportedEventExpected => Some("imported_event_expected"),
            CreateAccountErrorKind::ImportedEventNotExpected => Some("imported_event_not_expected"),
            CreateAccountErrorKind::ImportedEventTimestampOutOfRange => Some("imported_event_timestamp_out_of_range"),
            CreateAccountErrorKind::ImportedEventTimestampMustNotAdvance => Some("imported_event_timestamp_must_not_advance"),
            CreateAccountErrorKind::ImportedEventTimestampMustNotRegress => Some("imported_event_timestamp_must_not_regress"),
            CreateAccountErrorKind::UnstableUncategorized => None,
        }
    }
}

/// A refused account, carrying its non-zero raw result code.
#[derive(Clone, Copy, Debug)]
pub struct CreateAccountError(u32);

impl View for CreateAccountError {
    type V = u32;

    closed spec fn view(&self) -> u32 {
        self.0
    }
}

impl CreateAccountError {
    #[verifier::type_invariant]
    spec fn inv(self) -> bool {
        self.0 != 0
    }

    /// The error for a raw code; zero means success and gives `None`.
    pub fn from_code(code: u32) -> (r: Option<CreateAccountError>)
        ensures
            code == 0 <==> r is None,
            r matches Some(e) ==> e@ == code,
    {
        if code == 0 {
            None
        } else {
            Some(CreateAccountError(code))
        }
    }

    /// The error for a known kind. The fallback kind has no canonical code,
    /// so it is refused with `None`.
    pub fn from_kind(kind: CreateAccountErrorKind) -> (r: Option<CreateAccountError>)
        ensures
            kind == CreateAccountErrorKind::UnstableUncategorized <==> r is None,
            r matches Some(e) ==> e@ == kind.spec_code(),
    {
        let code = kind.code();
        if code == 0 {
            None
        } else {
            Some(CreateAccountError(code))
        }
    }

    pub fn kind(self) -> (r: CreateAccountErrorKind)
        ensures
            r == CreateAccountErrorKind::spec_decode(self@),
    {
        CreateAccountErrorKind::decode(self.0)
    }

    pub fn code(self) -> (r: u32)
        ensures
            r == self@,
            r != 0,
    {
        proof {
            use_type_invariant(&self);
        }
        self.0
    }
}


/// Why the service refused to create one transfer.
#[derive(Clone, Copy, Debug, PartialEq, Eq, Structural)]
#[non_exhaustive]
pub enum CreateTransferErrorKind {
    LinkedEventFailed,
    LinkedEventChainOpen,
    TimestampMustBeZero,
    ReservedFlag,
    IdMustNotBeZero,
    IdMustNotBeIntMax,
    FlagsAreMutuallyExclusive,
    DebitAccountIdMustNotBeZero,
    DebitAccountIdMustNotBeIntMax,
    CreditAccountIdMustNotBeZero,
    CreditAccountIdMustNotBeIntMax,
    AccountsMustBeDifferent,
    PendingIdMustBeZero,
    PendingIdMustNotBeZero,
    PendingIdMustNotBeIntMax,
    PendingIdMustBeDifferent,
    TimeoutReservedForPendingTransfer,
    LedgerMustNotBeZero,
    CodeMustNotBeZero,
    DebitAccountNotFound,
    CreditAccountNotFound,
    AccountsMustHaveTheSameLedger,
    TransferMustHaveTheSameLedgerAsAccounts,
    PendingTransferNotFound,
    PendingTransferNotPending,
    PendingTransferHasDifferentDebitAccountId,
    PendingTransferHasDifferentCreditAccountId,
    PendingTransferHasDifferentLedger,
    PendingTransferHasDifferentCode,
    ExceedsPendingTransferAmount,
    PendingTransferHasDifferentAmount,
    PendingTransferAlreadyPosted,
    PendingTransferAlreadyVoided,
    PendingTransferExpired,
    ExistsWithDifferentFlags,
    ExistsWithDifferentDebitAccountId,
    ExistsWithDifferentCreditAccountId,
    ExistsWithDifferentAmount,
    ExistsWithDifferentPendingId,
    ExistsWithDifferentUserData128,
    ExistsWithDifferentUserData64,
    ExistsWithDifferentUserData32,
    ExistsWithDifferentTimeout,
    ExistsWithDifferentCode,
    Exists,
    OverflowsDebitsPending,
    OverflowsCreditsPending,
    OverflowsDebitsPosted,
    OverflowsCreditsPosted,
    OverflowsDebits,
    OverflowsCredits,
    OverflowsTimeout,
    ExceedsCredits,
    ExceedsDebits,
    ImportedEventExpected,
    ImportedEventNotExpected,
    ImportedEventTimestampOutOfRange,
    ImportedEventTimestampMustNotAdvance,
    ImportedEventTimestampMustNotRegress,
    ImportedEventTimestampMustPostdateDebitAccount,
    ImportedEventTimestampMustPostdateCreditAccount,
    ImportedEventTimeoutMustBeZero,
    ClosingTransferMustBePending,
    DebitAccountAlreadyClosed,
    CreditAccountAlreadyClosed,
    ExistsWithDifferentLedger,
    IdAlreadyFailed,
    /// A code that this version of the client does not know.
    UnstableUncategorized,
}

impl CreateTransferErrorKind {
    /// Canonical code of a known kind; the fallback kind has none (zero).
    pub open spec fn spec_code(self) -> u32 {
        match self {
            CreateTransferErrorKind::LinkedEventFailed => 1,
            CreateTransferErrorKind::LinkedEventChainOpen => 2,
            CreateTransferErrorKind::TimestampMustBeZero => 3,
            CreateTransferErrorKind::ReservedFlag => 4,
            CreateTransferErrorKind::IdMustNotBeZero => 5,
            CreateTransferErrorKind::IdMustNotBeIntMax => 6,
            CreateTransferErrorKind::FlagsAreMutuallyExclusive => 7,
            CreateTransferErrorKind::DebitAccountIdMustNotBeZero => 8,
            CreateTransferErrorKind::DebitAccountIdMustNotBeIntMax => 9,
            CreateTransferErrorKind::CreditAccountIdMustNotBeZero => 10,
            CreateTransferErrorKind::CreditAccountIdMustNotBeIntMax => 11,
            CreateTransferErrorKind::AccountsMustBeDifferent => 12,
            CreateTransferErrorKind::PendingIdMustBeZero => 13,
            CreateTransferErrorKind::PendingIdMustNotBeZero => 14,
            CreateTransferErrorKind::PendingIdMustNotBeIntMax => 15,
            CreateTransferErrorKind::PendingIdMustBeDifferent => 16,
            CreateTransferErrorKind::TimeoutReservedForPendingTransfer => 17,
            CreateTransferErrorKind::LedgerMustNotBeZero => 19,
            CreateTransferErrorKind::CodeMustNotBeZero => 20,
            CreateTransferErrorKind::DebitAccountNotFound => 21,
            CreateTransferErrorKind::CreditAccountNotFound => 22,
            CreateTransferErrorKind::AccountsMustHaveTheSameLedger => 23,
            CreateTransferErrorKind::TransferMustHaveTheSameLedgerAsAccounts => 24,
            CreateTransferErrorKind::PendingTransferNotFound => 25,
            CreateTransferErrorKind::PendingTransferNotPending => 26,
            CreateTransferErrorKind::PendingTransferHasDifferentDebitAccountId => 27,
            CreateTransferErrorKind::PendingTransferHasDifferentCreditAccountId => 28,
            CreateTransferErrorKind::PendingTransferHasDifferentLedger => 29,
            CreateTransferErrorKind::PendingTransferHasDifferentCode => 30,
            CreateTransferErrorKind::ExceedsPendingTransferAmount => 31,
            CreateTransferErrorKind::PendingTransferHasDifferentAmount => 32,
            CreateTransferErrorKind::PendingTransferAlreadyPosted => 33,
            CreateTransferErrorKind::PendingTransferAlreadyVoided => 34,
            CreateTransferErrorKind::PendingTransferExpired => 35,
            CreateTransferErrorKind::ExistsWithDifferentFlags => 36,
            CreateTransferErrorKind::ExistsWithDifferentDebitAccountId => 37,
            CreateTransferErrorKind::ExistsWithDifferentCreditAccountId => 38,
            CreateTransferErrorKind::ExistsWithDifferentAmount => 39,
            CreateTransferErrorKind::ExistsWithDifferentPendingId => 40,
            CreateTransferErrorKind::ExistsWithDifferentUserData128 => 41,
            CreateTransferErrorKind::ExistsWithDifferentUserData64 => 42,
            CreateTransferErrorKind::ExistsWithDifferentUserData32 => 43,
            CreateTransferErrorKind::ExistsWithDifferentTimeout => 44,
            CreateTransferErrorKind::ExistsWithDifferentCode => 45,
            CreateTransferErrorKind::Exists => 46,
            CreateTransferErrorKind::OverflowsDebitsPending => 47,
            CreateTransferErrorKind::OverflowsCreditsPending => 48,
            CreateTransferErrorKind::OverflowsDebitsPosted => 49,
            CreateTransferErrorKind::OverflowsCreditsPosted => 50,
            CreateTransferErrorKind::OverflowsDebits => 51,
            CreateTransferErrorKind::OverflowsCredits => 52,
            CreateTransferErrorKind::OverflowsTimeout => 53,
            CreateTransferErrorKind::ExceedsCredits => 54,
            CreateTransferErrorKind::ExceedsDebits => 55,
            CreateTransferErrorKind::ImportedEventExpected => 56,
            CreateTransferErrorKind::ImportedEventNotExpected => 57,
            CreateTransferErrorKind::ImportedEventTimestampOutOfRange => 58,
            CreateTransferErrorKind::ImportedEventTimestampMustNotAdvance => 59,
            CreateTransferErrorKind::ImportedEventTimestampMustNotRegress => 60,
            CreateTransferErrorKind::ImportedEventTimestampMustPostdateDebitAccount => 61,
            CreateTransferErrorKind::ImportedEventTimestampMustPostdateCreditAccount => 62,
            CreateTransferErrorKind::ImportedEventTimeoutMustBeZero => 63,
            CreateTransferErrorKind::ClosingTransferMustBePending => 64,
            CreateTransferErrorKind::DebitAccountAlreadyClosed => 65,
            CreateTransferErrorKind::CreditAccountAlreadyClosed => 66,
            CreateTransferErrorKind::ExistsWithDifferentLedger => 67,
            CreateTransferErrorKind::IdAlreadyFailed => 68,
            CreateTransferErrorKind::UnstableUncategorized => 0,
        }
    }

    /// The kind that a raw code decodes to.
    pub open spec fn spec_decode(code: u32) -> CreateTransferErrorKind {
        match code {
            1 => CreateTransferErrorKind::LinkedEventFailed,
            2 => CreateTransferErrorKind::LinkedEventChainOpen,
            3 => CreateTransferErrorKind::TimestampMustBeZero,
            4 => CreateTransferErrorKind::ReservedFlag,
            5 => CreateTransferErrorKind::IdMustNotBeZero,
            6 => CreateTransferErrorKind::IdMustNotBeIntMax,
            7 => CreateTransferErrorKind::FlagsAreMutuallyExclusive,
            8 => CreateTransferErrorKind::DebitAccountIdMustNotBeZero,
            9 => CreateTransferErrorKind::DebitAccountIdMustNotBeIntMax,
            10 => CreateTransferErrorKind::CreditAccountIdMustNotBeZero,
            11 => CreateTransferErrorKind::CreditAccountIdMustNotBeIntMax,
            12 => CreateTransferErrorKind::AccountsMustBeDifferent,
            13 => CreateTransferErrorKind::PendingIdMustBeZero,
            14 => CreateTransferErrorKind::PendingIdMustNotBeZero,
            15 => CreateTransferErrorKind::PendingIdMustNotBeIntMax,
            16 => CreateTransferErrorKind::PendingIdMustBeDifferent,
            17 => CreateTransferErrorKind::TimeoutReservedForPendingTransfer,
            19 => CreateTransferErrorKind::LedgerMustNotBeZero,
            20 => CreateTransferErrorKind::CodeMustNotBeZero,
            21 => CreateTransferErrorKind::DebitAccountNotFound,
            22 => CreateTransferErrorKind::CreditAccountNotFound,
            23 => CreateTransferErrorKind::AccountsMustHaveTheSameLedger,
            24 => CreateTransferErrorKind::TransferMustHaveTheSameLedgerAsAccounts,
            25 => CreateTransferErrorKind::PendingTransferNotFound,
            26 => CreateTransferErrorKind::PendingTransferNotPending,
            27 => CreateTransferErrorKind::PendingTransferHasDifferentDebitAccountId,
            28 => CreateTransferErrorKind::PendingTransferHasDifferentCreditAccountId,
            29 => CreateTransferErrorKind::PendingTransferHasDifferentLedger,
            30 => CreateTransferErrorKind::PendingTransferHasDifferentCode,
            31 => CreateTransferErrorKind::ExceedsPendingTransferAmount,
            32 => CreateTransferErrorKind::PendingTransferHasDifferentAmount,
            33 => CreateTransferErrorKind::PendingTransferAlreadyPosted,
            34 => CreateTransferErrorKind::PendingTransferAlreadyVoided,
            35 => CreateTransferErrorKind::PendingTransferExpired,
            36 => CreateTransferErrorKind::ExistsWithDifferentFlags,
            37 => CreateTransferErrorKind::ExistsWithDifferentDebitAccountId,
            38 => CreateTransferErrorKind::ExistsWithDifferentCreditAccountId,
            39 => CreateTransferErrorKind::ExistsWithDifferentAmount,
            40 => CreateTransferErrorKind::ExistsWithDifferentPendingId,
            41 => CreateTransferErrorKind::ExistsWithDifferentUserData128,
            42 => CreateTransferErrorKind::ExistsWithDifferentUserData64,
            43 => CreateTransferErrorKind::ExistsWithDifferentUserData32,
            44 => CreateTransferErrorKind::ExistsWithDifferentTimeout,
            45 => CreateTransferErrorKind::ExistsWithDifferentCode,
            46 => CreateTransferErrorKind::Exists,
            47 => CreateTransferErrorKind::OverflowsDebitsPending,
            48 => CreateTransferErrorKind::OverflowsCreditsPending,
            49 => CreateTransferErrorKind::OverflowsDebitsPosted,
            50 => CreateTransferErrorKind::OverflowsCreditsPosted,
            51 => CreateTransferErrorKind::OverflowsDebits,
            52 => CreateTransferErrorKind::OverflowsCredits,
            53 => CreateTransferErrorKind::OverflowsTimeout,
            54 => CreateTransferErrorKind::ExceedsCredits,
            55 => CreateTransferErrorKind::ExceedsDebits,
            56 => CreateTransferErrorKind::ImportedEventExpected,
            57 => CreateTransferErrorKind::ImportedEventNotExpected,
            58 => CreateTransferErrorKind::ImportedEventTimestampOutOfRange,
            59 => CreateTransferErrorKind::ImportedEventTimestampMustNotAdvance,
            60 => CreateTransferErrorKind::ImportedEventTimestampMustNotRegress,
            61 => CreateTransferErrorKind::ImportedEventTimestampMustPostdateDebitAccount,
            62 => CreateTransferErrorKind::ImportedEventTimestampMustPostdateCreditAccount,
            63 => CreateTransferErrorKind::ImportedEventTimeoutMustBeZero,
            64 => CreateTransferErrorKind::ClosingTransferMustBePending,
            65 => CreateTransferErrorKind::DebitAccountAlreadyClosed,
            66 => CreateTransferErrorKind::CreditAccountAlreadyClosed,
            67 => CreateTransferErrorKind::ExistsWithDifferentLedger,
            68 => CreateTransferErrorKind::IdAlreadyFailed,
            _ => CreateTransferErrorKind::UnstableUncategorized,
        }
    }

    pub(crate) fn code(self) -> (r: u32)
        ensures
            r == self.spec_code(),
    {
        match self {
            CreateTransferErrorKind::LinkedEventFailed => 1,
            CreateTransferErrorKind::LinkedEventChainOpen => 2,
            CreateTransferErrorKind::TimestampMustBeZero => 3,
            CreateTransferErrorKind::ReservedFlag => 4,
            CreateTransferErrorKind::IdMustNotBeZero => 5,
            CreateTransferErrorKind::IdMustNotBeIntMax => 6,
            CreateTransferErrorKind::FlagsAreMutuallyExclusive => 7,
            CreateTransferErrorKind::DebitAccountIdMustNotBeZero => 8,
            CreateTransferErrorKind::DebitAccountIdMustNotBeIntMax => 9,
            CreateTransferErrorKind::CreditAccountIdMustNotBeZero => 10,
            CreateTransferErrorKind::CreditAccountIdMustNotBeIntMax => 11,
            CreateTransferErrorKind::AccountsMustBeDifferent => 12,
            CreateTransferErrorKind::PendingIdMustBeZero => 13,
            CreateTransferErrorKind::PendingIdMustNotBeZero => 14,
            CreateTransferErrorKind::PendingIdMustNotBeIntMax => 15,
            CreateTransferErrorKind::PendingIdMustBeDifferent => 16,
            CreateTransferErrorKind::TimeoutReservedForPendingTransfer => 17,
            CreateTransferErrorKind::LedgerMustNotBeZero => 19,
            CreateTransferErrorKind::CodeMustNotBeZero => 20,
            CreateTransferErrorKind::DebitAccountNotFound => 21,
            CreateTransferErrorKind::CreditAccountNotFound => 22,
            CreateTransferErrorKind::AccountsMustHaveTheSameLedger => 23,
            CreateTransferErrorKind::TransferMustHaveTheSameLedgerAsAccounts => 24,
            CreateTransferErrorKind::PendingTransferNotFound => 25,
            CreateTransferErrorKind::PendingTransferNotPending => 26,
            CreateTransferErrorKind::PendingTransferHasDifferentDebitAccountId => 27,
            CreateTransferErrorKind::PendingTransferHasDifferentCreditAccountId => 28,
            CreateTransferErrorKind::PendingTransferHasDifferentLedger => 29,
            CreateTransferErrorKind::PendingTransferHasDifferentCode => 30,
            CreateTransferErrorKind::ExceedsPendingTransferAmount => 31,
            CreateTransferErrorKind::PendingTransferHasDifferentAmount => 32,
            CreateTransferErrorKind::PendingTransferAlreadyPosted => 33,
            CreateTransferErrorKind::PendingTransferAlreadyVoided => 34,
            CreateTransferErrorKind::PendingTransferExpired => 35,
            CreateTransferErrorKind::ExistsWithDifferentFlags => 36,
            CreateTransferErrorKind::ExistsWithDifferentDebitAccountId => 37,
            CreateTransferErrorKind::ExistsWithDifferentCreditAccountId => 38,
            CreateTransferErrorKind::ExistsWithDifferentAmount => 39,
            CreateTransferErrorKind::ExistsWithDifferentPendingId => 40,
            CreateTransferErrorKind::ExistsWithDifferentUserData128 => 41,
            CreateTransferErrorKind::ExistsWithDifferentUserData64 => 42,
            CreateTransferErrorKind::ExistsWithDifferentUserData32 => 43,
            CreateTransferErrorKind::ExistsWithDifferentTimeout => 44,
            CreateTransferErrorKind::ExistsWithDifferentCode => 45,
            CreateTransferErrorKind::Exists => 46,
            CreateTransferErrorKind::OverflowsDebitsPending => 47,
            CreateTransferErrorKind::OverflowsCreditsPending => 48,
            CreateTransferErrorKind::OverflowsDebitsPosted => 49,
            CreateTransferErrorKind::OverflowsCreditsPosted => 50,
            CreateTransferErrorKind::OverflowsDebits => 51,
            CreateTransferErrorKind::OverflowsCredits => 52,
            CreateTransferErrorKind::OverflowsTimeout => 53,
            CreateTransferErrorKind::ExceedsCredits => 54,
            CreateTransferErrorKind::ExceedsDebits => 55,
            CreateTransferErrorKind::ImportedEventExpected => 56,
            CreateTransferErrorKind::ImportedEventNotExpected => 57,
            CreateTransferErrorKind::ImportedEventTimestampOutOfRange => 58,
            CreateTransferErrorKind::ImportedEventTimestampMustNotAdvance => 59,
            CreateTransferErrorKind::ImportedEventTimestampMustNotRegress => 60,
            CreateTransferErrorKind::ImportedEventTimestampMustPostdateDebitAccount => 61,
            CreateTransferErrorKind::ImportedEventTimestampMustPostdateCreditAccount => 62,
            CreateTransferErrorKind::ImportedEventTimeoutMustBeZero => 63,
            CreateTransferErrorKind::ClosingTransferMustBePending => 64,
            CreateTransferErrorKind::DebitAccountAlreadyClosed => 65,
            CreateTransferErrorKind::CreditAccountAlreadyClosed => 66,
            CreateTransferErrorKind::ExistsWithDifferentLedger => 67,
            CreateTransferErrorKind::IdAlreadyFailed => 68,
            CreateTransferErrorKind::UnstableUncategorized => 0,
        }
    }

    pub(crate) fn decode(code: u32) -> (r: CreateTransferErrorKind)
        ensures
            r == Self::spec_decode(code),
    {
        match code {
            1 => CreateTransferErrorKind::LinkedEventFailed,
            2 => CreateTransferErrorKind::LinkedEventChainOpen,
            3 => CreateTransferErrorKind::TimestampMustBeZero,
            4 => CreateTransferErrorKind::ReservedFlag,
            5 => CreateTransferErrorKind::IdMustNotBeZero,
            6 => CreateTransferErrorKind::IdMustNotBeIntMax,
            7 => CreateTransferErrorKind::FlagsAreMutuallyExclusive,
            8 => CreateTransferErrorKind::DebitAccountIdMustNotBeZero,
            9 => CreateTransferErrorKind::DebitAccountIdMustNotBeIntMax,
            10 => CreateTransferErrorKind::CreditAccountIdMustNotBeZero,
            11 => CreateTransferErrorKind::CreditAccountIdMustNotBeIntMax,
            12 => CreateTransferErrorKind::AccountsMustBeDifferent,
            13 => CreateTransferErrorKind::PendingIdMustBeZero,
            14 => CreateTransferErrorKind::PendingIdMustNotBeZero,
            15 => CreateTransferErrorKind::PendingIdMustNotBeIntMax,
            16 => CreateTransferErrorKind::PendingIdMustBeDifferent,
            17 => CreateTransferErrorKind::TimeoutReservedForPendingTransfer,
            19 => CreateTransferErrorKind::LedgerMustNotBeZero,
            20 => CreateTransferErrorKind::CodeMustNotBeZero,
            21 => CreateTransferErrorKind::DebitAccountNotFound,
            22 => CreateTransferErrorKind::CreditAccountNotFound,
            23 => CreateTransferErrorKind::AccountsMustHaveTheSameLedger,
            24 => CreateTransferErrorKind::TransferMustHaveTheSameLedgerAsAccounts,
            25 => CreateTransferErrorKind::PendingTransferNotFound,
            26 => CreateTransferErrorKind::PendingTransferNotPending,
            27 => CreateTransferErrorKind::PendingTransferHasDifferentDebitAccountId,
            28 => CreateTransferErrorKind::PendingTransferHasDifferentCreditAccountId,
            29 => CreateTransferErrorKind::PendingTransferHasDifferentLedger,
            30 => CreateTransferErrorKind::PendingTransferHasDifferentCode,
            31 => CreateTransferErrorKind::ExceedsPendingTransferAmount,
            32 => CreateTransferErrorKind::PendingTransferHasDifferentAmount,
            33 => CreateTransferErrorKind::PendingTransferAlreadyPosted,
            34 => CreateTransferErrorKind::PendingTransferAlreadyVoided,
            35 => CreateTransferErrorKind::PendingTransferExpired,
            36 => CreateTransferErrorKind::ExistsWithDifferentFlags,
            37 => CreateTransferErrorKind::ExistsWithDifferentDebitAccountId,
            38 => CreateTransferErrorKind::ExistsWithDifferentCreditAccountId,
            39 => CreateTransferErrorKind::ExistsWithDifferentAmount,
            40 => CreateTransferErrorKind::ExistsWithDifferentPendingId,
            41 => CreateTransferErrorKind::ExistsWithDifferentUserData128,
            42 => CreateTransferErrorKind::ExistsWithDifferentUserData64,
            43 => CreateTransferErrorKind::ExistsWithDifferentUserData32,
            44 => CreateTransferErrorKind::ExistsWithDifferentTimeout,
            45 => CreateTransferErrorKind::ExistsWithDifferentCode,
            46 => CreateTransferErrorKind::Exists,
            47 => CreateTransferErrorKind::OverflowsDebitsPending,
            48 => CreateTransferErrorKind::OverflowsCreditsPending,
            49 => CreateTransferErrorKind::OverflowsDebitsPosted,
            50 => CreateTransferErrorKind::OverflowsCreditsPosted,
            51 => CreateTransferErrorKind::OverflowsDebits,
            52 => CreateTransferErrorKind::OverflowsCredits,
            53 => CreateTransferErrorKind::OverflowsTimeout,
            54 => CreateTransferErrorKind::ExceedsCredits,
            55 => CreateTransferErrorKind::ExceedsDebits,
            56 => CreateTransferErrorKind::ImportedEventExpected,
            57 => CreateTransferErrorKind::ImportedEventNotExpected,
            58 => CreateTransferErrorKind::ImportedEventTimestampOutOfRange,
            59 => CreateTransferErrorKind::ImportedEventTimestampMustNotAdvance,
            60 => CreateTransferErrorKind::ImportedEventTimestampMustNotRegress,
            61 => CreateTransferErrorKind::ImportedEventTimestampMustPostdateDebitAccount,
            62 => CreateTransferErrorKind::ImportedEventTimestampMustPostdateCreditAccount,
            63 => CreateTransferErrorKind::ImportedEventTimeoutMustBeZero,
            64 => CreateTransferErrorKind::ClosingTransferMustBePending,
            65 => CreateTransferErrorKind::DebitAccountAlreadyClosed,
            66 => CreateTransferErrorKind::CreditAccountAlreadyClosed,
            67 => CreateTransferErrorKind::ExistsWithDifferentLedger,
            68 => CreateTransferErrorKind::IdAlreadyFailed,
            _ => CreateTransferErrorKind::UnstableUncategorized,
        }
    }

    /// The kind's name in snake case; the fallback kind gives `None`.
    pub fn into_snake_case_str(self) -> (r: Option<&'static str>)
        ensures
            r is None <==> self == CreateTransferErrorKind::UnstableUncategorized,
    {
        match self {
            CreateTransferErrorKind::LinkedEventFailed => Some("linked_event_failed"),
            CreateTransferErrorKind::LinkedEventChainOpen => Some("linked_event_chain_open"),
            CreateTransferErrorKind::TimestampMustBeZero => Some("timestamp_must_be_zero"),
            CreateTransferErrorKind::ReservedFlag => Some("reserved_flag"),
            CreateTransferErrorKind::IdMustNotBeZero => Some("id_must_not_be_zero"),
            CreateTransferErrorKind::IdMustNotBeIntMax => Some("id_must_not_be_int_max"),
            CreateTransferErrorKind::FlagsAreMutuallyExclusive => Some("flags_are_mutually_exclusive"),
            CreateTransferErrorKind::DebitAccountIdMustNotBeZero => Some("debit_account_id_must_not_be_zero"),
            CreateTransferErrorKind::DebitAccountIdMustNotBeIntMax => Some("debit_account_id_must_not_be_int_max"),
            CreateTransferErrorKind::CreditAccountIdMustNotBeZero => Some("credit_account_id_must_not_be_zero"),
            CreateTransferErrorKind::CreditAccountIdMustNotBeIntMax => Some("credit_account_id_must_not_be_int_max"),
            CreateTransferErrorKind::AccountsMustBeDifferent => Some("accounts_must_be_different"),
            CreateTransferErrorKind::PendingIdMustBeZero => Some("pending_id_must_be_zero"),
            CreateTransferErrorKind::PendingIdMustNotBeZero => Some("pending_id_must_not_be_zero"),
            CreateTransferErrorKind::PendingIdMustNotBeIntMax => Some("pending_id_must_not_be_int_max"),
            CreateTransferErrorKind::PendingIdMustBeDifferent => Some("pending_id_must_be_different"),
            CreateTransferErrorKind::TimeoutReservedForPendingTransfer => Some("timeout_reserved_for_pending_transfer"),
            CreateTransferErrorKind::LedgerMustNotBeZero => Some("ledger_must_not_be_zero"),
            CreateTransferErrorKind::CodeMustNotBeZero => Some("code_must_not_be_zero"),
            CreateTransferErrorKind::DebitAccountNotFound => Some("debit_account_not_found"),
            CreateTransferErrorKind::CreditAccountNotFound => Some("credit_account_not_found"),
            CreateTransferErrorKind::AccountsMustHaveTheSameLedger => Some("accounts_must_have_the_same_ledger"),
            CreateTransferErrorKind::TransferMustHaveTheSameLedgerAsAccounts => Some("transfer_must_have_the_same_ledger_as_accounts"),
            CreateTransferErrorKind::PendingTransferNotFound => Some("pending_transfer_not_found"),
            CreateTransferErrorKind::PendingTransferNotPending => Some("pending_transfer_not_pending"),
            CreateTransferErrorKind::PendingTransferHasDifferentDebitAccountId => Some("pending_transfer_has_different_debit_account_id"),
            CreateTransferErrorKind::PendingTransferHasDifferentCreditAccountId => Some("pending_transfer_has_different_credit_account_id"),
            CreateTransferErrorKind::PendingTransferHasDifferentLedger => Some("pending_transfer_has_different_ledger"),
            CreateTransferErrorKind::PendingTransferHasDifferentCode => Some("pending_transfer_has_different_code"),
            CreateTransferErrorKind::ExceedsPendingTransferAmount => Some("exceeds_pending_transfer_amount"),
            CreateTransferErrorKind::PendingTransferHasDifferentAmount => Some("pending_transfer_has_different_amount"),
            CreateTransferErrorKind::PendingTransferAlreadyPosted => Some("pending_transfer_already_posted"),
            CreateTransferErrorKind::PendingTransferAlreadyVoided => Some("pending_transfer_already_voided"),
            CreateTransferErrorKind::PendingTransferExpired => Some("pending_transfer_expired"),
            CreateTransferErrorKind::ExistsWithDifferentFlags => Some("exists_with_different_flags"),
            CreateTransferErrorKind::ExistsWithDifferentDebitAccountId => Some("exists_with_different_debit_account_id"),
            CreateTransferErrorKind::ExistsWithDifferentCreditAccountId => Some("exists_with_different_credit_account_id"),
            CreateTransferErrorKind::ExistsWithDifferentAmount => Some("exists_with_different_amount"),
            CreateTransferErrorKind::ExistsWithDifferentPendingId => Some("exists_with_different_pending_id"),
            CreateTransferErrorKind::ExistsWithDifferentUserData128 => Some("exists_with_different_user_data128"),
            CreateTransferErrorKind::ExistsWithDifferentUserData64 => Some("exists_with_different_user_data64"),
            CreateTransferErrorKind::ExistsWithDifferentUserData32 => Some("exists_with_different_user_data32"),
            CreateTransferErrorKind::ExistsWithDifferentTimeout => Some("exists_with_different_timeout"),
            CreateTransferErrorKind::ExistsWithDifferentCode => Some("exists_with_different_code"),
            CreateTransferErrorKind::Exists => Some("exists"),
            CreateTransferErrorKind::OverflowsDebitsPending => Some("overflows_debits_pending"),
            CreateTransferErrorKind::OverflowsCreditsPending => Some("overflows_credits_pending"),
            CreateTransferErrorKind::OverflowsDebitsPosted => Some("overflows_debits_posted"),
            CreateTransferErrorKind::OverflowsCreditsPosted => Some("overflows_credits_posted"),
            CreateTransferErrorKind::OverflowsDebits => Some("overflows_debits"),
            CreateTransferErrorKind::OverflowsCredits => Some("overflows_credits"),
            CreateTransferErrorKind::OverflowsTimeout => Some("overflows_timeout"),
            CreateTransferErrorKind::ExceedsCredits => Some("exceeds_credits"),
            CreateTransferErrorKind::ExceedsDebits => Some("exceeds_debits"),
            CreateTransferErrorKind::ImportedEventExpected => Some("imported_event_expected"),
            CreateTransferErrorKind::ImportedEventNotExpected => Some("imported_event_not_expected"),
            CreateTransferErrorKind::ImportedEventTimestampOutOfRange => Some("imported_event_timestamp_out_of_range"),
            CreateTransferErrorKind::ImportedEventTimestampMustNotAdvance => Some("imported_event_timestamp_must_not_advance"),
            CreateTransferErrorKind::ImportedEventTimestampMustNotRegress => Some("imported_event_timestamp_must_not_regress"),
            CreateTransferErrorKind::ImportedEventTimestampMustPostdateDebitAccount => Some("imported_event_timestamp_must_postdate_debit_account"),
            CreateTransferErrorKind::ImportedEventTimestampMustPostdateCreditAccount => Some("imported_event_timestamp_must_postdate_credit_account"),
            CreateTransferErrorKind::ImportedEventTimeoutMustBeZero => Some("imported_event_timeout_must_be_zero"),
            CreateTransferErrorKind::ClosingTransferMustBePending => Some("closing_transfer_must_be_pending"),
            CreateTransferErrorKind::DebitAccountAlreadyClosed => Some("debit_account_already_closed"),
            CreateTransferErrorKind::CreditAccountAlreadyClosed => Some("credit_account_already_closed"),
            CreateTransferErrorKind::ExistsWithDifferentLedger => Some("exists_with_different_ledger"),
            CreateTransferErrorKind::IdAlreadyFailed => Some("id_already_failed"),
            CreateTransferErrorKind::UnstableUncategorized => None,
        }
    }
}

/// A refused transfer, carrying its non-zero raw result code.
#[derive(Clone, Copy, Debug)]
pub struct CreateTransferError(u32);

impl View for CreateTransferError {
    type V = u32;

    closed spec fn view(&self) -> u32 {
        self.0
    }
}

impl CreateTransferError {
    #[verifier::type_invariant]
    spec fn inv(self) -> bool {
        self.0 != 0
    }

    /// The error for a raw code; zero means success and gives `None`.
    pub fn from_code(code: u32) -> (r: Option<CreateTransferError>)
        ensures
            code == 0 <==> r is None,
            r matches Some(e) ==> e@ == code,
    {
        if code == 0 {
            None
        } else {
            Some(CreateTransferError(code))
        }
    }

    /// The error for a known kind. The fallback kind has no canonical code,
    /// so it is refused with `None`.
    pub fn from_kind(kind: CreateTransferErrorKind) -> (r: Option<CreateTransferError>)
        ensures
            kind == CreateTransferErrorKind::UnstableUncategorized <==> r is None,
            r matches Some(e) ==> e@ == kind.spec_code(),
    {
        let code = kind.code();
        if code == 0 {
            None
        } else {
            Some(CreateTransferError(code))
        }
    }

    pub fn kind(self) -> (r: CreateTransferErrorKind)
        ensures
            r == CreateTransferErrorKind::spec_decode(self@),
    {
        CreateTransferErrorKind::decode(self.0)
    }

    pub fn code(self) -> (r: u32)
        ensures
            r == self@,
            r != 0,
    {
        proof {
            use_type_invariant(&self);
        }
        self.0
    }
}


/// Every code inside the documented client construction status range decodes
/// to the named kind whose canonical code it is; every other code decodes to
/// the fallback kind.
pub proof fn lemma_new_client_error_kind_decode(code: u32)
    ensures
        MIN_NEW_CLIENT_ERROR_CODE <= code <= MAX_NEW_CLIENT_ERROR_CODE ==> {
            &&& NewClientErrorKind::spec_decode(code) != NewClientErrorKind::UnstableUncategorized
            &&& NewClientErrorKind::spec_decode(code).spec_code() == code
        },
        !(MIN_NEW_CLIENT_ERROR_CODE <= code <= MAX_NEW_CLIENT_ERROR_CODE) ==> NewClientErrorKind::spec_decode(code) == NewClientErrorKind::UnstableUncategorized,
{
}

/// Encoding a known client construction status kind to its canonical code and decoding that code
/// gives the same kind back.
pub proof fn lemma_new_client_error_kind_round_trip(kind: NewClientErrorKind)
    requires
        kind != NewClientErrorKind::UnstableUncategorized,
    ensures
        NewClientErrorKind::spec_decode(kind.spec_code()) == kind,
        MIN_NEW_CLIENT_ERROR_CODE <= kind.spec_code() <= MAX_NEW_CLIENT_ERROR_CODE,
{
}

/// Every code inside the documented submission status range decodes
/// to the named kind whose canonical code it is; every other code decodes to
/// the fallback kind.
pub proof fn lemma_send_error_kind_decode(code: u8)
    ensures
        MIN_SEND_ERROR_CODE <= code <= MAX_SEND_ERROR_CODE ==> {
            &&& SendErrorKind::spec_decode(code) != SendErrorKind::UnstableUncategorized
            &&& SendErrorKind::spec_decode(code).spec_code() == code
        },
        !(MIN_SEND_ERROR_CODE <= code <= MAX_SEND_ERROR_CODE) ==> SendErrorKind::spec_decode(code) == SendErrorKind::UnstableUncategorized,
{
}

/// Encoding a known submission status kind to its canonical code and decoding that code
/// gives the same kind back.
pub proof fn lemma_send_error_kind_round_trip(kind: SendErrorKind)
    requires
        kind != SendErrorKind::UnstableUncategorized,
    ensures
        SendErrorKind::spec_decode(kind.spec_code()) == kind,
        MIN_SEND_ERROR_CODE <= kind.spec_code() <= MAX_SEND_ERROR_CODE,
{
}

/// Every code inside the documented account creation result range decodes
/// to the named kind whose canonical code it is; every other code decodes to
/// the fallback kind.
pub proof fn lemma_create_account_error_kind_decode(code: u32)
    ensures
        MIN_CREATE_ACCOUNT_ERROR_CODE <= code <= MAX_CREATE_ACCOUNT_ERROR_CODE ==> {
            &&& CreateAccountErrorKind::spec_decode(code) != CreateAccountErrorKind::UnstableUncategorized
            &&& CreateAccountErrorKind::spec_decode(code).spec_code() == code
        },
        !(MIN_CREATE_ACCOUNT_ERROR_CODE <= code <= MAX_CREATE_ACCOUNT_ERROR_CODE) ==> CreateAccountErrorKind::spec_decode(code) == CreateAccountErrorKind::UnstableUncategorized,
{
}

/// Encoding a known account creation result kind to its canonical code and decoding that code
/// gives the same kind back.
pub proof fn lemma_create_account_error_kind_round_trip(kind: CreateAccountErrorKind)
    requires
        kind != CreateAccountErrorKind::UnstableUncategorized,
    ensures
        CreateAccountErrorKind::spec_decode(kind.spec_code()) == kind,
        MIN_CREATE_ACCOUNT_ERROR_CODE <= kind.spec_code() <= MAX_CREATE_ACCOUNT_ERROR_CODE,
{
}

/// Every code inside the documented transfer creation result range and outside its reserved hole decodes
/// to the named kind whose canonical code it is; every other code decodes to
/// the fallback kind.
pub proof fn lemma_create_transfer_error_kind_decode(code: u32)
    ensures
        MIN_CREATE_TRANSFER_ERROR_CODE <= code <= MAX_CREATE_TRANSFER_ERROR_CODE && code != RESERVED_CREATE_TRANSFER_ERROR_CODE ==> {
            &&& CreateTransferErrorKind::spec_decode(code) != CreateTransferErrorKind::UnstableUncategorized
            &&& CreateTransferErrorKind::spec_decode(code).spec_code() == code
        },
        !(MIN_CREATE_TRANSFER_ERROR_CODE <= code <= MAX_CREATE_TRANSFER_ERROR_CODE && code != RESERVED_CREATE_TRANSFER_ERROR_CODE) ==> CreateTransferErrorKind::spec_decode(code) == CreateTransferErrorKind::UnstableUncategorized,
{
}

/// Encoding a known transfer creation result kind to its canonical code and decoding that code
/// gives the same kind back.
pub proof fn lemma_create_transfer_error_kind_round_trip(kind: CreateTransferErrorKind)
    requires
        kind != CreateTransferErrorKind::UnstableUncategorized,
    ensures
        CreateTransferErrorKind::spec_decode(kind.spec_code()) == kind,
        MIN_CREATE_TRANSFER_ERROR_CODE <= kind.spec_code() <= MAX_CREATE_TRANSFER_ERROR_CODE && kind.spec_code() != RESERVED_CREATE_TRANSFER_ERROR_CODE,
{
}

/// One entry of the service's reply to a batch that creates accounts: the
/// position of the account in the batch and its result code (zero: created).
#[derive(Clone, Copy, Debug, PartialEq, Eq, Structural)]
pub struct RawCreateAccountsIndividualApiResult {
    pub index: u32,
    pub result: u32,
}

/// The entries of a reply that report a failure, in reply order.
pub open spec fn account_failures(s: Seq<RawCreateAccountsIndividualApiResult>) -> Seq<RawCreateAccountsIndividualApiResult>
    decreases s.len(),
{
    if s.len() == 0 {
        Seq::empty()
    } else {
        let rest = account_failures(s.drop_last());
        if s.last().result != 0 {
            rest.push(s.last())
        } else {
            rest
        }
    }
}

/// The raw entries behind a sequence of individual errors.
pub open spec fn account_error_entries(s: Seq<CreateAccountsIndividualApiError>) -> Seq<RawCreateAccountsIndividualApiResult> {
    s.map_values(|e: CreateAccountsIndividualApiError| e@)
}

/// A account of a batch that the service refused, with its position.
#[derive(Clone, Copy, Debug)]
pub struct CreateAccountsIndividualApiError(RawCreateAccountsIndividualApiResult);

impl View for CreateAccountsIndividualApiError {
    type V = RawCreateAccountsIndividualApiResult;

    closed spec fn view(&self) -> RawCreateAccountsIndividualApiResult {
        self.0
    }
}

impl CreateAccountsIndividualApiError {
    #[verifier::type_invariant]
    spec fn inv(self) -> bool {
        self.0.result != 0
    }

    /// The error that a raw entry reports; an entry with result zero reports
    /// none.
    pub fn from_raw_result(raw: RawCreateAccountsIndividualApiResult) -> (r: Option<CreateAccountsIndividualApiError>)
        ensures
            raw.result == 0 <==> r is None,
            r matches Some(e) ==> e@ == raw,
    {
        if raw.result != 0 {
            Some(CreateAccountsIndividualApiError(raw))
        } else {
            None
        }
    }

    /// The errors among raw entries: the entries with a non-zero result, in
    /// their order.
    pub fn vec_from_raw_results(v: Vec<RawCreateAccountsIndividualApiResult>) -> (r: Vec<CreateAccountsIndividualApiError>)
        ensures
            account_error_entries(r@) == account_failures(v@),
    {
        let mut out: Vec<CreateAccountsIndividualApiError> = Vec::new();
        let mut i: usize = 0;
        while i < v.len()
            invariant
                i <= v@.len(),
                account_error_entries(out@) == account_failures(v@.take(i as int)),
            decreases v@.len() - i,
        {
            let raw = v[i];
            proof {
                assert(v@.take(i as int + 1).drop_last() =~= v@.take(i as int));
                assert(v@.take(i as int + 1).last() == raw);
            }
            if raw.result != 0 {
                let ghost before = out@;
                out.push(CreateAccountsIndividualApiError(raw));
                proof {
                    assert(account_error_entries(out@) =~= account_error_entries(before).push(raw));
                }
            }
            i = i + 1;
        }
        proof {
            assert(v@.take(v@.len() as int) =~= v@);
        }
        out
    }

    /// Position of the refused account in its batch.
    pub fn index(&self) -> (r: u32)
        ensures
            r == self@.index,
    {
        self.0.index
    }

    /// The error without its position.
    pub fn inner(&self) -> (r: CreateAccountError)
        ensures
            r@ == self@.result,
    {
        proof {
            use_type_invariant(self);
        }
        CreateAccountError(self.0.result)
    }

    /// The kind of the error.
    pub fn kind(&self) -> (r: CreateAccountErrorKind)
        ensures
            r == CreateAccountErrorKind::spec_decode(self@.result),
    {
        self.inner().kind()
    }
}

/// The refusals of one batch of accounts; never empty.
#[derive(Debug)]
pub struct CreateAccountsApiError(Vec<CreateAccountsIndividualApiError>);

impl View for CreateAccountsApiError {
    type V = Seq<CreateAccountsIndividualApiError>;

    closed spec fn view(&self) -> Seq<CreateAccountsIndividualApiError> {
        self.0@
    }
}

impl CreateAccountsApiError {
    #[verifier::type_invariant]
    spec fn inv(self) -> bool {
        self.0@.len() > 0
    }

    /// The individual errors; never empty.
    pub fn as_slice(&self) -> (r: &[CreateAccountsIndividualApiError])
        ensures
            r@ == self@,
            r@.len() > 0,
    {
        proof {
            use_type_invariant(self);
        }
        self.0.as_slice()
    }

    /// The error made of the given individual errors; `None` when there are
    /// none.
    pub fn from_errors(v: Vec<CreateAccountsIndividualApiError>) -> (r: Option<CreateAccountsApiError>)
        ensures
            v@.len() == 0 <==> r is None,
            r matches Some(e) ==> e@ == v@,
    {
        if v.len() > 0 {
            Some(CreateAccountsApiError(v))
        } else {
            None
        }
    }

    /// The error that a batch reply reports: its entries with a non-zero
    /// result, in order; `None` when every account was created.
    pub fn from_raw_results(v: Vec<RawCreateAccountsIndividualApiResult>) -> (r: Option<CreateAccountsApiError>)
        ensures
            account_failures(v@).len() == 0 <==> r is None,
            r matches Some(e) ==> account_error_entries(e@) == account_failures(v@),
    {
        let errors = CreateAccountsIndividualApiError::vec_from_raw_results(v);
        CreateAccountsApiError::from_errors(errors)
    }
}

/// Why a batch that creates accounts failed: the packet was not answered,
/// or the service refused some of the accounts.
#[derive(Debug)]
#[non_exhaustive]
pub enum CreateAccountsError {
    Send(SendError),
    Api(CreateAccountsApiError),
}

impl From<SendError> for CreateAccountsError {
    fn from(value: SendError) -> (r: CreateAccountsError) {
        CreateAccountsError::Send(value)
    }
}

impl vstd::std_specs::convert::FromSpecImpl<SendError> for CreateAccountsError {
    open spec fn obeys_from_spec() -> bool {
        true
    }

    open spec fn from_spec(v: SendError) -> CreateAccountsError {
        CreateAccountsError::Send(v)
    }
}

impl From<CreateAccountsApiError> for CreateAccountsError {
    fn from(value: CreateAccountsApiError) -> (r: CreateAccountsError) {
        CreateAccountsError::Api(value)
    }
}

impl vstd::std_specs::convert::FromSpecImpl<CreateAccountsApiError> for CreateAccountsError {
    open spec fn obeys_from_spec() -> bool {
        true
    }

    open spec fn from_spec(v: CreateAccountsApiError) -> CreateAccountsError {
        CreateAccountsError::Api(v)
    }
}

/// One entry of the service's reply to a batch that creates transfers: the
/// position of the transfer in the batch and its result code (zero: created).
#[derive(Clone, Copy, Debug, PartialEq, Eq, Structural)]
pub struct RawCreateTransfersIndividualApiResult {
    pub index: u32,
    pub result: u32,
}

/// The entries of a reply that report a failure, in reply order.
pub open spec fn transfer_failures(s: Seq<RawCreateTransfersIndividualApiResult>) -> Seq<RawCreateTransfersIndividualApiResult>
    decreases s.len(),
{
    if s.len() == 0 {
        Seq::empty()
    } else {
        let rest = transfer_failures(s.drop_last());
        if s.last().result != 0 {
            rest.push(s.last())
        } else {
            rest
        }
    }
}

/// The raw entries behind a sequence of individual errors.
pub open spec fn transfer_error_entries(s: Seq<CreateTransfersIndividualApiError>) -> Seq<RawCreateTransfersIndividualApiResult> {
    s.map_values(|e: CreateTransfersIndividualApiError| e@)
}

/// A transfer of a batch that the service refused, with its position.
#[derive(Clone, Copy, Debug)]
pub struct CreateTransfersIndividualApiError(RawCreateTransfersIndividualApiResult);

impl View for CreateTransfersIndividualApiError {
    type V = RawCreateTransfersIndividualApiResult;

    closed spec fn view(&self) -> RawCreateTransfersIndividualApiResult {
        self.0
    }
}

impl CreateTransfersIndividualApiError {
    #[verifier::type_invariant]
    spec fn inv(self) -> bool {
        self.0.result != 0
    }

    /// The error that a raw entry reports; an entry with result zero reports
    /// none.
    pub fn from_raw_result(raw: RawCreateTransfersIndividualApiResult) -> (r: Option<CreateTransfersIndividualApiError>)
        ensures
            raw.result == 0 <==> r is None,
            r matches Some(e) ==> e@ == raw,
    {
        if raw.result != 0 {
            Some(CreateTransfersIndividualApiError(raw))
        } else {
            None
        }
    }

    /// The errors among raw entries: the entries with a non-zero result, in
    /// their order.
    pub fn vec_from_raw_results(v: Vec<RawCreateTransfersIndividualApiResult>) -> (r: Vec<CreateTransfersIndividualApiError>)
        ensures
            transfer_error_entries(r@) == transfer_failures(v@),
    {
        let mut out: Vec<CreateTransfersIndividualApiError> = Vec::new();
        let mut i: usize = 0;
        while i < v.len()
            invariant
                i <= v@.len(),
                transfer_error_entries(out@) == transfer_failures(v@.take(i as int)),
            decreases v@.len() - i,
        {
            let raw = v[i];
            proof {
                assert(v@.take(i as int + 1).drop_last() =~= v@.take(i as int));
                assert(v@.take(i as int + 1).last() == raw);
            }
            if raw.result != 0 {
                let ghost before = out@;
                out.push(CreateTransfersIndividualApiError(raw));
                proof {
                    assert(transfer_error_entries(out@) =~= transfer_error_entries(before).push(raw));
                }
            }
            i = i + 1;
        }
        proof {
            assert(v@.take(v@.len() as int) =~= v@);
        }
        out
    }

    /// Position of the refused transfer in its batch.
    pub fn index(&self) -> (r: u32)
        ensures
            r == self@.index,
    {
        self.0.index
    }

    /// The error without its position.
    pub fn inner(&self) -> (r: CreateTransferError)
        ensures
            r@ == self@.result,
    {
        proof {
            use_type_invariant(self);
        }
        CreateTransferError(self.0.result)
    }

    /// The kind of the error.
    pub fn kind(&self) -> (r: CreateTransferErrorKind)
        ensures
            r == CreateTransferErrorKind::spec_decode(self@.result),
    {
        self.inner().kind()
    }
}

/// The refusals of one batch of transfers; never empty.
#[derive(Debug)]
pub struct CreateTransfersApiError(Vec<CreateTransfersIndividualApiError>);

impl View for CreateTransfersApiError {
    type V = Seq<CreateTransfersIndividualApiError>;

    closed spec fn view(&self) -> Seq<CreateTransfersIndividualApiError> {
        self.0@
    }
}

impl CreateTransfersApiError {
    #[verifier::type_invariant]
    spec fn inv(self) -> bool {
        self.0@.len() > 0
    }

    /// The individual errors; never empty.
    pub fn as_slice(&self) -> (r: &[CreateTransfersIndividualApiError])
        ensures
            r@ == self@,
            r@.len() > 0,
    {
        proof {
            use_type_invariant(self);
        }
        self.0.as_slice()
    }

    /// The error made of the given individual errors; `None` when there are
    /// none.
    pub fn from_errors(v: Vec<CreateTransfersIndividualApiError>) -> (r: Option<CreateTransfersApiError>)
        ensures
            v@.len() == 0 <==> r is None,
            r matches Some(e) ==> e@ == v@,
    {
        if v.len() > 0 {
            Some(CreateTransfersApiError(v))
        } else {
            None
        }
    }

    /// The error that a batch reply reports: its entries with a non-zero
    /// result, in order; `None` when every transfer was created.
    pub fn from_raw_results(v: Vec<RawCreateTransfersIndividualApiResult>) -> (r: Option<CreateTransfersApiError>)
        ensures
            transfer_failures(v@).len() == 0 <==> r is None,
            r matches Some(e) ==> transfer_error_entries(e@) == transfer_failures(v@),
    {
        let errors = CreateTransfersIndividualApiError::vec_from_raw_results(v);
        CreateTransfersApiError::from_errors(errors)
    }
}

/// Why a batch that creates transfers failed: the packet was not answered,
/// or the service refused some of the transfers.
#[derive(Debug)]
#[non_exhaustive]
pub enum CreateTransfersError {
    Send(SendError),
    Api(CreateTransfersApiError),
}

impl From<SendError> for CreateTransfersError {
    fn from(value: SendError) -> (r: CreateTransfersError) {
        CreateTransfersError::Send(value)
    }
}

impl vstd::std_specs::convert::FromSpecImpl<SendError> for CreateTransfersError {
    open spec fn obeys_from_spec() -> bool {
        true
    }

    open spec fn from_spec(v: SendError) -> CreateTransfersError {
        CreateTransfersError::Send(v)
    }
}

impl From<CreateTransfersApiError> for CreateTransfersError {
    fn from(value: CreateTransfersApiError) -> (r: CreateTransfersError) {
        CreateTransfersError::Api(value)
    }
}

impl vstd::std_specs::convert::FromSpecImpl<CreateTransfersApiError> for CreateTransfersError {
    open spec fn obeys_from_spec() -> bool {
        true
    }

    open spec fn from_spec(v: CreateTransfersApiError) -> CreateTransfersError {
        CreateTransfersError::Api(v)
    }
}

} // verus!
