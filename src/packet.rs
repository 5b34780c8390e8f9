//! Packets: the unit of one in-flight request, and the operations they carry.
use vstd::prelude::*;
use crate::error::{SendError, SendErrorKind};

verus! {

/// Lowest documented operation code.
pub const MIN_OPERATION_CODE: u8 = 128;

/// Highest documented operation code.
pub const MAX_OPERATION_CODE: u8 = 136;

/// Largest payload, in bytes, that one packet may carry: the protocol's
/// message size less its header.
pub const MESSAGE_BODY_SIZE_MAX: usize = 1048320;

/// The batch operation that a packet asks for.
#[derive(Clone, Copy, Debug, PartialEq, Eq, Structural)]
#[non_exhaustive]
pub enum OperationKind {
    Pulse,
    CreateAccounts,
    CreateTransfers,
    LookupAccounts,
    LookupTransfers,
    GetAccountTransfers,
    GetAccountBalances,
    QueryAccounts,
    QueryTransfers,
    /// A code that this version of the client does not know.
    UnstableUncategorized,
}

impl OperationKind {
    /// Canonical code of a known kind; the fallback kind has none (zero).
    pub open spec fn spec_code(self) -> u8 {
        match self {
            OperationKind::Pulse => 128,
            OperationKind::CreateAccounts => 129,
            OperationKind::CreateTransfers => 130,
            OperationKind::LookupAccounts => 131,
            OperationKind::LookupTransfers => 132,
            OperationKind::GetAccountTransfers => 133,
            OperationKind::GetAccountBalances => 134,
            OperationKind::QueryAccounts => 135,
            OperationKind::QueryTransfers => 136,
            OperationKind::UnstableUncategorized => 0,
        }
    }

    /// The kind that a raw code decodes to.
    pub open spec fn spec_decode(code: u8) -> OperationKind {
        match code {
            128 => OperationKind::Pulse,
            129 => OperationKind::CreateAccounts,
            130 => OperationKind::CreateTransfers,
            131 => OperationKind::LookupAccounts,
            132 => OperationKind::LookupTransfers,
            133 => OperationKind::GetAccountTransfers,
            134 => OperationKind::GetAccountBalances,
            135 => OperationKind::QueryAccounts,
            136 => OperationKind::QueryTransfers,
            _ => OperationKind::UnstableUncategorized,
        }
    }

    pub(crate) fn code(self) -> (r: u8)
        ensures
            r == self.spec_code(),
    {
        match self {
            OperationKind::Pulse => 128,
            OperationKind::CreateAccounts => 129,
            OperationKind::CreateTransfers => 130,
            OperationKind::LookupAccounts => 131,
            OperationKind::LookupTransfers => 132,
            OperationKind::GetAccountTransfers => 133,
            OperationKind::GetAccountBalances => 134,
            OperationKind::QueryAccounts => 135,
            OperationKind::QueryTransfers => 136,
            OperationKind::UnstableUncategorized => 0,
        }
    }

    pub(crate) fn decode(code: u8) -> (r: OperationKind)
        ensures
            r == Self::spec_decode(code),
    {
        match code {
            128 => OperationKind::Pulse,
            129 => OperationKind::CreateAccounts,
            130 => OperationKind::CreateTransfers,
            131 => OperationKind::LookupAccounts,
            132 => OperationKind::LookupTransfers,
            133 => OperationKind::GetAccountTransfers,
            134 => OperationKind::GetAccountBalances,
            135 => OperationKind::QueryAccounts,
            136 => OperationKind::QueryTransfers,
            _ => OperationKind::UnstableUncategorized,
        }
    }

    /// The kind's name in snake case; the fallback kind gives `None`.
    pub fn into_snake_case_str(self) -> (r: Option<&'static str>)
        ensures
            r is None <==> self == OperationKind::UnstableUncategorized,
    {
        match self {
            OperationKind::Pulse => Some("pulse"),
            OperationKind::CreateAccounts => Some("create_accounts"),
            OperationKind::CreateTransfers => Some("create_transfers"),
            OperationKind::LookupAccounts => Some("lookup_accounts"),
            OperationKind::LookupTransfers => Some("lookup_transfers"),
            OperationKind::GetAccountTransfers => Some("get_account_transfers"),
            OperationKind::GetAccountBalances => Some("get_account_balances"),
            OperationKind::QueryAccounts => Some("query_accounts"),
            OperationKind::QueryTransfers => Some("query_transfers"),
            OperationKind::UnstableUncategorized => None,
        }
    }
}

/// A raw operation code. Codes outside the known range are kept as they are
/// and decode to the fallback kind.
#[derive(Clone, Copy, Debug, PartialEq, Eq, Structural)]
pub struct Operation(u8);

impl View for Operation {
    type V = u8;

    closed spec fn view(&self) -> u8 {
        self.0
    }
}

impl Operation {
    /// The operation of a known kind. The fallback kind has no code, so it is
    /// refused with `None`.
    pub fn from_kind(kind: OperationKind) -> (r: Option<Operation>)
        ensures
            kind == OperationKind::UnstableUncategorized <==> r is None,
            r matches Some(op) ==> op@ == kind.spec_code(),
    {
        let code = kind.code();
        if code == 0 {
            None
        } else {
            Some(Operation(code))
        }
    }

    /// The operation with the given raw code, known or not.
    pub fn from_code(code: u8) -> (r: Operation)
        ensures
            r@ == code,
    {
        Operation(code)
    }

    pub fn kind(self) -> (r: OperationKind)
        ensures
            r == OperationKind::spec_decode(self@),
    {
        OperationKind::decode(self.0)
    }

    pub fn code(self) -> (r: u8)
        ensures
            r == self@,
    {
        self.0
    }
}

/// Every code inside the documented operation range decodes
/// to the named kind whose canonical code it is; every other code decodes to
/// the fallback kind.
pub proof fn lemma_operation_kind_decode(code: u8)
    ensures
        MIN_OPERATION_CODE <= code <= MAX_OPERATION_CODE ==> {
            &&& OperationKind::spec_decode(code) != OperationKind::UnstableUncategorized
            &&& OperationKind::spec_decode(code).spec_code() == code
        },
        !(MIN_OPERATION_CODE <= code <= MAX_OPERATION_CODE) ==> OperationKind::spec_decode(code) == OperationKind::UnstableUncategorized,
{
}

/// Encoding a known operation kind to its canonical code and decoding that code
/// gives the same kind back.
pub proof fn lemma_operation_kind_round_trip(kind: OperationKind)
    requires
        kind != OperationKind::UnstableUncategorized,
    ensures
        OperationKind::spec_decode(kind.spec_code()) == kind,
        MIN_OPERATION_CODE <= kind.spec_code() <= MAX_OPERATION_CODE,
{
}

/// What a packet's context hands over to be sent.
pub trait UserData {
    /// The bytes to send.
    spec fn spec_data(&self) -> Seq<u8>;

    /// Borrow the bytes to send.
    fn data(&self) -> (r: &[u8])
        ensures
            r@ == self.spec_data(),
    ;
}

/// One request: an operation, the caller's context that owns the payload,
/// and a status (zero until the request fails).
///
/// A packet is moved, never copied: it is either handed to the service, or
/// completed locally, or dropped before submission, and its context goes
/// with it.
pub struct Packet<U> {
    user_data: U,
    operation: Operation,
    status: u8,
}

impl<U> Packet<U> {
    pub closed spec fn spec_user_data(&self) -> U {
        self.user_data
    }

    pub closed spec fn spec_operation(&self) -> Operation {
        self.operation
    }

    /// The raw status code: zero for success.
    pub closed spec fn spec_status(&self) -> u8 {
        self.status
    }

    /// A packet for `operation` that owns `user_data`, with status success.
    pub fn new(user_data: U, operation: Operation) -> (r: Packet<U>)
        ensures
            r.spec_user_data() == user_data,
            r.spec_operation() == operation,
            r.spec_status() == 0,
    {
        Packet { user_data, operation, status: 0 }
    }

    /// Gives the context back, consuming the packet.
    pub fn into_user_data(self) -> (r: U)
        ensures
            r == self.spec_user_data(),
    {
        self.user_data
    }

    /// Puts a new context in place and gives back the old one.
    pub fn replace_user_data(&mut self, user_data: U) -> (r: U)
        ensures
            r == old(self).spec_user_data(),
            final(self).spec_user_data() == user_data,
            final(self).spec_operation() == old(self).spec_operation(),
            final(self).spec_status() == old(self).spec_status(),
    {
        let mut user_data = user_data;
        core::mem::swap(&mut self.user_data, &mut user_data);
        user_data
    }

    pub fn user_data(&self) -> (r: &U)
        ensures
            *r == self.spec_user_data(),
    {
        &self.user_data
    }

    pub fn user_data_mut(&mut self) -> (r: &mut U)
        ensures
            *r == old(self).spec_user_data(),
            final(self).spec_user_data() == *final(r),
            final(self).spec_operation() == old(self).spec_operation(),
            final(self).spec_status() == old(self).spec_status(),
    {
        &mut self.user_data
    }

    pub fn operation(&self) -> (r: Operation)
        ensures
            r == self.spec_operation(),
    {
        self.operation
    }

    pub fn set_operation(&mut self, operation: Operation)
        ensures
            final(self).spec_operation() == operation,
            final(self).spec_user_data() == old(self).spec_user_data(),
            final(self).spec_status() == old(self).spec_status(),
    {
        self.operation = operation;
    }

    /// `Ok` for status zero, else the error that carries the status code.
    pub fn status(&self) -> (r: Result<(), SendError>)
        ensures
            self.spec_status() == 0 <==> r is Ok,
            r matches Err(e) ==> e@ == self.spec_status(),
    {
        match SendError::from_code(self.status) {
            None => Ok(()),
            Some(e) => Err(e),
        }
    }

    /// Records the outcome: zero for `Ok`, else the error's code.
    pub fn set_status(&mut self, status: Result<(), SendError>)
        ensures
            final(self).spec_status() == (match status {
                Ok(()) => 0u8,
                Err(e) => e@,
            }),
            final(self).spec_user_data() == old(self).spec_user_data(),
            final(self).spec_operation() == old(self).spec_operation(),
    {
        self.status = match status {
            Ok(()) => 0,
            Err(e) => e.code(),
        };
    }
}

impl<U: UserData> Packet<U> {
    /// The bytes that the packet's context hands over to be sent.
    pub fn data(&self) -> (r: &[u8])
        ensures
            r@ == self.spec_user_data().spec_data(),
    {
        self.user_data.data()
    }
}

/// Where a packet goes when it is submitted.
pub enum Submission<U> {
    /// Hand the packet to the service, with the size of its payload.
    Transmit(Packet<U>, u32),
    /// Complete the packet here and now: its status says why it was not sent.
    Complete(Packet<U>),
}

/// Decides what happens to a submitted packet. A payload that fits in one
/// message is handed over; a larger one is never sent, and the packet is
/// completed at once with the "too much data" status, so that exactly one
/// completion follows either way.
pub fn route<U: UserData>(packet: Packet<U>) -> (r: Submission<U>)
    ensures
        match r {
            Submission::Transmit(p, size) => {
                &&& packet.spec_user_data().spec_data().len() <= MESSAGE_BODY_SIZE_MAX
                &&& p == packet
                &&& size == packet.spec_user_data().spec_data().len()
            },
            Submission::Complete(p) => {
                &&& packet.spec_user_data().spec_data().len() > MESSAGE_BODY_SIZE_MAX
                &&& p.spec_user_data() == packet.spec_user_data()
                &&& p.spec_operation() == packet.spec_operation()
                &&& p.spec_status() == SendErrorKind::TooMuchData.spec_code()
            },
        },
{
    let len = packet.data().len();
    if len <= MESSAGE_BODY_SIZE_MAX {
        Submission::Transmit(packet, len as u32)
    } else {
        let mut packet = packet;
        let too_much_data = SendError::from_kind(SendErrorKind::TooMuchData);
        match too_much_data {
            Some(e) => packet.set_status(Err(e)),
            None => {},
        }
        Submission::Complete(packet)
    }
}

} // verus!
