//! Account records and the filter that selects an account's history.
use vstd::prelude::*;

pub mod balance;
pub mod filter;

pub use balance::Balance;
pub use filter::Filter;

verus! {

/// Option bits of an account.
#[derive(Clone, Copy, Debug, PartialEq, Eq, Structural)]
pub struct Flags(u16);

impl View for Flags {
    type V = u16;

    closed spec fn view(&self) -> u16 {
        self.0
    }
}

/// Bit values of the known flags.
impl Flags {
    pub const LINKED: u16 = 1;
    pub const DEBITS_MUST_NOT_EXCEED_CREDITS: u16 = 2;
    pub const CREDITS_MUST_NOT_EXCEED_DEBITS: u16 = 4;
    pub const HISTORY: u16 = 8;
    pub const IMPORTED: u16 = 16;
    pub const CLOSED: u16 = 32;

    /// Flags made of the given bits, unknown bits included.
    pub fn from_bits_retain(bits: u16) -> (r: Flags)
        ensures
            r@ == bits,
    {
        Flags(bits)
    }

    pub fn bits(&self) -> (r: u16)
        ensures
            r == self@,
    {
        self.0
    }

    /// The union of two sets of flags.
    pub fn union(self, other: Flags) -> (r: Flags)
        ensures
            r@ == self@ | other@,
    {
        Flags(self.0 | other.0)
    }

    /// Whether every bit of `other` is set here.
    pub fn contains(&self, other: Flags) -> (r: bool)
        ensures
            r == (self@ & other@ == other@),
    {
        self.0 & other.0 == other.0
    }
}

/// The fields of an account record, in their wire order (reserved bytes are left out: they are always zero on the wire). The timestamp is in nanoseconds since the Unix epoch.
#[derive(Clone, Copy, Debug, PartialEq, Eq, Structural)]
pub struct Raw {
    pub id: u128,
    pub debits_pending: u128,
    pub debits_posted: u128,
    pub credits_pending: u128,
    pub credits_posted: u128,
    pub user_data_128: u128,
    pub user_data_64: u64,
    pub user_data_32: u32,
    pub ledger: u32,
    pub code: u16,
    pub flags: u16,
    pub timestamp: u64,
}

impl Raw {
    pub open spec fn spec_zeroed() -> Raw {
        Raw {
            id: 0,
            debits_pending: 0,
            debits_posted: 0,
            credits_pending: 0,
            credits_posted: 0,
            user_data_128: 0,
            user_data_64: 0,
            user_data_32: 0,
            ledger: 0,
            code: 0,
            flags: 0,
            timestamp: 0,
        }
    }

    /// The record with every field zero.
    pub fn zeroed() -> (r: Raw)
        ensures
            r == Raw::spec_zeroed(),
    {
        Raw {
            id: 0,
            debits_pending: 0,
            debits_posted: 0,
            credits_pending: 0,
            credits_posted: 0,
            user_data_128: 0,
            user_data_64: 0,
            user_data_32: 0,
            ledger: 0,
            code: 0,
            flags: 0,
            timestamp: 0,
        }
    }
}

/// A ledger account, as the service stores it.
#[derive(Clone, Copy, Debug)]
pub struct Account(Raw);

impl View for Account {
    type V = Raw;

    closed spec fn view(&self) -> Raw {
        self.0
    }
}

impl Account {
    /// An account with the given id, ledger and code, and every other field zero.
    pub fn new(id: u128, ledger: u32, code: u16) -> (r: Account)
        requires
            id != 0 && id != u128::MAX,
        ensures
            r@ == (Raw { id: id, ledger: ledger, code: code, ..Raw::spec_zeroed() }),
    {
        Account(Raw::zeroed()).with_id(id).with_ledger(ledger).with_code(code)
    }

    pub fn from_raw(raw: Raw) -> (r: Account)
        ensures
            r@ == raw,
    {
        Account(raw)
    }

    pub fn into_raw(self) -> (r: Raw)
        ensures
            r == self@,
    {
        self.0
    }

    pub fn as_raw(&self) -> (r: &Raw)
        ensures
            *r == self@,
    {
        &self.0
    }

    pub fn as_raw_mut(&mut self) -> (r: &mut Raw)
        ensures
            *r == old(self)@,
            final(self)@ == *final(r),
    {
        &mut self.0
    }

    pub fn id(&self) -> (r: u128)
        ensures
            r == self@.id,
    {
        self.0.id
    }

    pub fn set_id(&mut self, id: u128)
        requires
            id != 0 && id != u128::MAX,
        ensures
            final(self)@ == (Raw { id: id, ..old(self)@ }),
    {
        self.0.id = id;
    }

    pub fn with_id(self, id: u128) -> (r: Account)
        requires
            id != 0 && id != u128::MAX,
        ensures
            r@ == (Raw { id: id, ..self@ }),
    {
        let mut this = self;
        this.set_id(id);
        this
    }

    pub fn debits_pending(&self) -> (r: u128)
        ensures
            r == self@.debits_pending,
    {
        self.0.debits_pending
    }

    pub fn debits_posted(&self) -> (r: u128)
        ensures
            r == self@.debits_posted,
    {
        self.0.debits_posted
    }

    pub fn credits_pending(&self) -> (r: u128)
        ensures
            r == self@.credits_pending,
    {
        self.0.credits_pending
    }

    pub fn credits_posted(&self) -> (r: u128)
        ensures
            r == self@.credits_posted,
    {
        self.0.credits_posted
    }

    pub fn user_data_128(&self) -> (r: u128)
        ensures
            r == self@.user_data_128,
    {
        self.0.user_data_128
    }

    pub fn set_user_data_128(&mut self, user_data_128: u128)
        ensures
            final(self)@ == (Raw { user_data_128: user_data_128, ..old(self)@ }),
    {
        self.0.user_data_128 = user_data_128;
    }

    pub fn with_user_data_128(self, user_data_128: u128) -> (r: Account)
        ensures
            r@ == (Raw { user_data_128: user_data_128, ..self@ }),
    {
        let mut this = self;
        this.set_user_data_128(user_data_128);
        this
    }

    pub fn user_data_64(&self) -> (r: u64)
        ensures
            r == self@.user_data_64,
    {
        self.0.user_data_64
    }

    pub fn set_user_data_64(&mut self, user_data_64: u64)
        ensures
            final(self)@ == (Raw { user_data_64: user_data_64, ..old(self)@ }),
    {
        self.0.user_data_64 = user_data_64;
    }

    pub fn with_user_data_64(self, user_data_64: u64) -> (r: Account)
        ensures
            r@ == (Raw { user_data_64: user_data_64, ..self@ }),
    {
        let mut this = self;
        this.set_user_data_64(user_data_64);
        this
    }

    pub fn user_data_32(&self) -> (r: u32)
        ensures
            r == self@.user_data_32,
    {
        self.0.user_data_32
    }

    pub fn set_user_data_32(&mut self, user_data_32: u32)
        ensures
            final(self)@ == (Raw { user_data_32: user_data_32, ..old(self)@ }),
    {
        self.0.user_data_32 = user_data_32;
    }

    pub fn with_user_data_32(self, user_data_32: u32) -> (r: Account)
        ensures
            r@ == (Raw { user_data_32: user_data_32, ..self@ }),
    {
        let mut this = self;
        this.set_user_data_32(user_data_32);
        this
    }

    pub fn ledger(&self) -> (r: u32)
        ensures
            r == self@.ledger,
    {
        self.0.ledger
    }

    pub fn set_ledger(&mut self, ledger: u32)
        ensures
            final(self)@ == (Raw { ledger: ledger, ..old(self)@ }),
    {
        self.0.ledger = ledger;
    }

    pub fn with_ledger(self, ledger: u32) -> (r: Account)
        ensures
            r@ == (Raw { ledger: ledger, ..self@ }),
    {
        let mut this = self;
        this.set_ledger(ledger);
        this
    }

    pub fn code(&self) -> (r: u16)
        ensures
            r == self@.code,
    {
        self.0.code
    }

    pub fn set_code(&mut self, code: u16)
        ensures
            final(self)@ == (Raw { code: code, ..old(self)@ }),
    {
        self.0.code = code;
    }

    pub fn with_code(self, code: u16) -> (r: Account)
        ensures
            r@ == (Raw { code: code, ..self@ }),
    {
        let mut this = self;
        this.set_code(code);
        this
    }

    pub fn timestamp(&self) -> (r: u64)
        ensures
            r == self@.timestamp,
    {
        self.0.timestamp
    }

    pub fn flags(&self) -> (r: Flags)
        ensures
            r@ == self@.flags,
    {
        Flags::from_bits_retain(self.0.flags)
    }

    pub fn set_flags(&mut self, flags: Flags)
        ensures
            final(self)@ == (Raw { flags: flags@, ..old(self)@ }),
    {
        self.0.flags = flags.bits();
    }

    pub fn with_flags(self, flags: Flags) -> (r: Account)
        ensures
            r@ == (Raw { flags: flags@, ..self@ }),
    {
        let mut this = self;
        this.set_flags(flags);
        this
    }
}

} // verus!

