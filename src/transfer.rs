//! Transfer records.
use vstd::prelude::*;

verus! {

/// Option bits of a transfer.
#[derive(Clone, Copy, Debug, PartialEq, Eq, Structural)]
pub struct Flags(u16);

impl View for Flags {
    type V = u16;

    closed spec fn view(&self) -> u16 {
        self.0
    }
}

/// Bit values of the known flags.
impl Flags {
    pub const LINKED: u16 = 1;
    pub const PENDING: u16 = 2;
    pub const POST_PENDING_TRANSFER: u16 = 4;
    pub const VOID_PENDING_TRANSFER: u16 = 8;
    pub const BALANCING_DEBIT: u16 = 16;
    pub const BALANCING_CREDIT: u16 = 32;
    pub const CLOSING_DEBIT: u16 = 64;
    pub const CLOSING_CREDIT: u16 = 128;
    pub const IMPORTED: u16 = 256;

    /// Flags made of the given bits, unknown bits included.
    pub fn from_bits_retain(bits: u16) -> (r: Flags)
        ensures
            r@ == bits,
    {
        Flags(bits)
    }

    pub fn bits(&self) -> (r: u16)
        ensures
            r == self@,
    {
        self.0
    }

    /// The union of two sets of flags.
    pub fn union(self, other: Flags) -> (r: Flags)
        ensures
            r@ == self@ | other@,
    {
        Flags(self.0 | other.0)
    }

    /// Whether every bit of `other` is set here.
    pub fn contains(&self, other: Flags) -> (r: bool)
        ensures
            r == (self@ & other@ == other@),
    {
        self.0 & other.0 == other.0
    }
}

/// The fields of a transfer record, in their wire order. Flags are kept as their raw bits and the timestamp in nanoseconds since the Unix epoch.
#[derive(Clone, Copy, Debug, PartialEq, Eq, Structural)]
pub struct Raw {
    pub id: u128,
    pub debit_account_id: u128,
    pub credit_account_id: u128,
    pub amount: u128,
    pub pending_id: u128,
    pub user_data_128: u128,
    pub user_data_64: u64,
    pub user_data_32: u32,
    pub timeout: u32,
    pub ledger: u32,
    pub code: u16,
    pub flags: u16,
    pub timestamp: u64,
}

impl Raw {
    pub open spec fn spec_zeroed() -> Raw {
        Raw {
            id: 0,
            debit_account_id: 0,
            credit_account_id: 0,
            amount: 0,
            pending_id: 0,
            user_data_128: 0,
            user_data_64: 0,
            user_data_32: 0,
            timeout: 0,
            ledger: 0,
            code: 0,
            flags: 0,
            timestamp: 0,
        }
    }

    /// The record with every field zero.
    pub fn zeroed() -> (r: Raw)
        ensures
            r == Raw::spec_zeroed(),
    {
        Raw {
            id: 0,
            debit_account_id: 0,
            credit_account_id: 0,
            amount: 0,
            pending_id: 0,
            user_data_128: 0,
            user_data_64: 0,
            user_data_32: 0,
            timeout: 0,
            ledger: 0,
            code: 0,
            flags: 0,
            timestamp: 0,
        }
    }
}

/// A transfer between two accounts, as the service stores it.
#[derive(Clone, Copy, Debug)]
pub struct Transfer(Raw);

impl View for Transfer {
    type V = Raw;

    closed spec fn view(&self) -> Raw {
        self.0
    }
}

impl Transfer {
    /// A transfer with the given id and every other field zero.
    pub fn new(id: u128) -> (r: Transfer)
        requires
            id != 0 && id != u128::MAX,
        ensures
            r@ == (Raw { id: id, ..Raw::spec_zeroed() }),
    {
        Transfer(Raw::zeroed()).with_id(id)
    }

    pub fn from_raw(raw: Raw) -> (r: Transfer)
        ensures
            r@ == raw,
    {
        Transfer(raw)
    }

    pub fn into_raw(self) -> (r: Raw)
        ensures
            r == self@,
    {
        self.0
    }

    pub fn as_raw(&self) -> (r: &Raw)
        ensures
            *r == self@,
    {
        &self.0
    }

    pub fn as_raw_mut(&mut self) -> (r: &mut Raw)
        ensures
            *r == old(self)@,
            final(self)@ == *final(r),
    {
        &mut self.0
    }

    pub fn id(&self) -> (r: u128)
        ensures
            r == self@.id,
    {
        self.0.id
    }

    pub fn set_id(&mut self, id: u128)
        requires
            id != 0 && id != u128::MAX,
        ensures
            final(self)@ == (Raw { id: id, ..old(self)@ }),
    {
        self.0.id = id;
    }

    pub fn with_id(self, id: u128) -> (r: Transfer)
        requires
            id != 0 && id != u128::MAX,
        ensures
            r@ == (Raw { id: id, ..self@ }),
    {
        let mut this = self;
        this.set_id(id);
        this
    }

    pub fn debit_account_id(&self) -> (r: u128)
        ensures
            r == self@.debit_account_id,
    {
        self.0.debit_account_id
    }

    pub fn set_debit_account_id(&mut self, debit_account_id: u128)
        ensures
            final(self)@ == (Raw { debit_account_id: debit_account_id, ..old(self)@ }),
    {
        self.0.debit_account_id = debit_account_id;
    }

    pub fn with_debit_account_id(self, debit_account_id: u128) -> (r: Transfer)
        ensures
            r@ == (Raw { debit_account_id: debit_account_id, ..self@ }),
    {
        let mut this = self;
        this.set_debit_account_id(debit_account_id);
        this
    }

    pub fn credit_account_id(&self) -> (r: u128)
        ensures
            r == self@.credit_account_id,
    {
        self.0.credit_account_id
    }

    pub fn set_credit_account_id(&mut self, credit_account_id: u128)
        ensures
            final(self)@ == (Raw { credit_account_id: credit_account_id, ..old(self)@ }),
    {
        self.0.credit_account_id = credit_account_id;
    }

    pub fn with_credit_account_id(self, credit_account_id: u128) -> (r: Transfer)
        ensures
            r@ == (Raw { credit_account_id: credit_account_id, ..self@ }),
    {
        let mut this = self;
        this.set_credit_account_id(credit_account_id);
        this
    }

    pub fn user_data_128(&self) -> (r: u128)
        ensures
            r == self@.user_data_128,
    {
        self.0.user_data_128
    }

    pub fn set_user_data_128(&mut self, user_data_128: u128)
        ensures
            final(self)@ == (Raw { user_data_128: user_data_128, ..old(self)@ }),
    {
        self.0.user_data_128 = user_data_128;
    }

    pub fn with_user_data_128(self, user_data_128: u128) -> (r: Transfer)
        ensures
            r@ == (Raw { user_data_128: user_data_128, ..self@ }),
    {
        let mut this = self;
        this.set_user_data_128(user_data_128);
        this
    }

    pub fn user_data_64(&self) -> (r: u64)
        ensures
            r == self@.user_data_64,
    {
        self.0.user_data_64
    }

    pub fn set_user_data_64(&mut self, user_data_64: u64)
        ensures
            final(self)@ == (Raw { user_data_64: user_data_64, ..old(self)@ }),
    {
        self.0.user_data_64 = user_data_64;
    }

    pub fn with_user_data_64(self, user_data_64: u64) -> (r: Transfer)
        ensures
            r@ == (Raw { user_data_64: user_data_64, ..self@ }),
    {
        let mut this = self;
        this.set_user_data_64(user_data_64);
        this
    }

    pub fn user_data_32(&self) -> (r: u32)
        ensures
            r == self@.user_data_32,
    {
        self.0.user_data_32
    }

    pub fn set_user_data_32(&mut self, user_data_32: u32)
        ensures
            final(self)@ == (Raw { user_data_32: user_data_32, ..old(self)@ }),
    {
        self.0.user_data_32 = user_data_32;
    }

    pub fn with_user_data_32(self, user_data_32: u32) -> (r: Transfer)
        ensures
            r@ == (Raw { user_data_32: user_data_32, ..self@ }),
    {
        let mut this = self;
        this.set_user_data_32(user_data_32);
        this
    }

    pub fn ledger(&self) -> (r: u32)
        ensures
            r == self@.ledger,
    {
        self.0.ledger
    }

    pub fn set_ledger(&mut self, ledger: u32)
        ensures
            final(self)@ == (Raw { ledger: ledger, ..old(self)@ }),
    {
        self.0.ledger = ledger;
    }

    pub fn with_ledger(self, ledger: u32) -> (r: Transfer)
        ensures
            r@ == (Raw { ledger: ledger, ..self@ }),
    {
        let mut this = self;
        this.set_ledger(ledger);
        this
    }

    pub fn code(&self) -> (r: u16)
        ensures
            r == self@.code,
    {
        self.0.code
    }

    pub fn set_code(&mut self, code: u16)
        ensures
            final(self)@ == (Raw { code: code, ..old(self)@ }),
    {
        self.0.code = code;
    }

    pub fn with_code(self, code: u16) -> (r: Transfer)
        ensures
            r@ == (Raw { code: code, ..self@ }),
    {
        let mut this = self;
        this.set_code(code);
        this
    }

    pub fn pending_id(&self) -> (r: u128)
        ensures
            r == self@.pending_id,
    {
        self.0.pending_id
    }

    pub fn set_pending_id(&mut self, pending_id: u128)
        ensures
            final(self)@ == (Raw { pending_id: pending_id, ..old(self)@ }),
    {
        self.0.pending_id = pending_id;
    }

    pub fn with_pending_id(self, pending_id: u128) -> (r: Transfer)
        ensures
            r@ == (Raw { pending_id: pending_id, ..self@ }),
    {
        let mut this = self;
        this.set_pending_id(pending_id);
        this
    }

    pub fn timeout(&self) -> (r: u32)
        ensures
            r == self@.timeout,
    {
        self.0.timeout
    }

    pub fn set_timeout(&mut self, timeout: u32)
        ensures
            final(self)@ == (Raw { timeout: timeout, ..old(self)@ }),
    {
        self.0.timeout = timeout;
    }

    pub fn with_timeout(self, timeout: u32) -> (r: Transfer)
        ensures
            r@ == (Raw { timeout: timeout, ..self@ }),
    {
        let mut this = self;
        this.set_timeout(timeout);
        this
    }

    pub fn amount(&self) -> (r: u128)
        ensures
            r == self@.amount,
    {
        self.0.amount
    }

    pub fn set_amount(&mut self, amount: u128)
        ensures
            final(self)@ == (Raw { amount: amount, ..old(self)@ }),
    {
        self.0.amount = amount;
    }

    pub fn with_amount(self, amount: u128) -> (r: Transfer)
        ensures
            r@ == (Raw { amount: amount, ..self@ }),
    {
        let mut this = self;
        this.set_amount(amount);
        this
    }

    pub fn timestamp(&self) -> (r: u64)
        ensures
            r == self@.timestamp,
    {
        self.0.timestamp
    }

    pub fn flags(&self) -> (r: Flags)
        ensures
            r@ == self@.flags,
    {
        Flags::from_bits_retain(self.0.flags)
    }

    pub fn set_flags(&mut self, flags: Flags)
        ensures
            final(self)@ == (Raw { flags: flags@, ..old(self)@ }),
    {
        self.0.flags = flags.bits();
    }

    pub fn with_flags(self, flags: Flags) -> (r: Transfer)
        ensures
            r@ == (Raw { flags: flags@, ..self@ }),
    {
        let mut this = self;
        this.set_flags(flags);
        this
    }
}

} // verus!

