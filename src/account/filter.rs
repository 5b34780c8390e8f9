//! The filter that selects the transfers or balances of one account.
use vstd::prelude::*;

verus! {

/// Option bits of an account filter.
#[derive(Clone, Copy, Debug, PartialEq, Eq, Structural)]
pub struct Flags(u32);

impl View for Flags {
    type V = u32;

    closed spec fn view(&self) -> u32 {
        self.0
    }
}

/// Bit values of the known flags.
impl Flags {
    pub const DEBITS: u32 = 1;
    pub const CREDITS: u32 = 2;
    pub const REVERSED: u32 = 4;

    /// Flags made of the given bits, unknown bits included.
    pub fn from_bits_retain(bits: u32) -> (r: Flags)
        ensures
            r@ == bits,
    {
        Flags(bits)
    }

    pub fn bits(&self) -> (r: u32)
        ensures
            r == self@,
    {
        self.0
    }

    /// The union of two sets of flags.
    pub fn union(self, other: Flags) -> (r: Flags)
        ensures
            r@ == self@ | other@,
    {
        Flags(self.0 | other.0)
    }

    /// Whether every bit of `other` is set here.
    pub fn contains(&self, other: Flags) -> (r: bool)
        ensures
            r == (self@ & other@ == other@),
    {
        self.0 & other.0 == other.0
    }
}

/// The fields of an account filter, in their wire order (reserved bytes are left out: they are always zero on the wire). Timestamps are nanoseconds since the Unix epoch.
#[derive(Clone, Copy, Debug, PartialEq, Eq, Structural)]
pub struct Raw {
    pub account_id: u128,
    pub user_data_128: u128,
    pub user_data_64: u64,
    pub user_data_32: u32,
    pub code: u16,
    pub timestamp_min: u64,
    pub timestamp_max: u64,
    pub limit: u32,
    pub flags: u32,
}

impl Raw {
    pub open spec fn spec_zeroed() -> Raw {
        Raw {
            account_id: 0,
            user_data_128: 0,
            user_data_64: 0,
            user_data_32: 0,
            code: 0,
            timestamp_min: 0,
            timestamp_max: 0,
            limit: 0,
            flags: 0,
        }
    }

    /// The record with every field zero.
    pub fn zeroed() -> (r: Raw)
        ensures
            r == Raw::spec_zeroed(),
    {
        Raw {
            account_id: 0,
            user_data_128: 0,
            user_data_64: 0,
            user_data_32: 0,
            code: 0,
            timestamp_min: 0,
            timestamp_max: 0,
            limit: 0,
            flags: 0,
        }
    }
}

/// A query over the history of one account.
#[derive(Clone, Copy, Debug)]
pub struct Filter(Raw);

impl View for Filter {
    type V = Raw;

    closed spec fn view(&self) -> Raw {
        self.0
    }
}

impl Filter {
    /// A filter on the given account that returns at most `limit` results,
    /// with every other field zero.
    pub fn new(account_id: u128, limit: u32) -> (r: Filter)
        requires
            limit != 0,
        ensures
            r@ == (Raw { account_id: account_id, limit: limit, ..Raw::spec_zeroed() }),
    {
        Filter(Raw::zeroed()).with_account_id(account_id).with_limit(limit)
    }

    pub fn from_raw(raw: Raw) -> (r: Filter)
        ensures
            r@ == raw,
    {
        Filter(raw)
    }

    pub fn into_raw(self) -> (r: Raw)
        ensures
            r == self@,
    {
        self.0
    }

    pub fn as_raw(&self) -> (r: &Raw)
        ensures
            *r == self@,
    {
        &self.0
    }

    pub fn as_raw_mut(&mut self) -> (r: &mut Raw)
        ensures
            *r == old(self)@,
            final(self)@ == *final(r),
    {
        &mut self.0
    }

    pub fn account_id(&self) -> (r: u128)
        ensures
            r == self@.account_id,
    {
        self.0.account_id
    }

    pub fn set_account_id(&mut self, account_id: u128)
        ensures
            final(self)@ == (Raw { account_id: account_id, ..old(self)@ }),
    {
        self.0.account_id = account_id;
    }

    pub fn with_account_id(self, account_id: u128) -> (r: Filter)
        ensures
            r@ == (Raw { account_id: account_id, ..self@ }),
    {
        let mut this = self;
        this.set_account_id(account_id);
        this
    }

    pub fn user_data_128(&self) -> (r: u128)
        ensures
            r == self@.user_data_128,
    {
        self.0.user_data_128
    }

    pub fn set_user_data_128(&mut self, user_data_128: u128)
        ensures
            final(self)@ == (Raw { user_data_128: user_data_128, ..old(self)@ }),
    {
        self.0.user_data_128 = user_data_128;
    }

    pub fn with_user_data_128(self, user_data_128: u128) -> (r: Filter)
        ensures
            r@ == (Raw { user_data_128: user_data_128, ..self@ }),
    {
        let mut this = self;
        this.set_user_data_128(user_data_128);
        this
    }

    pub fn user_data_64(&self) -> (r: u64)
        ensures
            r == self@.user_data_64,
    {
        self.0.user_data_64
    }

    pub fn set_user_data_64(&mut self, user_data_64: u64)
        ensures
            final(self)@ == (Raw { user_data_64: user_data_64, ..old(self)@ }),
    {
        self.0.user_data_64 = user_data_64;
    }

    pub fn with_user_data_64(self, user_data_64: u64) -> (r: Filter)
        ensures
            r@ == (Raw { user_data_64: user_data_64, ..self@ }),
    {
        let mut this = self;
        this.set_user_data_64(user_data_64);
        this
    }

    pub fn user_data_32(&self) -> (r: u32)
        ensures
            r == self@.user_data_32,
    {
        self.0.user_data_32
    }

    pub fn set_user_data_32(&mut self, user_data_32: u32)
        ensures
            final(self)@ == (Raw { user_data_32: user_data_32, ..old(self)@ }),
    {
        self.0.user_data_32 = user_data_32;
    }

    pub fn with_user_data_32(self, user_data_32: u32) -> (r: Filter)
        ensures
            r@ == (Raw { user_data_32: user_data_32, ..self@ }),
    {
        let mut this = self;
        this.set_user_data_32(user_data_32);
        this
    }

    pub fn code(&self) -> (r: u16)
        ensures
            r == self@.code,
    {
        self.0.code
    }

    pub fn set_code(&mut self, code: u16)
        ensures
            final(self)@ == (Raw { code: code, ..old(self)@ }),
    {
        self.0.code = code;
    }

    pub fn with_code(self, code: u16) -> (r: Filter)
        ensures
            r@ == (Raw { code: code, ..self@ }),
    {
        let mut this = self;
        this.set_code(code);
        this
    }

    pub fn timestamp_min(&self) -> (r: u64)
        ensures
            r == self@.timestamp_min,
    {
        self.0.timestamp_min
    }

    pub fn set_timestamp_min(&mut self, timestamp_min: u64)
        requires
            timestamp_min != u64::MAX,
        ensures
            final(self)@ == (Raw { timestamp_min: timestamp_min, ..old(self)@ }),
    {
        self.0.timestamp_min = timestamp_min;
    }

    pub fn with_timestamp_min(self, timestamp_min: u64) -> (r: Filter)
        requires
            timestamp_min != u64::MAX,
        ensures
            r@ == (Raw { timestamp_min: timestamp_min, ..self@ }),
    {
        let mut this = self;
        this.set_timestamp_min(timestamp_min);
        this
    }

    pub fn timestamp_max(&self) -> (r: u64)
        ensures
            r == self@.timestamp_max,
    {
        self.0.timestamp_max
    }

    pub fn set_timestamp_max(&mut self, timestamp_max: u64)
        requires
            timestamp_max != u64::MAX,
        ensures
            final(self)@ == (Raw { timestamp_max: timestamp_max, ..old(self)@ }),
    {
        self.0.timestamp_max = timestamp_max;
    }

    pub fn with_timestamp_max(self, timestamp_max: u64) -> (r: Filter)
        requires
            timestamp_max != u64::MAX,
        ensures
            r@ == (Raw { timestamp_max: timestamp_max, ..self@ }),
    {
        let mut this = self;
        this.set_timestamp_max(timestamp_max);
        this
    }

    pub fn limit(&self) -> (r: u32)
        ensures
            r == self@.limit,
    {
        self.0.limit
    }

    pub fn set_limit(&mut self, limit: u32)
        requires
            limit != 0,
        ensures
            final(self)@ == (Raw { limit: limit, ..old(self)@ }),
    {
        self.0.limit = limit;
    }

    pub fn with_limit(self, limit: u32) -> (r: Filter)
        requires
            limit != 0,
        ensures
            r@ == (Raw { limit: limit, ..self@ }),
    {
        let mut this = self;
        this.set_limit(limit);
        this
    }

    pub fn flags(&self) -> (r: Flags)
        ensures
            r@ == self@.flags,
    {
        Flags::from_bits_retain(self.0.flags)
    }

    pub fn set_flags(&mut self, flags: Flags)
        ensures
            final(self)@ == (Raw { flags: flags@, ..old(self)@ }),
    {
        self.0.flags = flags.bits();
    }

    pub fn with_flags(self, flags: Flags) -> (r: Filter)
        ensures
            r@ == (Raw { flags: flags@, ..self@ }),
    {
        let mut this = self;
        this.set_flags(flags);
        this
    }
}

} // verus!

