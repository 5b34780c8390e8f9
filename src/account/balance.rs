//! Historical balances of an account.
use vstd::prelude::*;

verus! {

/// The fields of an account balance, in their wire order (reserved bytes are left out: they are always zero on the wire). The timestamp is in nanoseconds since the Unix epoch.
#[derive(Clone, Copy, Debug, PartialEq, Eq, Structural)]
pub struct Raw {
    pub debits_pending: u128,
    pub debits_posted: u128,
    pub credits_pending: u128,
    pub credits_posted: u128,
    pub timestamp: u64,
}

impl Raw {
    pub open spec fn spec_zeroed() -> Raw {
        Raw {
            debits_pending: 0,
            debits_posted: 0,
            credits_pending: 0,
            credits_posted: 0,
            timestamp: 0,
        }
    }

    /// The record with every field zero.
    pub fn zeroed() -> (r: Raw)
        ensures
            r == Raw::spec_zeroed(),
    {
        Raw {
            debits_pending: 0,
            debits_posted: 0,
            credits_pending: 0,
            credits_posted: 0,
            timestamp: 0,
        }
    }
}

/// The balances of an account at one point in its history.
#[derive(Clone, Copy, Debug)]
pub struct Balance(Raw);

impl View for Balance {
    type V = Raw;

    closed spec fn view(&self) -> Raw {
        self.0
    }
}

impl Balance {

    pub fn from_raw(raw: Raw) -> (r: Balance)
        ensures
            r@ == raw,
    {
        Balance(raw)
    }

    pub fn into_raw(self) -> (r: Raw)
        ensures
            r == self@,
    {
        self.0
    }

    pub fn as_raw(&self) -> (r: &Raw)
        ensures
            *r == self@,
    {
        &self.0
    }

    pub fn as_raw_mut(&mut self) -> (r: &mut Raw)
        ensures
            *r == old(self)@,
            final(self)@ == *final(r),
    {
        &mut self.0
    }

    pub fn debits_pending(&self) -> (r: u128)
        ensures
            r == self@.debits_pending,
    {
        self.0.debits_pending
    }

    pub fn set_debits_pending(&mut self, debits_pending: u128)
        ensures
            final(self)@ == (Raw { debits_pending: debits_pending, ..old(self)@ }),
    {
        self.0.debits_pending = debits_pending;
    }

    pub fn with_debits_pending(self, debits_pending: u128) -> (r: Balance)
        ensures
            r@ == (Raw { debits_pending: debits_pending, ..self@ }),
    {
        let mut this = self;
        this.set_debits_pending(debits_pending);
        this
    }

    pub fn debits_posted(&self) -> (r: u128)
        ensures
            r == self@.debits_posted,
    {
        self.0.debits_posted
    }

    pub fn set_debits_posted(&mut self, debits_posted: u128)
        ensures
            final(self)@ == (Raw { debits_posted: debits_posted, ..old(self)@ }),
    {
        self.0.debits_posted = debits_posted;
    }

    pub fn with_debits_posted(self, debits_posted: u128) -> (r: Balance)
        ensures
            r@ == (Raw { debits_posted: debits_posted, ..self@ }),
    {
        let mut this = self;
        this.set_debits_posted(debits_posted);
        this
    }

    pub fn credits_pending(&self) -> (r: u128)
        ensures
            r == self@.credits_pending,
    {
        self.0.credits_pending
    }

    pub fn set_credits_pending(&mut self, credits_pending: u128)
        ensures
            final(self)@ == (Raw { credits_pending: credits_pending, ..old(self)@ }),
    {
        self.0.credits_pending = credits_pending;
    }

    pub fn with_credits_pending(self, credits_pending: u128) -> (r: Balance)
        ensures
            r@ == (Raw { credits_pending: credits_pending, ..self@ }),
    {
        let mut this = self;
        this.set_credits_pending(credits_pending);
        this
    }

    pub fn credits_posted(&self) -> (r: u128)
        ensures
            r == self@.credits_posted,
    {
        self.0.credits_posted
    }

    pub fn set_credits_posted(&mut self, credits_posted: u128)
        ensures
            final(self)@ == (Raw { credits_posted: credits_posted, ..old(self)@ }),
    {
        self.0.credits_posted = credits_posted;
    }

    pub fn with_credits_posted(self, credits_posted: u128) -> (r: Balance)
        ensures
            r@ == (Raw { credits_posted: credits_posted, ..self@ }),
    {
        let mut this = self;
        this.set_credits_posted(credits_posted);
        this
    }

    pub fn timestamp(&self) -> (r: u64)
        ensures
            r == self@.timestamp,
    {
        self.0.timestamp
    }

}

} // verus!

