//! Time-based identifiers: 48 bits of millisecond timestamp above 80 random
//! bits, increasing from one call to the next.
//!
//! The random bits are drawn afresh when the clock has moved past the last
//! identifier's timestamp; otherwise the last random bits are incremented,
//! carrying into the timestamp when they overflow.
use vstd::prelude::*;
use vstd::bytes::{u16_from_le_bytes, u64_from_le_bytes};
use vstd::slice::slice_subrange;

verus! {

/// Number of values of the random part: 2^80.
pub const RANDOM_SPAN: u128 = 0x1_0000_0000_0000_0000_0000;

/// Number of values of the timestamp part: 2^48.
pub const TIMESTAMP_SPAN: u64 = 0x1_0000_0000_0000;

/// The identifier made of a timestamp (its low 48 bits) and random bits.
pub open spec fn spec_id(timestamp: u64, random: u128) -> int {
    (timestamp % TIMESTAMP_SPAN) as int * RANDOM_SPAN as int + random as int
}

/// The state after one identifier is drawn at clock reading `now`, with
/// `fresh` as the random bits to use if the clock moved on.
pub open spec fn spec_advance(last: (u64, u128), now: u64, fresh: u128) -> (u64, u128) {
    let (timestamp, random) = if now > last.0 {
        (now, fresh)
    } else {
        last
    };
    if random + 1 == RANDOM_SPAN {
        (if timestamp == u64::MAX { 0 } else { (timestamp + 1) as u64 }, 0)
    } else {
        (timestamp, (random + 1) as u128)
    }
}

/// The timestamp and random bits of the last identifier handed out. One
/// generator serves one process.
pub struct IdGenerator {
    last_timestamp: u64,
    last_random: u128,
}

impl View for IdGenerator {
    type V = (u64, u128);

    closed spec fn view(&self) -> (u64, u128) {
        (self.last_timestamp, self.last_random)
    }
}

impl IdGenerator {
    #[verifier::type_invariant]
    spec fn inv(self) -> bool {
        self.last_random < RANDOM_SPAN
    }

    /// A generator that has handed out nothing yet.
    pub fn new() -> (r: IdGenerator)
        ensures
            r@ == (0u64, 0u128),
    {
        IdGenerator { last_timestamp: 0, last_random: 0 }
    }

    /// Draws the next identifier at clock reading `now` (milliseconds since
    /// the Unix epoch), with `fresh` as the random bits to use if the clock
    /// moved past the last identifier. While timestamps stay below 2^48,
    /// each identifier is greater than the one before.
    pub fn next(&mut self, now: u64, fresh: u128) -> (r: u128)
        requires
            fresh < RANDOM_SPAN,
        ensures
            final(self)@ == spec_advance(old(self)@, now, fresh),
            r == spec_id(final(self)@.0, final(self)@.1),
            now < u64::MAX && old(self)@.0 < TIMESTAMP_SPAN && final(self)@.0 < TIMESTAMP_SPAN ==> r > spec_id(
                old(self)@.0,
                old(self)@.1,
            ),
    {
        proof {
            use_type_invariant(&*self);
        }
        if now > self.last_timestamp {
            self.last_timestamp = now;
            self.last_random = fresh;
        }
        if self.last_random + 1 == RANDOM_SPAN {
            self.last_random = 0;
            self.last_timestamp = self.last_timestamp.wrapping_add(1);
        } else {
            self.last_random = self.last_random + 1;
        }
        let timestamp = (self.last_timestamp % TIMESTAMP_SPAN) as u128;
        assert(timestamp * RANDOM_SPAN + self.last_random < 0x1_0000_0000_0000_0000_0000_0000_0000_0000)
            by (nonlinear_arith)
            requires
                timestamp < TIMESTAMP_SPAN,
                self.last_random < RANDOM_SPAN,
        ;
        proof {
            let old_ts = old(self)@.0;
            let old_r = old(self)@.1;
            let ts = self.last_timestamp;
            let r = self.last_random;
            if now < u64::MAX && old_ts < TIMESTAMP_SPAN && ts < TIMESTAMP_SPAN {
                assert(old_ts % TIMESTAMP_SPAN == old_ts);
                assert(ts % TIMESTAMP_SPAN == ts);
                if ts > old_ts {
                    assert(ts * RANDOM_SPAN + r > old_ts * RANDOM_SPAN + old_r)
                        by (nonlinear_arith)
                        requires
                            ts > old_ts,
                            old_r < RANDOM_SPAN,
                    ;
                } else {
                    assert(r > old_r);
                }
                assert(spec_id(ts, r) > spec_id(old_ts, old_r));
            }
        }
        timestamp * RANDOM_SPAN + self.last_random
    }
}

/// Relies on `fastrand::fill`: it writes random bytes over the whole slice
/// and keeps its length.
#[verifier::external_body]
fn fill_random(bytes: &mut [u8; 10])
    ensures
        final(bytes)@.len() == 10,
{
    fastrand::fill(bytes)
}

/// Relies on `SystemTime::elapsed` from the Unix epoch: milliseconds since
/// then, or `None` when the clock reads earlier. Nothing is known of the
/// value, which depends on the clock.
#[verifier::external_body]
fn millis_since_epoch() -> (r: Option<u128>) {
    match std::time::UNIX_EPOCH.elapsed() {
        Ok(elapsed) => Some(elapsed.as_millis()),
        Err(_) => None,
    }
}

/// Ten random bytes read as an 80-bit number, least significant first.
fn random_bits() -> (r: u128)
    ensures
        r < RANDOM_SPAN,
{
    let mut bytes: [u8; 10] = [0u8; 10];
    fill_random(&mut bytes);
    let slice: &[u8] = &bytes;
    let low = u64_from_le_bytes(slice_subrange(slice, 0, 8));
    let high = u16_from_le_bytes(slice_subrange(slice, 8, 10));
    assert((high as u128) * 0x1_0000_0000_0000_0000 + (low as u128) < RANDOM_SPAN) by (nonlinear_arith)
        requires
            high < 0x1_0000,
            low < 0x1_0000_0000_0000_0000u128,
    ;
    (high as u128) * 0x1_0000_0000_0000_0000 + (low as u128)
}

/// Draws a new identifier from `generator`, reading the clock and, when it
/// moved on, fresh random bits. A clock that reads before the Unix epoch, or
/// at or beyond 2^64 - 1 milliseconds, counts as not having moved.
pub fn id(generator: &mut IdGenerator) -> (r: u128)
    ensures
        exists|now: u64, fresh: u128|
            now < u64::MAX && fresh < RANDOM_SPAN && final(generator)@ == #[trigger] spec_advance(
                old(generator)@,
                now,
                fresh,
            ),
        r == spec_id(final(generator)@.0, final(generator)@.1),
        old(generator)@.0 < TIMESTAMP_SPAN && final(generator)@.0 < TIMESTAMP_SPAN ==> r > spec_id(
            old(generator)@.0,
            old(generator)@.1,
        ),
{
    let now: u64 = match millis_since_epoch() {
        Some(ms) => if ms < u64::MAX as u128 {
            ms as u64
        } else {
            0
        },
        None => 0,
    };
    let fresh = random_bits();
    generator.next(now, fresh)
}

} // verus!
