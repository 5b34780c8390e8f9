use tigerbeetle_client::id::{id, IdGenerator};

#[test]
fn unique() {
    let mut generator = IdGenerator::new();
    let id1 = id(&mut generator);
    let id2 = id(&mut generator);
    assert_ne!(id1, id2, "expected: {id1} != {id2}");
}

#[test]
fn monotonic_immediately() {
    let mut generator = IdGenerator::new();
    let id1 = id(&mut generator);
    let id2 = id(&mut generator);
    assert!(id1 < id2, "expected: {id1} < {id2}");
}

#[test]
fn id_carries_the_timestamp_in_its_high_bits() {
    let mut generator = IdGenerator::new();
    let value = generator.next(5, 7);
    assert_eq!(value, (5u128 << 80) | 8);
    // The clock did not move: the random bits are incremented.
    let next = generator.next(5, 100);
    assert_eq!(next, (5u128 << 80) | 9);
    // The clock went backwards: still increasing.
    let later = generator.next(3, 100);
    assert_eq!(later, (5u128 << 80) | 10);
}

#[test]
fn id_random_overflow_carries_into_timestamp() {
    let mut generator = IdGenerator::new();
    let max_random = (1u128 << 80) - 1;
    let value = generator.next(9, max_random);
    assert_eq!(value, 10u128 << 80);
    let next = generator.next(9, 0);
    assert_eq!(next, (10u128 << 80) | 1);
}

#[test]
fn id_fresh_random_when_clock_moves() {
    let mut generator = IdGenerator::new();
    let first = generator.next(1, 50);
    let second = generator.next(2, 3);
    assert_eq!(first, (1u128 << 80) | 51);
    assert_eq!(second, (2u128 << 80) | 4);
    assert!(first < second);
}

#[test]
fn id_uses_the_current_time() {
    let mut generator = IdGenerator::new();
    let value = id(&mut generator);
    // Milliseconds since the epoch are far above zero on any real clock.
    assert!(value >> 80 > 1_600_000_000_000u128);
}
