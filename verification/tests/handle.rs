use charon_macros::handle::{Generator, HandleError, Id};

#[test]
fn three_fresh_ids_are_zero_one_two() {
    let mut generator = Generator::new();
    let a = generator.fresh_id();
    let b = generator.fresh_id();
    let c = generator.fresh_id();
    assert_eq!(a.to_usize(), 0);
    assert_eq!(b.to_usize(), 1);
    assert_eq!(c.to_usize(), 2);
    assert!(a != b && b != c && a != c);
    assert!(a < b && b < c);
}

#[test]
fn zero_and_one_are_the_first_two_fresh_ids() {
    let mut generator = Generator::new();
    assert_eq!(generator.fresh_id(), Id::zero());
    assert_eq!(generator.fresh_id(), Id::one());
    assert!(Id::zero().is_zero());
    assert!(!Id::one().is_zero());
}

#[test]
fn fresh_ids_strictly_increase() {
    let mut generator = Generator::new();
    let mut last = generator.fresh_id();
    for expected in 1..100usize {
        let next = generator.fresh_id();
        assert!(last < next);
        assert_eq!(next.to_usize(), expected);
        last = next;
    }
}

#[test]
fn generators_are_independent() {
    let mut first = Generator::new();
    let mut second = Generator::new();
    assert_eq!(first.fresh_id().to_usize(), 0);
    assert_eq!(first.fresh_id().to_usize(), 1);
    assert_eq!(second.fresh_id().to_usize(), 0);
}

#[test]
fn incr_moves_to_the_next_ordinal() {
    let mut id = Id::new(41);
    id.incr();
    assert_eq!(id, Id::new(42));
    assert_eq!(id.to_usize(), 42);
    let mut id = Id::zero();
    id.incr();
    assert_eq!(id, Id::one());
}

#[test]
fn checked_incr_reports_overflow() {
    let mut id = Id::new(usize::MAX - 1);
    assert_eq!(id.checked_incr(), Ok(()));
    assert_eq!(id.to_usize(), usize::MAX);
    assert_eq!(id.checked_incr(), Err(HandleError::CounterOverflow));
    assert_eq!(id.to_usize(), usize::MAX);
}

#[test]
fn checked_fresh_id_counts_like_fresh_id() {
    let mut generator = Generator::new();
    assert_eq!(generator.checked_fresh_id(), Ok(Id::new(0)));
    assert_eq!(generator.checked_fresh_id(), Ok(Id::new(1)));
    assert_eq!(generator.fresh_id(), Id::new(2));
}

#[test]
fn handle_displays_its_ordinal() {
    assert_eq!(Id::new(0).to_string(), "0");
    assert_eq!(Id::new(1234).to_string(), "1234");
}

#[test]
fn ordinal_within_32_bits_serializes_to_itself() {
    assert_eq!(Id::new(0).serialize(), Ok(0));
    assert_eq!(Id::new(77).serialize(), Ok(77));
    assert_eq!(Id::new(u32::MAX as usize).serialize(), Ok(u32::MAX));
}

#[test]
fn ordinal_beyond_32_bits_does_not_serialize() {
    if usize::BITS > 32 {
        let beyond = (u32::MAX as usize).wrapping_add(1);
        assert_eq!(Id::new(beyond).serialize(), Err(HandleError::SerializationRangeExceeded));
        assert_eq!(Id::new(usize::MAX).serialize(), Err(HandleError::SerializationRangeExceeded));
        assert_eq!(Id::new(beyond).serialize(), Id::new(beyond).serialize());
    }
}

#[test]
fn handles_are_ordered_by_ordinal() {
    assert!(Id::new(3) < Id::new(4));
    assert!(Id::new(4) > Id::new(3));
    assert_eq!(Id::new(5), Id::new(5));
    assert_eq!(Id::new(9).max(Id::new(2)), Id::new(9));
}
