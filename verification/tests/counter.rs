use program_logic::counter_app::{
    decrement, get_count, increment, initialize, reset, Counter, ErrorCode,
};

#[test]
fn initialize_starts_at_zero() {
    let mut counter = Counter { count: 41 };
    assert_eq!(initialize(&mut counter), Ok(()));
    assert_eq!(counter.count, 0);
    assert_eq!(get_count(&counter), Ok(0));
}

#[test]
fn increment_adds_one() {
    let mut counter = Counter { count: 0 };
    assert_eq!(increment(&mut counter), Ok(()));
    assert_eq!(counter.count, 1);
    assert_eq!(increment(&mut counter), Ok(()));
    assert_eq!(get_count(&counter), Ok(2));
}

#[test]
fn increment_stops_at_the_greatest_value() {
    let mut counter = Counter { count: u64::MAX - 1 };
    assert_eq!(increment(&mut counter), Ok(()));
    assert_eq!(counter.count, u64::MAX);
    assert_eq!(increment(&mut counter), Err(ErrorCode::CounterOverflow));
    assert_eq!(counter.count, u64::MAX);
}

#[test]
fn decrement_takes_one() {
    let mut counter = Counter { count: 2 };
    assert_eq!(decrement(&mut counter), Ok(()));
    assert_eq!(counter.count, 1);
    assert_eq!(decrement(&mut counter), Ok(()));
    assert_eq!(counter.count, 0);
}

#[test]
fn decrement_stops_at_zero() {
    let mut counter = Counter { count: 0 };
    assert_eq!(decrement(&mut counter), Err(ErrorCode::CounterUnderflow));
    assert_eq!(counter.count, 0);
}

#[test]
fn reset_goes_back_to_zero() {
    let mut counter = Counter { count: u64::MAX };
    assert_eq!(reset(&mut counter), Ok(()));
    assert_eq!(counter.count, 0);
    assert_eq!(decrement(&mut counter), Err(ErrorCode::CounterUnderflow));
}

#[test]
fn get_count_reads_without_changing() {
    let counter = Counter { count: 12_345 };
    assert_eq!(get_count(&counter), Ok(12_345));
    assert_eq!(get_count(&counter), Ok(12_345));
    assert_eq!(counter, Counter { count: 12_345 });
}
