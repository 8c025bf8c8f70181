use manipulator_backend::counter::Counter;

#[test]
fn new_counter_starts_at_zero() {
    let c = Counter::new();
    assert_eq!(c.value(), 0);
    assert!(c.can_increment());
}

#[test]
fn sequential_increments_return_one_to_n() {
    let mut c = Counter::new();
    let mut returned = Vec::new();
    for _ in 0..10 {
        returned.push(c.increment_counter());
    }
    assert_eq!(returned, vec![1, 2, 3, 4, 5, 6, 7, 8, 9, 10]);
    assert_eq!(c.value(), 10);
}

#[test]
fn single_increment_returns_stored_value() {
    let mut c = Counter::new();
    assert_eq!(c.increment_counter(), 1);
    assert_eq!(c.value(), 1);
    assert_eq!(c.increment_counter(), 2);
    assert_eq!(c.value(), 2);
}
