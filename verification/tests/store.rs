use counter_bot::counter::Counter;

#[test]
fn new_counter_holds_zero() {
    let c = Counter::new();
    assert_eq!(c.get(), 0);
}

#[test]
fn increment_returns_the_new_value() {
    let mut c = Counter::new();
    assert_eq!(c.increment_and_get(), 1);
    assert_eq!(c.increment_and_get(), 2);
    assert_eq!(c.increment_and_get(), 3);
    assert_eq!(c.get(), 3);
}

#[test]
fn reset_clears_any_value() {
    let mut c = Counter::new();
    for _ in 0..5 {
        c.increment_and_get();
    }
    assert_eq!(c.get(), 5);
    c.reset();
    assert_eq!(c.get(), 0);
}
