use amallgam::sessions::SessionSlots;

#[test]
fn pool_fills_then_refuses() {
    let mut slots = SessionSlots::new(2);
    assert!(slots.has_free_slot());
    assert!(slots.try_acquire(false));
    assert!(slots.try_acquire(false));
    assert_eq!(slots.len(), 2);
    assert!(!slots.has_free_slot());
    // full and nothing finished
    assert!(!slots.try_acquire(false));
    assert_eq!(slots.len(), 2);
    // full, but a finished session was reaped
    assert!(slots.try_acquire(true));
    assert_eq!(slots.len(), 2);
}

#[test]
fn zero_capacity_pool_refuses_everything() {
    let mut slots = SessionSlots::new(0);
    assert!(!slots.has_free_slot());
    assert!(!slots.try_acquire(false));
    assert_eq!(slots.len(), 0);
}
