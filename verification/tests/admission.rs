use mdbook_docker_run::admission::{effective_weight, Admission};

#[test]
fn effective_weight_defaults_to_one() {
    assert_eq!(effective_weight(None, 4), 1);
}

#[test]
fn effective_weight_keeps_small_declarations() {
    assert_eq!(effective_weight(Some(3), 4), 3);
}

#[test]
fn effective_weight_caps_at_capacity() {
    assert_eq!(effective_weight(Some(100), 4), 4);
    assert_eq!(effective_weight(Some(u32::MAX), 8), 8);
}

#[test]
fn effective_weight_zero_stays_zero() {
    assert_eq!(effective_weight(Some(0), 4), 0);
}

#[test]
fn admission_bounds_aggregate_weight() {
    let mut a = Admission::new(4);
    assert!(a.try_acquire(2));
    assert!(a.try_acquire(2));
    assert_eq!(a.in_use, 4);
    assert!(!a.try_acquire(1));
    assert_eq!(a.in_use, 4);
    a.release(2);
    assert_eq!(a.in_use, 2);
    assert!(a.try_acquire(2));
    assert!(a.in_use <= a.capacity);
}

#[test]
fn admission_idle_always_admits_effective_weight() {
    let mut a = Admission::new(3);
    let w = effective_weight(Some(50), 3);
    assert!(a.try_acquire(w));
    assert_eq!(a.in_use, 3);
}
