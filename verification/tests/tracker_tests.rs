use smb_autosplitter::engine::LEVEL_TIME_SENTINEL_BITS;
use smb_autosplitter::tracker::TrackedQuantity;

#[test]
fn update_shifts_current_into_previous() {
    let mut t = TrackedQuantity::new(0u8);
    assert_eq!(t.previous, 0);
    assert_eq!(t.current, 0);
    t.update(5);
    assert_eq!(t.previous, 0);
    assert_eq!(t.current, 5);
    t.update(7);
    assert_eq!(t.previous, 5);
    assert_eq!(t.current, 7);
}

#[test]
fn changed_from_to_sees_exactly_the_last_transition() {
    let mut t = TrackedQuantity::new(0u8);
    for sample in [3u8, 3, 5] {
        t.update(sample);
    }
    assert!(t.changed_from_to(3, 5));
    assert!(!t.changed_from_to(5, 3));
    assert!(!t.changed_from_to(0, 5));
    assert!(t.changed());
    assert!(t.changed_to(5));
}

#[test]
fn unchanged_samples_report_no_change() {
    let mut t = TrackedQuantity::new(0u32);
    t.update(9);
    t.update(9);
    assert!(!t.changed());
    assert!(!t.changed_to(9));
    assert!(!t.changed_from_to(0, 9));
}

#[test]
fn increased_compares_previous_and_current() {
    let mut d = TrackedQuantity::new(0i32);
    d.update(4);
    assert!(d.increased());
    d.update(4);
    assert!(!d.increased());
    d.update(2);
    assert!(!d.increased());
}

#[test]
fn sentinel_constant_is_the_bit_pattern_of_the_dummy_time() {
    assert_eq!(LEVEL_TIME_SENTINEL_BITS, 1e8f32.to_bits());
    assert_eq!(0u32, 0.0f32.to_bits());
}

#[test]
fn bytes_changed_from_is_a_strict_bitwise_comparison() {
    let mut t = TrackedQuantity::new(1e8f32.to_bits());
    assert!(!t.bytes_changed_from(LEVEL_TIME_SENTINEL_BITS));

    // The momentary zero artifact differs from the sentinel bit pattern.
    t.update(0.0f32.to_bits());
    assert!(t.bytes_changed_from(LEVEL_TIME_SENTINEL_BITS));

    // A NaN payload still compares by bits, not by numeric equality.
    t.update(f32::NAN.to_bits());
    assert!(t.bytes_changed_from(LEVEL_TIME_SENTINEL_BITS));

    t.update(12.34f32.to_bits());
    assert!(t.bytes_changed_from(LEVEL_TIME_SENTINEL_BITS));

    t.update(1e8f32.to_bits());
    assert!(!t.bytes_changed_from(LEVEL_TIME_SENTINEL_BITS));
}
