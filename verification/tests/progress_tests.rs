use vapr_core::progress::{eta_seconds, may_emit_progress, percent, speed_bytes_per_sec};

#[test]
fn percent_is_zero_while_total_unknown() {
    assert_eq!(percent(0, 0), 0);
    assert_eq!(percent(12345, 0), 0);
}

#[test]
fn percent_exact_values() {
    assert_eq!(percent(0, 100), 0);
    assert_eq!(percent(50, 100), 50);
    assert_eq!(percent(100, 300), 33);
    assert_eq!(percent(1, 3), 33);
    assert_eq!(percent(299, 300), 99);
    assert_eq!(percent(300, 300), 100);
}

#[test]
fn percent_caps_at_one_hundred() {
    assert_eq!(percent(400, 300), 100);
    assert_eq!(percent(u64::MAX, 1), 100);
}

#[test]
fn speed_exact_values() {
    assert_eq!(speed_bytes_per_sec(1000, 1000), 1000);
    assert_eq!(speed_bytes_per_sec(500, 250), 2000);
    assert_eq!(speed_bytes_per_sec(100, 200), 500);
    assert_eq!(speed_bytes_per_sec(999, 0), 0);
}

#[test]
fn speed_saturates() {
    assert_eq!(speed_bytes_per_sec(u64::MAX, 1), u64::MAX);
}

#[test]
fn eta_exact_values() {
    assert_eq!(eta_seconds(100, 300, 50), 4);
    assert_eq!(eta_seconds(100, 300, 0), 0);
    assert_eq!(eta_seconds(300, 300, 50), 0);
    assert_eq!(eta_seconds(400, 300, 50), 0);
}

#[test]
fn throttle_needs_strictly_more_than_the_interval() {
    assert!(!may_emit_progress(1000, 1100));
    assert!(may_emit_progress(1000, 1101));
    assert!(!may_emit_progress(1000, 1000));
    assert!(!may_emit_progress(1000, 900));
}
