use ascii_art::geometry::{resolve_target, row_partition, scaled_len, FALLBACK_EDGE};

#[test]
fn full_scale_keeps_dimensions() {
    let ((w, h), fallback) = resolve_target(123, 77, 100, None);
    assert_eq!((w, h), (123, 77));
    assert!(!fallback);
}

#[test]
fn scale_rounds_half_up() {
    // 25 * 10% = 2.5 rounds up, 14 * 10% = 1.4 rounds down.
    assert_eq!(scaled_len(25, 10), 3);
    assert_eq!(scaled_len(14, 10), 1);
    assert_eq!(scaled_len(4, 10), 0);
    assert_eq!(scaled_len(5, 10), 1);
}

#[test]
fn scale_saturates_at_u32_max() {
    assert_eq!(scaled_len(u32::MAX, 255), u32::MAX);
}

#[test]
fn scale_zero_uses_terminal_size() {
    let ((w, h), fallback) = resolve_target(1000, 1000, 0, Some((80, 24)));
    assert_eq!((w, h), (80, 24));
    assert!(!fallback);
}

#[test]
fn scale_zero_without_terminal_falls_back() {
    let ((w, h), fallback) = resolve_target(1000, 1000, 0, None);
    assert_eq!((w, h), (FALLBACK_EDGE, FALLBACK_EDGE));
    assert!(fallback);
}

#[test]
fn partition_splits_rows_with_remainder_last() {
    let parts = row_partition(10, 3);
    assert_eq!(parts, vec![(0, 3), (3, 6), (6, 10)]);
    let whole = row_partition(10, 1);
    assert_eq!(whole, vec![(0, 10)]);
    let more_workers_than_rows = row_partition(2, 8);
    assert_eq!(more_workers_than_rows.len(), 8);
    assert_eq!(more_workers_than_rows[0], (0, 0));
    assert_eq!(more_workers_than_rows[7], (0, 2));
}

#[test]
fn partition_of_empty_image() {
    let parts = row_partition(0, 4);
    assert_eq!(parts.len(), 4);
    for (s, e) in &parts {
        assert_eq!((*s, *e), (0, 0));
    }
}
