use runcat::clock::{calculate_duration, clamp_utilization, next_frame, MAX_UTILIZATION};
use runcat::resources::FRAME_COUNT;

#[test]
fn duration_at_no_load_is_longest() {
    assert_eq!(calculate_duration(0), 200);
}

#[test]
fn duration_at_full_load_is_shortest() {
    assert_eq!(calculate_duration(1000), 50);
}

#[test]
fn duration_follows_inverse_formula() {
    // 2500 / u ms for u percent, truncated.
    assert_eq!(calculate_duration(200), 125);
    assert_eq!(calculate_duration(300), 83);
    assert_eq!(calculate_duration(126), 198);
    assert_eq!(calculate_duration(499), 50);
}

#[test]
fn duration_clamps_at_both_ends() {
    assert_eq!(calculate_duration(1), 200);
    assert_eq!(calculate_duration(125), 200);
    assert_eq!(calculate_duration(500), 50);
    assert_eq!(calculate_duration(999), 50);
}

#[test]
fn duration_bounded_and_non_increasing_over_range() {
    let mut prev = calculate_duration(0);
    for t in 0..=MAX_UTILIZATION {
        let d = calculate_duration(t);
        assert!((50..=200).contains(&d));
        assert!(d <= prev);
        prev = d;
    }
}

#[test]
fn utilization_is_clamped() {
    assert_eq!(clamp_utilization(-5), 0);
    assert_eq!(clamp_utilization(i64::MIN), 0);
    assert_eq!(clamp_utilization(1500), 1000);
    assert_eq!(clamp_utilization(437), 437);
    assert_eq!(clamp_utilization(1000), 1000);
}

#[test]
fn frame_wraps_at_cycle_end() {
    assert_eq!(next_frame(0), 1);
    assert_eq!(next_frame(FRAME_COUNT - 1), 0);
}

#[test]
fn frame_returns_after_full_cycle() {
    for start in 0..FRAME_COUNT {
        let mut f = start;
        for _ in 0..FRAME_COUNT {
            f = next_frame(f);
        }
        assert_eq!(f, start);
    }
}
