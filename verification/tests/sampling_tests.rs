use wide_events::should_emit;
use wide_events::DRAW_BOUND;
use wide_events::SAMPLE_THRESHOLD;

#[test]
fn sampling_disabled_emits_every_draw() {
    for draw in [0, 1, SAMPLE_THRESHOLD, DRAW_BOUND - 1] {
        assert!(should_emit(false, false, 200, false, 1, draw));
    }
}

#[test]
fn guaranteed_conditions_emit_for_worst_draw() {
    let worst = DRAW_BOUND - 1;
    assert!(should_emit(true, true, 200, false, 1, worst));
    assert!(should_emit(true, false, 500, false, 1, worst));
    assert!(should_emit(true, false, 200, true, 1, worst));
    assert!(should_emit(true, false, 200, false, 2001, worst));
}

#[test]
fn boring_request_suppressed_above_threshold() {
    assert!(!should_emit(true, false, 200, false, 2000, SAMPLE_THRESHOLD));
    assert!(!should_emit(true, false, 499, false, 1, DRAW_BOUND - 1));
    assert!(should_emit(true, false, 200, false, 1, SAMPLE_THRESHOLD - 1));
}

#[test]
fn duration_saturates_instead_of_overflowing() {
    assert_eq!(wide_events::saturate_duration_ms(5), 5);
    assert_eq!(wide_events::saturate_duration_ms(u64::MAX as u128), u64::MAX);
    assert_eq!(
        wide_events::saturate_duration_ms(u64::MAX as u128 + 1),
        u64::MAX
    );
    assert_eq!(wide_events::saturate_duration_ms(u128::MAX), u64::MAX);
}

#[test]
fn baseline_rate_is_five_percent_of_draw_space() {
    let mut emitted: u64 = 0;
    for draw in 0..DRAW_BOUND {
        if should_emit(true, false, 200, false, 1, draw) {
            emitted += 1;
        }
    }
    assert_eq!(emitted, SAMPLE_THRESHOLD);
    assert_eq!(emitted * 20, DRAW_BOUND);
}
