use pico_motor::pwm::{apply_deadtime, three_phase_deadtime, PhaseDuty, DEADTIME_TICKS, TOP_VALUE};

#[test]
fn constants_match_pwm_setup() {
    assert_eq!(TOP_VALUE, 4093);
    assert_eq!(DEADTIME_TICKS, 100);
}

#[test]
fn deadtime_mid_range_keeps_full_gap() {
    let d = apply_deadtime(2000);
    assert_eq!(d, PhaseDuty { high: 1950, low: 2050 });
    assert_eq!(d.low - d.high, DEADTIME_TICKS);
}

#[test]
fn deadtime_at_zero_saturates_high_side() {
    assert_eq!(apply_deadtime(0), PhaseDuty { high: 0, low: 50 });
    assert_eq!(apply_deadtime(30), PhaseDuty { high: 0, low: 80 });
    assert_eq!(apply_deadtime(50), PhaseDuty { high: 0, low: 100 });
}

#[test]
fn deadtime_at_top_caps_low_side() {
    assert_eq!(apply_deadtime(TOP_VALUE), PhaseDuty { high: 4043, low: 4093 });
    assert_eq!(apply_deadtime(4080), PhaseDuty { high: 4030, low: 4093 });
    assert_eq!(apply_deadtime(4043), PhaseDuty { high: 3993, low: 4093 });
}

#[test]
fn deadtime_above_top_still_caps_low_side() {
    assert_eq!(apply_deadtime(u16::MAX), PhaseDuty { high: 65485, low: 4093 });
}

#[test]
fn deadtime_gap_bounded_over_counter_range() {
    for raw in 0..=TOP_VALUE {
        let d = apply_deadtime(raw);
        assert!(d.high <= raw && raw <= d.low);
        assert!(d.low <= TOP_VALUE);
        assert!(d.low - d.high <= DEADTIME_TICKS);
        if raw >= 50 && raw <= TOP_VALUE - 50 {
            assert_eq!(d.low - d.high, DEADTIME_TICKS);
        }
    }
}

#[test]
fn deadtime_is_monotonic() {
    let mut prev = apply_deadtime(0);
    for raw in 1..=u16::MAX {
        let d = apply_deadtime(raw);
        assert!(prev.high <= d.high && prev.low <= d.low);
        prev = d;
    }
}

#[test]
fn three_phases_are_split_independently() {
    let d = three_phase_deadtime(2046, 10, 4093);
    assert_eq!(d.a, PhaseDuty { high: 1996, low: 2096 });
    assert_eq!(d.b, PhaseDuty { high: 0, low: 60 });
    assert_eq!(d.c, PhaseDuty { high: 4043, low: 4093 });
}
