use property_defs::warmup::{gate, WarmState};

#[test]
fn hot_at_cutoff_has_no_delay() {
    let a = gate(100, 900_000);
    assert_eq!(a.state, WarmState::Hot);
    assert_eq!(a.delay_nanos, 0);
    assert_eq!(a.gauge_ppm, 900_000);
    assert_eq!(gate(100, 950_000).gauge_ppm, 950_000);
}

#[test]
fn hot_above_cutoff_has_no_delay() {
    for h in [900_001u32, 950_000, 999_999, 1_000_000] {
        assert_eq!(gate(250, h).delay_nanos, 0);
        assert_eq!(gate(250, h).state, WarmState::Hot);
    }
}

#[test]
fn cold_cache_waits_the_whole_base_delay() {
    let a = gate(100, 0);
    assert_eq!(a.state, WarmState::Warming);
    assert_eq!(a.delay_nanos, 100_000_000);
    assert_eq!(a.gauge_ppm, 0);
}

#[test]
fn delay_is_linear_in_hotness() {
    assert_eq!(gate(100, 500_000).delay_nanos, 50_000_000);
    assert_eq!(gate(100, 250_000).delay_nanos, 75_000_000);
    assert_eq!(gate(100, 899_999).delay_nanos, 10_000_100);
    assert_eq!(gate(100, 500_000).gauge_ppm, 500_000);
}

#[test]
fn delay_falls_strictly_below_cutoff() {
    let mut last = gate(7, 0).delay_nanos;
    let mut h = 1u32;
    while h < 900_000 {
        let d = gate(7, h).delay_nanos;
        assert!(d < last);
        last = d;
        h += 9_973;
    }
}

#[test]
fn hotness_above_full_is_clamped() {
    let a = gate(100, 3_000_000);
    assert_eq!(a.state, WarmState::Hot);
    assert_eq!(a.delay_nanos, 0);
    assert_eq!(a.gauge_ppm, 1_000_000);
}

#[test]
fn largest_base_delay_does_not_overflow() {
    assert_eq!(gate(u64::MAX, 0).delay_nanos, u64::MAX as u128 * 1_000_000);
}

#[test]
fn state_labels() {
    assert_eq!(WarmState::Warming.label(), "warming");
    assert_eq!(WarmState::Hot.label(), "hot");
}
