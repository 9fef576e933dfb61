use midi_clock::tap::bpm_from_tap_interval;

#[test]
fn tap_boundary_bpm_39_rejected() {
    // 1.538462 s between taps measures 39 beats per minute: too slow.
    assert_eq!(bpm_from_tap_interval(1_538_462), None);
}

#[test]
fn tap_boundary_bpm_40_accepted() {
    // 1.5 s between taps measures exactly 40 beats per minute.
    assert_eq!(bpm_from_tap_interval(1_500_000), Some(40));
}

#[test]
fn tap_boundary_bpm_300_accepted() {
    // 0.2 s between taps measures exactly 300 beats per minute.
    assert_eq!(bpm_from_tap_interval(200_000), Some(300));
}

#[test]
fn tap_boundary_bpm_301_rejected() {
    // 0.199336 s between taps measures 301 beats per minute: too fast.
    assert_eq!(bpm_from_tap_interval(199_336), None);
}

#[test]
fn tap_zero_interval_rejected() {
    assert_eq!(bpm_from_tap_interval(0), None);
}

#[test]
fn tap_typical_intervals() {
    assert_eq!(bpm_from_tap_interval(500_000), Some(120));
    assert_eq!(bpm_from_tap_interval(1_000_000), Some(60));
}

#[test]
fn tap_very_long_interval_rejected() {
    assert_eq!(bpm_from_tap_interval(u64::MAX), None);
    assert_eq!(bpm_from_tap_interval(10_000_000), None);
}
