use midi_clock::clock::{
    clock_pulse_message, tick_interval_ns, Action, ClockScheduler, MIDI_CLOCK_BYTE,
};

const I120: u64 = 20_833_333;
const I60: u64 = 41_666_666;

/// A scheduler already connected to `port`, not yet ticking.
fn connected_scheduler(port: usize) -> ClockScheduler {
    let mut s = ClockScheduler::new();
    let a = s.step(0, port, port + 1, 0);
    assert_eq!(a, Action::Connect { port });
    s.connection_opened(port);
    s
}

#[test]
fn interval_formula_exact_values() {
    assert_eq!(tick_interval_ns(40), 62_500_000);
    assert_eq!(tick_interval_ns(60), I60);
    assert_eq!(tick_interval_ns(120), I120);
    assert_eq!(tick_interval_ns(300), 8_333_333);
}

#[test]
fn interval_formula_whole_range() {
    for bpm in 40..=300u64 {
        assert_eq!(tick_interval_ns(bpm as i32), 60_000_000_000 / (bpm * 24));
    }
}

#[test]
fn pulse_message_is_single_clock_byte() {
    assert_eq!(clock_pulse_message(), vec![0xF8]);
    assert_eq!(MIDI_CLOCK_BYTE, 0xF8);
}

#[test]
fn drift_free_deadlines() {
    let mut s = connected_scheduler(2);
    let start: u64 = 1_000_000;
    // The first pulse anchors the schedule at the current time.
    let a = s.step(120, 2, 3, start);
    assert_eq!(a, Action::Pulse { deadline_ns: start });
    for k in 1..200u64 {
        // However late the loop wakes (the `now` handed in drifts ever
        // further past the deadline), tick k stays at start + k * interval.
        let late_now = start + k * I120 + 7_000;
        let a = s.step(120, 2, 3, late_now);
        assert_eq!(a, Action::Pulse { deadline_ns: start + k * I120 });
    }
}

#[test]
fn same_tempo_no_churn_no_extra_pulses() {
    let mut s = connected_scheduler(1);
    let start: u64 = 500;
    // The front end re-posting tempo 120 every frame changes nothing: each
    // iteration still reads 120, never reconnects, and the pulse schedule
    // stays one interval per tick.
    for k in 0..50u64 {
        let a = s.step(120, 1, 2, start);
        assert!(!matches!(a, Action::Connect { .. }));
        assert_eq!(a, Action::Pulse { deadline_ns: start + k * I120 });
    }
}

#[test]
fn reconnection_on_selection_change() {
    let mut s = connected_scheduler(1);
    // Changing the selection from port 1 to port 2 closes 1 and attempts 2,
    // regardless of the current tempo (here: stopped).
    let a = s.step(0, 2, 3, 0);
    assert_eq!(a, Action::Connect { port: 2 });
    assert_eq!(s.connected, None);
    s.connection_opened(2);
    let a = s.step(120, 2, 3, 10);
    assert_eq!(a, Action::Pulse { deadline_ns: 10 });
}

#[test]
fn disconnection_resilience() {
    let mut s = connected_scheduler(1);
    let a = s.step(120, 1, 2, 0);
    assert_eq!(a, Action::Pulse { deadline_ns: 0 });
    // The device vanishes: emission stops, the scheduler keeps retrying.
    s.connection_lost();
    let a = s.step(120, 1, 2, 50);
    assert_eq!(a, Action::Connect { port: 1 });
    s.connection_lost(); // the attempt failed too
    let a = s.step(120, 1, 2, 60);
    assert_eq!(a, Action::Connect { port: 1 });
    // A later attempt succeeds: emission resumes, re-anchored at `now`.
    s.connection_opened(1);
    let a = s.step(120, 1, 2, 900);
    assert_eq!(a, Action::Pulse { deadline_ns: 900 });
}

#[test]
fn index_zero_is_never_connected() {
    let mut s = ClockScheduler::new();
    let a = s.step(120, 0, 4, 0);
    assert_eq!(a, Action::IdleSleep);
    assert_eq!(s.connected, None);
}

#[test]
fn out_of_bounds_selection_disconnects() {
    let mut s = connected_scheduler(2);
    let a = s.step(120, 7, 3, 0);
    assert_eq!(a, Action::IdleSleep);
    assert_eq!(s.connected, None);
}

#[test]
fn end_to_end_tempo_scenario() {
    let mut s = ClockScheduler::new();
    // Tempo 0 at start: the scheduler connects, then stays idle — no bytes.
    let a = s.step(0, 1, 2, 0);
    assert_eq!(a, Action::Connect { port: 1 });
    s.connection_opened(1);
    let a = s.step(0, 1, 2, 100);
    assert_eq!(a, Action::IdleSleep);
    // Tempo set to 120: pulses every 20.833333 ms from the anchor on.
    let t0: u64 = 10_000;
    for k in 0..3u64 {
        let a = s.step(120, 1, 2, t0 + k * I120);
        assert_eq!(a, Action::Pulse { deadline_ns: t0 + k * I120 });
    }
    // Tempo changed to 60 mid-stream: the already scheduled tick keeps its
    // deadline, and only the intervals after it become 41.666666 ms.
    let a = s.step(60, 1, 2, t0 + 3 * I120);
    assert_eq!(a, Action::Pulse { deadline_ns: t0 + 3 * I120 });
    let a = s.step(60, 1, 2, t0 + 3 * I120 + I60);
    assert_eq!(a, Action::Pulse { deadline_ns: t0 + 3 * I120 + I60 });
    // Back to stopped: emission ceases without touching the connection.
    let a = s.step(0, 1, 2, t0 + 3 * I120 + 2 * I60);
    assert_eq!(a, Action::IdleSleep);
    assert_eq!(s.connected, Some(1));
}
