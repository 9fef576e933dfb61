//! The clock scheduler: a pure state machine that decides, once per loop
//! iteration, whether to repair the device connection, wait idly, or emit the
//! next MIDI clock pulse — and at exactly which instant.
//!
//! The machine owns no device and never sleeps. The embedding loop calls
//! [`ClockScheduler::step`] with the freshly read tempo and port selection,
//! then performs the returned [`Action`]: open a connection (reporting the
//! outcome back through [`ClockScheduler::connection_opened`] or
//! [`ClockScheduler::connection_lost`]), sleep the idle interval, or sleep
//! until the pulse deadline and send one timing-clock byte.
//!
//! Tick deadlines follow an absolute schedule: each pulse advances the next
//! deadline by exactly one interval from the previous deadline, never from
//! the current time, so a late wake-up delays only that one tick and never
//! shifts the phase of the ticks after it.

use vstd::arithmetic::div_mod::lemma_div_is_ordered_by_denominator;
use vstd::prelude::*;
use crate::tempo::{MAX_BPM, MIN_BPM};

verus! {

/// The MIDI real-time timing-clock status byte, the only byte this clock
/// ever emits.
pub const MIDI_CLOCK_BYTE: u8 = 0xF8;

/// Clock pulses per quarter note, fixed by the MIDI transport standard.
pub const PULSES_PER_QUARTER: u64 = 24;

/// Nanoseconds in one minute: the numerator of the tick-interval formula.
pub const MINUTE_NS: u64 = 60_000_000_000;

/// How long the loop rests when there is nothing to tick, in milliseconds.
pub const IDLE_SLEEP_MS: u64 = 500;

/// How long the loop backs off after a failed connection attempt, in
/// milliseconds.
pub const BACKOFF_MS: u64 = 1000;

/// Largest timestamp the scheduler accepts, leaving one maximal tick
/// interval of headroom below `u64::MAX` so deadlines never overflow.
pub const MAX_SCHED_NS: u64 = 0xFFFF_FFFF_FFFF_FFFF - 62_500_000;

/// The time between two clock pulses at a given tempo, in nanoseconds:
/// one minute divided over `tempo * 24` pulses. This is the standard
/// `60000 / (tempo * 24)` milliseconds, written in nanoseconds so that the
/// schedule stays integral.
pub open spec fn spec_tick_interval_ns(tempo: int) -> int
    recommends
        MIN_BPM <= tempo <= MAX_BPM,
{
    (MINUTE_NS as int) / (tempo * (PULSES_PER_QUARTER as int))
}

/// At a playable tempo the tick interval lies between 8.333333 ms
/// (300 beats per minute) and 62.5 ms (40 beats per minute).
pub proof fn lemma_tick_interval_bounds(tempo: int)
    requires
        MIN_BPM <= tempo <= MAX_BPM,
    ensures
        8_333_333 <= spec_tick_interval_ns(tempo) <= 62_500_000,
{
    let d = tempo * (PULSES_PER_QUARTER as int);
    assert(960 <= d <= 7200);
    lemma_div_is_ordered_by_denominator(MINUTE_NS as int, 960, d);
    lemma_div_is_ordered_by_denominator(MINUTE_NS as int, d, 7200);
    assert((MINUTE_NS as int) / 960 == 62_500_000);
    assert((MINUTE_NS as int) / 7200 == 8_333_333);
}

/// Compute the tick interval for a playable tempo, in nanoseconds.
pub fn tick_interval_ns(tempo: i32) -> (r: u64)
    requires
        MIN_BPM <= tempo <= MAX_BPM,
    ensures
        r as int == spec_tick_interval_ns(tempo as int),
        8_333_333 <= r <= 62_500_000,
{
    proof {
        lemma_tick_interval_bounds(tempo as int);
    }
    MINUTE_NS / ((tempo as u64) * PULSES_PER_QUARTER)
}

/// The one message this clock sends on the wire: a single timing-clock byte.
pub fn clock_pulse_message() -> (v: Vec<u8>)
    ensures
        v@ == seq![MIDI_CLOCK_BYTE],
{
    let mut v: Vec<u8> = Vec::new();
    v.push(MIDI_CLOCK_BYTE);
    proof {
        assert(v@ =~= seq![MIDI_CLOCK_BYTE]);
    }
    v
}

/// A port index the scheduler may connect to: a real entry of the device
/// list, excluding the reserved index 0, which is never auto-connected.
pub open spec fn selectable(index: int, device_count: int) -> bool {
    1 <= index && index < device_count
}

/// What the embedding loop must do next.
#[derive(Clone, Copy, PartialEq, Eq, Debug)]
pub enum Action {
    /// Close any open connection, then try to open the device at `port`;
    /// report the outcome through `connection_opened` or `connection_lost`
    /// (after a lost or failed attempt, rest for [`BACKOFF_MS`]).
    Connect { port: usize },
    /// Nothing to tick: rest for [`IDLE_SLEEP_MS`], then step again.
    IdleSleep,
    /// Sleep until the monotonic instant `deadline_ns` (not at all if it has
    /// already passed), then send one [`MIDI_CLOCK_BYTE`] and step again.
    Pulse { deadline_ns: u64 },
}

/// The scheduler's whole state between two loop iterations.
#[derive(Clone, Copy, PartialEq, Eq, Debug)]
pub struct ClockScheduler {
    /// The port index of the live connection, if one is open.
    pub connected: Option<usize>,
    /// The absolute deadline of the next tick, in nanoseconds of the
    /// embedding loop's monotonic clock; meaningful only while `ticking`.
    pub next_tick_ns: u64,
    /// Whether the previous iteration emitted a pulse. A pulse emitted from
    /// a non-ticking state re-anchors the schedule at the current time.
    pub ticking: bool,
}

/// The instant the next pulse is due: the scheduled deadline while ticking,
/// or the current instant when (re)entering the ticking state.
pub open spec fn spec_deadline(s: ClockScheduler, now_ns: u64) -> int {
    if s.ticking {
        s.next_tick_ns as int
    } else {
        now_ns as int
    }
}

/// One scheduler decision: the successor state and the action to perform,
/// from the current state, the freshly read tempo and port selection, the
/// size of the device list, and the current monotonic time.
pub open spec fn spec_step(
    s: ClockScheduler,
    tempo: i32,
    selection: usize,
    device_count: usize,
    now_ns: u64,
) -> (ClockScheduler, Action) {
    if !selectable(selection as int, device_count as int) {
        // No selectable device: disconnect and remain disconnected — not an
        // error, and never a connection to the reserved index 0.
        let torn = ClockScheduler { connected: None, next_tick_ns: s.next_tick_ns, ticking: false };
        (torn, Action::IdleSleep)
    } else if s.connected != Some(selection) {
        // Selection changed or nothing is open: tear down, then attempt the
        // newly selected port.
        let torn = ClockScheduler { connected: None, next_tick_ns: s.next_tick_ns, ticking: false };
        (torn, Action::Connect { port: selection })
    } else if !(MIN_BPM <= tempo && tempo <= MAX_BPM) {
        let idled = ClockScheduler { connected: s.connected, next_tick_ns: s.next_tick_ns, ticking: false };
        (idled, Action::IdleSleep)
    } else {
        let deadline = spec_deadline(s, now_ns);
        let interval = spec_tick_interval_ns(tempo as int);
        let advanced = ClockScheduler {
            connected: s.connected,
            next_tick_ns: (deadline + interval) as u64,
            ticking: true,
        };
        (advanced, Action::Pulse { deadline_ns: deadline as u64 })
    }
}

impl ClockScheduler {
    /// The connection, when open, is to a selectable port: never to the
    /// reserved index 0.
    pub open spec fn wf(self) -> bool {
        self.connected matches Some(p) ==> 1 <= p
    }

    /// A fresh scheduler: disconnected, not ticking.
    pub fn new() -> (s: Self)
        ensures
            s.connected is None,
            s.next_tick_ns == 0,
            !s.ticking,
            s.wf(),
    {
        ClockScheduler { connected: None, next_tick_ns: 0, ticking: false }
    }

    /// One loop iteration's decision. The state and result are exactly
    /// [`spec_step`] of the inputs. Two consequences stated on their own:
    /// while the selection still names the connected port — however often
    /// the same tempo or selection is re-posted — the connection is never
    /// reopened; and a connection is only ever attempted to a selectable
    /// port, never to the reserved index 0 or out of bounds.
    pub fn step(
        &mut self,
        tempo: i32,
        selection: usize,
        device_count: usize,
        now_ns: u64,
    ) -> (a: Action)
        requires
            old(self).wf(),
            old(self).next_tick_ns <= MAX_SCHED_NS,
            now_ns <= MAX_SCHED_NS,
        ensures
            final(self).wf(),
            (*final(self), a) == spec_step(*old(self), tempo, selection, device_count, now_ns),
            old(self).connected == Some(selection) ==> a !is Connect,
            a matches Action::Connect { port } ==> selectable(
                port as int,
                device_count as int,
            ),
    {
        if !(1 <= selection && selection < device_count) {
            self.connected = None;
            self.ticking = false;
            return Action::IdleSleep;
        }
        let connected_matches = match self.connected {
            Some(p) => p == selection,
            None => false,
        };
        if !connected_matches {
            self.connected = None;
            self.ticking = false;
            Action::Connect { port: selection }
        } else if !(MIN_BPM <= tempo && tempo <= MAX_BPM) {
            self.ticking = false;
            Action::IdleSleep
        } else {
            let interval = tick_interval_ns(tempo);
            let deadline = if self.ticking {
                self.next_tick_ns
            } else {
                now_ns
            };
            self.next_tick_ns = deadline + interval;
            self.ticking = true;
            Action::Pulse { deadline_ns: deadline }
        }
    }

    /// The embedding loop reports that the connection to `port` — the port a
    /// [`Action::Connect`] named — is now open. The tick schedule is left
    /// alone; the next pulse re-anchors at the then-current time.
    pub fn connection_opened(&mut self, port: usize)
        requires
            1 <= port,
        ensures
            final(self).connected == Some(port),
            final(self).next_tick_ns == old(self).next_tick_ns,
            !final(self).ticking,
            final(self).wf(),
    {
        self.connected = Some(port);
        self.ticking = false;
    }

    /// The embedding loop reports that a connection attempt failed, or that
    /// the connected device vanished: the scheduler is disconnected, pulse
    /// emission stops, and the next iterations keep retrying.
    pub fn connection_lost(&mut self)
        ensures
            final(self).connected is None,
            final(self).next_tick_ns == old(self).next_tick_ns,
            !final(self).ticking,
            final(self).wf(),
    {
        self.connected = None;
        self.ticking = false;
    }
}

/// The scheduler state after `k` consecutive iterations with unchanged
/// inputs: `k`-fold application of [`spec_step`].
pub open spec fn run_steps(
    s: ClockScheduler,
    tempo: i32,
    selection: usize,
    device_count: usize,
    now_ns: u64,
    k: nat,
) -> ClockScheduler
    decreases k,
{
    if k == 0 {
        s
    } else {
        spec_step(
            run_steps(s, tempo, selection, device_count, now_ns, (k - 1) as nat),
            tempo,
            selection,
            device_count,
            now_ns,
        ).0
    }
}

/// Once ticking, the current time no longer enters the decision at all: a
/// wake-up later than the deadline delays only that pulse, it never shifts
/// the phase of the schedule.
pub proof fn lemma_late_wakeup_keeps_phase(
    s: ClockScheduler,
    tempo: i32,
    selection: usize,
    device_count: usize,
    now_a: u64,
    now_b: u64,
)
    requires
        s.ticking,
    ensures
        spec_step(s, tempo, selection, device_count, now_a) == spec_step(
            s,
            tempo,
            selection,
            device_count,
            now_b,
        ),
{
}

/// A scheduler that is already ticking on the selected port keeps an exact
/// arithmetic schedule: after `k` further iterations the pending deadline
/// has advanced by exactly `k` intervals.
pub proof fn lemma_run_ticking_schedule(
    s: ClockScheduler,
    tempo: i32,
    selection: usize,
    device_count: usize,
    now_ns: u64,
    k: nat,
)
    requires
        s.connected == Some(selection),
        selectable(selection as int, device_count as int),
        s.ticking,
        MIN_BPM <= tempo <= MAX_BPM,
        s.next_tick_ns + k * spec_tick_interval_ns(tempo as int) <= u64::MAX,
    ensures
        ({
            let r = run_steps(s, tempo, selection, device_count, now_ns, k);
            &&& r.connected == Some(selection)
            &&& r.ticking
            &&& r.next_tick_ns == s.next_tick_ns + k * spec_tick_interval_ns(tempo as int)
        }),
    decreases k,
{
    let i = spec_tick_interval_ns(tempo as int);
    lemma_tick_interval_bounds(tempo as int);
    if k == 0 {
        assert(k * i == 0) by (nonlinear_arith)
            requires
                k == 0,
        ;
    } else {
        assert((k - 1) * i + i == k * i && (k - 1) * i <= k * i) by (nonlinear_arith)
            requires
                i >= 0,
                k >= 1,
        ;
        lemma_run_ticking_schedule(s, tempo, selection, device_count, now_ns, (k - 1) as nat);
    }
}

/// Drift-free scheduling: a run of pulses anchored at `start` hands out
/// `start + k * interval` as the deadline of tick number `k` — exactly the
/// anchor plus `k` intervals, so scheduling error never accumulates with
/// `k`.
pub proof fn lemma_drift_free(
    s: ClockScheduler,
    tempo: i32,
    selection: usize,
    device_count: usize,
    start: u64,
    k: nat,
)
    requires
        s.connected == Some(selection),
        selectable(selection as int, device_count as int),
        !s.ticking,
        MIN_BPM <= tempo <= MAX_BPM,
        start + (k + 1) * spec_tick_interval_ns(tempo as int) <= u64::MAX,
    ensures
        ({
            let r = run_steps(s, tempo, selection, device_count, start, k);
            spec_step(r, tempo, selection, device_count, start).1 matches Action::Pulse {
                deadline_ns,
            } && deadline_ns == start + k * spec_tick_interval_ns(tempo as int)
        }),
{
    let i = spec_tick_interval_ns(tempo as int);
    lemma_tick_interval_bounds(tempo as int);
    assert(k * i + i == (k + 1) * i && 0 <= k * i && i <= (k + 1) * i) by (nonlinear_arith)
        requires
            i >= 0,
            k >= 0,
    ;
    if k == 0 {
        assert(k * i == 0) by (nonlinear_arith)
            requires
                k == 0,
        ;
    } else {
        // After the anchoring first step the scheduler is ticking with the
        // deadline one interval past `start`; the remaining `k - 1` steps
        // advance it arithmetically.
        let s1 = spec_step(s, tempo, selection, device_count, start).0;
        assert(1 * i == i) by (nonlinear_arith);
        assert(s1.next_tick_ns == start + i);
        assert((k - 1) * i + i == k * i) by (nonlinear_arith)
            requires
                k >= 1,
        ;
        lemma_run_ticking_schedule(s1, tempo, selection, device_count, start, (k - 1) as nat);
        assert(run_steps(s, tempo, selection, device_count, start, k) == run_steps(
            s1,
            tempo,
            selection,
            device_count,
            start,
            (k - 1) as nat,
        )) by {
            lemma_run_steps_shift(s, tempo, selection, device_count, start, k);
        }
    }
}

/// Peeling the first step off a run: `k` steps from `s` reach the same
/// state as `k - 1` steps from `s`'s successor.
proof fn lemma_run_steps_shift(
    s: ClockScheduler,
    tempo: i32,
    selection: usize,
    device_count: usize,
    now_ns: u64,
    k: nat,
)
    requires
        k >= 1,
    ensures
        run_steps(s, tempo, selection, device_count, now_ns, k) == run_steps(
            spec_step(s, tempo, selection, device_count, now_ns).0,
            tempo,
            selection,
            device_count,
            now_ns,
            (k - 1) as nat,
        ),
    decreases k,
{
    let s1 = spec_step(s, tempo, selection, device_count, now_ns).0;
    if k == 1 {
        assert(run_steps(s, tempo, selection, device_count, now_ns, 1) == spec_step(
            run_steps(s, tempo, selection, device_count, now_ns, 0),
            tempo,
            selection,
            device_count,
            now_ns,
        ).0);
        assert(run_steps(s1, tempo, selection, device_count, now_ns, 0) == s1);
    } else {
        lemma_run_steps_shift(s, tempo, selection, device_count, now_ns, (k - 1) as nat);
        assert(run_steps(s, tempo, selection, device_count, now_ns, k) == spec_step(
            run_steps(s, tempo, selection, device_count, now_ns, (k - 1) as nat),
            tempo,
            selection,
            device_count,
            now_ns,
        ).0);
        assert(run_steps(s1, tempo, selection, device_count, now_ns, (k - 1) as nat) == spec_step(
            run_steps(s1, tempo, selection, device_count, now_ns, (k - 2) as nat),
            tempo,
            selection,
            device_count,
            now_ns,
        ).0);
    }
}

/// Re-posting an unchanged (or equal) tempo and selection causes no
/// connection churn: while the selection still names the connected port,
/// no iteration reopens the connection, whatever the tempo reads.
pub proof fn lemma_no_connection_churn(
    s: ClockScheduler,
    tempo: i32,
    selection: usize,
    device_count: usize,
    now_ns: u64,
)
    requires
        s.connected == Some(selection),
        selectable(selection as int, device_count as int),
    ensures
        spec_step(s, tempo, selection, device_count, now_ns).1 !is Connect,
        spec_step(s, tempo, selection, device_count, now_ns).0.connected == Some(selection),
{
}

/// Changing the selection away from the connected port closes that
/// connection and attempts the newly selected port on the very next
/// iteration, whatever the current tempo reads.
pub proof fn lemma_selection_change_reconnects(
    s: ClockScheduler,
    tempo: i32,
    old_port: usize,
    new_selection: usize,
    device_count: usize,
    now_ns: u64,
)
    requires
        s.connected == Some(old_port),
        new_selection != old_port,
        selectable(new_selection as int, device_count as int),
    ensures
        spec_step(s, tempo, new_selection, device_count, now_ns).0.connected is None,
        spec_step(s, tempo, new_selection, device_count, now_ns).1 == (Action::Connect {
            port: new_selection,
        }),
{
}

/// A tempo change is never retroactive: the pulse already scheduled keeps
/// its deadline whatever tempo is read, and only the deadline after it
/// moves by the new tempo's interval.
pub proof fn lemma_tempo_change_from_next_tick(
    s: ClockScheduler,
    old_tempo: i32,
    new_tempo: i32,
    selection: usize,
    device_count: usize,
    now_ns: u64,
)
    requires
        s.connected == Some(selection),
        selectable(selection as int, device_count as int),
        s.ticking,
        MIN_BPM <= old_tempo <= MAX_BPM,
        MIN_BPM <= new_tempo <= MAX_BPM,
    ensures
        spec_step(s, old_tempo, selection, device_count, now_ns).1 == spec_step(
            s,
            new_tempo,
            selection,
            device_count,
            now_ns,
        ).1,
        spec_step(s, new_tempo, selection, device_count, now_ns).1 == (Action::Pulse {
            deadline_ns: s.next_tick_ns,
        }),
        spec_step(s, new_tempo, selection, device_count, now_ns).0.next_tick_ns == (
        s.next_tick_ns + spec_tick_interval_ns(new_tempo as int)) as u64,
{
}

/// Disconnection is recoverable: once the connection is reported lost, the
/// very next iteration with a selectable port attempts to reconnect to it.
pub proof fn lemma_reconnect_after_loss(
    s: ClockScheduler,
    tempo: i32,
    selection: usize,
    device_count: usize,
    now_ns: u64,
)
    requires
        s.connected is None,
        selectable(selection as int, device_count as int),
    ensures
        spec_step(s, tempo, selection, device_count, now_ns).1 == (Action::Connect {
            port: selection,
        }),
{
}

} // verus!
