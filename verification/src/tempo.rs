//! The tempo domain and the clamped tempo gestures.

use vstd::prelude::*;

verus! {

/// Lowest playable tempo, in beats per minute.
pub const MIN_BPM: i32 = 40;

/// Highest playable tempo, in beats per minute.
pub const MAX_BPM: i32 = 300;

/// A tempo is either 0 — stopped, no pulses are emitted — or a
/// beats-per-minute value inside the playable range.
pub open spec fn valid_tempo(bpm: int) -> bool {
    bpm == 0 || (MIN_BPM <= bpm && bpm <= MAX_BPM)
}

/// Executable test for [`valid_tempo`].
pub fn is_valid_tempo(bpm: i32) -> (r: bool)
    ensures
        r == valid_tempo(bpm as int),
{
    bpm == 0 || (MIN_BPM <= bpm && bpm <= MAX_BPM)
}

/// Where an increment / decrement gesture moves the tempo: the moved value,
/// clamped back into the playable range. A downward gesture while stopped
/// stays stopped; an upward gesture while stopped starts at the lowest
/// playable tempo.
pub open spec fn spec_nudge(bpm: int, delta: int) -> int {
    let moved = bpm + delta;
    if bpm == 0 && delta <= 0 {
        0
    } else if moved < MIN_BPM {
        MIN_BPM as int
    } else if moved > MAX_BPM {
        MAX_BPM as int
    } else {
        moved
    }
}

/// Every gesture lands in the valid tempo domain, whatever it started from.
pub proof fn lemma_nudge_valid(bpm: int, delta: int)
    ensures
        valid_tempo(spec_nudge(bpm, delta)),
{
}

/// Apply an increment / decrement gesture (such as +1, -1, +10, -10) to a
/// tempo, clamping the result into the valid domain.
pub fn nudge_tempo(bpm: i32, delta: i32) -> (r: i32)
    ensures
        r as int == spec_nudge(bpm as int, delta as int),
        valid_tempo(r as int),
{
    let moved: i64 = bpm as i64 + delta as i64;
    if bpm == 0 && delta <= 0 {
        0
    } else if moved < MIN_BPM as i64 {
        MIN_BPM
    } else if moved > MAX_BPM as i64 {
        MAX_BPM
    } else {
        moved as i32
    }
}

} // verus!
