//! Tap tempo: turning the measured interval between two taps into a tempo.

use vstd::prelude::*;
use crate::tempo::{valid_tempo, MAX_BPM, MIN_BPM};

verus! {

/// Microseconds in one minute: the numerator of the tap-tempo formula.
pub const MINUTE_US: u64 = 60_000_000;

/// The beats-per-minute value measured by an interval of `elapsed_us`
/// microseconds between two taps: `60 / elapsed-in-seconds`, rounded to the
/// nearest integer (halves away from zero). Written over integers:
/// `(2 * MINUTE_US + elapsed_us) / (2 * elapsed_us)` is exactly
/// `floor(MINUTE_US / elapsed_us + 1/2)`.
pub open spec fn spec_tap_bpm(elapsed_us: int) -> int
    recommends
        elapsed_us > 0,
{
    (2 * MINUTE_US + elapsed_us) / (2 * elapsed_us)
}

/// Compute a tempo from the interval between two taps, in microseconds.
///
/// Returns the rounded beats-per-minute value exactly when the interval is
/// positive and the result lies in the playable range; any other interval is
/// rejected and must cause no tempo change.
pub fn bpm_from_tap_interval(elapsed_us: u64) -> (r: Option<i32>)
    ensures
        r matches Some(bpm) ==> {
            &&& elapsed_us > 0
            &&& bpm as int == spec_tap_bpm(elapsed_us as int)
            &&& MIN_BPM <= bpm <= MAX_BPM
            &&& valid_tempo(bpm as int)
        },
        r is None ==> {
            ||| elapsed_us == 0
            ||| spec_tap_bpm(elapsed_us as int) < MIN_BPM
            ||| spec_tap_bpm(elapsed_us as int) > MAX_BPM
        },
{
    if elapsed_us == 0 {
        return None;
    }
    let num: u128 = 2 * (MINUTE_US as u128) + (elapsed_us as u128);
    let den: u128 = 2 * (elapsed_us as u128);
    let q: u128 = num / den;
    if (MIN_BPM as u128) <= q && q <= (MAX_BPM as u128) {
        Some(q as i32)
    } else {
        None
    }
}

} // verus!
