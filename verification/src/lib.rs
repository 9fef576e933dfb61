//! Verified core of a MIDI clock generator.
//!
//! The crate contains the logic that drives a stream of MIDI timing-clock
//! pulses at a tempo chosen interactively:
//!
//! - [`tempo`]: the tempo domain (0 = stopped, or 40..=300 beats per minute)
//!   and the clamped increment / decrement gestures;
//! - [`tap`]: deriving a tempo from the interval between two taps;
//! - [`clock`]: the scheduler state machine — drift-free tick scheduling and
//!   the connection-repair decisions — as a pure transition function, so the
//!   surrounding loop only performs the actions it is told to;
//! - [`shared`]: the two lock-free cells (tempo and port selection) through
//!   which the interactive thread and the scheduler thread communicate, with
//!   validation at the write site;
//! - [`registry`]: the list of device display names enumerated once at
//!   startup.
//!
//! Sleeping, device enumeration and the actual MIDI output connection are
//! performed by the embedding program, which runs the scheduler loop by
//! calling [`clock::ClockScheduler::step`] and executing the returned
//! [`clock::Action`].

pub mod clock;
pub mod registry;
pub mod shared;
pub mod tap;
pub mod tempo;
