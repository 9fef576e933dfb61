//! The lock-free bridge between the interactive thread and the scheduler
//! thread: two sequentially consistent cells, one holding the tempo and one
//! the selected port index, each written by exactly one thread and read by
//! the other.
//!
//! Values are validated at the write site, so an out-of-range write never
//! reaches a cell; a reader may still see any previously stored value, and
//! the contracts promise nothing about which, since the other thread may
//! store between any two operations. The embedding program shares a cell
//! across threads by wrapping it in an `Arc`.

use core::sync::atomic::{AtomicI32, AtomicUsize, Ordering};
use vstd::prelude::*;
use crate::clock::selectable;
use crate::tempo::{is_valid_tempo, valid_tempo};

verus! {

/// The tempo cell: 0 (stopped) or a playable beats-per-minute value,
/// written by the interactive thread, polled by the scheduler thread.
pub struct SharedTempoState {
    cell: AtomicI32,
}

impl SharedTempoState {
    /// A fresh tempo cell, starting stopped.
    pub fn new() -> Self {
        SharedTempoState { cell: AtomicI32::new(0) }
    }

    /// Store a tempo, but only a valid one: an out-of-range value is
    /// rejected and leaves the cell untouched. Returns whether the value
    /// was stored.
    pub fn set(&self, bpm: i32) -> (accepted: bool)
        ensures
            accepted == valid_tempo(bpm as int),
    {
        if is_valid_tempo(bpm) {
            self.cell.store(bpm, Ordering::SeqCst);
            true
        } else {
            false
        }
    }

    /// Read the current tempo. Nothing is promised of the value: the
    /// writing thread may store at any moment, and the scheduler treats
    /// every reading it cannot tick on as "stopped".
    pub fn get(&self) -> i32 {
        self.cell.load(Ordering::SeqCst)
    }
}

/// The port-selection cell: the index of the output device the scheduler
/// should be connected to, written by the interactive thread, polled by the
/// scheduler thread.
pub struct SharedPortSelection {
    cell: AtomicUsize,
}

impl SharedPortSelection {
    /// A fresh selection cell, starting at index 1: the first selectable
    /// device, since index 0 is reserved and never auto-connected.
    pub fn new() -> Self {
        SharedPortSelection { cell: AtomicUsize::new(1) }
    }

    /// Store a port selection, but only a selectable index of a device
    /// list of `device_count` entries: the reserved index 0 and any
    /// out-of-bounds index are rejected and leave the cell untouched.
    /// Returns whether the index was stored.
    pub fn set(&self, index: usize, device_count: usize) -> (accepted: bool)
        ensures
            accepted == selectable(index as int, device_count as int),
    {
        if 1 <= index && index < device_count {
            self.cell.store(index, Ordering::SeqCst);
            true
        } else {
            false
        }
    }

    /// Read the current selection. Nothing is promised of the value; the
    /// scheduler treats an unselectable reading as "no device".
    pub fn get(&self) -> usize {
        self.cell.load(Ordering::SeqCst)
    }
}

} // verus!
