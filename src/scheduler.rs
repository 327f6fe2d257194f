//! The countdown that decides when a new item appears.

use vstd::prelude::*;

verus! {

/// Milliseconds between two spawns unless told otherwise.
pub const DEFAULT_INTERVAL_MS: u64 = 5000;

/// Left margin of the spawn band, in pixels.
pub const SPAWN_MARGIN_LEFT: u32 = 10;

/// Right margin of the spawn band, in pixels.
pub const SPAWN_MARGIN_RIGHT: u32 = 30;

/// Thousandths of a pixel in one pixel.
pub const UNITS_PER_PIXEL: u64 = 1000;

/// A countdown that fires once `interval_ms` milliseconds have run out and
/// then starts again from the full interval.
#[derive(Clone, Copy, Debug, PartialEq, Eq, Structural)]
pub struct SpawnScheduler {
    pub remaining_ms: u64,
    pub interval_ms: u64,
}

/// The countdown after `elapsed_ms` more milliseconds, and whether it fired.
/// It fires when the time left goes below zero, at most once per tick, and
/// then restarts from the full interval without carrying the overshoot.
pub open spec fn ticked(s: SpawnScheduler, elapsed_ms: u32) -> (SpawnScheduler, bool) {
    if elapsed_ms > s.remaining_ms {
        (SpawnScheduler { remaining_ms: s.interval_ms, ..s }, true)
    } else {
        (SpawnScheduler { remaining_ms: (s.remaining_ms - elapsed_ms) as u64, ..s }, false)
    }
}

/// The band of `x`, in thousandths of a pixel, where an item may appear in a
/// viewport `width` pixels wide: from the left margin up to, not including,
/// the right margin. `None` when the band is empty.
pub open spec fn spawn_band(width: u32) -> Option<(u64, u64)> {
    if width > SPAWN_MARGIN_LEFT + SPAWN_MARGIN_RIGHT {
        Some(
            (
                (SPAWN_MARGIN_LEFT * UNITS_PER_PIXEL) as u64,
                ((width - SPAWN_MARGIN_RIGHT) * UNITS_PER_PIXEL) as u64,
            ),
        )
    } else {
        None
    }
}

impl SpawnScheduler {
    /// A countdown that starts full.
    pub fn new(interval_ms: u64) -> (r: SpawnScheduler)
        ensures
            r.remaining_ms == interval_ms,
            r.interval_ms == interval_ms,
    {
        SpawnScheduler { remaining_ms: interval_ms, interval_ms }
    }

    /// Counts down by `elapsed_ms`; returns whether an item is due.
    pub fn tick(&mut self, elapsed_ms: u32) -> (fired: bool)
        ensures
            (*final(self), fired) == ticked(*old(self), elapsed_ms),
    {
        if elapsed_ms as u64 > self.remaining_ms {
            self.remaining_ms = self.interval_ms;
            true
        } else {
            self.remaining_ms = self.remaining_ms - elapsed_ms as u64;
            false
        }
    }
}

/// The spawn band for a viewport `width` pixels wide.
pub fn spawn_band_for(width: u32) -> (r: Option<(u64, u64)>)
    ensures
        r == spawn_band(width),
        r matches Some((lo, hi)) ==> lo < hi,
{
    if width > SPAWN_MARGIN_LEFT + SPAWN_MARGIN_RIGHT {
        let lo: u64 = SPAWN_MARGIN_LEFT as u64 * UNITS_PER_PIXEL;
        let hi: u64 = (width - SPAWN_MARGIN_RIGHT) as u64 * UNITS_PER_PIXEL;
        Some((lo, hi))
    } else {
        None
    }
}

} // verus!
