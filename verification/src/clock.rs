//! The monotonic clock capability: conversion from raw hardware timer
//! ticks to the millisecond durations that drive time-based UI state.
//! Reading the timer itself belongs to the surrounding platform; only the
//! conversion is done here.

use vstd::prelude::*;

verus! {

/// Converts a raw tick count of a timer running at `ticks_per_second`
/// into whole milliseconds since the timer started.
pub fn ticks_to_millis(ticks: u64, ticks_per_second: u64) -> (ms: u64)
    requires
        ticks_per_second >= 1000,
    ensures
        ms == ticks / (ticks_per_second / 1000),
{
    ticks / (ticks_per_second / 1000)
}

} // verus!
