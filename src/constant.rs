use vstd::prelude::*;

verus! {

/// Number of resource kinds a field can yield.
pub const RESOURCE_COUNT: u64 = 6;

/// A discovery roll must reach this value; every failed attempt adds one.
pub const RF_CHANCE: u64 = 50000;

pub const RF_MIN_YIELD: u64 = 5;

pub const RF_MAX_YIELD: u64 = 15;

/// Longest refresh interval, in milliseconds (two hours).
pub const RF_MAX_TIMER: u64 = 7200000;

/// Shortest refresh interval, in milliseconds (five minutes).
pub const RF_MIN_TIMER: u64 = 300000;

} // verus!
