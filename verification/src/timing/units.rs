//! Units and limits. No quantity of this library is a floating-point number:
//! a time is a whole number of nanoseconds, and every quantity that may have a
//! fractional part (milliseconds, hertz, a share between 0 and 1) is a whole
//! number of millionths, so that `ONE` stands for 1 and a millisecond for a
//! million, which is its number of nanoseconds. Each division rounds toward
//! zero, with one exception: a rate that was achieved is never rounded to 0,
//! which stands for no rate at all.

use vstd::prelude::*;

verus! {

/// The number 1 in millionths.
pub const ONE: u64 = 1_000_000;

/// Nanoseconds in a second.
pub const NANOS_PER_SECOND: u64 = 1_000_000_000;

/// The slowest rate a pacer can be asked to hold, in cycles per second.
pub const MIN_TARGET_HZ: u32 = 1;

/// The fastest rate a pacer can be asked to hold, in cycles per second.
pub const MAX_TARGET_HZ: u32 = 50_000;

/// The least rate that a pacer reports once it has completed a cycle, in
/// millionths of a hertz: what every slower rate is reported as.
pub const LEAST_RATE: u64 = 1;

/// The rate in cycles per second below which a rhythm counts as failed.
pub const CRITICAL_HZ: u64 = 30;

/// The rate in cycles per second from which a rhythm can count as optimal.
pub const OPTIMAL_HZ: u64 = 90;

/// The rate in cycles per second from which a rhythm can count as stable.
pub const STABLE_HZ: u64 = 60;

/// The precision, in millionths, from which a rhythm can count as optimal.
pub const OPTIMAL_PRECISION: u64 = 900_000;

/// The precision, in millionths, from which a rhythm can count as stable.
pub const STABLE_PRECISION: u64 = 800_000;

/// The jitter of a loop that sleeps without a pacer, in millionths of a
/// millisecond: the figure that a pacer's jitter is compared with.
pub const UNPACED_JITTER_MS: u64 = 35_000_000;

/// The slowest rate that a controller proposes, in cycles per second.
pub const MIN_ADAPTIVE_HZ: u32 = 30;

/// The fastest rate that a controller proposes, in cycles per second.
pub const MAX_ADAPTIVE_HZ: u32 = 50_000;

/// How far good health and a light load raise the rate that a controller
/// aims at above its base rate, in millionths: by a tenth at most.
pub const ADJUSTMENT_SENSITIVITY: u64 = 100_000;

/// The share of the gap between the proposed rate and the rate aimed at that
/// one adjustment closes, in millionths: a tenth.
pub const ADJUSTMENT_STEP: u64 = 100_000;

} // verus!
