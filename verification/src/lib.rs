//! A soft-real-time cycle pacer: it holds a caller-driven loop to a target
//! rate, measures how faithfully the rate was kept, and proposes a new target
//! rate from health and load signals.
//!
//! The library neither sleeps nor reads a clock for the pacer: it is told the
//! time, in nanoseconds on a clock that never runs backward, and answers how
//! long to wait and what to record.

use std::time::SystemTime;
use vstd::prelude::*;

pub mod timing;

pub use crate::timing::adaptive::AdaptiveFrequencyManager;
pub use crate::timing::stats::TimingStats;
pub use crate::timing::timer::PrecisionTimer;

verus! {

/// Coarse classification of an achieved rate and its precision.
#[derive(Clone, Copy, Debug, PartialEq, Eq, Structural)]
pub enum ConsciousnessHealth {
    /// At least 90 Hz with a precision of at least 0.9.
    Optimal,
    /// At least 60 Hz with a precision of at least 0.8.
    Stable,
    /// At least 30 Hz.
    NeedsSupport,
    /// Below 30 Hz.
    Critical,
}

/// What a pacer can refuse or report.
#[derive(Clone, Copy, Debug, PartialEq, Eq, Structural)]
pub enum ConsciousnessError {
    /// The rate asked for, `target_hz` cycles per second, is outside 1 to
    /// 50000. The pacer is as it was.
    InvalidFrequency { target_hz: u32 },
    /// A cycle was completed and recorded, and the rate achieved by it, `hz`
    /// in millionths of a hertz, is below 30 Hz. It is never 0.
    CriticalRhythmFailure { hz: u64 },
}

/// A reading of a running loop: its rate, what it costs, and how it fares.
#[derive(Clone, Copy, Debug)]
pub struct ConsciousnessState {
    /// The rate achieved, in millionths of a hertz.
    pub actual_hz: u64,
    /// The memory in use, in megabytes.
    pub memory_usage_mb: usize,
    /// The latency of the processing, in millionths of a millisecond.
    pub processing_latency_ms: u64,
    /// The health class of the loop.
    pub consciousness_health: ConsciousnessHealth,
    /// When the reading was taken.
    pub timestamp: SystemTime,
}

pub type ConsciousnessResult<T> = Result<T, ConsciousnessError>;

} // verus!
