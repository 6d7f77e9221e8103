//! Pacing of a work loop: the bounded record of what happened, the summary
//! drawn from it, the pacer itself, and the controller that proposes a rate.

pub mod adaptive;
pub mod stats;
pub mod timer;
pub mod units;
pub mod window;

pub use crate::timing::adaptive::AdaptiveFrequencyManager;
pub use crate::timing::stats::TimingStats;
pub use crate::timing::timer::PrecisionTimer;
