//! The controller that proposes a rate from health and load: it moves a
//! current rate a tenth of the way toward the rate that the signals ask for.

use crate::timing::units::ADJUSTMENT_SENSITIVITY;
use crate::timing::units::ADJUSTMENT_STEP;
use crate::timing::units::MAX_ADAPTIVE_HZ;
use crate::timing::units::MIN_ADAPTIVE_HZ;
use crate::timing::units::ONE;
use crate::timing::window::push_bounded;
use crate::timing::window::BoundedFifo;
use std::time::SystemTime;
use vstd::prelude::*;

verus! {

/// A time of day as the system's clock gives it. Nothing is read from it: it
/// is kept beside what was decided at that time.
#[verifier::external_type_specification]
#[verifier::external_body]
pub struct ExSystemTime(SystemTime);

/// The number of adjustments that a controller keeps.
pub const FREQUENCY_HISTORY_CAPACITY: usize = 1000;

/// One adjustment: when it was made, the rate that came of it, and the health
/// that was given, in millionths and as given.
#[derive(Clone, Copy, Debug)]
pub struct FrequencyHistoryEntry {
    pub timestamp: SystemTime,
    pub frequency: u32,
    pub health: u64,
}

/// What a controller holds, as plain values.
pub struct ControllerState {
    /// The rate that the controller started from, in cycles per second.
    pub base_frequency: u32,
    /// The rate that it proposes now.
    pub current_frequency: u32,
    /// The most recent adjustments, oldest first.
    pub frequency_history: Seq<FrequencyHistoryEntry>,
}

/// A share in millionths, held to the range from 0 to 1.
pub open spec fn clamp_share(share: u64) -> int {
    if share > ONE {
        ONE as int
    } else {
        share as int
    }
}

/// The rate that the signals ask for: the base rate, raised by up to the
/// sensitivity in proportion to the health and to what the load leaves free,
/// and rounded toward zero.
pub open spec fn desired_frequency(base: u32, health: u64, load: u64) -> int {
    base + base * clamp_share(health) * (ONE - clamp_share(load)) * ADJUSTMENT_SENSITIVITY / (ONE
        * ONE * ONE)
}

/// The step from `current` toward `desired`: a tenth of the gap, rounded
/// toward zero.
pub open spec fn step_toward(desired: int, current: int) -> int {
    if desired >= current {
        (desired - current) * ADJUSTMENT_STEP / (ONE as int)
    } else {
        -((current - desired) * ADJUSTMENT_STEP / (ONE as int))
    }
}

/// A rate held to the range that a controller proposes from, 30 to 50000.
pub open spec fn clamp_frequency(frequency: int) -> int {
    if frequency < MIN_ADAPTIVE_HZ {
        MIN_ADAPTIVE_HZ as int
    } else if frequency > MAX_ADAPTIVE_HZ {
        MAX_ADAPTIVE_HZ as int
    } else {
        frequency
    }
}

/// The rate that a controller proposes after an adjustment.
pub open spec fn next_frequency(base: u32, current: u32, health: u64, load: u64) -> int {
    clamp_frequency(current + step_toward(desired_frequency(base, health, load), current as int))
}

/// The controller `state` after an adjustment made at `timestamp`: it
/// proposes the next rate and has the adjustment as its most recent.
pub open spec fn adjusted(
    state: ControllerState,
    timestamp: SystemTime,
    health: u64,
    load: u64,
) -> ControllerState {
    let frequency = next_frequency(state.base_frequency, state.current_frequency, health, load)
        as u32;
    ControllerState {
        current_frequency: frequency,
        frequency_history: push_bounded(
            state.frequency_history,
            FrequencyHistoryEntry { timestamp, frequency, health },
            FREQUENCY_HISTORY_CAPACITY as nat,
        ),
        ..state
    }
}

/// An adjustment is damped: the step goes toward the rate aimed at and
/// covers at most a tenth of the gap, so it never passes that rate.
pub proof fn lemma_step_is_damped(desired: int, current: int)
    ensures
        desired >= current ==> 0 <= 10 * step_toward(desired, current) <= desired - current,
        desired <= current ==> desired - current <= 10 * step_toward(desired, current) <= 0,
{
}

/// Whatever the signals are, the rate aimed at is at least the base rate and
/// at most a tenth above it.
pub proof fn lemma_desired_is_near_base(base: u32, health: u64, load: u64)
    ensures
        base <= desired_frequency(base, health, load) <= base + base / 10,
{
    let health_factor = clamp_share(health);
    let load_factor = ONE - clamp_share(load);
    assert(0 <= base * health_factor <= base * 1_000_000) by (nonlinear_arith)
        requires
            0 <= health_factor <= 1_000_000,
            base >= 0,
    ;
    assert(0 <= base * health_factor * load_factor <= base * 1_000_000_000_000)
        by (nonlinear_arith)
        requires
            0 <= base * health_factor <= base * 1_000_000,
            0 <= load_factor <= 1_000_000,
    ;
    assert(ONE * ONE * ONE == 1_000_000_000_000_000_000);
}

/// The first adjustment of a controller whose base rate is at most 50000
/// never proposes less than the base rate.
pub proof fn lemma_first_adjustment_never_lowers(base: u32, health: u64, load: u64)
    requires
        base <= MAX_ADAPTIVE_HZ,
    ensures
        next_frequency(base, base, health, load) >= base,
{
    lemma_desired_is_near_base(base, health, load);
    lemma_step_is_damped(desired_frequency(base, health, load), base as int);
}

/// Reads the system's clock with `std::time::SystemTime::now`. Nothing is
/// claimed of the time that comes back.
#[verifier::external_body]
fn wall_clock_now() -> SystemTime {
    SystemTime::now()
}

/// A controller that proposes a rate for a pacer from the health of the loop
/// and the load on it, both shares between 0 and 1 in millionths.
#[derive(Debug)]
pub struct AdaptiveFrequencyManager {
    base_frequency: u32,
    current_frequency: u32,
    frequency_history: BoundedFifo<FrequencyHistoryEntry, FREQUENCY_HISTORY_CAPACITY>,
}

impl View for AdaptiveFrequencyManager {
    type V = ControllerState;

    closed spec fn view(&self) -> ControllerState {
        ControllerState {
            base_frequency: self.base_frequency,
            current_frequency: self.current_frequency,
            frequency_history: self.frequency_history@,
        }
    }
}

impl AdaptiveFrequencyManager {
    /// A controller that starts from `base_frequency` cycles per second and
    /// proposes that rate until it is adjusted.
    pub fn new(base_frequency: u32) -> (made: Self)
        ensures
            made@ == (ControllerState {
                base_frequency,
                current_frequency: base_frequency,
                frequency_history: Seq::empty(),
            }),
    {
        AdaptiveFrequencyManager {
            base_frequency,
            current_frequency: base_frequency,
            frequency_history: BoundedFifo::new(),
        }
    }

    /// Adjusts the proposed rate to the health of the loop and the load on
    /// it, notes the adjustment with the time of the system's clock, and
    /// returns the rate now proposed.
    pub fn adjust_frequency(&mut self, consciousness_health: u64, processing_load: u64) -> (frequency:
        u32)
        ensures
            exists|timestamp: SystemTime|
                final(self)@ == adjusted(
                    old(self)@,
                    timestamp,
                    consciousness_health,
                    processing_load,
                ),
            frequency == next_frequency(
                old(self)@.base_frequency,
                old(self)@.current_frequency,
                consciousness_health,
                processing_load,
            ),
            MIN_ADAPTIVE_HZ <= frequency <= MAX_ADAPTIVE_HZ,
    {
        let now = wall_clock_now();
        self.adjust_frequency_at(now, consciousness_health, processing_load)
    }

    /// Adjusts the proposed rate as `adjust_frequency` does, for an
    /// adjustment made at `now`.
    pub fn adjust_frequency_at(
        &mut self,
        now: SystemTime,
        consciousness_health: u64,
        processing_load: u64,
    ) -> (frequency: u32)
        ensures
            final(self)@ == adjusted(old(self)@, now, consciousness_health, processing_load),
            frequency == next_frequency(
                old(self)@.base_frequency,
                old(self)@.current_frequency,
                consciousness_health,
                processing_load,
            ),
            MIN_ADAPTIVE_HZ <= frequency <= MAX_ADAPTIVE_HZ,
    {
        let target: u64 = target_frequency(
            self.base_frequency,
            consciousness_health,
            processing_load,
        );
        let current: u64 = self.current_frequency as u64;
        let moved: u64 = if target >= current {
            current + (target - current) * ADJUSTMENT_STEP / ONE
        } else {
            current - (current - target) * ADJUSTMENT_STEP / ONE
        };
        let frequency: u32 = if moved < MIN_ADAPTIVE_HZ as u64 {
            MIN_ADAPTIVE_HZ
        } else if moved > MAX_ADAPTIVE_HZ as u64 {
            MAX_ADAPTIVE_HZ
        } else {
            moved as u32
        };
        self.current_frequency = frequency;
        self.frequency_history.push(
            FrequencyHistoryEntry { timestamp: now, frequency, health: consciousness_health },
        );
        frequency
    }

    /// The rate proposed now.
    pub fn get_current_frequency(&self) -> (frequency: u32)
        ensures
            frequency == self@.current_frequency,
    {
        self.current_frequency
    }

    /// The rate that the controller started from.
    pub fn get_base_frequency(&self) -> (frequency: u32)
        ensures
            frequency == self@.base_frequency,
    {
        self.base_frequency
    }

    /// The most recent adjustments, oldest first.
    pub fn frequency_history(&self) -> (history: &BoundedFifo<
        FrequencyHistoryEntry,
        FREQUENCY_HISTORY_CAPACITY,
    >)
        ensures
            history@ == self@.frequency_history,
    {
        &self.frequency_history
    }

    /// Goes back to proposing the base rate. The adjustments made so far
    /// stay on record.
    pub fn reset_to_base(&mut self)
        ensures
            final(self)@ == (ControllerState {
                current_frequency: old(self)@.base_frequency,
                ..old(self)@
            }),
    {
        self.current_frequency = self.base_frequency;
    }
}

/// The rate that the signals ask for: see `desired_frequency`.
fn target_frequency(base: u32, health: u64, load: u64) -> (target: u64)
    ensures
        target == desired_frequency(base, health, load),
        base <= target <= base + base / 10,
{
    let health_factor: u128 = if health > ONE {
        ONE as u128
    } else {
        health as u128
    };
    let load_factor: u128 = if load > ONE {
        0
    } else {
        (ONE - load) as u128
    };
    let wide: u128 = base as u128;
    assert(wide * health_factor <= wide * 1_000_000) by (nonlinear_arith)
        requires
            health_factor <= 1_000_000,
    ;
    let by_health: u128 = wide * health_factor;
    assert(by_health * load_factor <= wide * 1_000_000_000_000) by (nonlinear_arith)
        requires
            by_health <= wide * 1_000_000,
            load_factor <= 1_000_000,
    ;
    let by_load: u128 = by_health * load_factor;
    assert(ONE * ONE * ONE == 1_000_000_000_000_000_000);
    assert(by_load * ADJUSTMENT_SENSITIVITY / (ONE * ONE * ONE) <= wide / 10);
    let raised: u128 = by_load * ADJUSTMENT_SENSITIVITY as u128 / (ONE as u128 * ONE as u128
        * ONE as u128);
    (wide + raised) as u64
}

} // verus!
