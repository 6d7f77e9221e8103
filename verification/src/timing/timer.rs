//! The pacer: a target rate, the deadline of the last cycle, and a window of
//! the most recent cycle times.

use crate::timing::stats::summarize;
use crate::timing::stats::summarizes;
use crate::timing::stats::TimingStats;
use crate::timing::units::CRITICAL_HZ;
use crate::timing::units::LEAST_RATE;
use crate::timing::units::MAX_TARGET_HZ;
use crate::timing::units::MIN_TARGET_HZ;
use crate::timing::units::NANOS_PER_SECOND;
use crate::timing::units::ONE;
use crate::timing::window::push_bounded;
use crate::timing::window::BoundedFifo;
use crate::ConsciousnessError;
use crate::ConsciousnessResult;
use vstd::prelude::*;

verus! {

/// The number of cycle times that a pacer keeps.
pub const TIMING_HISTORY_CAPACITY: usize = 100;

/// The window of a pacer: the times that its most recent cycles took, in
/// nanoseconds.
pub type TimingWindow = BoundedFifo<u64, TIMING_HISTORY_CAPACITY>;

/// Whether a pacer can be asked to hold `hz` cycles per second.
pub open spec fn valid_target(hz: u32) -> bool {
    MIN_TARGET_HZ <= hz <= MAX_TARGET_HZ
}

/// The time that one cycle takes at `hz` cycles per second, in nanoseconds,
/// rounded toward zero.
pub open spec fn cycle_duration_of(hz: u32) -> int {
    (NANOS_PER_SECOND as int) / (hz as int)
}

/// A rate that a pacer can hold, with the time of one cycle at that rate.
#[derive(Clone, Copy, Debug)]
pub struct RateTarget {
    hz: u32,
    cycle_duration_ns: u64,
}

impl RateTarget {
    /// The rate in cycles per second.
    pub closed spec fn spec_hz(&self) -> u32 {
        self.hz
    }

    /// The time of one cycle in nanoseconds.
    pub closed spec fn spec_cycle_duration_ns(&self) -> u64 {
        self.cycle_duration_ns
    }

    /// What holds of every rate target: a pacer can hold the rate, and the
    /// cycle time is that of the rate.
    #[verifier::type_invariant]
    pub open spec fn holds(self) -> bool {
        &&& valid_target(self.spec_hz())
        &&& self.spec_cycle_duration_ns() == cycle_duration_of(self.spec_hz())
    }

    /// The rate of `hz` cycles per second, where a pacer can hold it.
    pub fn new(hz: u32) -> (made: ConsciousnessResult<RateTarget>)
        ensures
            valid_target(hz) ==> made is Ok && made->Ok_0.spec_hz() == hz
                && made->Ok_0.spec_cycle_duration_ns() == cycle_duration_of(hz),
            !valid_target(hz) ==> made == Err::<RateTarget, ConsciousnessError>(
                ConsciousnessError::InvalidFrequency { target_hz: hz },
            ),
    {
        if hz < MIN_TARGET_HZ || hz > MAX_TARGET_HZ {
            return Err(ConsciousnessError::InvalidFrequency { target_hz: hz });
        }
        Ok(RateTarget { hz, cycle_duration_ns: NANOS_PER_SECOND / hz as u64 })
    }

    /// The rate in cycles per second.
    #[verifier::when_used_as_spec(spec_hz)]
    pub fn hz(&self) -> (hz: u32)
        ensures
            hz == self.spec_hz(),
            valid_target(hz),
    {
        proof {
            use_type_invariant(self);
        }
        self.hz
    }

    /// The time of one cycle in nanoseconds.
    #[verifier::when_used_as_spec(spec_cycle_duration_ns)]
    pub fn cycle_duration_ns(&self) -> (duration: u64)
        ensures
            duration == self.spec_cycle_duration_ns(),
            duration == cycle_duration_of(self.spec_hz()),
            1 <= duration <= NANOS_PER_SECOND,
    {
        proof {
            use_type_invariant(self);
            let hz = self.hz as int;
            assert(1 <= (NANOS_PER_SECOND as int) / hz <= NANOS_PER_SECOND) by (nonlinear_arith)
                requires
                    1 <= hz <= 50_000,
                    NANOS_PER_SECOND == 1_000_000_000,
            ;
        }
        self.cycle_duration_ns
    }
}

/// What a pacer holds, as plain values.
pub struct PacerState {
    /// The rate that the pacer aims at, in cycles per second.
    pub target_hz: u32,
    /// The time of one cycle at that rate, in nanoseconds.
    pub cycle_duration_ns: u64,
    /// The deadline of the last completed cycle, if there was one.
    pub last_cycle: Option<u64>,
    /// The times that the most recent cycles took, oldest first, in
    /// nanoseconds.
    pub timing_history: Seq<u64>,
}

/// What holds of every pacer: its rate is one that a pacer can hold, its
/// cycle time is that of its rate, and its window is not over its capacity.
pub open spec fn consistent(state: PacerState) -> bool {
    &&& valid_target(state.target_hz)
    &&& state.cycle_duration_ns == cycle_duration_of(state.target_hz)
    &&& state.timing_history.len() <= TIMING_HISTORY_CAPACITY
}

/// A pacer that was just made for `hz` cycles per second.
pub open spec fn fresh_pacer(hz: u32) -> PacerState {
    PacerState {
        target_hz: hz,
        cycle_duration_ns: cycle_duration_of(hz) as u64,
        last_cycle: None,
        timing_history: Seq::empty(),
    }
}

/// The pacer `state`, aiming at `hz` cycles per second from now on. What it
/// has recorded stays: a summary goes on across a change of rate.
pub open spec fn retargeted(state: PacerState, hz: u32) -> PacerState {
    PacerState { target_hz: hz, cycle_duration_ns: cycle_duration_of(hz) as u64, ..state }
}

/// The time at which a cycle that began at `cycle_start` is due to end.
pub open spec fn deadline_of(state: PacerState, cycle_start: u64) -> int {
    cycle_start + state.cycle_duration_ns
}

/// How long a cycle that began at `cycle_start` has to wait at `now` for its
/// deadline: nothing where the deadline has passed.
pub open spec fn wait_of(state: PacerState, cycle_start: u64, now: u64) -> int {
    if now < deadline_of(state, cycle_start) {
        deadline_of(state, cycle_start) - now
    } else {
        0
    }
}

/// The time from `earlier` to `later` on a clock that does not run backward:
/// nothing where `later` is the earlier of the two.
pub open spec fn elapsed(earlier: u64, later: u64) -> u64 {
    if later >= earlier {
        (later - earlier) as u64
    } else {
        0
    }
}

/// The pacer `state` after the cycle that began at `cycle_start` and was over
/// at `woke_at`: the time it took is the most recent in the window, and its
/// deadline is the last deadline.
pub open spec fn after_cycle(state: PacerState, cycle_start: u64, woke_at: u64) -> PacerState {
    PacerState {
        last_cycle: Some(deadline_of(state, cycle_start) as u64),
        timing_history: push_bounded(
            state.timing_history,
            elapsed(cycle_start, woke_at),
            TIMING_HISTORY_CAPACITY as nat,
        ),
        ..state
    }
}

/// The rate of one cycle per `since` nanoseconds, in millionths of a hertz,
/// rounded toward zero but not to 0: a rate under a millionth of a hertz
/// counts as one millionth, so that a rate that was achieved is never read as
/// none.
pub open spec fn rate_over(since: int) -> int {
    if ONE * NANOS_PER_SECOND / since < LEAST_RATE {
        LEAST_RATE as int
    } else {
        ONE * NANOS_PER_SECOND / since
    }
}

/// The rate achieved at `now`, in millionths of a hertz: 0 before the first
/// cycle and only then, else one cycle per time since the last deadline, and
/// the target rate where no time has passed since.
pub open spec fn rate_at(state: PacerState, now: u64) -> int {
    match state.last_cycle {
        None => 0,
        Some(deadline) => if now > deadline {
            rate_over(now - deadline)
        } else {
            state.target_hz * ONE
        },
    }
}

/// Whether a rate in millionths of a hertz is below the critical rate.
pub open spec fn is_critical(rate: int) -> bool {
    rate < CRITICAL_HZ * ONE
}

/// No rate before the first cycle, and no division by zero at a deadline: a
/// pacer that has completed no cycle achieves 0 at any time, and a pacer asked
/// at the very deadline of its last cycle achieves its target rate exactly.
pub proof fn lemma_rate_before_and_at_deadline(
    state: PacerState,
    cycle_start: u64,
    woke_at: u64,
    now: u64,
)
    requires
        deadline_of(state, cycle_start) <= u64::MAX,
    ensures
        state.last_cycle is None ==> rate_at(state, now) == 0,
        rate_at(after_cycle(state, cycle_start, woke_at), deadline_of(state, cycle_start) as u64)
            == state.target_hz * ONE,
{
}

/// A cycle that waits as it is told lasts one period: where the caller asks
/// at `now`, not later than the deadline, and wakes after exactly the wait it
/// was given, the time recorded for the cycle is the cycle time of the target
/// rate, and the rate then achieved at the moment of waking is the target
/// rate.
pub proof fn lemma_punctual_cycle_lasts_one_period(state: PacerState, cycle_start: u64, now: u64)
    requires
        deadline_of(state, cycle_start) <= u64::MAX,
        cycle_start <= now <= deadline_of(state, cycle_start),
    ensures
        now + wait_of(state, cycle_start, now) == deadline_of(state, cycle_start),
        elapsed(cycle_start, (now + wait_of(state, cycle_start, now)) as u64)
            == state.cycle_duration_ns,
        after_cycle(
            state,
            cycle_start,
            (now + wait_of(state, cycle_start, now)) as u64,
        ).timing_history.last() == state.cycle_duration_ns,
        rate_at(
            after_cycle(state, cycle_start, (now + wait_of(state, cycle_start, now)) as u64),
            (now + wait_of(state, cycle_start, now)) as u64,
        ) == state.target_hz * ONE,
{
}

/// A rate of 0 means that no cycle was completed, and nothing else: a pacer
/// that has completed a cycle achieves more than 0 at any time, however long
/// ago its last deadline was.
pub proof fn lemma_rate_is_zero_only_before_first_cycle(state: PacerState, now: u64)
    requires
        consistent(state),
    ensures
        rate_at(state, now) >= 0,
        rate_at(state, now) == 0 <==> state.last_cycle is None,
{
}

/// A cycle that has overrun its deadline by more than a thirtieth of a second
/// when the rate is judged is reported as critical, and one judged within a
/// thirtieth of a second after its deadline is not.
pub proof fn lemma_critical_after_a_thirtieth_of_a_second(state: PacerState, now: u64)
    requires
        state.last_cycle is Some,
        now > state.last_cycle->Some_0,
    ensures
        is_critical(rate_at(state, now)) <==> (now - state.last_cycle->Some_0) * CRITICAL_HZ
            > NANOS_PER_SECOND,
{
    let since = now - state.last_cycle->Some_0;
    assert((1_000_000_000_000_000int / since < 30_000_000) <==> (since * 30 > 1_000_000_000))
        by (nonlinear_arith)
        requires
            since > 0,
    ;
}

/// A pacer for a loop that its caller drives: before each cycle the caller
/// notes the time, after the work it asks how long to wait, waits, and has the
/// cycle recorded.
#[derive(Debug)]
pub struct PrecisionTimer {
    rate: RateTarget,
    last_cycle: Option<u64>,
    timing_history: TimingWindow,
}

impl Clone for PrecisionTimer {
    /// A pacer that holds what this one holds.
    fn clone(&self) -> (copy: Self)
        ensures
            copy@ == self@,
    {
        let copy = PrecisionTimer {
            rate: self.rate,
            last_cycle: self.last_cycle,
            timing_history: self.timing_history.clone(),
        };
        assert(copy.timing_history@ =~= self.timing_history@);
        copy
    }
}

impl View for PrecisionTimer {
    type V = PacerState;

    closed spec fn view(&self) -> PacerState {
        PacerState {
            target_hz: self.rate.spec_hz(),
            cycle_duration_ns: self.rate.spec_cycle_duration_ns(),
            last_cycle: self.last_cycle,
            timing_history: self.timing_history@,
        }
    }
}

impl PrecisionTimer {
    /// A pacer for `target_hz` cycles per second, which must be from 1 to
    /// 50000. It has recorded nothing.
    pub fn new(target_hz: u32) -> (made: ConsciousnessResult<Self>)
        ensures
            valid_target(target_hz) ==> made is Ok && made->Ok_0@ == fresh_pacer(target_hz)
                && consistent(made->Ok_0@),
            !valid_target(target_hz) ==> made is Err && made->Err_0
                == (ConsciousnessError::InvalidFrequency { target_hz }),
    {
        match RateTarget::new(target_hz) {
            Ok(rate) => Ok(
                PrecisionTimer { rate, last_cycle: None, timing_history: BoundedFifo::new() },
            ),
            Err(refusal) => Err(refusal),
        }
    }

    /// The summary of the cycle times in the window, beside the cycle time
    /// aimed at; all zero where no cycle was recorded.
    pub fn get_timing_stats(&self) -> (stats: TimingStats)
        ensures
            summarizes(stats, self@.timing_history, self@.cycle_duration_ns),
            stats.timing_precision <= ONE,
    {
        summarize(&self.timing_history, self.rate.cycle_duration_ns())
    }

    /// Makes the pacer aim at `new_target_hz` cycles per second, which must
    /// be from 1 to 50000. The window and the last deadline stay as they are.
    pub fn set_target_hz(&mut self, new_target_hz: u32) -> (done: ConsciousnessResult<()>)
        ensures
            valid_target(new_target_hz) ==> done is Ok && final(self)@ == retargeted(
                old(self)@,
                new_target_hz,
            ),
            consistent(final(self)@),
            !valid_target(new_target_hz) ==> done is Err && done->Err_0
                == (ConsciousnessError::InvalidFrequency { target_hz: new_target_hz })
                && final(self)@ == old(self)@,
    {
        proof {
            use_type_invariant(&self.rate);
            use_type_invariant(&self.timing_history);
        }
        match RateTarget::new(new_target_hz) {
            Ok(rate) => {
                self.rate = rate;
                Ok(())
            },
            Err(refusal) => Err(refusal),
        }
    }

    /// The rate that the pacer aims at, in cycles per second.
    pub fn get_target_hz(&self) -> (hz: u32)
        ensures
            hz == self@.target_hz,
            valid_target(hz),
    {
        self.rate.hz()
    }

    /// The time of one cycle at the target rate, in nanoseconds: a second
    /// divided by the rate, rounded toward zero.
    pub fn cycle_duration_ns(&self) -> (duration: u64)
        ensures
            duration == self@.cycle_duration_ns,
            duration == cycle_duration_of(self@.target_hz),
            1 <= duration <= NANOS_PER_SECOND,
    {
        self.rate.cycle_duration_ns()
    }

    /// The deadline of the last completed cycle, if there was one.
    pub fn last_deadline(&self) -> (deadline: Option<u64>)
        ensures
            deadline == self@.last_cycle,
    {
        self.last_cycle
    }

    /// The window of the most recent cycle times, oldest first.
    pub fn timing_history(&self) -> (window: &TimingWindow)
        ensures
            window@ == self@.timing_history,
    {
        &self.timing_history
    }

    /// How long the caller has to wait at `now` so that the cycle that began
    /// at `cycle_start` ends on its deadline, in nanoseconds; nothing where
    /// the cycle has overrun.
    pub fn time_until_deadline(&self, cycle_start: u64, now: u64) -> (wait: u64)
        requires
            deadline_of(self@, cycle_start) <= u64::MAX,
        ensures
            wait == wait_of(self@, cycle_start, now),
    {
        let deadline: u64 = cycle_start + self.rate.cycle_duration_ns();
        if deadline > now {
            deadline - now
        } else {
            0
        }
    }

    /// Records the cycle that began at `cycle_start` and was over, after any
    /// wait, at `woke_at`, then judges the rate achieved at `checked_at`.
    /// The cycle is recorded whatever the judgement is.
    pub fn maintain_hz(&mut self, cycle_start: u64, woke_at: u64, checked_at: u64) -> (done:
        ConsciousnessResult<()>)
        requires
            deadline_of(old(self)@, cycle_start) <= u64::MAX,
        ensures
            final(self)@ == after_cycle(old(self)@, cycle_start, woke_at),
            consistent(final(self)@),
            is_critical(rate_at(final(self)@, checked_at)) ==> done is Err && done->Err_0
                == (ConsciousnessError::CriticalRhythmFailure {
                hz: rate_at(final(self)@, checked_at) as u64,
            }),
            !is_critical(rate_at(final(self)@, checked_at)) ==> done is Ok,
            rate_at(final(self)@, checked_at) > 0,
    {
        proof {
            use_type_invariant(&self.rate);
        }
        let deadline: u64 = cycle_start + self.rate.cycle_duration_ns();
        self.record_timing(woke_at.saturating_sub(cycle_start));
        self.last_cycle = Some(deadline);
        let actual_hz: u64 = self.get_actual_hz(checked_at);
        if actual_hz < CRITICAL_HZ * ONE {
            return Err(ConsciousnessError::CriticalRhythmFailure { hz: actual_hz });
        }
        Ok(())
    }

    /// Puts the time that a cycle took into the window.
    fn record_timing(&mut self, cycle_time: u64)
        ensures
            final(self)@ == (PacerState {
                timing_history: push_bounded(
                    old(self)@.timing_history,
                    cycle_time,
                    TIMING_HISTORY_CAPACITY as nat,
                ),
                ..old(self)@
            }),
    {
        self.timing_history.push(cycle_time);
    }

    /// The rate achieved at `current_time`, in millionths of a hertz: see
    /// `rate_at`. It is 0 where no cycle was completed, and only there.
    pub fn get_actual_hz(&self, current_time: u64) -> (hz: u64)
        ensures
            hz == rate_at(self@, current_time),
            hz == 0 <==> self@.last_cycle is None,
    {
        match self.last_cycle {
            Some(last) => {
                let since: u64 = current_time.saturating_sub(last);
                if since > 0 {
                    let rate: u64 = ONE * NANOS_PER_SECOND / since;
                    if rate < LEAST_RATE {
                        LEAST_RATE
                    } else {
                        rate
                    }
                } else {
                    self.rate.hz() as u64 * ONE
                }
            },
            None => 0,
        }
    }
}

} // verus!
