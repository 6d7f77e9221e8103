use consciousness_kernel::timing::PrecisionTimer;
use consciousness_kernel::ConsciousnessError;
use consciousness_kernel::TimingStats;

const MS: u64 = 1_000_000;

/// Runs one cycle on a clock that the test moves: the work takes `work`, the
/// caller waits for as long as it is told, and the rate is judged `late`
/// after waking. Returns when the cycle began, when the caller woke, and what
/// the pacer said.
fn run_cycle(
    timer: &mut PrecisionTimer,
    clock: &mut u64,
    work: u64,
    late: u64,
) -> (u64, u64, Result<(), ConsciousnessError>) {
    let start = *clock;
    *clock += work;
    let wait = timer.time_until_deadline(start, *clock);
    *clock += wait;
    let woke = *clock;
    *clock += late;
    (start, woke, timer.maintain_hz(start, woke, *clock))
}

fn history(timer: &PrecisionTimer) -> Vec<u64> {
    let window = timer.timing_history();
    (0..window.len()).map(|index| *window.get(index).unwrap()).collect()
}

#[test]
fn test_precision_timer_basic() {
    let mut timer = PrecisionTimer::new(10).unwrap(); // 10Hz for fast testing
    let mut clock = 5 * MS;

    for _ in 0..5 {
        let (start, woke, done) = run_cycle(&mut timer, &mut clock, 3 * MS, 1_000);
        done.unwrap();

        // Should be close to 100ms (1/10th second)
        let elapsed = woke - start;
        assert!(elapsed >= 95 * MS);
        assert!(elapsed <= 105 * MS);
    }
}

#[test]
fn test_timing_stats() {
    let mut timer = PrecisionTimer::new(20).unwrap(); // 20Hz
    let mut clock = 0;

    // Run several cycles
    for cycle in 0..10 {
        let (_, _, done) = run_cycle(&mut timer, &mut clock, cycle * MS, 1_000);
        done.unwrap();
    }

    let stats = timer.get_timing_stats();
    assert!(stats.avg_cycle_time_ms > 0);
    assert!(stats.timing_precision > 0);
    assert!(stats.target_cycle_time_ms == 50 * MS); // 1000ms / 20Hz
}

#[test]
fn every_rate_from_1_to_50000_gives_its_cycle_time() {
    for rate in 1..=50_000u32 {
        let timer = PrecisionTimer::new(rate).unwrap();
        assert_eq!(timer.get_target_hz(), rate);
        assert_eq!(timer.cycle_duration_ns(), 1_000_000_000 / rate as u64);
    }
    assert_eq!(PrecisionTimer::new(3).unwrap().cycle_duration_ns(), 333_333_333);
    assert_eq!(PrecisionTimer::new(50_000).unwrap().cycle_duration_ns(), 20_000);
    assert_eq!(PrecisionTimer::new(49_999).unwrap().cycle_duration_ns(), 20_000);
    assert_eq!(PrecisionTimer::new(1).unwrap().cycle_duration_ns(), 1_000_000_000);
}

#[test]
fn rates_outside_the_range_are_refused() {
    assert_eq!(
        PrecisionTimer::new(0).err(),
        Some(ConsciousnessError::InvalidFrequency { target_hz: 0 })
    );
    assert_eq!(
        PrecisionTimer::new(50_001).err(),
        Some(ConsciousnessError::InvalidFrequency { target_hz: 50_001 })
    );
    assert_eq!(
        PrecisionTimer::new(u32::MAX).err(),
        Some(ConsciousnessError::InvalidFrequency { target_hz: u32::MAX })
    );
}

#[test]
fn new_pacer_has_recorded_nothing() {
    let timer = PrecisionTimer::new(90).unwrap();
    assert_eq!(timer.last_deadline(), None);
    assert!(timer.timing_history().is_empty());
    assert_eq!(timer.timing_history().capacity(), 100);
    assert_eq!(timer.get_timing_stats(), TimingStats::default());
}

#[test]
fn retargeting_keeps_what_was_recorded() {
    let mut timer = PrecisionTimer::new(100).unwrap();
    let mut clock = 0;
    for _ in 0..3 {
        run_cycle(&mut timer, &mut clock, MS, 1_000).2.unwrap();
    }
    let deadline = timer.last_deadline();
    assert_eq!(history(&timer), vec![10 * MS; 3]);

    assert_eq!(timer.set_target_hz(200), Ok(()));
    assert_eq!(timer.get_target_hz(), 200);
    assert_eq!(timer.cycle_duration_ns(), 5 * MS);
    assert_eq!(timer.last_deadline(), deadline);
    assert_eq!(history(&timer), vec![10 * MS; 3]);
    assert_eq!(timer.get_timing_stats().target_cycle_time_ms, 5 * MS);
    assert_eq!(timer.get_timing_stats().avg_cycle_time_ms, 10 * MS);
}

#[test]
fn refused_retargeting_changes_nothing() {
    let mut timer = PrecisionTimer::new(100).unwrap();
    let mut clock = 0;
    run_cycle(&mut timer, &mut clock, MS, 1_000).2.unwrap();
    let deadline = timer.last_deadline();

    assert_eq!(
        timer.set_target_hz(0),
        Err(ConsciousnessError::InvalidFrequency { target_hz: 0 })
    );
    assert_eq!(
        timer.set_target_hz(50_001),
        Err(ConsciousnessError::InvalidFrequency { target_hz: 50_001 })
    );
    assert_eq!(timer.get_target_hz(), 100);
    assert_eq!(timer.cycle_duration_ns(), 10 * MS);
    assert_eq!(timer.last_deadline(), deadline);
    assert_eq!(history(&timer), vec![10 * MS]);
}

#[test]
fn wait_lasts_until_the_deadline() {
    let timer = PrecisionTimer::new(10).unwrap();
    assert_eq!(timer.time_until_deadline(0, 0), 100 * MS);
    assert_eq!(timer.time_until_deadline(7 * MS, 10 * MS), 97 * MS);
    assert_eq!(timer.time_until_deadline(7 * MS, 107 * MS - 1), 1);
    assert_eq!(timer.time_until_deadline(7 * MS, 107 * MS), 0);
    assert_eq!(timer.time_until_deadline(7 * MS, 500 * MS), 0);
    // a clock that read less than the start of the cycle
    assert_eq!(timer.time_until_deadline(7 * MS, 0), 107 * MS);
    assert_eq!(timer.time_until_deadline(u64::MAX - 100 * MS, 0), u64::MAX);
}

#[test]
fn rate_is_zero_before_the_first_cycle() {
    let timer = PrecisionTimer::new(90).unwrap();
    assert_eq!(timer.get_actual_hz(0), 0);
    assert_eq!(timer.get_actual_hz(123_456_789), 0);
    assert_eq!(timer.get_actual_hz(u64::MAX), 0);
}

#[test]
fn rate_at_the_deadline_is_the_target_rate() {
    let mut timer = PrecisionTimer::new(90).unwrap();
    let start = 40 * MS;
    let deadline = start + timer.cycle_duration_ns();
    assert_eq!(timer.maintain_hz(start, deadline, deadline), Ok(()));
    assert_eq!(timer.last_deadline(), Some(deadline));
    assert_eq!(timer.get_actual_hz(deadline), 90_000_000);
    // a clock that read less than the deadline
    assert_eq!(timer.get_actual_hz(deadline - 1), 90_000_000);
    assert_eq!(timer.get_actual_hz(0), 90_000_000);
}

#[test]
fn rate_is_one_cycle_per_time_since_the_deadline() {
    let mut timer = PrecisionTimer::new(90).unwrap();
    let deadline = timer.cycle_duration_ns();
    timer.maintain_hz(0, deadline, deadline + 1).unwrap();
    assert_eq!(timer.get_actual_hz(deadline + 1), 1_000_000_000_000_000);
    assert_eq!(timer.get_actual_hz(deadline + 3), 333_333_333_333_333);
    assert_eq!(timer.get_actual_hz(deadline + 10 * MS), 100_000_000);
    assert_eq!(timer.get_actual_hz(deadline + 40 * MS), 25_000_000);
    assert_eq!(timer.get_actual_hz(deadline + 2_000_000 * MS), 500);
    assert_eq!(timer.get_actual_hz(deadline + 500_000_000_000_000), 2);
    assert_eq!(timer.get_actual_hz(deadline + 1_000_000_000_000_000), 1);
}

#[test]
fn rate_is_never_zero_after_a_cycle() {
    let mut timer = PrecisionTimer::new(10).unwrap();
    assert_eq!(timer.get_actual_hz(2_000_000_000_000_000), 0);
    assert_eq!(timer.maintain_hz(0, 100_000_000, 100_000_000), Err(
        ConsciousnessError::CriticalRhythmFailure { hz: 10_000_000 },
    ));
    let deadline = timer.last_deadline().unwrap();
    assert_eq!(deadline, 100_000_000);
    // under a millionth of a hertz: more than 10^15 ns after the deadline
    assert_eq!(timer.get_actual_hz(deadline + 1_000_000_000_000_001), 1);
    assert_eq!(timer.get_actual_hz(2_000_000_000_000_000), 1);
    assert_eq!(timer.get_actual_hz(u64::MAX), 1);
    // at and before the deadline
    assert_eq!(timer.get_actual_hz(deadline), 10_000_000);
    assert_eq!(timer.get_actual_hz(0), 10_000_000);
    for now in [1, deadline - 1, deadline + 1, deadline + 7, 1 << 40, 1 << 50, 1 << 63] {
        assert!(timer.get_actual_hz(now) > 0);
    }
}

#[test]
fn rhythm_that_stood_for_weeks_is_reported_with_a_rate() {
    let mut timer = PrecisionTimer::new(100).unwrap();
    assert_eq!(
        timer.maintain_hz(0, 10 * MS, 2_000_000_000_000_000),
        Err(ConsciousnessError::CriticalRhythmFailure { hz: 1 })
    );
    assert_eq!(
        timer.maintain_hz(0, 10 * MS, u64::MAX),
        Err(ConsciousnessError::CriticalRhythmFailure { hz: 1 })
    );
    assert_eq!(history(&timer), vec![10 * MS, 10 * MS]);
}

#[test]
fn overrun_cycle_is_recorded_and_reported() {
    let mut timer = PrecisionTimer::new(100).unwrap();
    let mut clock = 0;
    // the work takes 50 ms where 10 ms are allowed: no wait, and the rate is
    // judged 40 ms after the deadline
    let (start, woke, done) = run_cycle(&mut timer, &mut clock, 50 * MS, 0);
    assert_eq!(woke - start, 50 * MS);
    assert_eq!(done, Err(ConsciousnessError::CriticalRhythmFailure { hz: 25_000_000 }));
    assert_eq!(history(&timer), vec![50 * MS]);
    assert_eq!(timer.last_deadline(), Some(10 * MS));
}

#[test]
fn rhythm_fails_below_thirty_hertz() {
    let mut timer = PrecisionTimer::new(100).unwrap();
    let deadline = 10 * MS;
    assert_eq!(timer.maintain_hz(0, deadline, deadline + 33_333_333), Ok(()));
    assert_eq!(
        timer.maintain_hz(0, deadline, deadline + 33_333_334),
        Err(ConsciousnessError::CriticalRhythmFailure { hz: 29_999_999 })
    );
    assert_eq!(history(&timer), vec![10 * MS, 10 * MS]);

    // judged at the deadline itself, a pacer counts as running at its
    // target rate, which is critical where it is below 30 Hz
    let mut slow = PrecisionTimer::new(29).unwrap();
    let deadline = slow.cycle_duration_ns();
    assert_eq!(
        slow.maintain_hz(0, deadline, deadline),
        Err(ConsciousnessError::CriticalRhythmFailure { hz: 29_000_000 })
    );
    let mut enough = PrecisionTimer::new(30).unwrap();
    let deadline = enough.cycle_duration_ns();
    assert_eq!(enough.maintain_hz(0, deadline, deadline), Ok(()));
}

#[test]
fn cycle_that_ends_before_it_began_takes_no_time() {
    let mut timer = PrecisionTimer::new(100).unwrap();
    timer.maintain_hz(20 * MS, 5 * MS, 30 * MS + 1).unwrap();
    assert_eq!(history(&timer), vec![0]);
    assert_eq!(timer.last_deadline(), Some(30 * MS));
}

#[test]
fn pacer_keeps_the_last_hundred_cycle_times() {
    let mut timer = PrecisionTimer::new(1_000).unwrap();
    for cycle in 0..101u64 {
        let start = cycle * 10 * MS;
        timer.maintain_hz(start, start + MS + cycle, start + MS + 1).unwrap();
    }
    let expected: Vec<u64> = (1..101).map(|cycle| MS + cycle).collect();
    assert_eq!(history(&timer), expected);
    let stats = timer.get_timing_stats();
    assert_eq!(stats.min_cycle_time_ms, MS + 1);
    assert_eq!(stats.max_cycle_time_ms, MS + 100);
    assert_eq!(stats.avg_cycle_time_ms, MS + 50);
    assert_eq!(stats.jitter_ms, 28);
    assert_eq!(stats.target_cycle_time_ms, MS);
    assert_eq!(stats.timing_precision, 999_972);
}

#[test]
fn clone_of_a_pacer_goes_its_own_way() {
    let mut timer = PrecisionTimer::new(100).unwrap();
    timer.maintain_hz(0, 10 * MS, 10 * MS + 1).unwrap();
    let copy = timer.clone();
    timer.maintain_hz(10 * MS, 25 * MS, 25 * MS).unwrap();
    assert_eq!(history(&copy), vec![10 * MS]);
    assert_eq!(copy.last_deadline(), Some(10 * MS));
    assert_eq!(history(&timer), vec![10 * MS, 15 * MS]);
}
