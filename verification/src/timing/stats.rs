//! The summary of a window of cycle durations: mean, extremes, jitter and
//! precision, and the health class that follows from them.

use crate::timing::units::CRITICAL_HZ;
use crate::timing::units::ONE;
use crate::timing::units::OPTIMAL_HZ;
use crate::timing::units::OPTIMAL_PRECISION;
use crate::timing::units::STABLE_HZ;
use crate::timing::units::STABLE_PRECISION;
use crate::timing::units::UNPACED_JITTER_MS;
use crate::timing::window::BoundedFifo;
use crate::ConsciousnessHealth;
use vstd::prelude::*;

verus! {

/// The sum of the durations.
pub open spec fn total(durations: Seq<u64>) -> int
    decreases durations.len(),
{
    if durations.len() == 0 {
        0
    } else {
        total(durations.drop_last()) + durations.last()
    }
}

/// The sum, over the durations `d`, of the squares of `scale * d - center`.
pub open spec fn squared_deviations(durations: Seq<u64>, scale: int, center: int) -> int
    decreases durations.len(),
{
    if durations.len() == 0 {
        0
    } else {
        let deviation = scale * durations.last() - center;
        squared_deviations(durations.drop_last(), scale, center) + deviation * deviation
    }
}

/// How far the durations lie from their mean, without a division: the sum,
/// over the `n` durations `d`, of the squares of `n * d - total`. With `m` for
/// their mean, each term is the square of `n * (d - m)`. Their population
/// variance `v` is the mean of the squares of `d - m`, so the sum is
/// `n * n * n * v`.
pub open spec fn spread(durations: Seq<u64>) -> int {
    squared_deviations(durations, durations.len() as int, total(durations))
}

/// Whether `jitter` is the population standard deviation of the durations,
/// rounded toward zero: its square is at most the variance, and the square of
/// the next number is more.
pub open spec fn is_jitter_of(jitter: int, durations: Seq<u64>) -> bool {
    let n = durations.len() as int;
    &&& 0 <= jitter
    &&& jitter * jitter * (n * n * n) <= spread(durations)
    &&& spread(durations) < (jitter + 1) * (jitter + 1) * (n * n * n)
}

/// Whether `least` is one of the durations and none is shorter.
pub open spec fn is_min_of(least: u64, durations: Seq<u64>) -> bool {
    &&& durations.contains(least)
    &&& forall|i: int| 0 <= i < durations.len() ==> least <= #[trigger] durations[i]
}

/// Whether `most` is one of the durations and none is longer.
pub open spec fn is_max_of(most: u64, durations: Seq<u64>) -> bool {
    &&& durations.contains(most)
    &&& forall|i: int| 0 <= i < durations.len() ==> #[trigger] durations[i] <= most
}

/// The share of the mean that jitter leaves, in millionths: 1 less the
/// quotient of jitter and mean, and 0 where that would be negative or the
/// mean is 0.
pub open spec fn precision_of(mean: u64, jitter: u64) -> int {
    if mean == 0 || jitter >= mean {
        0
    } else {
        ONE * (mean - jitter) / (mean as int)
    }
}

/// What a pacer reports of its recent cycles. Times are in milliseconds and
/// the precision is a share between 0 and 1, each in millionths.
#[derive(Clone, Copy, Debug, PartialEq, Eq, Structural)]
pub struct TimingStats {
    /// The mean cycle time.
    pub avg_cycle_time_ms: u64,
    /// The shortest cycle time.
    pub min_cycle_time_ms: u64,
    /// The longest cycle time.
    pub max_cycle_time_ms: u64,
    /// The population standard deviation of the cycle times.
    pub jitter_ms: u64,
    /// The cycle time that the pacer aims at.
    pub target_cycle_time_ms: u64,
    /// The share of the mean cycle time that jitter leaves; higher is better.
    pub timing_precision: u64,
}

/// Whether `stats` is the summary of the cycle times in `durations`, taken by
/// a pacer that aims at `target`: all zero where there are none, else their
/// mean, extremes, jitter and precision beside the target.
pub open spec fn summarizes(stats: TimingStats, durations: Seq<u64>, target: u64) -> bool {
    if durations.len() == 0 {
        stats == (TimingStats {
            avg_cycle_time_ms: 0,
            min_cycle_time_ms: 0,
            max_cycle_time_ms: 0,
            jitter_ms: 0,
            target_cycle_time_ms: 0,
            timing_precision: 0,
        })
    } else {
        &&& stats.avg_cycle_time_ms == total(durations) / (durations.len() as int)
        &&& is_min_of(stats.min_cycle_time_ms, durations)
        &&& is_max_of(stats.max_cycle_time_ms, durations)
        &&& is_jitter_of(stats.jitter_ms as int, durations)
        &&& stats.target_cycle_time_ms == target
        &&& stats.timing_precision == precision_of(stats.avg_cycle_time_ms, stats.jitter_ms)
    }
}

impl Default for TimingStats {
    /// The summary of no cycles: every figure is 0.
    fn default() -> (stats: Self)
        ensures
            stats.avg_cycle_time_ms == 0,
            stats.min_cycle_time_ms == 0,
            stats.max_cycle_time_ms == 0,
            stats.jitter_ms == 0,
            stats.target_cycle_time_ms == 0,
            stats.timing_precision == 0,
    {
        TimingStats {
            avg_cycle_time_ms: 0,
            min_cycle_time_ms: 0,
            max_cycle_time_ms: 0,
            jitter_ms: 0,
            target_cycle_time_ms: 0,
            timing_precision: 0,
        }
    }
}

/// A window has one summary: two summaries of the same cycle times for the
/// same target are equal in every figure.
pub proof fn lemma_summary_is_unique(
    first: TimingStats,
    second: TimingStats,
    durations: Seq<u64>,
    target: u64,
)
    requires
        summarizes(first, durations, target),
        summarizes(second, durations, target),
    ensures
        first == second,
{
    if durations.len() > 0 {
        let n = durations.len() as int;
        let cube = n * n * n;
        assert(cube > 0) by (nonlinear_arith)
            requires
                cube == n * n * n,
                n > 0,
        ;
        lemma_root_is_unique(first.jitter_ms as int, second.jitter_ms as int, spread(durations), cube);
        lemma_root_is_unique(second.jitter_ms as int, first.jitter_ms as int, spread(durations), cube);
        // Each extreme is one of the durations, so the other summary's
        // extreme bounds it.
        let i = choose|i: int| 0 <= i < durations.len() && durations[i] == first.min_cycle_time_ms;
        let j = choose|j: int| 0 <= j < durations.len() && durations[j] == second.min_cycle_time_ms;
        assert(durations[i] == first.min_cycle_time_ms && durations[j] == second.min_cycle_time_ms);
        let k = choose|k: int| 0 <= k < durations.len() && durations[k] == first.max_cycle_time_ms;
        let l = choose|l: int| 0 <= l < durations.len() && durations[l] == second.max_cycle_time_ms;
        assert(durations[k] == first.max_cycle_time_ms && durations[l] == second.max_cycle_time_ms);
    }
}

/// Of two numbers of which `first` has its square, and `second` the square of
/// its successor, on either side of the same quotient, `first` is not the
/// larger.
proof fn lemma_root_is_unique(first: int, second: int, numerator: int, denominator: int)
    requires
        denominator > 0,
        0 <= first,
        0 <= second,
        first * first * denominator <= numerator,
        numerator < (second + 1) * (second + 1) * denominator,
    ensures
        first <= second,
{
    if first > second {
        assert((second + 1) * (second + 1) * denominator <= first * first * denominator)
            by (nonlinear_arith)
            requires
                0 <= second + 1 <= first,
                denominator > 0,
        ;
    }
}

/// The sum, over the durations `d`, of the squares of `d - center`.
spec fn squares_about(durations: Seq<u64>, center: int) -> int
    decreases durations.len(),
{
    if durations.len() == 0 {
        0
    } else {
        let deviation = durations.last() - center;
        squares_about(durations.drop_last(), center) + deviation * deviation
    }
}

/// Deviations from `quotient * scale + rest`, scaled, in terms of deviations
/// from `quotient`.
proof fn lemma_deviations_about_quotient(
    durations: Seq<u64>,
    scale: int,
    quotient: int,
    rest: int,
)
    ensures
        squared_deviations(durations, scale, quotient * scale + rest) == scale * scale
            * squares_about(durations, quotient) - 2 * scale * rest * (total(durations)
            - durations.len() * quotient) + durations.len() * (rest * rest),
    decreases durations.len(),
{
    if durations.len() > 0 {
        let earlier = durations.drop_last();
        let x = durations.last() as int;
        let k = earlier.len() as int;
        lemma_deviations_about_quotient(earlier, scale, quotient, rest);
        let a = squares_about(earlier, quotient);
        let t = total(earlier);
        let u = x - quotient;
        let deviation = scale * x - (quotient * scale + rest);
        let p = scale * scale;
        let m = 2 * scale * rest;
        let r = rest * rest;
        assert(deviation == scale * u - rest) by (nonlinear_arith)
            requires
                u == x - quotient,
                deviation == scale * x - (quotient * scale + rest),
        ;
        assert(deviation * deviation == p * (u * u) - m * u + r) by (nonlinear_arith)
            requires
                deviation == scale * u - rest,
                p == scale * scale,
                m == 2 * scale * rest,
                r == rest * rest,
        ;
        assert(p * (a + u * u) == p * a + p * (u * u)) by (nonlinear_arith);
        assert(m * ((t + x) - (k + 1) * quotient) == m * (t - k * quotient) + m * u)
            by (nonlinear_arith)
            requires
                u == x - quotient,
        ;
        assert((k + 1) * r == k * r + r) by (nonlinear_arith);
    } else {
        assert(2 * scale * rest * (0 - 0 * quotient) == 0) by (nonlinear_arith);
    }
}

/// A sum of squares is not negative.
proof fn lemma_squared_deviations_nonnegative(durations: Seq<u64>, scale: int, center: int)
    ensures
        squared_deviations(durations, scale, center) >= 0,
    decreases durations.len(),
{
    if durations.len() > 0 {
        lemma_squared_deviations_nonnegative(durations.drop_last(), scale, center);
        let deviation = scale * durations.last() - center;
        assert(deviation * deviation >= 0) by (nonlinear_arith);
    }
}

/// Whether `floor` is the whole part of the population variance of the
/// durations.
spec fn is_variance_floor(floor: int, durations: Seq<u64>) -> bool {
    let n = durations.len() as int;
    floor * (n * n * n) <= spread(durations) < (floor + 1) * (n * n * n)
}

/// The whole part of the square root of the whole part of a quotient is the
/// whole part of the square root of the quotient.
proof fn lemma_root_of_floor(root: int, floor: int, numerator: int, denominator: int)
    requires
        denominator > 0,
        root >= 0,
        root * root <= floor < (root + 1) * (root + 1),
        floor * denominator <= numerator < (floor + 1) * denominator,
    ensures
        root * root * denominator <= numerator,
        numerator < (root + 1) * (root + 1) * denominator,
{
    let low = root * root;
    let high = (root + 1) * (root + 1);
    assert(low * denominator <= floor * denominator) by (nonlinear_arith)
        requires
            low <= floor,
            denominator > 0,
    ;
    assert((floor + 1) * denominator <= high * denominator) by (nonlinear_arith)
        requires
            floor + 1 <= high,
            denominator > 0,
    ;
}

/// The floor of the square root of `value`.
pub fn isqrt(value: u128) -> (root: u64)
    ensures
        root * root <= value < (root + 1) * (root + 1),
{
    let top: u128 = 0xffff_ffff_ffff_ffff;
    if value >= top * top {
        return 0xffff_ffff_ffff_ffff;
    }
    let mut low: u128 = 0;
    let mut high: u128 = top;
    while high - low > 1
        invariant
            low < high <= top,
            top == 0xffff_ffff_ffff_ffffu128,
            low * low <= value < high * high,
        decreases high - low,
    {
        let middle: u128 = low + (high - low) / 2;
        assert(middle * middle <= top * top) by (nonlinear_arith)
            requires
                middle <= top,
        ;
        if middle * middle <= value {
            low = middle;
        } else {
            high = middle;
        }
    }
    low as u64
}

/// The precision that a mean cycle time and a jitter give: see `precision_of`.
pub fn precision(mean: u64, jitter: u64) -> (share: u64)
    ensures
        share == precision_of(mean, jitter),
        share <= ONE,
{
    if mean == 0 || jitter >= mean {
        0
    } else {
        let left: u128 = (mean - jitter) as u128;
        let whole: u128 = mean as u128;
        assert(ONE * left / (whole as int) <= ONE) by (nonlinear_arith)
            requires
                0 <= ONE * left <= ONE * whole,
                whole > 0,
        ;
        (ONE as u128 * left / whole) as u64
    }
}

/// The sum of the durations in a window that holds some, with the least and
/// the greatest of them.
fn total_and_extremes<const CAPACITY: usize>(window: &BoundedFifo<u64, CAPACITY>) -> (found: (
    u128,
    u64,
    u64,
))
    requires
        window@.len() > 0,
    ensures
        found.0 == total(window@),
        found.0 <= window@.len() * u64::MAX,
        is_min_of(found.1, window@),
        is_max_of(found.2, window@),
{
    let ghost durations = window@;
    let count: usize = window.len();
    let mut sum: u128 = 0;
    let mut least: u64 = u64::MAX;
    let mut most: u64 = 0;
    let mut i: usize = 0;
    while i < count
        invariant
            durations == window@,
            count == durations.len(),
            i <= count,
            sum == total(durations.take(i as int)),
            sum <= i * u64::MAX,
            forall|k: int| 0 <= k < i ==> least <= #[trigger] durations[k] <= most,
            i > 0 ==> exists|k: int| 0 <= k < i && #[trigger] durations[k] == least,
            i > 0 ==> exists|k: int| 0 <= k < i && #[trigger] durations[k] == most,
            i == 0 ==> least == u64::MAX && most == 0,
        decreases count - i,
    {
        let x: u64 = *window.get(i).unwrap();
        proof {
            assert(durations.take(i + 1).drop_last() =~= durations.take(i as int));
        }
        sum = sum + x as u128;
        if x < least {
            least = x;
        }
        if x > most {
            most = x;
        }
        i = i + 1;
    }
    proof {
        assert(durations.take(count as int) =~= durations);
    }
    (sum, least, most)
}

/// The sum of the squares of the distances of the durations from `mean`, as
/// a quotient by their number and a remainder. Each square is divided as it
/// comes, so that the sum, which may not fit, is never formed.
fn squares_about_mean<const CAPACITY: usize>(window: &BoundedFifo<u64, CAPACITY>, mean: u64) -> (found:
    (u128, u128))
    requires
        window@.len() > 0,
    ensures
        found.0 * window@.len() + found.1 == squares_about(window@, mean as int),
        found.0 <= u64::MAX * u64::MAX,
        found.1 < window@.len(),
{
    let ghost durations = window@;
    let ghost limit: int = u64::MAX * u64::MAX;
    let count: usize = window.len();
    let n: u128 = count as u128;
    let mut whole: u128 = 0;
    let mut part: u128 = 0;
    let mut i: usize = 0;
    while i < count
        invariant
            durations == window@,
            count == durations.len(),
            n == count,
            n > 0,
            i <= count,
            limit == u64::MAX * u64::MAX,
            whole * n + part == squares_about(durations.take(i as int), mean as int),
            whole * n + part <= i * limit,
            part <= i * (n - 1),
        decreases count - i,
    {
        let x: u64 = *window.get(i).unwrap();
        let distance: u128 = if x >= mean {
            (x - mean) as u128
        } else {
            (mean - x) as u128
        };
        assert(distance * distance <= limit) by (nonlinear_arith)
            requires
                distance <= u64::MAX,
                limit == u64::MAX * u64::MAX,
        ;
        let square: u128 = distance * distance;
        let quotient: u128 = square / n;
        let remainder: u128 = square % n;
        proof {
            assert(durations.take(i + 1).drop_last() =~= durations.take(i as int));
            assert((x - mean) * (x - mean) == distance * distance) by (nonlinear_arith)
                requires
                    distance == x - mean || distance == -(x - mean),
            ;
            assert(square == quotient * n + remainder && remainder <= n - 1) by (nonlinear_arith)
                requires
                    quotient == square / n,
                    remainder == square % n,
                    n > 0,
            ;
            assert((whole + quotient) * n == whole * n + quotient * n) by (nonlinear_arith);
            assert(whole + quotient <= limit) by (nonlinear_arith)
                requires
                    (whole + quotient) * n <= (i + 1) * limit,
                    i + 1 <= n,
                    n > 0,
                    limit >= 0,
            ;
            assert((i + 1) * (n - 1) == i * (n - 1) + (n - 1)) by (nonlinear_arith);
            assert((i + 1) * (n - 1) <= limit) by (nonlinear_arith)
                requires
                    i + 1 <= n,
                    0 < n <= u64::MAX,
                    limit == u64::MAX * u64::MAX,
            ;
        }
        whole = whole + quotient;
        part = part + remainder;
        i = i + 1;
    }
    let carried: u128 = part / n;
    let left: u128 = part % n;
    proof {
        assert(durations.take(count as int) =~= durations);
        assert(part == carried * n + left && left <= n - 1) by (nonlinear_arith)
            requires
                carried == part / n,
                left == part % n,
                n > 0,
        ;
        assert((whole + carried) * n == whole * n + carried * n) by (nonlinear_arith);
        assert(whole + carried <= limit) by (nonlinear_arith)
            requires
                (whole + carried) * n <= n * limit,
                n > 0,
        ;
    }
    (whole + carried, left)
}

/// The whole part of the population variance of the durations in a window
/// that holds some, from their sum.
fn variance<const CAPACITY: usize>(window: &BoundedFifo<u64, CAPACITY>, sum: u128) -> (floor: u128)
    requires
        window@.len() > 0,
        sum == total(window@),
        sum <= window@.len() * u64::MAX,
    ensures
        is_variance_floor(floor as int, window@),
{
    let ghost durations = window@;
    let n: u128 = window.len() as u128;
    assert(sum / n <= u64::MAX) by (nonlinear_arith)
        requires
            sum <= n * u64::MAX,
            n > 0,
    ;
    let mean: u64 = (sum / n) as u64;
    let rest: u128 = sum % n;
    let (squares, left) = squares_about_mean(window, mean);
    // With `s` for the sum of the squares, `squares * n + left`, the variance
    // is `(n * s - rest * rest) / (n * n)`.
    let ghost numerator: int = n * (squares * n + left) - rest * rest;
    proof {
        let scale = n as int;
        let about = squares_about(durations, mean as int);
        assert(sum == mean * n + rest) by (nonlinear_arith)
            requires
                mean == sum / n,
                rest == sum % n,
                n > 0,
        ;
        lemma_deviations_about_quotient(durations, scale, mean as int, rest as int);
        lemma_squared_deviations_nonnegative(durations, scale, total(durations));
        assert(scale * scale * about == scale * (scale * about)) by (nonlinear_arith);
        assert(2 * scale * rest * rest == 2 * (scale * (rest * rest))) by (nonlinear_arith);
        assert(scale * (scale * about) - scale * (rest * rest) == scale * (scale * about - rest
            * rest)) by (nonlinear_arith);
        assert(spread(durations) == scale * numerator);
        assert(numerator >= 0) by (nonlinear_arith)
            requires
                scale * numerator >= 0,
                scale > 0,
        ;
        assert(numerator == squares * (n * n) + left * n - rest * rest) by (nonlinear_arith)
            requires
                numerator == n * (squares * n + left) - rest * rest,
        ;
        assert(0 <= left * n < n * n && 0 <= rest * rest < n * n && n * n <= u64::MAX * u64::MAX)
            by (nonlinear_arith)
            requires
                0 <= left <= n - 1,
                0 <= rest <= n - 1,
                n <= u64::MAX,
        ;
        assert(left * n < rest * rest ==> squares >= 1) by (nonlinear_arith)
            requires
                squares * (n * n) + left * n - rest * rest >= 0,
                squares >= 0,
                n > 0,
        ;
    }
    let floor: u128 = if left * n >= rest * rest {
        squares
    } else {
        squares - 1
    };
    proof {
        assert((floor + 1) * (n * n) == floor * (n * n) + n * n) by (nonlinear_arith);
        assert(floor * (n * n * n) <= n * numerator < (floor + 1) * (n * n * n))
            by (nonlinear_arith)
            requires
                floor * (n * n) <= numerator < (floor + 1) * (n * n),
                n > 0,
        ;
    }
    floor
}

/// The summary of the cycle times in `window` for a pacer that aims at
/// `target_cycle_time_ms`: see `summarizes`. The jitter is exact however long
/// the cycles were: nothing is rounded on the way but the result.
pub fn summarize<const CAPACITY: usize>(
    window: &BoundedFifo<u64, CAPACITY>,
    target_cycle_time_ms: u64,
) -> (stats: TimingStats)
    ensures
        summarizes(stats, window@, target_cycle_time_ms),
        stats.timing_precision <= ONE,
{
    let count: usize = window.len();
    if count == 0 {
        return TimingStats::default();
    }
    let (sum, least, most) = total_and_extremes(window);
    let n: u128 = count as u128;
    assert(sum / n <= u64::MAX) by (nonlinear_arith)
        requires
            sum <= n * u64::MAX,
            n > 0,
    ;
    let mean: u64 = (sum / n) as u64;
    let floor: u128 = variance(window, sum);
    let jitter: u64 = isqrt(floor);
    proof {
        let cube = n * n * n;
        assert(cube > 0) by (nonlinear_arith)
            requires
                cube == n * n * n,
                n > 0,
        ;
        lemma_root_of_floor(jitter as int, floor as int, spread(window@), cube);
    }
    TimingStats {
        avg_cycle_time_ms: mean,
        min_cycle_time_ms: least,
        max_cycle_time_ms: most,
        jitter_ms: jitter,
        target_cycle_time_ms,
        timing_precision: precision(mean, jitter),
    }
}

/// Whether cycles of `mean_ms` on average come at `hz` cycles per second or
/// faster: 1000 divided by the mean is at least `hz`, written without the
/// division. Cycles that take no time reach every rate.
pub open spec fn reaches(mean_ms: u64, hz: u64) -> bool {
    hz * mean_ms <= 1000 * ONE
}

/// The health class of a mean cycle time and a precision. The classes are
/// tried from the best down and the first that fits is taken: optimal from 90
/// Hz with a precision of 0.9, stable from 60 Hz with 0.8, in need of support
/// from 30 Hz whatever the precision, critical below.
pub open spec fn health_of(mean_ms: u64, precision: u64) -> ConsciousnessHealth {
    if reaches(mean_ms, OPTIMAL_HZ) && precision >= OPTIMAL_PRECISION {
        ConsciousnessHealth::Optimal
    } else if reaches(mean_ms, STABLE_HZ) && precision >= STABLE_PRECISION {
        ConsciousnessHealth::Stable
    } else if reaches(mean_ms, CRITICAL_HZ) {
        ConsciousnessHealth::NeedsSupport
    } else {
        ConsciousnessHealth::Critical
    }
}

/// The name of a health class.
pub open spec fn health_label(health: ConsciousnessHealth) -> Seq<char> {
    match health {
        ConsciousnessHealth::Optimal => "Optimal"@,
        ConsciousnessHealth::Stable => "Stable"@,
        ConsciousnessHealth::NeedsSupport => "Needs Support"@,
        ConsciousnessHealth::Critical => "Critical"@,
    }
}

/// Whether cycles of `mean_ms` on average come at `hz` cycles per second or
/// faster.
fn mean_reaches(mean_ms: u64, hz: u64) -> (reached: bool)
    requires
        hz <= OPTIMAL_HZ,
    ensures
        reached == reaches(mean_ms, hz),
{
    assert(hz * mean_ms <= 90 * u64::MAX) by (nonlinear_arith)
        requires
            hz <= 90,
    ;
    hz as u128 * mean_ms as u128 <= 1000 * ONE as u128
}

impl TimingStats {
    /// The mean cycle time in millionths of a millisecond.
    pub fn avg_cycle_time_ms(&self) -> (time: u64)
        ensures
            time == self.avg_cycle_time_ms,
    {
        self.avg_cycle_time_ms
    }

    /// The shortest cycle time in millionths of a millisecond.
    pub fn min_cycle_time_ms(&self) -> (time: u64)
        ensures
            time == self.min_cycle_time_ms,
    {
        self.min_cycle_time_ms
    }

    /// The longest cycle time in millionths of a millisecond.
    pub fn max_cycle_time_ms(&self) -> (time: u64)
        ensures
            time == self.max_cycle_time_ms,
    {
        self.max_cycle_time_ms
    }

    /// The jitter in millionths of a millisecond.
    pub fn jitter_ms(&self) -> (time: u64)
        ensures
            time == self.jitter_ms,
    {
        self.jitter_ms
    }

    /// The cycle time aimed at, in millionths of a millisecond.
    pub fn target_cycle_time_ms(&self) -> (time: u64)
        ensures
            time == self.target_cycle_time_ms,
    {
        self.target_cycle_time_ms
    }

    /// The precision in millionths.
    pub fn timing_precision(&self) -> (share: u64)
        ensures
            share == self.timing_precision,
    {
        self.timing_precision
    }

    /// The health class of the summary: see `health_of`.
    pub fn health(&self) -> (health: ConsciousnessHealth)
        ensures
            health == health_of(self.avg_cycle_time_ms, self.timing_precision),
    {
        if mean_reaches(self.avg_cycle_time_ms, OPTIMAL_HZ) && self.timing_precision
            >= OPTIMAL_PRECISION {
            ConsciousnessHealth::Optimal
        } else if mean_reaches(self.avg_cycle_time_ms, STABLE_HZ) && self.timing_precision
            >= STABLE_PRECISION {
            ConsciousnessHealth::Stable
        } else if mean_reaches(self.avg_cycle_time_ms, CRITICAL_HZ) {
            ConsciousnessHealth::NeedsSupport
        } else {
            ConsciousnessHealth::Critical
        }
    }

    /// The name of the summary's health class.
    pub fn get_consciousness_health(&self) -> (label: String)
        ensures
            label@ == health_label(health_of(self.avg_cycle_time_ms, self.timing_precision)),
    {
        match self.health() {
            ConsciousnessHealth::Optimal => "Optimal".to_string(),
            ConsciousnessHealth::Stable => "Stable".to_string(),
            ConsciousnessHealth::NeedsSupport => "Needs Support".to_string(),
            ConsciousnessHealth::Critical => "Critical".to_string(),
        }
    }

    /// How many times smaller the jitter is than that of an unpaced loop, in
    /// millionths and rounded toward zero; nothing where the jitter is 0, for
    /// which the quotient is not defined. A jitter of more than a million
    /// times that of an unpaced loop gives a factor of 0.
    pub fn get_improvement_factor(&self) -> (factor: Option<u64>)
        ensures
            self.jitter_ms == 0 ==> factor.is_none(),
            self.jitter_ms > 0 ==> factor == Some(
                (UNPACED_JITTER_MS * ONE / (self.jitter_ms as int)) as u64,
            ),
            self.jitter_ms > 0 ==> UNPACED_JITTER_MS * ONE / (self.jitter_ms as int)
                <= UNPACED_JITTER_MS * ONE,
    {
        if self.jitter_ms == 0 {
            None
        } else {
            let jitter: u64 = self.jitter_ms;
            Some(UNPACED_JITTER_MS * ONE / jitter)
        }
    }
}

} // verus!
