//! The tick-cadence rules, stated over the integers.
//!
//! A tick report carries the time at which the tick completed and how long it
//! took. From these the monitor keeps one duration sample per tick, one
//! ticks-per-second sample per window of about a second, and the share of
//! scheduled ticks that a window of thirty seconds missed.

use crate::extrema::pushed;
use crate::fraction::{lemma_ratio_cancels_unit, ratio_ppm, Fraction};
use vstd::prelude::*;

verus! {

/// Nanoseconds in a second.
pub const NANOS_PER_SEC: u64 = 1_000_000_000;

/// The longest duration that is recorded for one tick: ten seconds.
pub const MAX_TICK_NANOS: u64 = 10_000_000_000;

/// How long ticks are counted before the missed-tick ratio is computed
/// anew: thirty seconds.
pub const MISSED_TICKS_WINDOW_NANOS: u64 = 30_000_000_000;

/// Why a configuration was turned down.
#[derive(Clone, Copy, Debug, PartialEq, Eq)]
pub enum ConfigError {
    /// The nominal tick period is zero or negative.
    TickPeriodNotPositive,
}

/// The nominal time from one tick to the next, in nanoseconds: never zero.
#[derive(Clone, Copy, Debug, PartialEq, Eq)]
pub struct TickPeriod {
    nanos: u64,
}

impl View for TickPeriod {
    type V = nat;

    /// The period in nanoseconds.
    closed spec fn view(&self) -> nat {
        self.nanos as nat
    }
}

impl TickPeriod {
    #[verifier::type_invariant]
    spec fn positive(self) -> bool {
        self.nanos > 0
    }

    /// Accepts a period of `nanos` nanoseconds if it is positive.
    pub fn new(nanos: i64) -> (period: Result<TickPeriod, ConfigError>)
        ensures
            nanos > 0 ==> period.is_ok() && period.unwrap()@ == nanos,
            nanos <= 0 ==> period == Err::<TickPeriod, ConfigError>(
                ConfigError::TickPeriodNotPositive,
            ),
    {
        if nanos > 0 {
            Ok(TickPeriod { nanos: nanos as u64 })
        } else {
            Err(ConfigError::TickPeriodNotPositive)
        }
    }

    /// The period in nanoseconds.
    pub fn nanos(&self) -> (nanos: u64)
        ensures
            nanos == self@,
            nanos > 0,
    {
        proof {
            use_type_invariant(self);
        }
        self.nanos
    }
}

/// The duration recorded for a tick that reports `elapsed` nanoseconds: a
/// negative report counts as no time, one above ten seconds as ten seconds.
pub open spec fn clamp_tick_nanos(elapsed: int) -> u64 {
    if elapsed < 0 {
        0
    } else if elapsed > MAX_TICK_NANOS {
        MAX_TICK_NANOS
    } else {
        elapsed as u64
    }
}

/// A counter after one more tick: it stops at the greatest value it can hold.
pub open spec fn counted_once_more(count: nat) -> nat {
    if count < u64::MAX {
        count + 1
    } else {
        count
    }
}

/// The time from `start` to `now`; none where `now` is not after `start`.
pub open spec fn since(start: nat, now: nat) -> nat {
    if now > start {
        (now - start) as nat
    } else {
        0
    }
}

/// Whether a ticks-per-second window that has lasted `window` nanoseconds is
/// closed by a tick: it is once the window is within half a tick period of a
/// full second.
pub open spec fn closes_tps_window(window: nat, period: nat) -> bool {
    2 * window + period >= 2 * NANOS_PER_SEC
}

/// Whether `ticks` ticks at the nominal rate fill a ticks-per-second window:
/// the last of them closes the window and none before it does.
pub open spec fn fills_tps_window(ticks: nat, period: nat) -> bool {
    &&& ticks >= 1
    &&& closes_tps_window(ticks * period, period)
    &&& ticks > 1 ==> !closes_tps_window((ticks - 1) as nat * period, period)
}

/// The ticks that a window which `ticks` ticks at the nominal rate fill
/// leaves to the next: none where its last tick comes at the full second or
/// later, and that tick where it comes earlier.
pub open spec fn ticks_carried_over(ticks: nat, period: nat) -> nat {
    if ticks * period >= NANOS_PER_SEC {
        0
    } else {
        1
    }
}

/// The number of periods in a second, rounded to the nearest whole, a half
/// rounded down, and one at the least.
pub open spec fn ticks_per_tps_window(period: nat) -> nat {
    let rounded = (2 * NANOS_PER_SEC + period - 1) / (2 * period) as int;
    if rounded >= 1 {
        rounded as nat
    } else {
        1
    }
}

/// The share, in parts per million, of the ticks scheduled in `window`
/// nanoseconds at one tick per `period` that did not take place when
/// `completed` ticks did.
///
/// Scheduled are `window / period` ticks. Scheduled and completed ticks are
/// both counted in the time they take at the nominal rate, which leaves the
/// share as it is and needs no division by the period.
pub open spec fn missed_ppm(window: nat, completed: nat, period: nat) -> nat {
    let done = completed * period;
    if done < window {
        ratio_ppm((window - done) as nat, window)
    } else {
        0
    }
}

/// The duration recorded for a tick that reports `elapsed` nanoseconds.
pub fn clamp_tick(elapsed: i64) -> (nanos: u64)
    ensures
        nanos == clamp_tick_nanos(elapsed as int),
        nanos <= MAX_TICK_NANOS,
{
    if elapsed < 0 {
        0
    } else if elapsed > 10_000_000_000 {
        MAX_TICK_NANOS
    } else {
        elapsed as u64
    }
}

/// Whether a tick that comes `window` nanoseconds after a ticks-per-second
/// window began closes it.
pub fn tps_window_closes(window: u64, period: TickPeriod) -> (closes: bool)
    ensures
        closes == closes_tps_window(window as nat, period@),
{
    let period: u64 = period.nanos();
    2 * (window as u128) + (period as u128) >= 2 * (NANOS_PER_SEC as u128)
}

/// The share of the ticks scheduled in `window` nanoseconds that did not take
/// place when `completed` ticks did.
pub fn missed_ratio(window: u64, completed: u64, period: TickPeriod) -> (missed: Fraction)
    ensures
        missed@ == missed_ppm(window as nat, completed as nat, period@),
{
    let period: u64 = period.nanos();
    assert(completed * period <= u128::MAX) by (nonlinear_arith)
        requires
            completed <= u64::MAX,
            period <= u64::MAX,
    ;
    let done: u128 = (completed as u128) * (period as u128);
    if done < window as u128 {
        Fraction::ratio((window as u128 - done) as u64, window)
    } else {
        Fraction::zero()
    }
}

/// All of `samples` are at most `bound`.
pub open spec fn all_at_most(samples: Seq<u64>, bound: u64) -> bool {
    forall|i: int| 0 <= i < samples.len() ==> #[trigger] samples[i] <= bound
}

/// What the monitor knows of the cadence of ticks.
pub struct CadenceState {
    /// The missed-tick ratio of the last window that closed, in parts per
    /// million.
    pub missed_ticks: nat,
    /// When the open missed-tick window began.
    pub missed_ticks_window_start: nat,
    /// Ticks completed in the open missed-tick window.
    pub ticks_in_window: nat,
    /// The duration samples since the last drain, one per tick.
    pub tick_durations: Seq<u64>,
    /// The ticks-per-second samples since the last drain, one per window.
    pub tps: Seq<u64>,
    /// When the open ticks-per-second window began.
    pub tps_window_start: nat,
    /// Ticks counted in the open ticks-per-second window.
    pub ticks_in_tps_window: nat,
}

impl CadenceState {
    /// The state at time `now` before any tick: both windows open at `now`,
    /// every counter at zero, nothing accumulated.
    pub open spec fn initial(now: nat) -> CadenceState {
        CadenceState {
            missed_ticks: 0,
            missed_ticks_window_start: now,
            ticks_in_window: 0,
            tick_durations: Seq::empty(),
            tps: Seq::empty(),
            tps_window_start: now,
            ticks_in_tps_window: 0,
        }
    }

    /// What every state of a monitor satisfies: the ratio is a fraction, the
    /// counters fit their machine words, and no duration sample exceeds ten
    /// seconds.
    pub open spec fn valid(self) -> bool {
        &&& self.missed_ticks <= 1_000_000
        &&& self.missed_ticks_window_start <= u64::MAX
        &&& self.ticks_in_window <= u64::MAX
        &&& self.tps_window_start <= u64::MAX
        &&& self.ticks_in_tps_window <= u64::MAX
        &&& self.tick_durations.len() <= u64::MAX
        &&& self.tps.len() <= u64::MAX
        &&& all_at_most(self.tick_durations, MAX_TICK_NANOS)
    }

    /// The tick is counted toward the missed-tick window and its clamped
    /// duration is recorded.
    pub open spec fn count_tick(self, elapsed: int) -> CadenceState {
        CadenceState {
            ticks_in_window: counted_once_more(self.ticks_in_window),
            tick_durations: pushed(self.tick_durations, clamp_tick_nanos(elapsed)),
            ..self
        }
    }

    /// The ticks-per-second window takes a tick at `now`.
    ///
    /// While the window is open the tick is counted. A tick that comes a full
    /// second or more after the window began is counted and closes it; one
    /// that comes up to half a tick period before the full second closes it
    /// uncounted and is the first tick of the next window. A closing window
    /// gives its count as one sample, and the next window begins at `now`.
    pub open spec fn roll_tps_window(self, now: nat, period: nat) -> CadenceState {
        let window = since(self.tps_window_start, now);
        if !closes_tps_window(window, period) {
            CadenceState {
                ticks_in_tps_window: counted_once_more(self.ticks_in_tps_window),
                ..self
            }
        } else if window >= NANOS_PER_SEC {
            CadenceState {
                tps: pushed(self.tps, counted_once_more(self.ticks_in_tps_window) as u64),
                ticks_in_tps_window: 0,
                tps_window_start: now,
                ..self
            }
        } else {
            CadenceState {
                tps: pushed(self.tps, self.ticks_in_tps_window as u64),
                ticks_in_tps_window: 1,
                tps_window_start: now,
                ..self
            }
        }
    }

    /// The missed-tick window takes a tick at `now`: once it has lasted more
    /// than thirty seconds it closes, the ratio is computed from its length
    /// and its count, and the next window begins at `now` with no tick.
    pub open spec fn roll_missed_window(self, now: nat, period: nat) -> CadenceState {
        let window = since(self.missed_ticks_window_start, now);
        if window > MISSED_TICKS_WINDOW_NANOS {
            CadenceState {
                missed_ticks: missed_ppm(window, self.ticks_in_window, period),
                ticks_in_window: 0,
                missed_ticks_window_start: now,
                ..self
            }
        } else {
            self
        }
    }

    /// The state after a tick that completed at `now` and took `elapsed`
    /// nanoseconds, at a nominal `period` nanoseconds per tick.
    pub open spec fn ticked(self, now: nat, elapsed: int, period: nat) -> CadenceState {
        self.count_tick(elapsed).roll_tps_window(now, period).roll_missed_window(now, period)
    }

    /// The state after one tick for each of `elapsed`, in order, the ticks
    /// spaced exactly one `period` apart and the first of them one `period`
    /// after `origin`.
    pub open spec fn ticked_evenly(
        self,
        origin: nat,
        period: nat,
        elapsed: Seq<int>,
    ) -> CadenceState
        decreases elapsed.len(),
    {
        if elapsed.len() == 0 {
            self
        } else {
            self.ticked_evenly(origin, period, elapsed.drop_last()).ticked(
                origin + elapsed.len() * period,
                elapsed.last(),
                period,
            )
        }
    }
}

/// Every tick leaves one duration sample, clamped to ten seconds, whatever
/// the time of the tick; and the duration that a tick reports bears on
/// nothing but that sample: a tick that took no time, or less, counts toward
/// both windows as any other.
pub proof fn lemma_tick_records_clamped_duration(
    c: CadenceState,
    now: nat,
    elapsed: int,
    period: nat,
)
    ensures
        c.ticked(now, elapsed, period).tick_durations == pushed(
            c.tick_durations,
            clamp_tick_nanos(elapsed),
        ),
        clamp_tick_nanos(elapsed) <= MAX_TICK_NANOS,
        elapsed <= 0 ==> clamp_tick_nanos(elapsed) == 0,
        0 <= elapsed <= MAX_TICK_NANOS ==> clamp_tick_nanos(elapsed) == elapsed,
        elapsed >= MAX_TICK_NANOS ==> clamp_tick_nanos(elapsed) == MAX_TICK_NANOS,
        c.ticked(now, elapsed, period) == (CadenceState {
            tick_durations: c.ticked(now, elapsed, period).tick_durations,
            ..c.ticked(now, 0, period)
        }),
{
}

/// A tick keeps a valid state valid.
pub proof fn lemma_tick_keeps_valid(c: CadenceState, now: nat, elapsed: int, period: nat)
    requires
        c.valid(),
        now <= u64::MAX,
    ensures
        c.ticked(now, elapsed, period).valid(),
{
    let counted = c.count_tick(elapsed);
    assert(all_at_most(counted.tick_durations, MAX_TICK_NANOS));
}

/// Window starts only move forward: a tick that is not before the start of a
/// window leaves that start where it was or moves it to the time of the tick.
pub proof fn lemma_window_starts_advance(c: CadenceState, now: nat, elapsed: int, period: nat)
    ensures
        ({
            let after = c.ticked(now, elapsed, period);
            &&& after.tps_window_start == c.tps_window_start || after.tps_window_start == now
            &&& after.missed_ticks_window_start == c.missed_ticks_window_start
                || after.missed_ticks_window_start == now
            &&& now >= c.tps_window_start ==> after.tps_window_start >= c.tps_window_start
            &&& now >= c.missed_ticks_window_start ==> after.missed_ticks_window_start
                >= c.missed_ticks_window_start
        }),
{
}

/// Ticks at the nominal rate that come before the ticks-per-second window is
/// within half a period of its full second leave it open: each is counted
/// and no sample is given.
pub proof fn lemma_even_ticks_keep_tps_window_open(
    c: CadenceState,
    period: nat,
    elapsed: Seq<int>,
)
    requires
        elapsed.len() > 0 ==> !closes_tps_window(elapsed.len() * period, period),
        c.ticks_in_tps_window + elapsed.len() <= u64::MAX,
    ensures
        ({
            let after = c.ticked_evenly(c.tps_window_start, period, elapsed);
            &&& after.tps == c.tps
            &&& after.tps_window_start == c.tps_window_start
            &&& after.ticks_in_tps_window == c.ticks_in_tps_window + elapsed.len()
        }),
    decreases elapsed.len(),
{
    if elapsed.len() > 0 {
        let earlier = elapsed.drop_last();
        assert(earlier.len() * period <= elapsed.len() * period) by (nonlinear_arith)
            requires
                earlier.len() <= elapsed.len(),
        ;
        lemma_even_ticks_keep_tps_window_open(c, period, earlier);
        let before = c.ticked_evenly(c.tps_window_start, period, earlier);
        let now = c.tps_window_start + elapsed.len() * period;
        assert(since(before.tps_window_start, now) == elapsed.len() * period);
    }
}

/// At the nominal rate a ticks-per-second window gives exactly one sample.
///
/// The window begins with `c`. Of the ticks of `elapsed`, spaced one `period`
/// apart and the first one period after the window began, let the last be
/// the first that comes within half a period of the full second. Then none
/// of the ticks before it gives a sample, and the last gives one: all the
/// ticks counted where it comes at the full second or later, all but itself
/// where it comes earlier, for then it is the first tick of the next window.
pub proof fn lemma_even_ticks_fill_one_tps_window(
    c: CadenceState,
    period: nat,
    elapsed: Seq<int>,
)
    requires
        fills_tps_window(elapsed.len(), period),
        c.ticks_in_tps_window + elapsed.len() <= u64::MAX,
        c.tps.len() < u64::MAX,
    ensures
        ({
            let k = elapsed.len();
            let after = c.ticked_evenly(c.tps_window_start, period, elapsed);
            &&& forall|j: int|
                0 <= j < k ==> (#[trigger] c.ticked_evenly(
                    c.tps_window_start,
                    period,
                    elapsed.take(j),
                )).tps == c.tps
            &&& after.tps == c.tps.push(
                (c.ticks_in_tps_window + k - ticks_carried_over(k, period)) as u64,
            )
            &&& after.ticks_in_tps_window == ticks_carried_over(k, period)
            &&& after.tps_window_start == c.tps_window_start + k * period
        }),
{
    let k = elapsed.len();
    let earlier = elapsed.drop_last();
    assert forall|j: int| 0 <= j < k implies (#[trigger] c.ticked_evenly(
        c.tps_window_start,
        period,
        elapsed.take(j),
    )).tps == c.tps by {
        let head = elapsed.take(j);
        if j > 0 {
            assert(j * period <= (k - 1) * period) by (nonlinear_arith)
                requires
                    0 < j <= k - 1,
            ;
        }
        lemma_even_ticks_keep_tps_window_open(c, period, head);
    }
    lemma_even_ticks_keep_tps_window_open(c, period, earlier);
    let before = c.ticked_evenly(c.tps_window_start, period, earlier);
    let now = c.tps_window_start + k * period;
    assert(since(before.tps_window_start, now) == k * period);
}

/// At the nominal rate the number of ticks that fill a ticks-per-second
/// window is the number of periods in a second, rounded to the nearest
/// whole, and one at the least: it is within one of the number of periods in
/// a second, and no other number of ticks fills the window.
pub proof fn lemma_ticks_per_tps_window_fill_it(period: nat)
    requires
        period > 0,
    ensures
        fills_tps_window(ticks_per_tps_window(period), period),
        forall|k: nat| fills_tps_window(k, period) ==> k == ticks_per_tps_window(period),
        (ticks_per_tps_window(period) - 1) * period < NANOS_PER_SEC,
        NANOS_PER_SEC < (ticks_per_tps_window(period) + 1) * period,
{
    let numerator = (2 * NANOS_PER_SEC + period - 1) as int;
    let denominator = (2 * period) as int;
    let rounded = numerator / denominator;
    vstd::arithmetic::div_mod::lemma_fundamental_div_mod(numerator, denominator);
    vstd::arithmetic::div_mod::lemma_mod_bound(numerator, denominator);
    assert(rounded >= 0) by (nonlinear_arith)
        requires
            rounded == numerator / denominator,
            numerator >= 0,
            denominator > 0,
    ;
    assert(denominator * rounded == 2 * (rounded * period)) by (nonlinear_arith)
        requires
            denominator == 2 * period,
    ;
    let fill = ticks_per_tps_window(period);
    assert(fill == if rounded >= 1 {
        rounded
    } else {
        1
    });
    if rounded >= 1 {
        assert(fill * period == rounded * period);
        assert((fill - 1) as nat * period == rounded * period - period) by (nonlinear_arith)
            requires
                fill == rounded,
                rounded >= 1,
        ;
    } else {
        assert(rounded * period == 0) by (nonlinear_arith)
            requires
                rounded == 0,
        ;
        assert(fill * period == period) by (nonlinear_arith)
            requires
                fill == 1,
        ;
    }
    assert(fills_tps_window(fill, period));
    assert((fill - 1) * period == (fill - 1) as nat * period);
    assert((fill + 1) * period == fill * period + period) by (nonlinear_arith);
    assert forall|k: nat| fills_tps_window(k, period) implies k == fill by {
        if k < fill {
            assert(k * period <= (fill - 1) as nat * period) by (nonlinear_arith)
                requires
                    k <= fill - 1,
            ;
        } else if k > fill {
            assert(fill * period <= (k - 1) as nat * period) by (nonlinear_arith)
                requires
                    fill <= k - 1,
            ;
        }
    }
}

/// Ticks at the nominal rate may be taken in two runs, the second run
/// beginning where the first ended.
pub proof fn lemma_even_ticks_in_two_runs(
    c: CadenceState,
    origin: nat,
    period: nat,
    first: Seq<int>,
    second: Seq<int>,
)
    ensures
        c.ticked_evenly(origin, period, first + second) == c.ticked_evenly(
            origin,
            period,
            first,
        ).ticked_evenly(origin + first.len() * period, period, second),
    decreases second.len(),
{
    if second.len() == 0 {
        assert(first + second =~= first);
    } else {
        let both = first + second;
        assert(both.drop_last() =~= first + second.drop_last());
        assert(both.last() == second.last());
        lemma_even_ticks_in_two_runs(c, origin, period, first, second.drop_last());
        assert(origin + both.len() * period == origin + first.len() * period + second.len()
            * period) by (nonlinear_arith)
            requires
                both.len() == first.len() + second.len(),
        ;
    }
}

/// For all sequences of ticks spaced at exactly the nominal period, each
/// second that passes gives exactly one ticks-per-second sample, and the
/// sample is the nominal number of ticks in a second, rounded to the nearest
/// whole.
///
/// The ticks of `elapsed` fill `windows` windows, the first of which begins
/// with `c`, as the window before it ended: with no tick, or with the one
/// tick that closed that window early.
pub proof fn lemma_even_ticks_give_one_sample_per_window(
    c: CadenceState,
    period: nat,
    windows: nat,
    elapsed: Seq<int>,
)
    requires
        period > 0,
        elapsed.len() == windows * ticks_per_tps_window(period),
        c.ticks_in_tps_window == ticks_carried_over(ticks_per_tps_window(period), period),
        c.tps.len() + windows <= u64::MAX,
    ensures
        ({
            let k = ticks_per_tps_window(period);
            let after = c.ticked_evenly(c.tps_window_start, period, elapsed);
            &&& after.tps == c.tps + Seq::new(windows, |i: int| k as u64)
            &&& after.ticks_in_tps_window == c.ticks_in_tps_window
            &&& after.tps_window_start == c.tps_window_start + windows * k * period
        }),
    decreases windows,
{
    let k = ticks_per_tps_window(period);
    lemma_ticks_per_tps_window_fill_it(period);
    assert(k <= 2 * NANOS_PER_SEC) by (nonlinear_arith)
        requires
            k == ticks_per_tps_window(period),
            period > 0,
    ;
    if windows == 0 {
        assert(elapsed.len() == 0) by (nonlinear_arith)
            requires
                elapsed.len() == windows * k,
                windows == 0,
        ;
        assert(c.tps + Seq::new(windows, |i: int| k as u64) =~= c.tps);
        assert(windows * k * period == 0) by (nonlinear_arith)
            requires
                windows == 0,
        ;
    } else {
        let earlier = (windows - 1) as nat;
        assert(earlier * k + k == windows * k) by (nonlinear_arith)
            requires
                earlier == windows - 1,
        ;
        assert(earlier * k >= 0) by (nonlinear_arith)
            requires
                earlier >= 0,
                k >= 0,
        ;
        let first = elapsed.take((earlier * k) as int);
        let last = elapsed.skip((earlier * k) as int);
        assert(first + last =~= elapsed);
        lemma_even_ticks_give_one_sample_per_window(c, period, earlier, first);
        let before = c.ticked_evenly(c.tps_window_start, period, first);
        lemma_even_ticks_in_two_runs(c, c.tps_window_start, period, first, last);
        assert(c.tps_window_start + first.len() * period == before.tps_window_start)
            by (nonlinear_arith)
            requires
                first.len() == earlier * k,
                before.tps_window_start == c.tps_window_start + earlier * k * period,
        ;
        lemma_even_ticks_fill_one_tps_window(before, period, last);
        let after = before.ticked_evenly(before.tps_window_start, period, last);
        assert(after.tps =~= c.tps + Seq::new(windows, |i: int| k as u64));
        assert(before.tps_window_start + k * period == c.tps_window_start + windows * k
            * period) by (nonlinear_arith)
            requires
                before.tps_window_start == c.tps_window_start + earlier * k * period,
                earlier == windows - 1,
        ;
    }
}

/// After a missed-tick window that lasted a whole number of tick periods,
/// the ratio is the share of the scheduled ticks that did not take place, in
/// parts per million, rounded down; it is zero where as many ticks took
/// place as were scheduled, or more.
///
/// The tick at `now` closes the window and is the last that counts toward
/// it. `scheduled` is the number of periods that the window lasted.
pub proof fn lemma_missed_ticks_of_whole_periods(
    c: CadenceState,
    now: nat,
    elapsed: int,
    period: nat,
    scheduled: nat,
)
    requires
        period > 0,
        now > c.missed_ticks_window_start + MISSED_TICKS_WINDOW_NANOS,
        now - c.missed_ticks_window_start == scheduled * period,
        c.ticks_in_window < u64::MAX,
    ensures
        ({
            let completed = c.ticks_in_window + 1;
            let after = c.ticked(now, elapsed, period);
            &&& completed < scheduled ==> after.missed_ticks == ((scheduled - completed)
                * 1_000_000) / (scheduled as int)
            &&& completed >= scheduled ==> after.missed_ticks == 0
            &&& after.missed_ticks <= 1_000_000
            &&& after.ticks_in_window == 0
            &&& after.missed_ticks_window_start == now
        }),
{
    let completed = c.ticks_in_window + 1;
    let window = since(c.missed_ticks_window_start, now);
    assert(window == scheduled * period);
    if completed < scheduled {
        let missed = (scheduled - completed) as nat;
        assert(window - completed * period == missed * period) by (nonlinear_arith)
            requires
                window == scheduled * period,
                missed == scheduled - completed,
        ;
        assert(completed * period < window) by (nonlinear_arith)
            requires
                window == scheduled * period,
                completed < scheduled,
                period > 0,
        ;
        lemma_ratio_cancels_unit(missed, scheduled, period);
    } else {
        assert(completed * period >= window) by (nonlinear_arith)
            requires
                window == scheduled * period,
                completed >= scheduled,
        ;
    }
}

/// While a missed-tick window has lasted thirty seconds or less, a tick
/// leaves the ratio as it is.
pub proof fn lemma_missed_ticks_kept_in_open_window(
    c: CadenceState,
    now: nat,
    elapsed: int,
    period: nat,
)
    requires
        now <= c.missed_ticks_window_start + MISSED_TICKS_WINDOW_NANOS,
    ensures
        c.ticked(now, elapsed, period).missed_ticks == c.missed_ticks,
        c.ticked(now, elapsed, period).missed_ticks_window_start == c.missed_ticks_window_start,
        c.ticked(now, elapsed, period).ticks_in_window == counted_once_more(c.ticks_in_window),
{
}

} // verus!
