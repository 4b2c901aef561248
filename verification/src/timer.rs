//! A countdown and interval timer, advanced by a caller-supplied delta.

use vstd::arithmetic::div_mod::{lemma_fundamental_div_mod, lemma_fundamental_div_mod_converse};
use vstd::arithmetic::mul::lemma_mul_is_distributive_add_other_way;
use vstd::prelude::*;

verus! {

/// Number of nanoseconds in one second.
pub const NANOS_PER_SECOND: u64 = 1_000_000_000;

/// What a timer does once its duration has elapsed.
#[derive(Clone, Copy, Debug, PartialEq, Eq, Structural)]
pub enum TimerMode {
    /// Stops at its duration and stays finished until it is reset.
    OneShot,
    /// Starts over, carrying the time beyond its duration into the next cycle.
    Repeating,
}

/// Mathematical model of a [`Timer`]: unbounded counts of nanoseconds.
pub struct TimerModel {
    /// Length of one cycle.
    pub duration: nat,
    /// Time gone by in the current cycle.
    pub elapsed: nat,
    pub mode: TimerMode,
    /// Whether the last tick reached the duration (and, for a one-shot timer,
    /// whether any tick since the last reset did).
    pub finished: bool,
    /// Number of whole cycles that the last tick completed.
    pub completions: nat,
}

impl TimerModel {
    /// A repeating timer needs a cycle of positive length.
    pub open spec fn wf(self) -> bool {
        self.mode is Repeating ==> self.duration > 0
    }

    /// A timer that has not run yet.
    pub open spec fn fresh(duration: nat, mode: TimerMode) -> TimerModel {
        TimerModel { duration, elapsed: 0, mode, finished: false, completions: 0 }
    }

    /// True only after a tick that reached the duration.
    pub open spec fn just_finished(self) -> bool {
        self.completions > 0
    }

    /// The timer after `delta` more nanoseconds.
    pub open spec fn tick(self, delta: nat) -> TimerModel {
        let total = self.elapsed + delta;
        match self.mode {
            TimerMode::OneShot => {
                if self.finished {
                    TimerModel { completions: 0, ..self }
                } else if total >= self.duration {
                    TimerModel { elapsed: self.duration, finished: true, completions: 1, ..self }
                } else {
                    TimerModel { elapsed: total, completions: 0, ..self }
                }
            },
            TimerMode::Repeating => TimerModel {
                elapsed: total % self.duration,
                finished: total >= self.duration,
                completions: total / self.duration,
                ..self
            },
        }
    }

    /// The timer back at the start of its cycle.
    pub open spec fn reset(self) -> TimerModel {
        TimerModel { elapsed: 0, finished: false, completions: 0, ..self }
    }

    /// The timer with another cycle length; the elapsed time stays.
    pub open spec fn with_duration(self, duration: nat) -> TimerModel {
        TimerModel { duration, ..self }
    }

    /// The timer after one tick for each delta, in order.
    pub open spec fn run(self, deltas: Seq<nat>) -> TimerModel
        decreases deltas.len(),
    {
        if deltas.len() == 0 {
            self
        } else {
            self.run(deltas.drop_last()).tick(deltas.last())
        }
    }

    /// Number of ticks of `run` that finished.
    pub open spec fn finishes_over(self, deltas: Seq<nat>) -> nat
        decreases deltas.len(),
    {
        if deltas.len() == 0 {
            0
        } else {
            self.finishes_over(deltas.drop_last()) + if self.run(deltas).just_finished() {
                1nat
            } else {
                0nat
            }
        }
    }

    /// Number of cycles completed over all the ticks of `run`.
    pub open spec fn completions_over(self, deltas: Seq<nat>) -> nat
        decreases deltas.len(),
    {
        if deltas.len() == 0 {
            0
        } else {
            self.completions_over(deltas.drop_last()) + self.run(deltas).completions
        }
    }
}

/// Sum of a sequence of deltas.
pub open spec fn total_time(deltas: Seq<nat>) -> nat
    decreases deltas.len(),
{
    if deltas.len() == 0 {
        0
    } else {
        total_time(deltas.drop_last()) + deltas.last()
    }
}

/// A countdown (one-shot) or interval (repeating) timer in whole nanoseconds.
#[derive(Clone, Copy, Debug, PartialEq, Eq)]
pub struct Timer {
    duration_ns: u64,
    elapsed_ns: u64,
    mode: TimerMode,
    finished: bool,
    completions: u128,
}

impl View for Timer {
    type V = TimerModel;

    closed spec fn view(&self) -> TimerModel {
        TimerModel {
            duration: self.duration_ns as nat,
            elapsed: self.elapsed_ns as nat,
            mode: self.mode,
            finished: self.finished,
            completions: self.completions as nat,
        }
    }
}

impl Timer {
    /// A fresh timer. A repeating timer must have a positive duration.
    pub fn new(duration_ns: u64, mode: TimerMode) -> (timer: Timer)
        requires
            mode is Repeating ==> duration_ns > 0,
        ensures
            timer@ == TimerModel::fresh(duration_ns as nat, mode),
            timer@.wf(),
    {
        Timer { duration_ns, elapsed_ns: 0, mode, finished: false, completions: 0 }
    }

    /// Length of one cycle.
    pub fn duration_ns(&self) -> (d: u64)
        ensures
            d == self@.duration,
    {
        self.duration_ns
    }

    /// Time gone by in the current cycle.
    pub fn elapsed_ns(&self) -> (e: u64)
        ensures
            e == self@.elapsed,
    {
        self.elapsed_ns
    }

    pub fn mode(&self) -> (m: TimerMode)
        ensures
            m == self@.mode,
    {
        self.mode
    }

    /// Whether the timer has reached its duration.
    pub fn finished(&self) -> (f: bool)
        ensures
            f == self@.finished,
    {
        self.finished
    }

    /// Whether the last tick reached the duration.
    pub fn just_finished(&self) -> (f: bool)
        ensures
            f == self@.just_finished(),
    {
        self.completions > 0
    }

    /// Number of whole cycles that the last tick completed.
    pub fn times_finished_this_tick(&self) -> (n: u128)
        ensures
            n == self@.completions,
    {
        self.completions
    }

    /// Advances the timer by `delta_ns`.
    pub fn tick(&mut self, delta_ns: u64)
        requires
            old(self)@.wf(),
        ensures
            final(self)@ == old(self)@.tick(delta_ns as nat),
            final(self)@.wf(),
    {
        match self.mode {
            TimerMode::OneShot => {
                if self.finished {
                    self.completions = 0;
                } else if self.elapsed_ns >= self.duration_ns || delta_ns >= self.duration_ns
                    - self.elapsed_ns {
                    self.elapsed_ns = self.duration_ns;
                    self.finished = true;
                    self.completions = 1;
                } else {
                    self.elapsed_ns = self.elapsed_ns + delta_ns;
                    self.completions = 0;
                }
            },
            TimerMode::Repeating => {
                let total: u128 = self.elapsed_ns as u128 + delta_ns as u128;
                let cycle: u128 = self.duration_ns as u128;
                self.completions = total / cycle;
                self.elapsed_ns = (total % cycle) as u64;
                self.finished = total >= cycle;
            },
        }
    }

    /// Puts the timer back at the start of its cycle.
    pub fn reset(&mut self)
        ensures
            final(self)@ == old(self)@.reset(),
            old(self)@.wf() ==> final(self)@.wf(),
    {
        self.elapsed_ns = 0;
        self.finished = false;
        self.completions = 0;
    }

    /// Changes the cycle length and leaves the elapsed time as it is.
    pub fn set_duration(&mut self, duration_ns: u64)
        requires
            old(self)@.mode is Repeating ==> duration_ns > 0,
        ensures
            final(self)@ == old(self)@.with_duration(duration_ns as nat),
            final(self)@.wf(),
    {
        self.duration_ns = duration_ns;
    }
}

/// Splitting a dividend at a multiple of the divisor: the quotient of the
/// parts add up and the remainder is that of the second part.
proof fn lemma_carry(a: nat, b: nat, d: nat)
    requires
        d > 0,
    ensures
        a / d + (a % d + b) / d == (a + b) / d,
        (a % d + b) % d == (a + b) % d,
{
    let s = a % d + b;
    lemma_fundamental_div_mod(a as int, d as int);
    lemma_fundamental_div_mod(s as int, d as int);
    lemma_mul_is_distributive_add_other_way(d as int, (a / d) as int, (s / d) as int);
    assert((a / d + s / d) * d == (a / d) * d + (s / d) * d);
    assert((a / d) * d == d * (a / d)) by (nonlinear_arith);
    assert((s / d) * d == d * (s / d)) by (nonlinear_arith);
    lemma_fundamental_div_mod_converse(
        (a + b) as int,
        d as int,
        (a / d + s / d) as int,
        (s % d) as int,
    );
}

/// A repeating timer completes one cycle for each full duration that the
/// deltas add up to, counting from the time already elapsed, and keeps the
/// remainder as its elapsed time. (A timer whose duration was cut below its
/// elapsed time owes the cycles to its next tick, so there has to be one.)
pub proof fn law_repeating_counts_cycles(timer: TimerModel, deltas: Seq<nat>)
    requires
        timer.mode is Repeating,
        timer.duration > 0,
        deltas.len() > 0 || timer.elapsed < timer.duration,
    ensures
        timer.completions_over(deltas) == (timer.elapsed + total_time(deltas)) / timer.duration,
        timer.run(deltas).elapsed == (timer.elapsed + total_time(deltas)) % timer.duration,
        timer.run(deltas).duration == timer.duration,
        timer.run(deltas).mode == timer.mode,
    decreases deltas.len(),
{
    if deltas.len() == 0 {
        vstd::arithmetic::div_mod::lemma_basic_div(timer.elapsed as int, timer.duration as int);
        vstd::arithmetic::div_mod::lemma_small_mod(timer.elapsed, timer.duration);
    } else {
        let init = deltas.drop_last();
        if init.len() == 0 {
            assert(timer.run(init) == timer);
            assert(timer.completions_over(init) == 0);
            assert(total_time(init) == 0);
        } else {
            law_repeating_counts_cycles(timer, init);
            lemma_carry(timer.elapsed + total_time(init), deltas.last(), timer.duration);
        }
    }
}

/// A repeating timer in its cycle, ticked by deltas of at most its duration,
/// finishes exactly once for each full duration that the deltas add up to,
/// counting from the time already elapsed.
pub proof fn law_repeating_finishes_once_per_cycle(timer: TimerModel, deltas: Seq<nat>)
    requires
        timer.mode is Repeating,
        timer.duration > 0,
        timer.elapsed < timer.duration,
        forall|i: int| 0 <= i < deltas.len() ==> deltas[i] <= timer.duration,
    ensures
        timer.finishes_over(deltas) == (timer.elapsed + total_time(deltas)) / timer.duration,
        timer.finishes_over(deltas) == timer.completions_over(deltas),
    decreases deltas.len(),
{
    let cycle = timer.duration;
    if deltas.len() == 0 {
        vstd::arithmetic::div_mod::lemma_basic_div(timer.elapsed as int, cycle as int);
    } else {
        let init = deltas.drop_last();
        law_repeating_finishes_once_per_cycle(timer, init);
        law_repeating_counts_cycles(timer, deltas);
        let before = timer.run(init).elapsed;
        if init.len() > 0 {
            law_repeating_counts_cycles(timer, init);
            vstd::arithmetic::div_mod::lemma_mod_bound(
                (timer.elapsed + total_time(init)) as int,
                cycle as int,
            );
        }
        let total = before + deltas.last();
        assert(total / cycle <= 1) by (nonlinear_arith)
            requires
                0 <= total < 2 * cycle,
                cycle > 0,
        ;
    }
}

/// A one-shot timer that has finished stays finished, with its elapsed time
/// frozen, whatever ticks follow; none of them counts as finishing again.
pub proof fn law_one_shot_stays_finished(timer: TimerModel, deltas: Seq<nat>)
    requires
        timer.mode is OneShot,
        timer.finished,
    ensures
        timer.run(deltas).finished,
        timer.run(deltas).elapsed == timer.elapsed,
        timer.run(deltas).mode == timer.mode,
        timer.run(deltas).duration == timer.duration,
        timer.completions_over(deltas) == 0,
        deltas.len() > 0 ==> !timer.run(deltas).just_finished(),
    decreases deltas.len(),
{
    if deltas.len() > 0 {
        law_one_shot_stays_finished(timer, deltas.drop_last());
    }
}

/// A one-shot timer finishes exactly when the deltas reach its duration, and
/// over any run of ticks it finishes at most once.
pub proof fn law_one_shot_finishes_once(timer: TimerModel, deltas: Seq<nat>)
    requires
        timer.mode is OneShot,
        !timer.finished,
        deltas.len() > 0,
    ensures
        timer.run(deltas).finished <==> timer.elapsed + total_time(deltas) >= timer.duration,
        timer.run(deltas).finished ==> timer.run(deltas).elapsed == timer.duration,
        !timer.run(deltas).finished ==> timer.run(deltas).elapsed == timer.elapsed + total_time(
            deltas,
        ),
        timer.completions_over(deltas) == if timer.run(deltas).finished {
            1nat
        } else {
            0nat
        },
        timer.run(deltas).mode == timer.mode,
        timer.run(deltas).duration == timer.duration,
    decreases deltas.len(),
{
    let init = deltas.drop_last();
    if init.len() == 0 {
        assert(timer.run(init) == timer);
        assert(timer.completions_over(init) == 0);
        assert(total_time(init) == 0);
    } else {
        law_one_shot_finishes_once(timer, init);
    }
}

} // verus!
