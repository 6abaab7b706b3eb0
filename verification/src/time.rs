//! Fixed-timestep clock: a pure accumulator over integer nanoseconds.
//!
//! Each frame the owning thread samples the wall clock, hands the timestamp to
//! [`EngineTime::update`], and then consumes fixed simulation steps with
//! [`EngineTime::tick`] while [`EngineTime::should_do_tick`] reports one due.
//! The accumulated lag is clamped so that one slow frame can never owe more
//! than `max_catch_up_ticks` steps: bounded catch-up.

use vstd::prelude::*;

verus! {

/// Largest lag the accumulator may carry; keeps every sum inside `u64`.
pub const LAG_CEILING_NANOS: u64 = 0x4000_0000_0000_0000;

pub const NANOS_PER_SECOND: u64 = 1_000_000_000;

/// Configuration of the fixed-timestep clock: the tick rate in steps per
/// second, and the bound on catch-up steps consumable after one update.
#[derive(Clone, Copy, PartialEq, Eq, Structural, Debug)]
pub struct TimeSettings {
    pub tick_rate: u32,
    pub max_catch_up_ticks: u32,
}

/// A read-only sample of the clock: the latest wall-clock delta and its
/// smoothed running average, both in nanoseconds.
#[derive(Clone, Copy, PartialEq, Eq, Structural, Debug)]
pub struct Time {
    pub delta_nanos: u64,
    pub average_delta_nanos: u64,
}

/// The fixed-timestep accumulator. Purely a state transformer: no blocking,
/// no clock access of its own; the caller supplies each timestamp.
#[derive(Clone, Copy, PartialEq, Eq, Structural, Debug)]
pub struct EngineTime {
    /// Duration of one fixed simulation step.
    pub fixed_step_nanos: u64,
    /// Bound on the number of steps one update may leave due.
    pub max_catch_up_ticks: u64,
    /// Timestamp handed to the most recent `update`.
    pub last_update_nanos: u64,
    /// Accumulated time not yet consumed by ticks.
    pub lag_nanos: u64,
    /// Wall-clock delta measured by the most recent `update`.
    pub delta_nanos: u64,
    /// Exponentially smoothed average of the deltas.
    pub average_delta_nanos: u64,
}

impl TimeSettings {
    /// Settings acceptable to `EngineTime::new`: a positive rate no finer
    /// than one step per nanosecond, and a positive catch-up bound whose
    /// worst-case lag stays below `LAG_CEILING_NANOS`.
    pub open spec fn wf(self) -> bool {
        &&& 1 <= self.tick_rate
        &&& self.tick_rate <= NANOS_PER_SECOND
        &&& 1 <= self.max_catch_up_ticks
        &&& (NANOS_PER_SECOND as int / self.tick_rate as int) * self.max_catch_up_ticks
            <= LAG_CEILING_NANOS
    }

    /// Duration of one fixed step under these settings.
    pub open spec fn step_nanos(self) -> int {
        NANOS_PER_SECOND as int / self.tick_rate as int
    }

    /// The default configuration: 128 steps per second, at most 1024
    /// catch-up steps per frame.
    pub fn new() -> (s: TimeSettings)
        ensures
            s.tick_rate == 128,
            s.max_catch_up_ticks == 1024,
            s.wf(),
    {
        TimeSettings { tick_rate: 128, max_catch_up_ticks: 1024 }
    }

    /// Builds the accumulator, anchored at timestamp zero.
    pub fn build(self) -> (t: EngineTime)
        requires
            self.wf(),
        ensures
            t == EngineTime::initial(self),
            t.wf(),
    {
        let step: u64 = NANOS_PER_SECOND / (self.tick_rate as u64);
        proof {
            vstd::arithmetic::div_mod::lemma_div_non_zero(
                NANOS_PER_SECOND as int,
                self.tick_rate as int,
            );
            vstd::arithmetic::mul::lemma_mul_nonnegative(
                step as int,
                self.max_catch_up_ticks as int,
            );
        }
        EngineTime {
            fixed_step_nanos: step,
            max_catch_up_ticks: self.max_catch_up_ticks as u64,
            last_update_nanos: 0,
            lag_nanos: 0,
            delta_nanos: 0,
            average_delta_nanos: 0,
        }
    }
}

impl EngineTime {
    /// The state `TimeSettings::build` constructs.
    pub open spec fn initial(settings: TimeSettings) -> EngineTime {
        EngineTime {
            fixed_step_nanos: (NANOS_PER_SECOND as int / settings.tick_rate as int) as u64,
            max_catch_up_ticks: settings.max_catch_up_ticks as u64,
            last_update_nanos: 0,
            lag_nanos: 0,
            delta_nanos: 0,
            average_delta_nanos: 0,
        }
    }

    /// Largest lag the accumulator ever holds: one full budget of catch-up
    /// steps. Excess elapsed time beyond it is dropped, which is what bounds
    /// a worst-case stall.
    pub open spec fn lag_cap(self) -> int {
        self.fixed_step_nanos * self.max_catch_up_ticks
    }

    /// Internal invariant: positive step and bound, cap within range, and
    /// lag never beyond the cap.
    pub open spec fn wf(self) -> bool {
        &&& 1 <= self.fixed_step_nanos
        &&& 1 <= self.max_catch_up_ticks
        &&& self.lag_cap() <= LAG_CEILING_NANOS
        &&& self.lag_nanos <= self.lag_cap()
    }

    /// Number of fixed steps currently owed: the lag measured in steps.
    pub open spec fn ticks_due(self) -> int {
        self.lag_nanos as int / self.fixed_step_nanos as int
    }

    /// The state after sampling the wall clock at `now`: the delta is
    /// recorded and added to the lag, which is clamped at the cap.
    pub open spec fn updated(self, now: u64) -> EngineTime {
        let delta = now - self.last_update_nanos;
        let grown = self.lag_nanos + delta;
        let lag = if grown >= self.lag_cap() {
            self.lag_cap()
        } else {
            grown
        };
        EngineTime {
            last_update_nanos: now,
            lag_nanos: lag as u64,
            delta_nanos: delta as u64,
            ..self
        }
    }

    /// The state after consuming one fixed step: the lag shrinks by one step
    /// and the smoothed average folds in the latest delta.
    pub open spec fn ticked(self) -> EngineTime {
        EngineTime {
            lag_nanos: (self.lag_nanos - self.fixed_step_nanos) as u64,
            average_delta_nanos: ((7 * self.average_delta_nanos + self.delta_nanos) / 8) as u64,
            ..self
        }
    }

    /// The state after `n` consecutive ticks.
    pub open spec fn ticked_n(self, n: nat) -> EngineTime
        decreases n,
    {
        if n == 0 {
            self
        } else {
            self.ticked().ticked_n((n - 1) as nat)
        }
    }

    /// Samples the wall clock. `now` comes from the caller: the clock itself
    /// performs no I/O. Requires a monotonic timestamp.
    pub fn update(&mut self, now: u64)
        requires
            old(self).wf(),
            now >= old(self).last_update_nanos,
        ensures
            *final(self) == old(self).updated(now),
            final(self).wf(),
    {
        let delta: u64 = now - self.last_update_nanos;
        let cap: u64 = self.fixed_step_nanos * self.max_catch_up_ticks;
        let lag: u64 = if delta >= cap {
            cap
        } else {
            // lag <= cap and delta < cap, so the sum stays below u64::MAX.
            let grown = self.lag_nanos + delta;
            if grown >= cap {
                cap
            } else {
                grown
            }
        };
        self.last_update_nanos = now;
        self.lag_nanos = lag;
        self.delta_nanos = delta;
    }

    /// Whether a fixed step is currently due.
    pub fn should_do_tick(&self) -> (due: bool)
        requires
            self.wf(),
        ensures
            due == (self.ticks_due() > 0),
    {
        proof {
            if self.lag_nanos >= self.fixed_step_nanos {
                vstd::arithmetic::div_mod::lemma_div_non_zero(
                    self.lag_nanos as int,
                    self.fixed_step_nanos as int,
                );
            } else {
                vstd::arithmetic::div_mod::lemma_basic_div(
                    self.lag_nanos as int,
                    self.fixed_step_nanos as int,
                );
            }
        }
        self.lag_nanos >= self.fixed_step_nanos
    }

    /// Consumes one fixed step from the accumulator.
    pub fn tick(&mut self)
        requires
            old(self).wf(),
            old(self).ticks_due() > 0,
        ensures
            *final(self) == old(self).ticked(),
            final(self).wf(),
            final(self).ticks_due() == old(self).ticks_due() - 1,
    {
        proof {
            lemma_due_means_step_available(*self);
            lemma_tick_count_decreases(*self);
        }
        let smoothed_wide: u128 = (7 * (self.average_delta_nanos as u128)
            + (self.delta_nanos as u128)) / 8;
        proof {
            let avg = self.average_delta_nanos as int;
            let delta = self.delta_nanos as int;
            assert((7 * avg + delta) / 8 <= u64::MAX) by (nonlinear_arith)
                requires
                    avg <= u64::MAX,
                    delta <= u64::MAX,
            ;
        }
        self.lag_nanos = self.lag_nanos - self.fixed_step_nanos;
        self.average_delta_nanos = smoothed_wide as u64;
    }

    /// Consumes every step currently due and reports how many there were.
    pub fn run_pending_ticks(&mut self) -> (n: u64)
        requires
            old(self).wf(),
        ensures
            n == old(self).ticks_due(),
            *final(self) == old(self).ticked_n(n as nat),
            final(self).wf(),
            final(self).ticks_due() == 0,
    {
        let mut n: u64 = 0;
        let ghost start = *self;
        proof {
            lemma_ticks_due_bounds(start);
        }
        while self.should_do_tick()
            invariant
                self.wf(),
                start.wf(),
                0 <= n <= start.ticks_due(),
                start.ticks_due() <= start.lag_nanos,
                *self == start.ticked_n(n as nat),
                self.ticks_due() == start.ticks_due() - n,
            decreases self.ticks_due(),
        {
            self.tick();
            proof {
                lemma_ticked_n_snoc(start, n as nat);
            }
            n = n + 1;
        }
        n
    }

    /// The latest wall-clock delta, in nanoseconds.
    pub fn delta(&self) -> (d: u64)
        ensures
            d == self.delta_nanos,
    {
        self.delta_nanos
    }

    /// The smoothed average delta, in nanoseconds.
    pub fn average_delta(&self) -> (d: u64)
        ensures
            d == self.average_delta_nanos,
    {
        self.average_delta_nanos
    }

    /// A read-only sample of the clock.
    pub fn time(&self) -> (t: Time)
        ensures
            t.delta_nanos == self.delta_nanos,
            t.average_delta_nanos == self.average_delta_nanos,
    {
        Time { delta_nanos: self.delta_nanos, average_delta_nanos: self.average_delta_nanos }
    }
}

/// A positive tick count means at least one full step sits in the lag.
pub proof fn lemma_due_means_step_available(t: EngineTime)
    requires
        t.wf(),
        t.ticks_due() > 0,
    ensures
        t.lag_nanos >= t.fixed_step_nanos,
{
    if t.lag_nanos < t.fixed_step_nanos {
        vstd::arithmetic::div_mod::lemma_basic_div(t.lag_nanos as int, t.fixed_step_nanos as int);
    }
}

/// Removing one step from the lag lowers the tick count by exactly one.
pub proof fn lemma_tick_count_decreases(t: EngineTime)
    requires
        t.wf(),
        t.ticks_due() > 0,
    ensures
        t.ticked().ticks_due() == t.ticks_due() - 1,
        t.ticked().wf(),
{
    lemma_due_means_step_available(t);
    vstd::arithmetic::div_mod::lemma_div_minus_one(
        t.lag_nanos as int,
        t.fixed_step_nanos as int,
    );
    let avg = t.average_delta_nanos as int;
    let delta = t.delta_nanos as int;
    assert((7 * avg + delta) / 8 <= u64::MAX) by (nonlinear_arith)
        requires
            avg <= u64::MAX,
            delta <= u64::MAX,
    ;
}

/// Ticking once more at the end of a run equals running one step longer.
proof fn lemma_ticked_n_snoc(t: EngineTime, n: nat)
    ensures
        t.ticked_n(n).ticked() == t.ticked_n(n + 1),
    decreases n,
{
    assert(t.ticked_n(n + 1) == t.ticked().ticked_n(n));
    if n == 0 {
        assert(t.ticked_n(0) == t);
        assert(t.ticked().ticked_n(0) == t.ticked());
    } else {
        lemma_ticked_n_snoc(t.ticked(), (n - 1) as nat);
        assert(t.ticked_n(n) == t.ticked().ticked_n((n - 1) as nat));
    }
}

/// Ticks only consume lag and smooth the average: the step configuration,
/// the anchor timestamp and the measured delta all survive any number of
/// them.
pub proof fn lemma_ticked_n_preserves_frame(t: EngineTime, n: nat)
    ensures
        t.ticked_n(n).last_update_nanos == t.last_update_nanos,
        t.ticked_n(n).fixed_step_nanos == t.fixed_step_nanos,
        t.ticked_n(n).max_catch_up_ticks == t.max_catch_up_ticks,
        t.ticked_n(n).delta_nanos == t.delta_nanos,
    decreases n,
{
    if n > 0 {
        lemma_ticked_n_preserves_frame(t.ticked(), (n - 1) as nat);
    }
}

/// The tick count is never negative and never beyond the lag itself.
proof fn lemma_ticks_due_bounds(t: EngineTime)
    requires
        t.wf(),
    ensures
        0 <= t.ticks_due() <= t.lag_nanos,
{
    vstd::arithmetic::div_mod::lemma_div_pos_is_pos(t.lag_nanos as int, t.fixed_step_nanos as int);
    vstd::arithmetic::div_mod::lemma_div_is_ordered_by_denominator(
        t.lag_nanos as int,
        1,
        t.fixed_step_nanos as int,
    );
    vstd::arithmetic::div_mod::lemma_div_basics(t.lag_nanos as int);
}

/// Bounded catch-up: after one `update`, the number of steps owed is the
/// elapsed time (the leftover lag plus the new delta) measured in whole
/// fixed steps, clamped to the configured bound — never more.
pub proof fn lemma_bounded_catch_up(t: EngineTime, now: u64)
    requires
        t.wf(),
        now >= t.last_update_nanos,
    ensures
        t.updated(now).ticks_due() == min_int(
            (t.lag_nanos + (now - t.last_update_nanos)) / t.fixed_step_nanos as int,
            t.max_catch_up_ticks as int,
        ),
        t.updated(now).ticks_due() <= t.max_catch_up_ticks,
{
    let step = t.fixed_step_nanos as int;
    let m = t.max_catch_up_ticks as int;
    let grown = t.lag_nanos + (now - t.last_update_nanos);
    let cap = t.lag_cap();
    assert(cap == step * m);
    if grown >= cap {
        assert(t.updated(now).lag_nanos == cap);
        assert(cap / step == m) by {
            vstd::arithmetic::div_mod::lemma_div_multiples_vanish(m, step);
            assert(step * m == m * step) by (nonlinear_arith);
        }
        assert(grown / step >= m) by {
            vstd::arithmetic::div_mod::lemma_div_is_ordered(cap, grown, step);
        }
    } else {
        assert(t.updated(now).lag_nanos == grown);
        assert(grown / step <= m) by {
            if grown / step > m {
                vstd::arithmetic::div_mod::lemma_fundamental_div_mod(grown, step);
                vstd::arithmetic::div_mod::lemma_mod_bound(grown, step);
                let q = grown / step;
                assert(step * q >= cap + 1) by (nonlinear_arith)
                    requires
                        q >= m + 1,
                        step >= 1,
                        cap == step * m,
                ;
            }
        }
    }
}

/// The smaller of two mathematical integers.
pub open spec fn min_int(a: int, b: int) -> int {
    if a <= b {
        a
    } else {
        b
    }
}

} // verus!
