//! The gauge state and its update rule: a linear integrator clamped to
//! `[0, max_value]`, driven once per frame by whether the accelerator key is
//! held and by the elapsed time of the frame.

use vstd::prelude::*;

use crate::dial::{angle_units, dial_ticks, readout_digits, spec_angle_units, spec_digits, spec_tick, Tick};

verus! {

/// Highest RPM shown on the dial.
pub const MAX_VALUE: u32 = 9000;
/// RPM at and above which ticks and labels use the warning color.
pub const DANGER_THRESHOLD: u32 = 6000;
/// Dial radius in pixels.
pub const GAUGE_RADIUS: u32 = 150;
/// Dial centre coordinate (both x and y) in pixels.
pub const GAUGE_CENTER: u32 = 200;
/// Rate of increase while the key is held: the value rises by
/// `VALUE_STEP * dt / 10` RPM over `dt` milliseconds.
pub const VALUE_STEP: u32 = 50;
/// Rate of decrease while the key is released: the value falls by
/// `DECAY_RATE * dt / 10` RPM over `dt` milliseconds.
pub const DECAY_RATE: u32 = 20;

/// Everything one frame of the gauge shows, with no floating point: the
/// dial position and size, the styled ticks, the needle angle in units of
/// pi / (4 * max_value) radians, and the decimal readout of the value.
/// Projecting the angles onto screen coordinates is the caller's job.
pub struct Scene {
    pub center: u32,
    pub radius: u32,
    pub ticks: Vec<Tick>,
    pub needle_angle_units: u64,
    pub readout: Vec<u8>,
}

/// The simulated RPM gauge. `current_value` is the only mutable state; the
/// remaining fields are configuration fixed at construction.
pub struct Gauge {
    pub current_value: u32,
    pub max_value: u32,
    pub danger_threshold: u32,
    pub radius: u32,
    pub center: u32,
    pub value_step: u32,
    pub decay_rate: u32,
}

/// Change in RPM that a rate produces over `dt_ms` milliseconds. A rate `r`
/// means `r * 100` RPM per second, hence `r * dt_ms / 10` RPM over `dt_ms`
/// milliseconds (integer division).
pub open spec fn delta_amount(rate: u32, dt_ms: u32) -> int {
    ((rate as int) * (dt_ms as int)) / 10
}

/// One step of the clamped integrator on a bare value: rise by `gain` but
/// never above `max` while held, fall by `loss` but never below 0 while
/// released, and do nothing when already at the bound in the direction of
/// travel.
pub open spec fn next_value(cur: int, max: int, gain: int, loss: int, held: bool) -> int {
    if held && cur < max {
        if cur + gain > max {
            max
        } else {
            cur + gain
        }
    } else if !held && cur > 0 {
        if cur - loss < 0 {
            0
        } else {
            cur - loss
        }
    } else {
        cur
    }
}

/// The accumulated change that a rate produces over a whole sequence of
/// frame times, ignoring clamping.
pub open spec fn total_delta(rate: u32, dts: Seq<u32>) -> int
    decreases dts.len(),
{
    if dts.len() == 0 {
        0
    } else {
        total_delta(rate, dts.drop_last()) + delta_amount(rate, dts.last())
    }
}

/// The value reached from `cur` after applying one update per element of
/// `dts`, all with the same held/released state.
pub open spec fn run_value(cur: int, max: int, step: u32, decay: u32, held: bool, dts: Seq<u32>) -> int
    decreases dts.len(),
{
    if dts.len() == 0 {
        cur
    } else {
        next_value(
            run_value(cur, max, step, decay, held, dts.drop_last()),
            max,
            delta_amount(step, dts.last()),
            delta_amount(decay, dts.last()),
            held,
        )
    }
}

impl Gauge {
    /// The gauge invariant: the value never leaves `[0, max_value]`.
    pub open spec fn wf(self) -> bool {
        self.current_value <= self.max_value
    }

    /// The value after one `update_rpm` call.
    pub open spec fn spec_updated(self, held: bool, dt_ms: u32) -> int {
        next_value(
            self.current_value as int,
            self.max_value as int,
            delta_amount(self.value_step, dt_ms),
            delta_amount(self.decay_rate, dt_ms),
            held,
        )
    }

    /// The value after one `update_rpm` call per element of `dts`.
    pub open spec fn spec_run(self, held: bool, dts: Seq<u32>) -> int {
        run_value(
            self.current_value as int,
            self.max_value as int,
            self.value_step,
            self.decay_rate,
            held,
            dts,
        )
    }

    /// A fresh gauge: value 0, dial and rate configuration at their
    /// standard settings.
    pub fn new() -> (g: Gauge)
        ensures
            g.wf(),
            g.current_value == 0,
            g.max_value == MAX_VALUE,
            g.danger_threshold == DANGER_THRESHOLD,
            g.radius == GAUGE_RADIUS,
            g.center == GAUGE_CENTER,
            g.value_step == VALUE_STEP,
            g.decay_rate == DECAY_RATE,
    {
        Gauge {
            current_value: 0,
            max_value: MAX_VALUE,
            danger_threshold: DANGER_THRESHOLD,
            radius: GAUGE_RADIUS,
            center: GAUGE_CENTER,
            value_step: VALUE_STEP,
            decay_rate: DECAY_RATE,
        }
    }

    /// Advance the gauge by one frame: rise towards `max_value` while the
    /// key is held, decay towards 0 while it is released, clamped at both
    /// ends. `dt_ms` is the elapsed frame time in milliseconds.
    pub fn update_rpm(&mut self, key_up_pressed: bool, dt_ms: u32)
        requires
            old(self).wf(),
        ensures
            final(self).wf(),
            final(self).current_value == old(self).spec_updated(key_up_pressed, dt_ms),
            final(self).max_value == old(self).max_value,
            final(self).danger_threshold == old(self).danger_threshold,
            final(self).radius == old(self).radius,
            final(self).center == old(self).center,
            final(self).value_step == old(self).value_step,
            final(self).decay_rate == old(self).decay_rate,
    {
        if key_up_pressed && self.current_value < self.max_value {
            proof {
                assert((self.value_step as int) * (dt_ms as int) < 0x1_0000_0000 * 0x1_0000_0000)
                    by (nonlinear_arith)
                    requires
                        0 <= (self.value_step as int) < 0x1_0000_0000,
                        0 <= (dt_ms as int) < 0x1_0000_0000,
                ;
            }
            let gain: u64 = (self.value_step as u64) * (dt_ms as u64) / 10;
            let grown: u64 = (self.current_value as u64) + gain;
            if grown > self.max_value as u64 {
                self.current_value = self.max_value;
            } else {
                self.current_value = grown as u32;
            }
        } else if !key_up_pressed && self.current_value > 0 {
            proof {
                assert((self.decay_rate as int) * (dt_ms as int) < 0x1_0000_0000 * 0x1_0000_0000)
                    by (nonlinear_arith)
                    requires
                        0 <= (self.decay_rate as int) < 0x1_0000_0000,
                        0 <= (dt_ms as int) < 0x1_0000_0000,
                ;
            }
            let loss: u64 = (self.decay_rate as u64) * (dt_ms as u64) / 10;
            if loss >= self.current_value as u64 {
                self.current_value = 0;
            } else {
                self.current_value = self.current_value - (loss as u32);
            }
        }
    }

    /// Lay out one frame of the gauge: every tick with its styling, the
    /// needle angle for the current value, and the decimal readout.
    pub fn draw(&self) -> (scene: Scene)
        requires
            self.wf(),
        ensures
            scene.center == self.center,
            scene.radius == self.radius,
            scene.needle_angle_units == spec_angle_units(
                self.max_value as int,
                self.current_value as int,
            ),
            scene.ticks@.len() == self.max_value / 100 + 1,
            forall|k: int|
                0 <= k < scene.ticks@.len() ==> scene.ticks@[k] == spec_tick(
                    self.max_value,
                    self.danger_threshold,
                    (100 * k) as u32,
                ),
            scene.readout@ == spec_digits(self.current_value as nat),
    {
        Scene {
            center: self.center,
            radius: self.radius,
            ticks: dial_ticks(self.max_value, self.danger_threshold),
            needle_angle_units: angle_units(self.max_value, self.current_value),
            readout: readout_digits(self.current_value),
        }
    }
}

/// A rate never produces a negative change.
proof fn lemma_delta_amount_nonneg(rate: u32, dt_ms: u32)
    ensures
        delta_amount(rate, dt_ms) >= 0,
{
    assert((rate as int) * (dt_ms as int) >= 0) by (nonlinear_arith);
}

/// The accumulated change of a whole run is never negative.
proof fn lemma_total_delta_nonneg(rate: u32, dts: Seq<u32>)
    ensures
        total_delta(rate, dts) >= 0,
    decreases dts.len(),
{
    if dts.len() > 0 {
        lemma_total_delta_nonneg(rate, dts.drop_last());
        lemma_delta_amount_nonneg(rate, dts.last());
    }
}

/// Extending a prefix by one frame adds that frame's change to the total.
proof fn lemma_total_delta_take_succ(rate: u32, dts: Seq<u32>, i: int)
    requires
        0 <= i < dts.len(),
    ensures
        total_delta(rate, dts.take(i + 1)) == total_delta(rate, dts.take(i)) + delta_amount(
            rate,
            dts[i],
        ),
{
    assert(dts.take(i + 1).drop_last() =~= dts.take(i));
    assert(dts.take(i + 1).last() == dts[i]);
}

/// The accumulated change grows with the prefix it is taken over.
proof fn lemma_total_delta_take_mono(rate: u32, dts: Seq<u32>, i: int, j: int)
    requires
        0 <= i <= j <= dts.len(),
    ensures
        total_delta(rate, dts.take(i)) <= total_delta(rate, dts.take(j)),
    decreases j - i,
{
    if i < j {
        lemma_total_delta_take_mono(rate, dts, i, j - 1);
        lemma_total_delta_take_succ(rate, dts, j - 1);
        lemma_delta_amount_nonneg(rate, dts[j - 1]);
    }
}

/// A run with the key held is exactly the accumulated gain, clamped at the
/// maximum.
proof fn lemma_run_held_exact(cur: int, max: int, step: u32, decay: u32, dts: Seq<u32>)
    requires
        0 <= cur <= max,
    ensures
        run_value(cur, max, step, decay, true, dts) == (if cur + total_delta(step, dts) > max {
            max
        } else {
            cur + total_delta(step, dts)
        }),
    decreases dts.len(),
{
    if dts.len() > 0 {
        lemma_run_held_exact(cur, max, step, decay, dts.drop_last());
        lemma_delta_amount_nonneg(step, dts.last());
        lemma_total_delta_nonneg(step, dts.drop_last());
    }
}

/// A run with the key released is exactly the accumulated loss, clamped at
/// zero.
proof fn lemma_run_released_exact(cur: int, max: int, step: u32, decay: u32, dts: Seq<u32>)
    requires
        0 <= cur <= max,
    ensures
        run_value(cur, max, step, decay, false, dts) == (if cur - total_delta(decay, dts) < 0 {
            0
        } else {
            cur - total_delta(decay, dts)
        }),
    decreases dts.len(),
{
    if dts.len() > 0 {
        lemma_run_released_exact(cur, max, step, decay, dts.drop_last());
        lemma_delta_amount_nonneg(decay, dts.last());
        lemma_total_delta_nonneg(decay, dts.drop_last());
    }
}

/// Law: with the key held, any number of updates leaves the value
/// non-decreasing along the whole run and never above the maximum: every
/// prefix of the run reaches at least what every shorter prefix reached,
/// and no prefix passes `max_value`.
pub proof fn lemma_held_monotone(g: Gauge, dts: Seq<u32>)
    requires
        g.wf(),
    ensures
        g.current_value <= g.spec_run(true, dts) <= g.max_value,
        forall|i: int, j: int|
            #![trigger g.spec_run(true, dts.take(i)), g.spec_run(true, dts.take(j))]
            0 <= i <= j <= dts.len() ==> g.spec_run(true, dts.take(i)) <= g.spec_run(
                true,
                dts.take(j),
            ),
{
    lemma_run_held_exact(g.current_value as int, g.max_value as int, g.value_step, g.decay_rate, dts);
    lemma_total_delta_nonneg(g.value_step, dts);
    assert forall|i: int, j: int| 0 <= i <= j <= dts.len() implies g.spec_run(true, dts.take(i))
        <= g.spec_run(true, dts.take(j)) by {
        lemma_run_held_exact(
            g.current_value as int,
            g.max_value as int,
            g.value_step,
            g.decay_rate,
            dts.take(i),
        );
        lemma_run_held_exact(
            g.current_value as int,
            g.max_value as int,
            g.value_step,
            g.decay_rate,
            dts.take(j),
        );
        lemma_total_delta_take_mono(g.value_step, dts, i, j);
        lemma_total_delta_nonneg(g.value_step, dts.take(i));
    }
}

/// Law: with the key released, any number of updates leaves the value
/// non-increasing along the whole run and never below zero.
pub proof fn lemma_released_monotone(g: Gauge, dts: Seq<u32>)
    requires
        g.wf(),
    ensures
        0 <= g.spec_run(false, dts) <= g.current_value,
        forall|i: int, j: int|
            #![trigger g.spec_run(false, dts.take(i)), g.spec_run(false, dts.take(j))]
            0 <= i <= j <= dts.len() ==> g.spec_run(false, dts.take(j)) <= g.spec_run(
                false,
                dts.take(i),
            ),
{
    lemma_run_released_exact(
        g.current_value as int,
        g.max_value as int,
        g.value_step,
        g.decay_rate,
        dts,
    );
    lemma_total_delta_nonneg(g.decay_rate, dts);
    assert forall|i: int, j: int| 0 <= i <= j <= dts.len() implies g.spec_run(false, dts.take(j))
        <= g.spec_run(false, dts.take(i)) by {
        lemma_run_released_exact(
            g.current_value as int,
            g.max_value as int,
            g.value_step,
            g.decay_rate,
            dts.take(i),
        );
        lemma_run_released_exact(
            g.current_value as int,
            g.max_value as int,
            g.value_step,
            g.decay_rate,
            dts.take(j),
        );
        lemma_total_delta_take_mono(g.decay_rate, dts, i, j);
        lemma_total_delta_nonneg(g.decay_rate, dts.take(i));
    }
}

/// Law: starting from zero with the key held, as soon as the accumulated
/// gain over the run reaches the maximum, the value is exactly the maximum
/// - the clamp leaves no rounding residue.
pub proof fn lemma_held_reaches_max(g: Gauge, dts: Seq<u32>)
    requires
        g.wf(),
        g.current_value == 0,
        total_delta(g.value_step, dts) >= g.max_value,
    ensures
        g.spec_run(true, dts) == g.max_value,
{
    lemma_run_held_exact(g.current_value as int, g.max_value as int, g.value_step, g.decay_rate, dts);
}

/// Law: an update with the key released and no elapsed time changes
/// nothing.
pub proof fn lemma_release_zero_dt_noop(g: Gauge)
    requires
        g.wf(),
    ensures
        g.spec_updated(false, 0) == g.current_value,
{
}

/// A run over a single frame time is one plain update.
pub proof fn lemma_run_one_step(g: Gauge, held: bool, dt_ms: u32)
    ensures
        g.spec_run(held, seq![dt_ms]) == g.spec_updated(held, dt_ms),
{
    let s = seq![dt_ms];
    assert(s.last() == dt_ms);
    assert(s.drop_last() =~= Seq::<u32>::empty());
    assert(run_value(
        g.current_value as int,
        g.max_value as int,
        g.value_step,
        g.decay_rate,
        held,
        s.drop_last(),
    ) == g.current_value as int);
}

} // verus!
