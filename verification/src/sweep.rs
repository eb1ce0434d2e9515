//! The circular sweep generator and the step-by-step sweep run.
//!
//! A sweep of `n` steps traces a circle around a centre pair of angles: step
//! `t` (for `0 <= t < n`) sits at the phase `t/n` of a full turn, and its
//! setpoint pair is `centre + radius * (cos, sin)` of that phase. The
//! trigonometric values arrive as fixed-point inputs scaled by [`TRIG_SCALE`]
//! (the caller evaluates cosine and sine of `2*pi*t/n` however it likes); the
//! affine combination and every decision of the run are exact integer
//! arithmetic, verified here.

use vstd::prelude::*;
use vstd::arithmetic::div_mod::lemma_div_is_ordered;
use crate::angle::{Angle, rounded_div};

verus! {

/// Fixed-point scale of the trigonometric inputs: a cosine or sine value `c`
/// in `[-1, 1]` is carried as `round(c * TRIG_SCALE)`.
pub const TRIG_SCALE: i64 = 1_000_000;

/// Largest magnitude, in micro-degrees, accepted for a sweep centre or
/// radius: one million degrees. The bound only keeps the setpoint arithmetic
/// inside the machine integers; it is far beyond any physical servo range.
pub const MAX_ANGLE_MICRO: i64 = 1_000_000_000_000;

/// A cosine/sine pair in fixed point, scaled by [`TRIG_SCALE`].
#[derive(Clone, Copy, PartialEq, Eq, Structural, Debug)]
pub struct TrigPair {
    pub cos_fp: i64,
    pub sin_fp: i64,
}

impl TrigPair {
    /// Both components lie in the scaled image of `[-1, 1]`.
    pub open spec fn wf(self) -> bool {
        &&& -TRIG_SCALE <= self.cos_fp <= TRIG_SCALE
        &&& -TRIG_SCALE <= self.sin_fp <= TRIG_SCALE
    }

    /// Build a pair, clamping each component into the scaled image of
    /// `[-1, 1]`. A component already in range is kept as it is.
    pub fn clamped(cos_fp: i64, sin_fp: i64) -> (t: TrigPair)
        ensures
            t.wf(),
            -TRIG_SCALE <= cos_fp <= TRIG_SCALE ==> t.cos_fp == cos_fp,
            -TRIG_SCALE <= sin_fp <= TRIG_SCALE ==> t.sin_fp == sin_fp,
    {
        TrigPair { cos_fp: clamp_trig(cos_fp), sin_fp: clamp_trig(sin_fp) }
    }
}

fn clamp_trig(v: i64) -> (r: i64)
    ensures
        -TRIG_SCALE <= r <= TRIG_SCALE,
        -TRIG_SCALE <= v <= TRIG_SCALE ==> r == v,
{
    if v < -TRIG_SCALE {
        -TRIG_SCALE
    } else if v > TRIG_SCALE {
        TRIG_SCALE
    } else {
        v
    }
}

/// The immutable parameters of one sweep: centre pair, radius, step count and
/// the pause between steps. The radius is in micro-degrees; a negative radius
/// mirrors the path across the centre. A non-positive pause means no delay.
#[derive(Clone, Copy, PartialEq, Eq, Structural, Debug)]
pub struct SweepParams {
    pub center_v: Angle,
    pub center_h: Angle,
    pub radius_micro: i64,
    pub n_steps: u32,
    pub pause_micros: i64,
}

impl SweepParams {
    /// Centre and radius are within the machine bound, so every setpoint of
    /// the sweep fits in an [`Angle`].
    pub open spec fn wf(self) -> bool {
        &&& -MAX_ANGLE_MICRO <= self.center_v.micro_deg <= MAX_ANGLE_MICRO
        &&& -MAX_ANGLE_MICRO <= self.center_h.micro_deg <= MAX_ANGLE_MICRO
        &&& -MAX_ANGLE_MICRO <= self.radius_micro <= MAX_ANGLE_MICRO
    }

    /// The delay to issue between steps, in microseconds: the configured
    /// pause, or none at all when the configured pause is not positive.
    pub fn pause_micros_clamped(&self) -> (p: u64)
        ensures
            p as int == if self.pause_micros >= 0 { self.pause_micros as int } else { 0 },
    {
        if self.pause_micros >= 0 {
            self.pause_micros as u64
        } else {
            0
        }
    }
}

/// One commanded position: a vertical and a horizontal angle.
#[derive(Clone, Copy, PartialEq, Eq, Structural, Debug)]
pub struct Setpoint {
    pub vertical: Angle,
    pub horizontal: Angle,
}

/// One coordinate of a setpoint: the centre plus the radius scaled by a
/// fixed-point trigonometric value, rounded to the nearest micro-degree.
pub open spec fn setpoint_micro_spec(center: int, radius: int, trig: int) -> int {
    center + rounded_div(radius * trig, TRIG_SCALE as int)
}

/// `sp` is the setpoint that `params` commands for the trigonometric pair
/// `trig`: the circle equations, coordinate by coordinate.
pub open spec fn is_setpoint_for(params: SweepParams, trig: TrigPair, sp: Setpoint) -> bool {
    &&& sp.vertical.as_micro() == setpoint_micro_spec(
        params.center_v.as_micro(),
        params.radius_micro as int,
        trig.cos_fp as int,
    )
    &&& sp.horizontal.as_micro() == setpoint_micro_spec(
        params.center_h.as_micro(),
        params.radius_micro as int,
        trig.sin_fp as int,
    )
}

/// `center + round(radius * trig / TRIG_SCALE)`, exactly.
fn setpoint_component(center: i64, radius: i64, trig: i64) -> (s: i64)
    requires
        -MAX_ANGLE_MICRO <= center <= MAX_ANGLE_MICRO,
        -MAX_ANGLE_MICRO <= radius <= MAX_ANGLE_MICRO,
        -TRIG_SCALE <= trig <= TRIG_SCALE,
    ensures
        s as int == setpoint_micro_spec(center as int, radius as int, trig as int),
        -2 * MAX_ANGLE_MICRO <= s <= 2 * MAX_ANGLE_MICRO,
{
    proof {
        assert(-(MAX_ANGLE_MICRO as int) * (TRIG_SCALE as int) <= (radius as int) * (trig
            as int) <= (MAX_ANGLE_MICRO as int) * (TRIG_SCALE as int)) by (nonlinear_arith)
            requires
                -MAX_ANGLE_MICRO <= radius <= MAX_ANGLE_MICRO,
                -TRIG_SCALE <= trig <= TRIG_SCALE,
        ;
    }
    let prod: i128 = (radius as i128) * (trig as i128);
    let mag: u128 = if prod >= 0 {
        prod as u128
    } else {
        (-prod) as u128
    };
    let q: u128 = (mag + 500_000) / 1_000_000;
    proof {
        lemma_div_is_ordered(
            (mag + 500_000) as int,
            1_000_000_000_000_000_000int + 500_000,
            1_000_000int,
        );
    }
    let offset: i64 = if prod >= 0 {
        q as i64
    } else {
        -(q as i64)
    };
    center + offset
}

/// The setpoint of one sweep step, from the sweep parameters and the
/// fixed-point cosine/sine of the step's phase.
pub fn step_setpoint(params: &SweepParams, trig: TrigPair) -> (sp: Setpoint)
    requires
        params.wf(),
        trig.wf(),
    ensures
        is_setpoint_for(*params, trig, sp),
{
    let v: i64 = setpoint_component(params.center_v.micro_deg, params.radius_micro, trig.cos_fp);
    let h: i64 = setpoint_component(params.center_h.micro_deg, params.radius_micro, trig.sin_fp);
    Setpoint { vertical: Angle { micro_deg: v }, horizontal: Angle { micro_deg: h } }
}

/// Generate the full sweep: one setpoint per step, in step order. The
/// trigonometric table holds, for each step `t`, the scaled cosine and sine
/// of the step's phase. Exactly `n_steps` setpoints come out, whatever the
/// sign or magnitude of the radius; an empty table (a zero-step sweep) yields
/// an empty result.
pub fn sweep_setpoints(params: &SweepParams, trig: &Vec<TrigPair>) -> (out: Vec<Setpoint>)
    requires
        params.wf(),
        trig@.len() == params.n_steps as int,
        forall|i: int| 0 <= i < trig@.len() ==> trig@[i].wf(),
    ensures
        out@.len() == params.n_steps as int,
        forall|i: int| 0 <= i < out@.len() ==> is_setpoint_for(*params, trig@[i], out@[i]),
{
    let mut out: Vec<Setpoint> = Vec::new();
    let mut i: usize = 0;
    while i < trig.len()
        invariant
            params.wf(),
            trig@.len() == params.n_steps as int,
            forall|k: int| 0 <= k < trig@.len() ==> trig@[k].wf(),
            i <= trig@.len(),
            out@.len() == i as int,
            forall|k: int| 0 <= k < i as int ==> is_setpoint_for(*params, trig@[k], out@[k]),
        decreases trig@.len() - i,
    {
        let sp = step_setpoint(params, trig[i]);
        out.push(sp);
        i += 1;
    }
    out
}

/// One sweep in progress, stepped from outside: the run hands out the phase
/// of the upcoming step, computes its setpoint once the trigonometric values
/// for that phase come back, and is told whether the actuator writes
/// succeeded. A reported failure is final: the run emits no further
/// setpoints, so nothing after the failing step is ever applied.
pub struct Sweep {
    params: SweepParams,
    next_step: u32,
    failed: bool,
}

impl Sweep {
    /// The parameters the run was started with.
    pub closed spec fn spec_params(self) -> SweepParams {
        self.params
    }

    /// The index of the upcoming step; equally, how many steps have been
    /// applied so far.
    pub closed spec fn spec_next_step(self) -> u32 {
        self.next_step
    }

    /// Whether an actuator write has been reported as failed.
    pub closed spec fn spec_failed(self) -> bool {
        self.failed
    }

    /// The run's invariant: valid parameters, step index within bounds.
    pub open spec fn wf(self) -> bool {
        &&& self.spec_params().wf()
        &&& self.spec_next_step() <= self.spec_params().n_steps
    }

    /// The run still has a step to emit: nothing failed and steps remain.
    pub open spec fn active(self) -> bool {
        &&& !self.spec_failed()
        &&& self.spec_next_step() < self.spec_params().n_steps
    }

    /// Start a sweep at step 0, with nothing failed. Each new run restarts
    /// the phase from zero; no state is carried over from earlier sweeps.
    pub fn new(params: SweepParams) -> (s: Sweep)
        requires
            params.wf(),
        ensures
            s.wf(),
            s.spec_params() == params,
            s.spec_next_step() == 0,
            !s.spec_failed(),
    {
        Sweep { params, next_step: 0, failed: false }
    }

    /// The phase of the upcoming step, as the fraction `t` of `n` of a full
    /// turn (the step's angle is `2*pi*t/n` radians), or nothing once the run
    /// is finished or failed.
    pub fn phase(&self) -> (ph: Option<(u32, u32)>)
        ensures
            self.active() ==> ph == Some((self.spec_next_step(), self.spec_params().n_steps)),
            !self.active() ==> ph is None,
    {
        if !self.failed && self.next_step < self.params.n_steps {
            Some((self.next_step, self.params.n_steps))
        } else {
            None
        }
    }

    /// The setpoint of the upcoming step, from the scaled cosine and sine of
    /// its phase.
    pub fn step_setpoint(&self, trig: TrigPair) -> (sp: Setpoint)
        requires
            self.wf(),
            self.active(),
            trig.wf(),
        ensures
            is_setpoint_for(self.spec_params(), trig, sp),
    {
        step_setpoint(&self.params, trig)
    }

    /// Record the outcome of the actuator writes of the upcoming step. On
    /// success the run moves to the next step; on failure it halts where it
    /// stands: the step index freezes and the run is failed for good.
    pub fn advance(&mut self, write_ok: bool)
        requires
            old(self).wf(),
            old(self).active(),
        ensures
            final(self).wf(),
            final(self).spec_params() == old(self).spec_params(),
            write_ok ==> !final(self).spec_failed() && final(self).spec_next_step()
                == old(self).spec_next_step() + 1,
            !write_ok ==> final(self).spec_failed() && final(self).spec_next_step()
                == old(self).spec_next_step(),
    {
        if write_ok {
            self.next_step = self.next_step + 1;
        } else {
            self.failed = true;
        }
    }

    /// Whether an actuator write failed during this run.
    pub fn is_failed(&self) -> (r: bool)
        ensures
            r == self.spec_failed(),
    {
        self.failed
    }

    /// Whether every step of the run was applied successfully.
    pub fn is_done(&self) -> (r: bool)
        ensures
            r == (!self.spec_failed() && self.spec_next_step() == self.spec_params().n_steps),
    {
        !self.failed && self.next_step == self.params.n_steps
    }

    /// How many setpoints have been applied so far.
    pub fn steps_applied(&self) -> (r: u32)
        ensures
            r == self.spec_next_step(),
    {
        self.next_step
    }
}

/// A failed actuator write aborts the sweep: a failed run is never active, so
/// it emits no setpoint after the failing one, and [`Sweep::advance`] keeps a
/// failed run's step count frozen. The failure itself is the caller's to
/// propagate as fatal.
pub proof fn lemma_failure_halts_sweep(s: Sweep)
    requires
        s.spec_failed(),
    ensures
        !s.active(),
{
}

/// The sum of a sequence of integers, last element peeled first.
pub open spec fn sum_seq(s: Seq<int>) -> int
    decreases s.len(),
{
    if s.len() == 0 {
        0
    } else {
        sum_seq(s.drop_last()) + s.last()
    }
}

/// The per-step phase increments of an `n`-step sweep, each measured in parts
/// of `1/n` of a full turn: every step advances the phase by exactly one such
/// part (`2*pi/n` radians).
pub open spec fn phase_increment_parts(n: nat) -> Seq<int> {
    Seq::new(n, |i: int| 1int)
}

proof fn lemma_sum_repeat_one(n: nat)
    ensures
        sum_seq(Seq::new(n, |i: int| 1int)) == n,
    decreases n,
{
    if n > 0 {
        lemma_sum_repeat_one((n - 1) as nat);
        assert(Seq::new(n, |i: int| 1int).drop_last() =~= Seq::new((n - 1) as nat, |i: int| 1int));
    }
}

/// Over one full sweep of `n > 0` steps the per-step phase increments sum to
/// one full turn: `n` increments of one part in `n` each sum to `n` parts,
/// and `n` parts of `1/n` of a turn are exactly one turn, `2*pi` radians.
pub proof fn lemma_increments_cover_full_turn(n: nat)
    requires
        n > 0,
    ensures
        sum_seq(phase_increment_parts(n)) == n,
{
    lemma_sum_repeat_one(n);
}

} // verus!
