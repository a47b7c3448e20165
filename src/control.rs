//! The decisions of the control loop: aggregate one poll's readings, and
//! on a change of the aggregate derive a smoothed speed for every actuator.

use vstd::prelude::*;
use crate::temperature::{Temperature, UNITS_PER_DEGREE};

verus! {

/// The temperature, in degrees, that maps to full speed.
pub const REFERENCE_CEILING: i64 = 70;

/// Full speed, in percent.
pub const FULL_SPEED: i64 = 100;

/// Units of temperature per percent of target speed: the reference ceiling in
/// units, over full speed.
pub const UNITS_PER_PERCENT: u64 = 6300;

/// Weight of the previous speed in the moving average, out of `SMOOTHING_DENOMINATOR`.
pub const HISTORY_WEIGHT: u32 = 7;

/// Denominator of the moving average.
pub const SMOOTHING_DENOMINATOR: u32 = 8;

/// One temperature sample of a named source.
#[derive(Debug)]
pub struct SensorReading {
    pub name: String,
    pub value: Temperature,
}

/// The aggregate of a poll: the highest reading, and zero when there is none
/// above it.
pub open spec fn is_aggregate(readings: Seq<SensorReading>, t: Temperature) -> bool {
    &&& t.units >= 0
    &&& forall|i: int| 0 <= i < readings.len() ==> readings[i].value.units <= t.units
    &&& (t.units == 0 || exists|i: int| 0 <= i < readings.len() && readings[i].value.units == t.units)
}

/// The highest temperature among the readings, with zero as the floor.
pub fn aggregate_temperature(readings: &Vec<SensorReading>) -> (r: Temperature)
    ensures
        is_aggregate(readings@, r),
{
    let mut highest = Temperature::zero();
    let mut k: usize = 0;
    while k < readings.len()
        invariant
            k <= readings@.len(),
            is_aggregate(readings@.take(k as int), highest),
        decreases readings@.len() - k,
    {
        highest = highest.warmer(readings[k].value);
        proof {
            let prefix = readings@.take(k as int + 1);
            assert(prefix[k as int] == readings@[k as int]);
            assert forall|i: int| 0 <= i < k implies prefix[i] == readings@.take(k as int)[i] by {}
        }
        k = k + 1;
    }
    assert(readings@.take(k as int) =~= readings@);
    highest
}

/// The target speed for an aggregate temperature: the whole percent of the
/// reference ceiling that it reaches, saturated to a byte.
pub open spec fn spec_target_speed(t: Temperature) -> u8 {
    let raw = FULL_SPEED * t.units / (REFERENCE_CEILING * UNITS_PER_DEGREE);
    if raw < 0 {
        0
    } else if raw > 255 {
        255
    } else {
        raw as u8
    }
}

/// Maps an aggregate temperature to a target speed.
pub fn target_speed(t: Temperature) -> (r: u8)
    ensures
        r == spec_target_speed(t),
{
    if t.units <= 0 {
        proof {
            let u = t.units as int;
            assert(FULL_SPEED * u / (REFERENCE_CEILING * UNITS_PER_DEGREE) <= 0) by (nonlinear_arith)
                requires u <= 0;
        }
        0
    } else {
        let q: u64 = (t.units as u64) / UNITS_PER_PERCENT;
        proof {
            let u = t.units as int;
            assert(100 * u / 630000 == u / 6300) by (nonlinear_arith)
                requires u > 0;
        }
        if q > 255 {
            255
        } else {
            q as u8
        }
    }
}

/// The moving average of the previous speed and the new target, weighted
/// seven to one, rounded down.
pub open spec fn spec_smooth(previous: u8, target: u8) -> u8 {
    ((HISTORY_WEIGHT * previous + target) / SMOOTHING_DENOMINATOR as int) as u8
}

/// Damps a change of speed: seven eighths of the previous speed, one eighth
/// of the target.
pub fn smooth(previous: u8, target: u8) -> (r: u8)
    ensures
        r == spec_smooth(previous, target),
        r as int == (HISTORY_WEIGHT * previous + target) / SMOOTHING_DENOMINATOR as int,
{
    let adjusted: u32 = (previous as u32 * HISTORY_WEIGHT + target as u32) / SMOOTHING_DENOMINATOR;
    adjusted as u8
}

/// What the loop keeps from one poll to the next.
#[derive(Clone, Copy, Debug, PartialEq, Eq, Structural)]
pub struct ControlState {
    pub previous_target_speed: u8,
    pub previous_aggregate: Temperature,
}

impl ControlState {
    /// The state and the emitted speed, if any, after a poll whose aggregate
    /// is `aggregate`.
    pub open spec fn spec_step(self, aggregate: Temperature) -> (ControlState, Option<u8>) {
        if aggregate == self.previous_aggregate {
            (self, None)
        } else {
            let speed = spec_smooth(self.previous_target_speed, spec_target_speed(aggregate));
            (ControlState { previous_target_speed: speed, previous_aggregate: aggregate }, Some(speed))
        }
    }

    /// The state before the first poll: speed zero, aggregate zero.
    pub fn new() -> (r: ControlState)
        ensures
            r.previous_target_speed == 0,
            r.previous_aggregate.units == 0,
    {
        ControlState { previous_target_speed: 0, previous_aggregate: Temperature::zero() }
    }

    /// Takes one aggregate temperature. Returns the speed to send to every
    /// fan and pump when the aggregate changed, and `None` otherwise, which
    /// leaves the state as it was.
    pub fn step(&mut self, aggregate: Temperature) -> (r: Option<u8>)
        ensures
            (*final(self), r) == old(self).spec_step(aggregate),
    {
        if aggregate == self.previous_aggregate {
            None
        } else {
            let speed = smooth(self.previous_target_speed, target_speed(aggregate));
            self.previous_aggregate = aggregate;
            self.previous_target_speed = speed;
            Some(speed)
        }
    }

    /// Takes one poll's readings: aggregates them, then steps.
    pub fn poll(&mut self, readings: &Vec<SensorReading>) -> (r: Option<u8>)
        ensures
            exists|t: Temperature|
                is_aggregate(readings@, t) && (*final(self), r) == old(self).spec_step(t),
    {
        let t = aggregate_temperature(readings);
        self.step(t)
    }
}


/// The speed after `n` smoothing steps toward a fixed target.
pub open spec fn smoothed_after(start: u8, target: u8, n: nat) -> u8
    decreases n,
{
    if n == 0 {
        start
    } else {
        spec_smooth(smoothed_after(start, target, (n - 1) as nat), target)
    }
}

/// One smoothing step from below a target moves toward it and stays at or
/// below it.
pub proof fn lemma_smooth_step_toward(previous: u8, target: u8)
    requires
        previous <= target,
    ensures
        previous <= spec_smooth(previous, target) <= target,
{
    let p = previous as int;
    let t = target as int;
    assert(p <= (7 * p + t) / 8 <= t) by (nonlinear_arith)
        requires 0 <= p <= t;
}

/// Fed the same target again and again from a speed at or below it, the
/// smoothed speed never falls and never overshoots the target.
pub proof fn lemma_smoothing_converges(start: u8, target: u8, n: nat)
    requires
        start <= target,
    ensures
        smoothed_after(start, target, n) <= smoothed_after(start, target, n + 1) <= target,
    decreases n,
{
    if n > 0 {
        lemma_smoothing_converges(start, target, (n - 1) as nat);
    }
    lemma_smooth_step_toward(smoothed_after(start, target, n), target);
}

/// Two polls in a row with the same aggregate emit once: the first poll,
/// which changes the aggregate, emits, and the second neither emits nor
/// changes the state.
pub proof fn lemma_same_aggregate_emits_once(state: ControlState, aggregate: Temperature)
    requires
        aggregate != state.previous_aggregate,
    ensures
        state.spec_step(aggregate).1 is Some,
        state.spec_step(aggregate).0.spec_step(aggregate).1 is None,
        state.spec_step(aggregate).0.spec_step(aggregate).0 == state.spec_step(aggregate).0,
{
}

} // verus!
