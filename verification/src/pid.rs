//! Discrete PID computation in fixed point.

use vstd::prelude::*;
use crate::fixed_point::{
    I16F16, fixed_checked_sub, fixed_saturating_add, fixed_saturating_mul, fixed_saturating_sub,
    mul_bits, sat32,
};

verus! {

/// The three gains. They do not change once a controller is built on them.
#[derive(Debug, Clone, Copy, PartialEq, Eq, Structural)]
pub struct PidSettings {
    pub kp: I16F16,
    pub ki: I16F16,
    pub kd: I16F16,
}

/// A PID controller: its gains, the error of the last step and the sum of
/// all errors so far.
pub struct PidControl {
    k: PidSettings,
    previous_error: I16F16,
    integral: I16F16,
}

/// What a controller holds, as bit patterns.
pub struct PidState {
    pub k: PidSettings,
    pub previous_error: int,
    pub integral: int,
}

/// The error of a step, before any check of its range.
pub open spec fn pid_error(setpoint: I16F16, measurement: I16F16) -> int {
    setpoint.bits - measurement.bits
}

/// The state after a step with the given error.
pub open spec fn pid_next(s: PidState, error: int) -> PidState {
    PidState { k: s.k, previous_error: error, integral: sat32(s.integral + error) }
}

/// The correction of a step with the given error, taken in state `s`: the
/// proportional, integral and derivative terms, each product and each sum
/// saturating.
pub open spec fn pid_output(s: PidState, error: int) -> int {
    let proportional = mul_bits(s.k.kp.bits as int, error);
    let integral = mul_bits(s.k.ki.bits as int, sat32(s.integral + error));
    let derivative = mul_bits(s.k.kd.bits as int, sat32(error - s.previous_error));
    sat32(sat32(proportional + integral) + derivative)
}

/// The state after `steps` steps that all see the error `error`.
pub open spec fn pid_after(s: PidState, error: int, steps: nat) -> PidState
    decreases steps,
{
    if steps == 0 {
        s
    } else {
        pid_after(pid_next(s, error), error, (steps - 1) as nat)
    }
}

impl View for PidControl {
    type V = PidState;

    closed spec fn view(&self) -> PidState {
        PidState {
            k: self.k,
            previous_error: self.previous_error.bits as int,
            integral: self.integral.bits as int,
        }
    }
}

impl PidControl {
    /// A controller with the given gains, no previous error and an empty
    /// integral.
    pub fn new(k: PidSettings) -> (pid: Self)
        ensures
            pid@ == (PidState { k, previous_error: 0, integral: 0 }),
    {
        Self { k, previous_error: I16F16::default(), integral: I16F16::default() }
    }

    /// One step. Where the difference of setpoint and measurement leaves the
    /// range of the format there is no correction and the state stays as it
    /// was; otherwise the state moves on and the correction is returned.
    pub fn run(&mut self, setpoint: I16F16, measurement: I16F16) -> (correction: Option<I16F16>)
        ensures
            sat32(pid_error(setpoint, measurement)) == pid_error(setpoint, measurement) ==> {
                &&& correction matches Some(c)
                &&& c.bits == pid_output(old(self)@, pid_error(setpoint, measurement))
                &&& final(self)@ == pid_next(old(self)@, pid_error(setpoint, measurement))
            },
            sat32(pid_error(setpoint, measurement)) != pid_error(setpoint, measurement) ==> {
                &&& correction is None
                &&& final(self)@ == old(self)@
            },
    {
        let error = match fixed_checked_sub(setpoint, measurement) {
            Some(error) => error,
            None => {
                return None;
            },
        };

        self.integral = fixed_saturating_add(self.integral, error);
        let derivative = fixed_saturating_sub(error, self.previous_error);

        let proportional = fixed_saturating_mul(self.k.kp, error);
        let integral = fixed_saturating_mul(self.k.ki, self.integral);
        let derivative = fixed_saturating_mul(self.k.kd, derivative);

        let output = fixed_saturating_add(fixed_saturating_add(proportional, integral), derivative);

        self.previous_error = error;

        Some(output)
    }

    /// One step that never fails: the error itself saturates where the
    /// difference of setpoint and measurement leaves the range.
    pub fn run_saturating(&mut self, setpoint: I16F16, measurement: I16F16) -> (correction: I16F16)
        ensures
            correction.bits == pid_output(old(self)@, sat32(pid_error(setpoint, measurement))),
            final(self)@ == pid_next(old(self)@, sat32(pid_error(setpoint, measurement))),
    {
        let error = fixed_saturating_sub(setpoint, measurement);

        self.integral = fixed_saturating_add(self.integral, error);
        let derivative = fixed_saturating_sub(error, self.previous_error);

        let proportional = fixed_saturating_mul(self.k.kp, error);
        let integral = fixed_saturating_mul(self.k.ki, self.integral);
        let derivative = fixed_saturating_mul(self.k.kd, derivative);

        let output = fixed_saturating_add(fixed_saturating_add(proportional, integral), derivative);

        self.previous_error = error;

        output
    }

    /// The gains.
    pub fn settings(&self) -> (k: PidSettings)
        ensures
            k == self@.k,
    {
        self.k
    }

    /// The error of the last step.
    pub fn previous_error(&self) -> (e: I16F16)
        ensures
            e.bits == self@.previous_error,
    {
        self.previous_error
    }

    /// The sum of the errors so far.
    pub fn integral(&self) -> (i: I16F16)
        ensures
            i.bits == self@.integral,
    {
        self.integral
    }
}

/// A step whose measurement equals its setpoint always succeeds, leaves the
/// integral where it was and clears the previous error. Its correction is
/// what the integral and the outgoing previous error still contribute.
pub proof fn lemma_zero_error_step(s: PidState, setpoint: I16F16, measurement: I16F16)
    requires
        measurement == setpoint,
        sat32(s.integral) == s.integral,
    ensures
        pid_error(setpoint, measurement) == 0,
        sat32(pid_error(setpoint, measurement)) == pid_error(setpoint, measurement),
        pid_next(s, 0).integral == s.integral,
        pid_next(s, 0).previous_error == 0,
        pid_output(s, 0) == sat32(
            mul_bits(s.k.ki.bits as int, s.integral) + mul_bits(
                s.k.kd.bits as int,
                sat32(-s.previous_error),
            ),
        ),
{
    assert(mul_bits(s.k.kp.bits as int, 0) == 0) by {
        assert((s.k.kp.bits as int) * 0 == 0) by (nonlinear_arith);
    }
    let i = mul_bits(s.k.ki.bits as int, s.integral);
    assert(sat32(i) == i);
}

/// With the error held at zero the state settles after one step and stays
/// settled: the integral never moves and the previous error is zero.
pub proof fn lemma_zero_error_settles(s: PidState, steps: nat)
    requires
        sat32(s.integral) == s.integral,
        steps >= 1,
    ensures
        pid_after(s, 0, steps) == pid_next(s, 0),
        pid_after(s, 0, steps).integral == s.integral,
        pid_after(s, 0, steps).previous_error == 0,
    decreases steps,
{
    if steps > 1 {
        lemma_zero_error_settles(pid_next(s, 0), (steps - 1) as nat);
        assert(pid_next(pid_next(s, 0), 0) == pid_next(s, 0));
    } else {
        assert(pid_after(pid_next(s, 0), 0, 0) == pid_next(s, 0));
    }
}

/// Once settled at zero error, the correction is the integral term alone,
/// whatever the gains; with an empty integral it is exactly zero, step
/// after step.
pub proof fn lemma_zero_error_output(s: PidState)
    requires
        s.previous_error == 0,
        sat32(s.integral) == s.integral,
    ensures
        pid_output(s, 0) == mul_bits(s.k.ki.bits as int, s.integral),
        s.integral == 0 ==> pid_output(s, 0) == 0,
        s.integral == 0 ==> pid_next(s, 0) == s,
{
    assert(mul_bits(s.k.kp.bits as int, 0) == 0) by {
        assert((s.k.kp.bits as int) * 0 == 0) by (nonlinear_arith);
    }
    assert(mul_bits(s.k.kd.bits as int, 0) == 0) by {
        assert((s.k.kd.bits as int) * 0 == 0) by (nonlinear_arith);
    }
    assert(mul_bits(s.k.ki.bits as int, 0) == 0) by {
        assert((s.k.ki.bits as int) * 0 == 0) by (nonlinear_arith);
    }
    let i = mul_bits(s.k.ki.bits as int, s.integral);
    assert(sat32(i) == i);
}

} // verus!
