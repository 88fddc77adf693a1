//! Frequency control through the fractional multiplier of an external
//! clock synthesizer.
//!
//! The controller keeps a 32-bit divider state of which the synthesizer sees
//! the upper twenty bits, as an offset from the centre of its range. The
//! correction is subtracted from the state. Buffers fuller than the target
//! mean that the node runs slow against its neighbours: the error and the
//! correction are then negative, so the state and the multiplier rise, and
//! with them the frequency. Emptier buffers lower them.

use vstd::prelude::*;
use crate::controller::{FrequencyController, half_full, levels_total, total_level};
use crate::fixed_point::{MAX_WHOLE, fixed_from_num, sat32, saturating_sub_i32};
use crate::pid::{PidControl, PidSettings, PidState, pid_next, pid_output};

verus! {

/// The largest multiplier fraction that the synthesizer takes.
pub const PLL_FRAC_MAX: i32 = 0xf_ffff;

/// The smallest multiplier fraction that the synthesizer takes.
pub const PLL_FRAC_MIN: i32 = 0x0_0000;

/// The integer part of the multiplier, which frequency control leaves alone.
pub const PLL_MULT: u8 = 35;

/// The hardware that sets the fraction of the synthesizer's multiplier.
pub trait Si5351 {
    type Error;

    fn set_pll_frac(&mut self, frac: u32) -> Result<(), Self::Error>;
}

/// Why a step of the controller failed.
#[derive(Debug, Clone, Copy, PartialEq, Eq, Structural)]
pub enum Si5351Error {
    /// The synthesizer did not take the new fraction.
    SetupPllI2cError,
    /// The error of the step left the range of the fixed-point format.
    PidError,
}

/// Telemetry of the controller: the fraction last handed to the synthesizer
/// and the last correction, as a fixed-point bit pattern.
#[derive(Debug, Clone, Copy, PartialEq, Eq, Structural)]
pub struct Si5351Debug {
    pub frac: u32,
    pub adjust: i32,
}

impl Default for Si5351Debug {
    fn default() -> (d: Self)
        ensures
            d == (Si5351Debug { frac: 0, adjust: 0 }),
    {
        Si5351Debug { frac: 0, adjust: 0 }
    }
}

/// A register write for the synthesizer: integer part, numerator and
/// denominator of the multiplier.
#[derive(Debug, Clone, Copy, PartialEq, Eq, Structural)]
pub struct PllUpdate {
    pub mult: u8,
    pub num: u32,
    pub denom: u32,
}

/// What to do with a new fraction, given how many bytes still wait in the
/// serial transmit queue. While the queue drains nothing is sent, so that
/// the step never blocks; otherwise the fraction is cut to twenty bits and
/// sent over the full denominator.
pub fn plan_pll_update(tx_fill_level: u8, frac: u32) -> (update: Option<PllUpdate>)
    ensures
        tx_fill_level > 0 ==> update is None,
        tx_fill_level == 0 ==> update == Some(
            PllUpdate { mult: 35, num: frac & 0xfffff, denom: 0xfffff },
        ),
{
    if tx_fill_level > 0 {
        None
    } else {
        Some(PllUpdate { mult: PLL_MULT, num: frac & 0xfffff, denom: 0xfffff })
    }
}

/// The state of the controller that its steps read and change.
pub struct Si5351State {
    pub degree: nat,
    pub pid: PidState,
    pub divider: int,
    pub debug: Si5351Debug,
}

/// The error that the PID sees: target minus sum of levels, as a bit pattern.
pub open spec fn level_error(degree: int, capacity: int, levels: Seq<usize>) -> int {
    (half_full(degree, capacity) - levels_total(levels)) * 65536
}

/// The fraction for a divider state: its upper twenty bits as an offset from
/// the centre, cut to the synthesizer's range.
pub open spec fn frac_of(divider: int) -> int {
    let frac = 0x7_ffff + divider / 4096;
    if frac < 0 {
        0
    } else if frac > 0xf_ffff {
        0xf_ffff
    } else {
        frac
    }
}

/// The state after one step on the given levels.
pub open spec fn si_next(s: Si5351State, capacity: int, levels: Seq<usize>) -> Si5351State {
    let error = level_error(s.degree as int, capacity, levels);
    let adjust = pid_output(s.pid, error);
    let divider = sat32(s.divider - adjust);
    Si5351State {
        degree: s.degree,
        pid: pid_next(s.pid, error),
        divider,
        debug: Si5351Debug { frac: frac_of(divider) as u32, adjust: adjust as i32 },
    }
}

/// A frequency controller over a synthesizer `SI`, for elastic buffers of
/// capacity `B`.
pub struct Si5351Controller<SI, const B: usize> {
    degree: usize,
    si: SI,
    pid: PidControl,
    divider: i32,
    debug: Si5351Debug,
}

impl<SI, const B: usize> View for Si5351Controller<SI, B> {
    type V = Si5351State;

    closed spec fn view(&self) -> Si5351State {
        Si5351State {
            degree: self.degree as nat,
            pid: self.pid@,
            divider: self.divider as int,
            debug: self.debug,
        }
    }
}

/// The result of a step, from what the synthesizer said to the new fraction.
pub fn applied<E>(outcome: Result<(), E>) -> (r: Result<(), Si5351Error>)
    ensures
        outcome is Ok ==> r is Ok,
        outcome is Err ==> r == Err::<(), Si5351Error>(Si5351Error::SetupPllI2cError),
{
    match outcome {
        Ok(_) => Ok(()),
        Err(_) => Err(Si5351Error::SetupPllI2cError),
    }
}

impl<SI: Si5351, const B: usize> Si5351Controller<SI, B> {
    /// A controller for `degree` neighbours, with the divider state at the
    /// centre of its range.
    pub fn new(si: SI, degree: usize, settings: PidSettings) -> (c: Self)
        ensures
            c@ == (Si5351State {
                degree: degree as nat,
                pid: PidState { k: settings, previous_error: 0, integral: 0 },
                divider: 0x7_ffff,
                debug: Si5351Debug { frac: 0, adjust: 0 },
            }),
    {
        Self {
            degree,
            si,
            pid: PidControl::new(settings),
            divider: PLL_FRAC_MAX / 2,
            debug: Si5351Debug::default(),
        }
    }

    /// The part of a step that the controller decides alone: runs the PID on
    /// the target and the sum of the levels, moves the divider state against
    /// the correction and returns the fraction for the synthesizer.
    pub fn next_frac(&mut self, buffer_levels: &[usize]) -> (frac: Result<
        u32,
        Si5351Error,
    >)
        requires
            old(self)@.degree <= buffer_levels@.len(),
            half_full(old(self)@.degree as int, B as int) <= MAX_WHOLE,
            levels_total(buffer_levels@) <= MAX_WHOLE,
        ensures
            final(self)@ == si_next(old(self)@, B as int, buffer_levels@),
            frac == Ok::<u32, Si5351Error>(final(self)@.debug.frac),
            frac_of(final(self)@.divider) == final(self)@.debug.frac,
            final(self)@.debug.frac <= PLL_FRAC_MAX,
    {
        let ghost before = self@;
        assert(self.degree * B <= 2 * MAX_WHOLE + 1) by {
            assert(half_full(self.degree as int, B as int) == (self.degree * B) / 2);
        }
        let half_full: usize = (self.degree * B) / 2;
        let total: usize = total_level(buffer_levels);

        let setpoint = fixed_from_num(half_full);
        let measurement = fixed_from_num(total);
        let adjust: i32 = match self.pid.run(setpoint, measurement) {
            Some(adjust) => adjust.to_bits(),
            None => {
                return Err(Si5351Error::PidError);
            },
        };

        self.debug.adjust = adjust;
        self.divider = saturating_sub_i32(self.divider, adjust);

        let frac_offset_from_center: i32 = self.divider >> 12;
        assert(frac_offset_from_center == self.divider as int / 4096) by {
            let d: i32 = self.divider;
            assert((d >> 12) == d / 4096 - (if d % 4096 < 0 { 1i32 } else { 0i32 })) by (bit_vector);
        }
        let centred: i32 = PLL_FRAC_MAX / 2 + frac_offset_from_center;
        let frac: u32 = if centred < PLL_FRAC_MIN {
            PLL_FRAC_MIN as u32
        } else if centred > PLL_FRAC_MAX {
            PLL_FRAC_MAX as u32
        } else {
            centred as u32
        };
        self.debug.frac = frac;
        Ok(frac)
    }
}

impl<SI: Si5351, const B: usize> FrequencyController<B> for Si5351Controller<SI, B> {
    type Error = Si5351Error;

    type Debug = Si5351Debug;

    open spec fn degree(&self) -> nat {
        self@.degree
    }

    open spec fn telemetry(&self) -> Si5351Debug {
        self@.debug
    }

    /// One step: the state moves as `si_next` says, whatever the synthesizer
    /// answers; the step fails only if the synthesizer refuses the fraction,
    /// and the next step then goes on from the same divider state.
    fn run(&mut self, buffer_levels: &[usize]) -> (r: Result<(), Si5351Error>)
        ensures
            final(self)@ == si_next(old(self)@, B as int, buffer_levels@),
            r is Err ==> r == Err::<(), Si5351Error>(Si5351Error::SetupPllI2cError),
    {
        let frac: u32 = match self.next_frac(buffer_levels) {
            Ok(frac) => frac,
            Err(e) => {
                return Err(e);
            },
        };
        applied(self.si.set_pll_frac(frac))
    }

    fn set_degree(&mut self, new_degree: usize)
        ensures
            final(self)@ == (Si5351State { degree: new_degree as nat, ..old(self)@ }),
    {
        self.degree = new_degree
    }

    fn debug(&self) -> (d: Si5351Debug)
        ensures
            d == self@.debug,
    {
        self.debug
    }
}

} // verus!
