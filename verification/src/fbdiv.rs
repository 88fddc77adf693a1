//! Frequency control through the integer feedback divider of the system
//! PLL.
//!
//! The controller keeps the divider at full precision and writes it to the
//! register rounded. The correction is subtracted from it: buffers fuller
//! than the target, which mean that the node runs slow against its
//! neighbours, give a negative correction and so raise the divider; emptier
//! buffers lower it.

use vstd::prelude::*;
use crate::controller::{FrequencyController, half_full, levels_total, total_level};
use crate::fixed_point::{
    I16F16, MAX_WHOLE, fixed_from_num, fixed_round, fixed_saturating_sub, round_bits, sat32,
};
use crate::pid::{PidControl, PidSettings, PidState, pid_next, pid_output};
use crate::si5351::level_error;

verus! {

/// The smallest divider that the controller sets.
pub const FBDIV_MIN: i32 = 97;

/// The largest divider that the controller sets.
pub const FBDIV_MAX: i32 = 103;

/// The divider that the controller returns to when it reaches the smallest.
pub const FBDIV_CENTER: i32 = 100;

/// The register that holds the feedback divider.
pub trait Fbdiv {
    fn read_fbdiv(&self) -> u16;

    fn write_fbdiv(&mut self, fbdiv: u16);
}

/// Telemetry of the controller: the divider last written and the last
/// correction, as a fixed-point bit pattern.
#[derive(Debug, Clone, Copy, PartialEq, Eq, Structural)]
pub struct FbdivDebug {
    pub fbdiv: u16,
    pub adjust: i32,
}

/// The state of the controller that its steps read and change.
pub struct FbdivState {
    pub degree: nat,
    pub pid: PidState,
    /// The divider at full precision, as a fixed-point bit pattern.
    pub fbdiv_internal: int,
    pub debug: FbdivDebug,
}

/// A divider cut to the range that the controller sets.
pub open spec fn clamped_fbdiv(fbdiv: int) -> int {
    if fbdiv < 97 {
        97
    } else if fbdiv > 103 {
        103
    } else {
        fbdiv
    }
}

/// The full-precision divider after a correction: moved against the
/// correction, cut to the range, and put back to the centre where it has
/// reached the lower end.
pub open spec fn fbdiv_moved(internal: int, adjust: int) -> int {
    let moved = sat32(internal - adjust);
    let cut: int = if moved < 0x61_0000 {
        0x61_0000int
    } else if moved > 0x67_0000 {
        0x67_0000int
    } else {
        moved
    };
    if cut == 0x61_0000 {
        0x64_0000int
    } else {
        cut
    }
}

/// The divider for the register: the full-precision divider rounded to the
/// nearest whole number.
pub open spec fn fbdiv_register(internal: int) -> int {
    clamped_fbdiv(round_bits(internal) / 65536)
}

/// The state after one step on the given levels.
pub open spec fn fbdiv_next(s: FbdivState, capacity: int, levels: Seq<usize>) -> FbdivState {
    let error = level_error(s.degree as int, capacity, levels);
    let adjust = pid_output(s.pid, error);
    let internal = fbdiv_moved(s.fbdiv_internal, adjust);
    FbdivState {
        degree: s.degree,
        pid: pid_next(s.pid, error),
        fbdiv_internal: internal,
        debug: FbdivDebug { fbdiv: fbdiv_register(internal) as u16, adjust: adjust as i32 },
    }
}

/// Cuts a divider to the range that the controller sets.
pub fn clamp_fbdiv(new_fbdiv: i32) -> (fbdiv: u16)
    ensures
        fbdiv == clamped_fbdiv(new_fbdiv as int),
        FBDIV_MIN <= fbdiv <= FBDIV_MAX,
{
    if new_fbdiv < FBDIV_MIN {
        FBDIV_MIN as u16
    } else if new_fbdiv > FBDIV_MAX {
        FBDIV_MAX as u16
    } else {
        new_fbdiv as u16
    }
}

/// A frequency controller over the divider register `P`, for elastic
/// buffers of capacity `B`.
pub struct FbdivController<P, const B: usize> {
    degree: usize,
    pll_sys: P,
    fbdiv_internal: I16F16,
    pid: PidControl,
    debug: FbdivDebug,
}

impl<P, const B: usize> View for FbdivController<P, B> {
    type V = FbdivState;

    closed spec fn view(&self) -> FbdivState {
        FbdivState {
            degree: self.degree as nat,
            pid: self.pid@,
            fbdiv_internal: self.fbdiv_internal.bits as int,
            debug: self.debug,
        }
    }
}

impl<P: Fbdiv, const B: usize> FbdivController<P, B> {
    /// A controller for `degree` neighbours that starts from the divider
    /// `initial_fbdiv`.
    pub fn with_initial(degree: usize, pll_sys: P, initial_fbdiv: u16, pid_settings: PidSettings) -> (c:
        Self)
        requires
            initial_fbdiv <= MAX_WHOLE,
        ensures
            c@ == (FbdivState {
                degree: degree as nat,
                pid: PidState { k: pid_settings, previous_error: 0, integral: 0 },
                fbdiv_internal: initial_fbdiv * 65536,
                debug: FbdivDebug { fbdiv: initial_fbdiv, adjust: 0 },
            }),
    {
        Self {
            degree,
            pll_sys,
            fbdiv_internal: fixed_from_num(initial_fbdiv as usize),
            pid: PidControl::new(pid_settings),
            debug: FbdivDebug { fbdiv: initial_fbdiv, adjust: 0 },
        }
    }

    /// A controller for `degree` neighbours that starts from the divider
    /// found in the register. There is none where the register holds a
    /// number that the fixed-point format cannot hold.
    pub fn new(degree: usize, pll_sys: P, pid_settings: PidSettings) -> (c: Option<Self>)
        ensures
            c matches Some(c) ==> {
                &&& c@.degree == degree
                &&& c@.pid == (PidState { k: pid_settings, previous_error: 0, integral: 0 })
                &&& c@.fbdiv_internal == c@.debug.fbdiv * 65536
                &&& c@.debug.fbdiv <= MAX_WHOLE
                &&& c@.debug.adjust == 0
            },
    {
        let reading: u16 = pll_sys.read_fbdiv();

        // Whether there is a controller depends on the reading alone.
        let controller = Self::from_reading(degree, pll_sys, reading, pid_settings);

        controller
    }

    /// The divider in the register.
    pub fn read_fbdiv(&self) -> u16 {
        self.pll_sys.read_fbdiv()
    }

    /// Writes a divider to the register, cut to the range that the
    /// controller sets. The state of the controller stays as it is.
    pub fn write_fbdiv(&mut self, new_fbdiv: i32)
        ensures
            final(self)@ == old(self)@,
    {
        self.pll_sys.write_fbdiv(clamp_fbdiv(new_fbdiv));
    }

    /// A controller for `degree` neighbours that starts from the divider
    /// `reading`, as read from the register. There is one exactly where the
    /// fixed-point format can hold the reading.
    pub fn from_reading(degree: usize, pll_sys: P, reading: u16, pid_settings: PidSettings) -> (c:
        Option<Self>)
        ensures
            c is Some <==> reading <= MAX_WHOLE,
            c matches Some(c) ==> c@ == (FbdivState {
                degree: degree as nat,
                pid: PidState { k: pid_settings, previous_error: 0, integral: 0 },
                fbdiv_internal: reading * 65536,
                debug: FbdivDebug { fbdiv: reading, adjust: 0 },
            }),
    {
        if reading as usize <= MAX_WHOLE {
            Some(Self::with_initial(degree, pll_sys, reading, pid_settings))
        } else {
            None
        }
    }

    /// The part of a step that the controller decides alone: runs the PID on
    /// the target and the sum of the levels, moves the full-precision
    /// divider against the correction and returns the divider for the
    /// register.
    pub fn steer(&mut self, buffer_levels: &[usize]) -> (fbdiv: i32)
        requires
            old(self)@.degree <= buffer_levels@.len(),
            half_full(old(self)@.degree as int, B as int) <= MAX_WHOLE,
            levels_total(buffer_levels@) <= MAX_WHOLE,
        ensures
            final(self)@ == fbdiv_next(old(self)@, B as int, buffer_levels@),
            fbdiv == final(self)@.debug.fbdiv,
            FBDIV_MIN <= fbdiv <= FBDIV_MAX,
    {
        assert(self.degree * B <= 2 * MAX_WHOLE + 1) by {
            assert(half_full(self.degree as int, B as int) == (self.degree * B) / 2);
        }
        let half_full: usize = (self.degree * B) / 2;
        let total: usize = total_level(buffer_levels);

        let adjust = self.pid.run_saturating(fixed_from_num(half_full), fixed_from_num(total));
        self.debug.adjust = adjust.to_bits();

        let moved = fixed_saturating_sub(self.fbdiv_internal, adjust);
        let low = fixed_from_num(FBDIV_MIN as usize);
        let high = fixed_from_num(FBDIV_MAX as usize);
        let cut = if moved.bits < low.bits {
            low
        } else if moved.bits > high.bits {
            high
        } else {
            moved
        };
        self.fbdiv_internal = if cut.bits == low.bits {
            fixed_from_num(FBDIV_CENTER as usize)
        } else {
            cut
        };

        let rounded: i32 = fixed_round(self.fbdiv_internal).to_bits();
        let fbdiv_int: i32 = rounded >> 16;
        assert(fbdiv_int == rounded as int / 65536) by {
            assert((rounded >> 16) == rounded / 65536 - (if rounded % 65536 < 0 {
                1i32
            } else {
                0i32
            })) by (bit_vector);
        }
        let fbdiv = clamp_fbdiv(fbdiv_int);
        self.debug.fbdiv = fbdiv;
        fbdiv as i32
    }
}

impl<P: Fbdiv, const B: usize> FrequencyController<B> for FbdivController<P, B> {
    type Error = ();

    type Debug = FbdivDebug;

    open spec fn degree(&self) -> nat {
        self@.degree
    }

    open spec fn telemetry(&self) -> FbdivDebug {
        self@.debug
    }

    /// One step: the state moves as `fbdiv_next` says and the new divider
    /// goes to the register. The step cannot fail.
    fn run(&mut self, buffer_levels: &[usize]) -> (r: Result<(), ()>)
        ensures
            final(self)@ == fbdiv_next(old(self)@, B as int, buffer_levels@),
            r is Ok,
    {
        let fbdiv = self.steer(buffer_levels);
        self.write_fbdiv(fbdiv);
        Ok(())
    }

    fn set_degree(&mut self, new_degree: usize)
        ensures
            final(self)@ == (FbdivState { degree: new_degree as nat, ..old(self)@ }),
    {
        self.degree = new_degree
    }

    fn debug(&self) -> (d: FbdivDebug)
        ensures
            d == self@.debug,
    {
        self.debug
    }
}

} // verus!
