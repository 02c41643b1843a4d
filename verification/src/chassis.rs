//! Speed model of the skid-steer chassis.
//!
//! The chassis has two motor drivers, one per side; each drives a forward and
//! a reverse PWM channel. A requested per-side speed in per-mille of full
//! scale is clamped to `[-1000, 1000]` at this boundary; its sign selects
//! which channel carries the duty cycle and its magnitude scales the duty
//! cycle linearly up to the driver's maximum. The PWM hardware itself is a
//! gateway outside this crate: a runtime copies the duty-cycle fields of this
//! model to the timer registers after each update.

use vstd::prelude::*;

use crate::protocol::MoveCmd;

verus! {

/// Full scale of a per-mille speed value.
pub const SPEED_SCALE: i32 = 1000;

/// The requested speed clamped to `[-1000, 1000]`; a value already in range
/// passes through unchanged.
pub open spec fn clamp_speed(v: int) -> int {
    if v < -1000 {
        -1000
    } else if v > 1000 {
        1000
    } else {
        v
    }
}

/// The magnitude of a per-mille value.
pub open spec fn abs_speed(v: int) -> int {
    if v < 0 {
        -v
    } else {
        v
    }
}

/// The duty cycle a per-mille speed maps to: the clamped magnitude scaled
/// linearly into `[0, max]`.
pub open spec fn duty_of(v: int, max: int) -> int {
    abs_speed(clamp_speed(v)) * max / 1000
}

/// The duty cycles one side's two PWM channels carry. At most one of the two
/// is ever nonzero: the forward channel for non-negative speeds, the reverse
/// channel for negative ones.
#[derive(Clone, Copy, Debug, PartialEq, Eq, Structural)]
pub struct SideDrive {
    /// Duty cycle of the forward channel.
    pub forward_duty: u16,
    /// Duty cycle of the reverse channel.
    pub reverse_duty: u16,
}

/// Whether one side's channels carry exactly the requested speed: direction
/// chosen by the sign, magnitude equal to the clamped value scaled to the
/// driver's maximum duty cycle.
pub open spec fn side_drives(s: SideDrive, v: int, max: int) -> bool {
    &&& v >= 0 ==> s.forward_duty == duty_of(v, max) && s.reverse_duty == 0
    &&& v < 0 ==> s.forward_duty == 0 && s.reverse_duty == duty_of(v, max)
}

/// Skid-steer chassis with four wheels driven by two drivers, each driver
/// controlling the two motors of one side.
pub struct SkidSteer {
    /// The drivers' maximum duty cycle; a magnitude of full scale maps to it.
    pub max_duty: u16,
    /// Left side channel duties.
    pub left: SideDrive,
    /// Right side channel duties.
    pub right: SideDrive,
}

impl SkidSteer {
    /// Creates the chassis model with both sides halted.
    pub fn new(max_duty: u16) -> (c: SkidSteer)
        ensures
            c.max_duty == max_duty,
            c.left == (SideDrive { forward_duty: 0, reverse_duty: 0 }),
            c.right == (SideDrive { forward_duty: 0, reverse_duty: 0 }),
    {
        SkidSteer {
            max_duty,
            left: SideDrive { forward_duty: 0, reverse_duty: 0 },
            right: SideDrive { forward_duty: 0, reverse_duty: 0 },
        }
    }

    /// Sets the speed of both sides, in per-mille of full scale. Out-of-range
    /// requests are clamped here, at the actuator boundary; the sign picks the
    /// direction channel and the clamped magnitude scales the duty cycle.
    pub fn set_speed(&mut self, left_speed: i32, right_speed: i32)
        ensures
            final(self).max_duty == old(self).max_duty,
            side_drives(final(self).left, left_speed as int, old(self).max_duty as int),
            side_drives(final(self).right, right_speed as int, old(self).max_duty as int),
    {
        self.left = side_output(left_speed, self.max_duty);
        self.right = side_output(right_speed, self.max_duty);
    }

    /// Stops the chassis: both sides' channels drop to a zero duty cycle.
    pub fn stop(&mut self)
        ensures
            final(self).max_duty == old(self).max_duty,
            final(self).left == (SideDrive { forward_duty: 0, reverse_duty: 0 }),
            final(self).right == (SideDrive { forward_duty: 0, reverse_duty: 0 }),
    {
        self.set_speed(0, 0);
        proof {
            assert(abs_speed(clamp_speed(0)) == 0);
            assert(duty_of(0, old(self).max_duty as int) == 0 * (old(self).max_duty as int) / 1000);
        }
    }
}

/// Computes one side's channel duties for a requested speed.
fn side_output(speed: i32, max_duty: u16) -> (s: SideDrive)
    ensures
        side_drives(s, speed as int, max_duty as int),
{
    let clamped: i32 = if speed < -SPEED_SCALE {
        -SPEED_SCALE
    } else if speed > SPEED_SCALE {
        SPEED_SCALE
    } else {
        speed
    };
    let magnitude: u32 = if clamped < 0 {
        (-clamped) as u32
    } else {
        clamped as u32
    };
    assert(magnitude == abs_speed(clamp_speed(speed as int)));
    assert((magnitude as int) * (max_duty as int) <= 1000 * 65535) by (nonlinear_arith)
        requires
            magnitude <= 1000,
            max_duty <= 65535,
    ;
    let duty32: u32 = magnitude * (max_duty as u32) / 1000;
    assert(duty32 == duty_of(speed as int, max_duty as int));
    assert(duty32 <= max_duty) by {
        assert(magnitude * (max_duty as int) <= 1000 * (max_duty as int)) by (nonlinear_arith)
            requires
                magnitude <= 1000,
        ;
        assert(1000 * (max_duty as int) / 1000 == max_duty as int);
        vstd::arithmetic::div_mod::lemma_div_is_ordered(
            magnitude * (max_duty as int),
            1000 * (max_duty as int),
            1000,
        );
    };
    let duty: u16 = duty32 as u16;
    if speed >= 0 {
        SideDrive { forward_duty: duty, reverse_duty: 0 }
    } else {
        SideDrive { forward_duty: 0, reverse_duty: duty }
    }
}

/// One iteration of the movement task: apply the latest movement command to
/// the chassis. The command's sides pass to `set_speed`, which clamps them.
pub fn movement_handler(chassis: &mut SkidSteer, cmd: MoveCmd)
    ensures
        final(chassis).max_duty == old(chassis).max_duty,
        side_drives(final(chassis).left, cmd.left as int, old(chassis).max_duty as int),
        side_drives(final(chassis).right, cmd.right as int, old(chassis).max_duty as int),
{
    chassis.set_speed(cmd.left, cmd.right);
}

/// Law: the chassis clamps each side independently. The duty cycle written
/// for a request is that of the clamped value; a request already within
/// `[-1000, 1000]` passes through unchanged, and a full-scale request maps to
/// the driver's maximum duty cycle.
pub proof fn lemma_clamp_at_boundary(v: int, max: int)
    requires
        0 <= max,
    ensures
        -1000 <= clamp_speed(v) <= 1000,
        -1000 <= v <= 1000 ==> clamp_speed(v) == v,
        v >= 1000 ==> duty_of(v, max) == max,
        v <= -1000 ==> duty_of(v, max) == max,
        duty_of(v, max) == duty_of(clamp_speed(v), max),
{
    if v >= 1000 || v <= -1000 {
        assert(abs_speed(clamp_speed(v)) == 1000);
        assert(1000 * max / 1000 == max);
    }
}

} // verus!
