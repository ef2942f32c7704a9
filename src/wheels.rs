//! Differential-drive kinematics: the two wheel speeds integrated over time into
//! distances travelled and rotation.
//!
//! Speeds are in mm/s and time steps in microseconds, so each accumulator counts
//! millionths of a millimetre (for the total distance, twice that: it sums both
//! wheels). The rotation accumulator is in millionths of a millimetre of wheel
//! difference; divided by the axle length it gives millionths of a radian.

use std::time::Instant;
use vstd::prelude::*;
use crate::clock::{clock_now, micros_between};

verus! {

/// Micro-units in one unit.
pub const MICROS_PER_UNIT: u128 = 1_000_000;

/// Degrees in a radian, as a fraction `DEG_PER_RAD_NUM / DEG_PER_RAD_DEN`.
pub const DEG_PER_RAD_NUM: u128 = 5_729_577_951;

pub const DEG_PER_RAD_DEN: u128 = 100_000_000;

/// The largest `u16`, where readings saturate.
pub const U16_CAP: u128 = 65535;

/// What a `Wheels` holds.
pub struct WheelsView {
    pub left_speed: i16,
    pub right_speed: i16,
    /// Distance travelled by the left wheel, in millionths of a mm.
    pub left_distance: int,
    /// Distance travelled by the right wheel, in millionths of a mm.
    pub right_distance: int,
    /// Twice the distance travelled by the robot's centre, in millionths of a mm.
    pub total_twice: int,
    /// The axle length times the rotation, in millionths of a mm by radians.
    pub rotation: int,
    /// Axle length in mm.
    pub axle: int,
}

/// One integration step of `dt` microseconds by the rectangle rule; with both
/// speeds zero the robot is braked and every accumulator is reset.
pub open spec fn step_spec(v: WheelsView, dt: int) -> WheelsView {
    if v.left_speed == 0 && v.right_speed == 0 {
        WheelsView { left_distance: 0, right_distance: 0, total_twice: 0, rotation: 0, ..v }
    } else {
        WheelsView {
            left_distance: v.left_distance + dt * v.left_speed,
            right_distance: v.right_distance + dt * v.right_speed,
            total_twice: v.total_twice + dt * (v.left_speed + v.right_speed),
            rotation: v.rotation + dt * (v.right_speed - v.left_speed),
            ..v
        }
    }
}

/// Steps of the given lengths, in order.
pub open spec fn steps_spec(v: WheelsView, dts: Seq<u64>) -> WheelsView
    decreases dts.len(),
{
    if dts.len() == 0 {
        v
    } else {
        step_spec(steps_spec(v, dts.drop_last()), dts.last() as int)
    }
}

/// The total of a sequence of time steps.
pub open spec fn total_time(dts: Seq<u64>) -> int
    decreases dts.len(),
{
    if dts.len() == 0 {
        0
    } else {
        total_time(dts.drop_last()) + dts.last()
    }
}

pub open spec fn i128_range(x: int) -> bool {
    i128::MIN <= x <= i128::MAX
}

/// Whether every accumulator stays within `i128` after a step.
pub open spec fn step_fits(v: WheelsView, dt: int) -> bool {
    let n = step_spec(v, dt);
    i128_range(n.left_distance) && i128_range(n.right_distance) && i128_range(n.total_twice)
        && i128_range(n.rotation)
}

/// `after` is `before` advanced by some time step, or, where that step would
/// overflow an accumulator, `before` itself.
pub open spec fn after_update(before: WheelsView, after: WheelsView) -> bool {
    exists|dt: u64|
        after == step_spec(before, dt as int) || (after == before && !step_fits(before, dt as int))
}

pub open spec fn abs(x: int) -> int {
    if x < 0 { -x } else { x }
}

/// The rotation in whole degrees, `floor(|rotation| * 180 / pi)`, capped at 65535.
pub open spec fn rotation_degrees(v: WheelsView) -> int {
    let d = abs(v.rotation) * DEG_PER_RAD_NUM / (v.axle * MICROS_PER_UNIT * DEG_PER_RAD_DEN);
    if d > U16_CAP { U16_CAP as int } else { d }
}

/// The distance travelled in whole mm, `floor(|total_distance|)`, capped at 65535.
pub open spec fn distance_mm(v: WheelsView) -> int {
    let d = abs(v.total_twice) / (2 * MICROS_PER_UNIT);
    if d > U16_CAP { U16_CAP as int } else { d }
}

/// The two wheels of the robot, with the distances and rotation they have driven
/// since they were last braked.
#[derive(Debug)]
pub struct Wheels {
    left_speed: i16,
    right_speed: i16,
    left_distance: i128,
    right_distance: i128,
    total_twice: i128,
    rotation: i128,
    axle_dist: u16,
    last_update: Instant,
}

impl View for Wheels {
    type V = WheelsView;

    closed spec fn view(&self) -> WheelsView {
        WheelsView {
            left_speed: self.left_speed,
            right_speed: self.right_speed,
            left_distance: self.left_distance as int,
            right_distance: self.right_distance as int,
            total_twice: self.total_twice as int,
            rotation: self.rotation as int,
            axle: self.axle_dist as int,
        }
    }
}

impl Wheels {
    /// A positive axle length.
    pub open spec fn wf(&self) -> bool {
        self@.axle > 0
    }

    /// Stationary wheels on an axle of `axle_distance` mm.
    pub fn new(axle_distance: u16) -> (r: Self)
        requires
            axle_distance > 0,
        ensures
            r.wf(),
            r@.axle == axle_distance,
            r@.left_speed == 0 && r@.right_speed == 0,
            r@.left_distance == 0 && r@.right_distance == 0,
            r@.total_twice == 0 && r@.rotation == 0,
    {
        Wheels {
            left_speed: 0,
            right_speed: 0,
            left_distance: 0,
            right_distance: 0,
            total_twice: 0,
            rotation: 0,
            axle_dist: axle_distance,
            last_update: clock_now(),
        }
    }

    pub fn set_left_wheel_speed(&mut self, speed: i16)
        ensures
            final(self)@ == (WheelsView { left_speed: speed, ..old(self)@ }),
    {
        self.left_speed = speed;
    }

    pub fn set_right_wheel_speed(&mut self, speed: i16)
        ensures
            final(self)@ == (WheelsView { right_speed: speed, ..old(self)@ }),
    {
        self.right_speed = speed;
    }

    /// The left speed's magnitude, as the low byte that a packet carries.
    pub fn get_left_wheel_speed(&self) -> (r: u8)
        ensures
            r == abs(self@.left_speed as int) % 256,
    {
        let s = self.left_speed as i32;
        let a: i32 = if s < 0 { -s } else { s };
        (a % 256) as u8
    }

    /// The right speed's magnitude, as the low byte that a packet carries.
    pub fn get_right_wheel_speed(&self) -> (r: u8)
        ensures
            r == abs(self@.right_speed as int) % 256,
    {
        let s = self.right_speed as i32;
        let a: i32 = if s < 0 { -s } else { s };
        (a % 256) as u8
    }

    pub fn get_left(&self) -> (r: i16)
        ensures
            r == self@.left_speed,
    {
        self.left_speed
    }

    pub fn get_right(&self) -> (r: i16)
        ensures
            r == self@.right_speed,
    {
        self.right_speed
    }

    /// Whether the mean of the two speeds, rounded towards zero, is positive.
    pub fn going_forward(&self) -> (r: bool)
        ensures
            r == (self@.left_speed + self@.right_speed >= 2),
    {
        (self.left_speed as i32 + self.right_speed as i32) / 2 > 0
    }

    /// Whether the robot turns left: the right wheel drives forward.
    pub fn left_rotation(&self) -> (r: bool)
        ensures
            r == (self@.right_speed > 0),
    {
        self.right_speed > 0
    }

    /// The distance travelled in whole mm, capped at 65535.
    pub fn get_distance(&self) -> (r: u16)
        ensures
            r as int == distance_mm(self@),
    {
        let t: u128 = if self.total_twice < 0 {
            (-(self.total_twice + 1)) as u128 + 1
        } else {
            self.total_twice as u128
        };
        let d = t / (2 * MICROS_PER_UNIT);
        if d > U16_CAP {
            65535
        } else {
            d as u16
        }
    }

    /// The rotation in whole degrees, capped at 65535.
    pub fn get_rotation(&self) -> (r: u16)
        requires
            self.wf(),
        ensures
            r as int == rotation_degrees(self@),
    {
        let t: u128 = if self.rotation < 0 {
            (-(self.rotation + 1)) as u128 + 1
        } else {
            self.rotation as u128
        };
        let den = self.axle_dist as u128 * MICROS_PER_UNIT * DEG_PER_RAD_DEN;
        match t.checked_mul(DEG_PER_RAD_NUM) {
            Some(n) => {
                let d = n / den;
                if d > U16_CAP {
                    65535
                } else {
                    d as u16
                }
            },
            None => {
                proof {
                    lemma_large_quotient(t as int * DEG_PER_RAD_NUM, den as int);
                }
                65535
            },
        }
    }

    /// Integrates the current speeds over `dt_us` microseconds.
    fn try_step(&mut self, dt_us: u64) -> (r: bool)
        ensures
            r == step_fits(old(self)@, dt_us as int),
            r ==> final(self)@ == step_spec(old(self)@, dt_us as int),
            !r ==> final(self)@ == old(self)@,
            final(self).last_update == old(self).last_update,
    {
        if self.left_speed == 0 && self.right_speed == 0 {
            self.left_distance = 0;
            self.right_distance = 0;
            self.total_twice = 0;
            self.rotation = 0;
            return true;
        }
        let dt = dt_us as i128;
        let l = self.left_speed as i128;
        let rs = self.right_speed as i128;
        assert(forall|a: int, b: int|
            0 <= a <= u64::MAX && -65536 <= b <= 65536 ==> -0x1_0000_0000_0000_0000_0000 <= #[trigger] (a * b)
                <= 0x1_0000_0000_0000_0000_0000) by {
            assert forall|a: int, b: int| 0 <= a <= u64::MAX && -65536 <= b <= 65536 implies
                -0x1_0000_0000_0000_0000_0000 <= #[trigger] (a * b) <= 0x1_0000_0000_0000_0000_0000 by {
                assert(-0x1_0000_0000_0000_0000_0000 <= a * b <= 0x1_0000_0000_0000_0000_0000) by (nonlinear_arith)
                    requires
                        0 <= a <= u64::MAX,
                        -65536 <= b <= 65536,
                ;
            }
        }
        let nl = self.left_distance.checked_add(dt * l);
        let nr = self.right_distance.checked_add(dt * rs);
        let nt = self.total_twice.checked_add(dt * (l + rs));
        let nrot = self.rotation.checked_add(dt * (rs - l));
        match (nl, nr, nt, nrot) {
            (Some(a), Some(b), Some(c), Some(d)) => {
                self.left_distance = a;
                self.right_distance = b;
                self.total_twice = c;
                self.rotation = d;
                true
            },
            _ => false,
        }
    }

    /// Integrates the current speeds over `dt_us` microseconds by the rectangle
    /// rule; with both speeds zero, resets every accumulator instead.
    pub fn update_distance_by(&mut self, dt_us: u64)
        requires
            step_fits(old(self)@, dt_us as int),
        ensures
            final(self)@ == step_spec(old(self)@, dt_us as int),
    {
        self.try_step(dt_us);
    }

    /// Integrates the current speeds over the time since the previous update;
    /// with both speeds zero, resets every accumulator instead. A step that would
    /// overflow the accumulators is skipped.
    pub fn update_distance(&mut self)
        ensures
            old(self)@.left_speed == 0 && old(self)@.right_speed == 0 ==> final(self)@ == step_spec(
                old(self)@,
                0,
            ),
            after_update(old(self)@, final(self)@),
    {
        let now = clock_now();
        let dt = micros_between(&self.last_update, &now);
        self.last_update = now;
        self.try_step(dt);
    }
}

/// A quotient whose numerator is at least `2^128` and whose denominator fits in
/// `u64` is above 65535.
proof fn lemma_large_quotient(n: int, d: int)
    requires
        n > u128::MAX,
        0 < d <= u64::MAX,
    ensures
        n / d > U16_CAP,
{
    assert(n / d > U16_CAP) by (nonlinear_arith)
        requires
            n > u128::MAX,
            0 < d <= u64::MAX,
    {
        assert(n / d >= u128::MAX as int / d) by {
            vstd::arithmetic::div_mod::lemma_div_is_ordered(u128::MAX as int, n, d);
        }
        assert(u128::MAX as int / d >= u128::MAX as int / u64::MAX as int) by {
            vstd::arithmetic::div_mod::lemma_div_is_ordered_by_denominator(u128::MAX as int, d, u64::MAX as int);
        }
    }
}

/// At constant speeds that are not both zero, any sequence of updates adds exactly
/// the elapsed time times the speeds: each wheel `t * speed`, twice the total
/// distance `t * (left + right)`, and the axle times the rotation `t * (right - left)`.
pub proof fn lemma_constant_speed_integration(v: WheelsView, dts: Seq<u64>)
    requires
        v.left_speed != 0 || v.right_speed != 0,
    ensures
        steps_spec(v, dts).left_speed == v.left_speed,
        steps_spec(v, dts).right_speed == v.right_speed,
        steps_spec(v, dts).left_distance == v.left_distance + total_time(dts) * v.left_speed,
        steps_spec(v, dts).right_distance == v.right_distance + total_time(dts) * v.right_speed,
        steps_spec(v, dts).total_twice == v.total_twice + total_time(dts) * (v.left_speed + v.right_speed),
        steps_spec(v, dts).rotation == v.rotation + total_time(dts) * (v.right_speed - v.left_speed),
    decreases dts.len(),
{
    if dts.len() > 0 {
        lemma_constant_speed_integration(v, dts.drop_last());
        let t0 = total_time(dts.drop_last());
        let dt = dts.last() as int;
        assert(t0 * v.left_speed + dt * v.left_speed == (t0 + dt) * v.left_speed) by (nonlinear_arith);
        assert(t0 * v.right_speed + dt * v.right_speed == (t0 + dt) * v.right_speed) by (nonlinear_arith);
        assert(t0 * (v.left_speed + v.right_speed) + dt * (v.left_speed + v.right_speed) == (t0 + dt) * (
        v.left_speed + v.right_speed)) by (nonlinear_arith);
        assert(t0 * (v.right_speed - v.left_speed) + dt * (v.right_speed - v.left_speed) == (t0 + dt) * (
        v.right_speed - v.left_speed)) by (nonlinear_arith);
    }
}

/// With both speeds zero, any update leaves every accumulator at zero.
pub proof fn lemma_braked_resets(v: WheelsView, dt: int)
    requires
        v.left_speed == 0 && v.right_speed == 0,
    ensures
        step_spec(v, dt).left_distance == 0,
        step_spec(v, dt).right_distance == 0,
        step_spec(v, dt).total_twice == 0,
        step_spec(v, dt).rotation == 0,
{
}

} // verus!
