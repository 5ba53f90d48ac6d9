//! The estimator's and controller's value types: attitudes, angular rates,
//! accelerations and the aggregate sensor sample.
use vstd::prelude::*;
use crate::fixed_point::{Frac, wrap_i32, mul_bits, div_bits, trunc_div, floor_bits};

verus! {

/// Orientation angles in radians.
#[derive(Clone, Copy, Debug, PartialEq, Eq, Structural)]
pub struct YawPitchRoll {
    pub yaw: Frac,
    pub pitch: Frac,
    pub roll: Frac,
}

/// Angular rates in radians per second.
#[derive(Clone, Copy, Debug, PartialEq, Eq, Structural)]
pub struct Velocity {
    pub yaw: Frac,
    pub pitch: Frac,
    pub roll: Frac,
}

/// Raw accelerometer reading.
#[derive(Clone, Copy, Debug, PartialEq, Eq, Structural)]
pub struct Accel {
    pub x: i32,
    pub y: i32,
    pub z: i32,
}

/// One sample of everything the sensors report. The pressure is held in
/// 16.16 fixed point like the other fields, so it spans `[-32768, 32768)`
/// sensor units (about ±3276.8 Pa once the reading is taken relative to the
/// base pressure and scaled by ten) and wraps beyond that.
#[derive(Clone, Copy, Debug)]
pub struct SensorData {
    pub height: Frac,
    pub v_z: Frac,
    pub pressure: Frac,
    pub velocity: Velocity,
    pub radius: YawPitchRoll,
    pub acceleration: Accel,
    pub bat: u16,
    pub motor_speeds: [u16; 4],
}

/// The operator's latest command: a target attitude (its yaw field is a yaw
/// rate target) and a throttle.
#[derive(Clone, Copy, Debug, PartialEq, Eq, Structural)]
pub struct ControlRequest {
    pub radius: YawPitchRoll,
    pub throttle: i16,
}

/// The difference between command and estimate that the mixer acts on.
#[derive(Clone, Copy, Debug, PartialEq, Eq, Structural)]
pub struct ControllerInput {
    pub ypr: YawPitchRoll,
    pub height: Frac,
}

pub open spec fn add_spec(a: Frac, b: Frac) -> int {
    wrap_i32(a.bits + b.bits)
}

pub open spec fn sub_spec(a: Frac, b: Frac) -> int {
    wrap_i32(a.bits - b.bits)
}

pub open spec fn mul_spec(a: Frac, b: Frac) -> int {
    mul_bits(a.bits as int, b.bits as int)
}

pub open spec fn div_spec(a: Frac, b: Frac) -> int {
    div_bits(a.bits as int, b.bits as int)
}

impl YawPitchRoll {
    pub open spec fn is_zero(self) -> bool {
        self.yaw.bits == 0 && self.pitch.bits == 0 && self.roll.bits == 0
    }

    pub fn new() -> (r: YawPitchRoll)
        ensures
            r.is_zero(),
    {
        YawPitchRoll { yaw: Frac::zero(), pitch: Frac::zero(), roll: Frac::zero() }
    }

    pub fn add(self, rhs: YawPitchRoll) -> (r: YawPitchRoll)
        ensures
            r.yaw.bits == add_spec(self.yaw, rhs.yaw),
            r.pitch.bits == add_spec(self.pitch, rhs.pitch),
            r.roll.bits == add_spec(self.roll, rhs.roll),
    {
        YawPitchRoll {
            yaw: self.yaw.add(rhs.yaw),
            pitch: self.pitch.add(rhs.pitch),
            roll: self.roll.add(rhs.roll),
        }
    }

    pub fn sub(self, rhs: YawPitchRoll) -> (r: YawPitchRoll)
        ensures
            r.yaw.bits == sub_spec(self.yaw, rhs.yaw),
            r.pitch.bits == sub_spec(self.pitch, rhs.pitch),
            r.roll.bits == sub_spec(self.roll, rhs.roll),
    {
        YawPitchRoll {
            yaw: self.yaw.sub(rhs.yaw),
            pitch: self.pitch.sub(rhs.pitch),
            roll: self.roll.sub(rhs.roll),
        }
    }

    pub fn mul(self, rhs: Frac) -> (r: YawPitchRoll)
        ensures
            r.yaw.bits == mul_spec(self.yaw, rhs),
            r.pitch.bits == mul_spec(self.pitch, rhs),
            r.roll.bits == mul_spec(self.roll, rhs),
    {
        YawPitchRoll { yaw: self.yaw.mul(rhs), pitch: self.pitch.mul(rhs), roll: self.roll.mul(rhs) }
    }

    pub fn div(self, rhs: Frac) -> (r: YawPitchRoll)
        requires
            rhs.bits != 0,
        ensures
            r.yaw.bits == div_spec(self.yaw, rhs),
            r.pitch.bits == div_spec(self.pitch, rhs),
            r.roll.bits == div_spec(self.roll, rhs),
    {
        YawPitchRoll { yaw: self.yaw.div(rhs), pitch: self.pitch.div(rhs), roll: self.roll.div(rhs) }
    }
}

impl Velocity {
    pub open spec fn is_zero(self) -> bool {
        self.yaw.bits == 0 && self.pitch.bits == 0 && self.roll.bits == 0
    }

    pub fn new() -> (r: Velocity)
        ensures
            r.is_zero(),
    {
        Velocity { yaw: Frac::zero(), pitch: Frac::zero(), roll: Frac::zero() }
    }

    pub fn add(self, rhs: Velocity) -> (r: Velocity)
        ensures
            r.yaw.bits == add_spec(self.yaw, rhs.yaw),
            r.pitch.bits == add_spec(self.pitch, rhs.pitch),
            r.roll.bits == add_spec(self.roll, rhs.roll),
    {
        Velocity {
            yaw: self.yaw.add(rhs.yaw),
            pitch: self.pitch.add(rhs.pitch),
            roll: self.roll.add(rhs.roll),
        }
    }

    /// Adds an attitude to a rate, field by field.
    pub fn add_ypr(self, rhs: YawPitchRoll) -> (r: Velocity)
        ensures
            r.yaw.bits == add_spec(self.yaw, rhs.yaw),
            r.pitch.bits == add_spec(self.pitch, rhs.pitch),
            r.roll.bits == add_spec(self.roll, rhs.roll),
    {
        Velocity {
            yaw: self.yaw.add(rhs.yaw),
            pitch: self.pitch.add(rhs.pitch),
            roll: self.roll.add(rhs.roll),
        }
    }

    pub fn sub(self, rhs: Velocity) -> (r: Velocity)
        ensures
            r.yaw.bits == sub_spec(self.yaw, rhs.yaw),
            r.pitch.bits == sub_spec(self.pitch, rhs.pitch),
            r.roll.bits == sub_spec(self.roll, rhs.roll),
    {
        Velocity {
            yaw: self.yaw.sub(rhs.yaw),
            pitch: self.pitch.sub(rhs.pitch),
            roll: self.roll.sub(rhs.roll),
        }
    }

    /// A rate times a duration: the angle turned through.
    pub fn mul(self, rhs: Frac) -> (r: YawPitchRoll)
        ensures
            r.yaw.bits == mul_spec(self.yaw, rhs),
            r.pitch.bits == mul_spec(self.pitch, rhs),
            r.roll.bits == mul_spec(self.roll, rhs),
    {
        YawPitchRoll { yaw: self.yaw.mul(rhs), pitch: self.pitch.mul(rhs), roll: self.roll.mul(rhs) }
    }
}

/// Adds two `i32`, wrapping.
pub open spec fn int_add(a: i32, b: i32) -> int {
    wrap_i32(a + b)
}

pub open spec fn int_sub(a: i32, b: i32) -> int {
    wrap_i32(a - b)
}

/// `a / b` rounded toward zero.
pub fn div_toward_zero(a: i32, b: i32) -> (r: i32)
    requires
        b != 0,
        b == -1 ==> a != i32::MIN,
    ensures
        r == trunc_div(a as int, b as int),
{
    let x = a as i64;
    let y = b as i64;
    let q: i64 = if x >= 0 {
        if y > 0 {
            x / y
        } else {
            -(x / (-y))
        }
    } else {
        if y > 0 {
            -((-x) / y)
        } else {
            (-x) / (-y)
        }
    };
    proof {
        let ax: int = if x >= 0 { x as int } else { -x };
        let ay: int = if y >= 0 { y as int } else { -y };
        assert(0 <= ax / ay <= ax) by (nonlinear_arith)
            requires
                ax >= 0,
                ay >= 1,
        ;
        if y == -1 || y == 1 {
            assert(ax / ay == ax) by (nonlinear_arith)
                requires
                    ax >= 0,
                    ay == 1,
            ;
        } else {
            assert(ax / ay <= ax / 2) by (nonlinear_arith)
                requires
                    ax >= 0,
                    ay >= 2,
            ;
        }
    }
    q as i32
}

impl Accel {
    pub fn new() -> (r: Accel)
        ensures
            r.x == 0 && r.y == 0 && r.z == 0,
    {
        Accel { x: 0, y: 0, z: 0 }
    }

    pub fn add(self, rhs: Accel) -> (r: Accel)
        ensures
            r.x == int_add(self.x, rhs.x),
            r.y == int_add(self.y, rhs.y),
            r.z == int_add(self.z, rhs.z),
    {
        Accel { x: self.x.wrapping_add(rhs.x), y: self.y.wrapping_add(rhs.y), z: self.z.wrapping_add(rhs.z) }
    }

    pub fn sub(self, rhs: Accel) -> (r: Accel)
        ensures
            r.x == int_sub(self.x, rhs.x),
            r.y == int_sub(self.y, rhs.y),
            r.z == int_sub(self.z, rhs.z),
    {
        Accel { x: self.x.wrapping_sub(rhs.x), y: self.y.wrapping_sub(rhs.y), z: self.z.wrapping_sub(rhs.z) }
    }

    /// Divides each component, rounding toward zero.
    pub fn div(self, rhs: i32) -> (r: Accel)
        requires
            rhs != 0,
            rhs == -1 ==> self.x != i32::MIN && self.y != i32::MIN && self.z != i32::MIN,
        ensures
            r.x == trunc_div(self.x as int, rhs as int),
            r.y == trunc_div(self.y as int, rhs as int),
            r.z == trunc_div(self.z as int, rhs as int),
    {
        Accel { x: div_toward_zero(self.x, rhs), y: div_toward_zero(self.y, rhs), z: div_toward_zero(self.z, rhs) }
    }
}

/// The integer component `x` scaled by `k`, rounded toward minus infinity.
pub open spec fn scale_int(x: i32, k: Frac) -> int {
    floor_bits(wrap_i32(k.bits * x))
}

impl SensorData {
    /// Every field zero.
    pub open spec fn is_zero(self) -> bool {
        &&& self.height.bits == 0
        &&& self.v_z.bits == 0
        &&& self.pressure.bits == 0
        &&& self.velocity.is_zero()
        &&& self.radius.is_zero()
        &&& self.acceleration == (Accel { x: 0, y: 0, z: 0 })
        &&& self.bat == 0
        &&& self.motor_speeds@ == seq![0u16, 0u16, 0u16, 0u16]
    }

    pub fn new() -> (r: SensorData)
        ensures
            r.is_zero(),
    {
        SensorData {
            height: Frac::zero(),
            v_z: Frac::zero(),
            pressure: Frac::zero(),
            velocity: Velocity::new(),
            radius: YawPitchRoll::new(),
            acceleration: Accel::new(),
            bat: 0,
            motor_speeds: [0, 0, 0, 0],
        }
    }

    /// Scales every measured field by `rhs`; the integer acceleration goes
    /// through the fixed-point product and back. Battery level and motor
    /// speeds are kept.
    pub fn mul(self, rhs: Frac) -> (r: SensorData)
        ensures
            r.height.bits == mul_spec(self.height, rhs),
            r.v_z.bits == mul_spec(self.v_z, rhs),
            r.pressure.bits == mul_spec(self.pressure, rhs),
            r.velocity.yaw.bits == mul_spec(self.velocity.yaw, rhs),
            r.velocity.pitch.bits == mul_spec(self.velocity.pitch, rhs),
            r.velocity.roll.bits == mul_spec(self.velocity.roll, rhs),
            r.radius.yaw.bits == mul_spec(self.radius.yaw, rhs),
            r.radius.pitch.bits == mul_spec(self.radius.pitch, rhs),
            r.radius.roll.bits == mul_spec(self.radius.roll, rhs),
            r.acceleration.x == scale_int(self.acceleration.x, rhs),
            r.acceleration.y == scale_int(self.acceleration.y, rhs),
            r.acceleration.z == scale_int(self.acceleration.z, rhs),
            r.bat == self.bat,
            r.motor_speeds == self.motor_speeds,
    {
        SensorData {
            height: self.height.mul(rhs),
            v_z: self.v_z.mul(rhs),
            pressure: self.pressure.mul(rhs),
            velocity: Velocity {
                yaw: self.velocity.yaw.mul(rhs),
                pitch: self.velocity.pitch.mul(rhs),
                roll: self.velocity.roll.mul(rhs),
            },
            radius: self.radius.mul(rhs),
            acceleration: Accel {
                x: rhs.mul_int(self.acceleration.x).to_i32(),
                y: rhs.mul_int(self.acceleration.y).to_i32(),
                z: rhs.mul_int(self.acceleration.z).to_i32(),
            },
            bat: self.bat,
            motor_speeds: self.motor_speeds,
        }
    }

    /// Adds the measured fields; battery level and motor speeds are taken
    /// from `self`.
    pub fn add(self, rhs: SensorData) -> (r: SensorData)
        ensures
            r.height.bits == add_spec(self.height, rhs.height),
            r.v_z.bits == add_spec(self.v_z, rhs.v_z),
            r.pressure.bits == add_spec(self.pressure, rhs.pressure),
            r.velocity.yaw.bits == add_spec(self.velocity.yaw, rhs.velocity.yaw),
            r.velocity.pitch.bits == add_spec(self.velocity.pitch, rhs.velocity.pitch),
            r.velocity.roll.bits == add_spec(self.velocity.roll, rhs.velocity.roll),
            r.radius.yaw.bits == add_spec(self.radius.yaw, rhs.radius.yaw),
            r.radius.pitch.bits == add_spec(self.radius.pitch, rhs.radius.pitch),
            r.radius.roll.bits == add_spec(self.radius.roll, rhs.radius.roll),
            r.acceleration.x == int_add(self.acceleration.x, rhs.acceleration.x),
            r.acceleration.y == int_add(self.acceleration.y, rhs.acceleration.y),
            r.acceleration.z == int_add(self.acceleration.z, rhs.acceleration.z),
            r.bat == self.bat,
            r.motor_speeds == self.motor_speeds,
    {
        SensorData {
            height: self.height.add(rhs.height),
            v_z: self.v_z.add(rhs.v_z),
            pressure: self.pressure.add(rhs.pressure),
            velocity: self.velocity.add(rhs.velocity),
            radius: self.radius.add(rhs.radius),
            acceleration: self.acceleration.add(rhs.acceleration),
            bat: self.bat,
            motor_speeds: self.motor_speeds,
        }
    }
}

impl ControlRequest {
    pub fn new() -> (r: ControlRequest)
        ensures
            r.radius.is_zero(),
            r.throttle == 0,
    {
        ControlRequest { radius: YawPitchRoll::new(), throttle: 0 }
    }

    /// Adds two requests field by field; the throttle wraps.
    pub fn add(self, rhs: ControlRequest) -> (r: ControlRequest)
        ensures
            r.radius.yaw.bits == add_spec(self.radius.yaw, rhs.radius.yaw),
            r.radius.pitch.bits == add_spec(self.radius.pitch, rhs.radius.pitch),
            r.radius.roll.bits == add_spec(self.radius.roll, rhs.radius.roll),
            r.throttle == crate::fixed_point::wrap_i16(self.throttle + rhs.throttle),
    {
        ControlRequest { radius: self.radius.add(rhs.radius), throttle: self.throttle.wrapping_add(rhs.throttle) }
    }
}

impl ControllerInput {
    pub fn new() -> (r: ControllerInput)
        ensures
            r.ypr.is_zero(),
            r.height.bits == 0,
    {
        ControllerInput { ypr: YawPitchRoll::new(), height: Frac::zero() }
    }
}

} // verus!
