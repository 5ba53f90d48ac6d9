//! Attitude from the motion processor's quaternion, with fixed-point
//! trigonometry.
use vstd::prelude::*;
use crate::fixed_point::{Frac, wrap_i32, mul_bits};
use crate::measurements::YawPitchRoll;

verus! {

/// What `fixed_trigonometry::atan::atan2` returns on two 16.16 numbers
/// (raw bits in, raw bits out).
pub uninterp spec fn atan2_of(y: int, x: int) -> int;

/// What `fixed_trigonometry::sqrt::niirf` returns on a 16.16 number and an
/// iteration count (raw bits in, raw bits out).
pub uninterp spec fn niirf_of(x: int, iterations: int) -> int;

/// The arguments on which `atan2` runs without panicking: magnitudes of at
/// most 128, and not both non-zero and under 1/256 (where its polynomial
/// divides by zero).
pub open spec fn atan2_defined(y: int, x: int) -> bool {
    &&& -0x80_0000 <= y <= 0x80_0000
    &&& -0x80_0000 <= x <= 0x80_0000
    &&& (y == 0 || x == 0 || y <= -256 || y >= 256 || x <= -256 || x >= 256)
}

/// Relies on `fixed_trigonometry::atan::atan2` for `I16F16`: a function of
/// its arguments; on the arguments admitted here none of its operations
/// overflows or divides by zero.
#[verifier::external_body]
fn atan2_raw(y: i32, x: i32) -> (r: i32)
    requires
        atan2_defined(y as int, x as int),
    ensures
        r == atan2_of(y as int, x as int),
{
    fixed_trigonometry::atan::atan2(fixed::types::I16F16::from_bits(y), fixed::types::I16F16::from_bits(x)).to_bits()
}

/// Relies on `fixed_trigonometry::sqrt::niirf` for `I16F16` with two
/// iterations: a function of its argument; it takes the absolute value
/// first, which only `i32::MIN` overflows.
#[verifier::external_body]
fn niirf_raw(x: i32) -> (r: i32)
    requires
        x != i32::MIN,
    ensures
        r == niirf_of(x as int, 2),
{
    fixed_trigonometry::sqrt::niirf(fixed::types::I16F16::from_bits(x), 2).to_bits()
}

/// Relies on `fixed::FixedI32::from_num` from an `I2F30`: the fourteen
/// extra fractional bits are discarded, rounding toward minus infinity.
#[verifier::external_body]
fn from_unit_bits(b: i32) -> (r: i32)
    ensures
        r == b / 0x4000,
{
    fixed::types::I16F16::from_num(fixed::types::I2F30::from_bits(b)).to_bits()
}

pub open spec fn fm(a: int, b: int) -> int {
    mul_bits(a, b)
}

pub open spec fn fa(a: int, b: int) -> int {
    wrap_i32(a + b)
}

pub open spec fn fs(a: int, b: int) -> int {
    wrap_i32(a - b)
}

/// The quaternion's components in 16.16, from their 2.30 raw bits.
pub open spec fn unit(b: i32) -> int {
    b / 0x4000
}

/// The gravity vector's components in the body frame.
pub open spec fn gravity_x(w: int, x: int, y: int, z: int) -> int {
    fm(0x2_0000, fs(fm(x, z), fm(w, y)))
}

pub open spec fn gravity_y(w: int, x: int, y: int, z: int) -> int {
    fm(0x2_0000, fa(fm(w, x), fm(y, z)))
}

pub open spec fn gravity_z(w: int, x: int, y: int, z: int) -> int {
    fa(fs(fs(fm(w, w), fm(x, x)), fm(y, y)), fm(z, z))
}

/// The two arguments of the yaw angle's `atan2`.
pub open spec fn yaw_num(w: int, x: int, y: int, z: int) -> int {
    fs(fm(fm(0x2_0000, x), y), fm(fm(0x2_0000, w), z))
}

pub open spec fn yaw_den(w: int, x: int) -> int {
    fs(fa(fm(fm(0x2_0000, w), w), fm(fm(0x2_0000, x), x)), 0x1_0000)
}

/// `gy² + gz²`, whose square root is the pitch angle's `atan2` denominator.
pub open spec fn gravity_yz_squared(w: int, x: int, y: int, z: int) -> int {
    fa(fm(gravity_y(w, x, y, z), gravity_y(w, x, y, z)), fm(gravity_z(w, x, y, z), gravity_z(w, x, y, z)))
}

/// Yaw, pitch and roll of the attitude that the quaternion `(w, x, y, z)`
/// (components as 2.30 raw bits) describes, or `None` where one of the
/// trigonometric steps is outside the range on which it is defined.
pub fn yaw_pitch_roll_from_quaternion(qw: i32, qx: i32, qy: i32, qz: i32) -> (r: Option<YawPitchRoll>)
    ensures
        ({
            let (w, x, y, z) = (unit(qw), unit(qx), unit(qy), unit(qz));
            let gx = gravity_x(w, x, y, z);
            let gy = gravity_y(w, x, y, z);
            let gz = gravity_z(w, x, y, z);
            let s = gravity_yz_squared(w, x, y, z);
            let ok = atan2_defined(yaw_num(w, x, y, z), yaw_den(w, x)) && atan2_defined(gy, gz) && s
                != i32::MIN && atan2_defined(gx, niirf_of(s, 2));
            &&& (r is Some <==> ok)
            &&& r is Some ==> {
                &&& r->Some_0.yaw.bits == atan2_of(yaw_num(w, x, y, z), yaw_den(w, x))
                &&& r->Some_0.pitch.bits == atan2_of(gx, niirf_of(s, 2))
                &&& r->Some_0.roll.bits == atan2_of(gy, gz)
            }
        }),
{
    let one = Frac::from_int(1);
    let two = Frac::from_int(2);
    let w = Frac::from_bits(from_unit_bits(qw));
    let x = Frac::from_bits(from_unit_bits(qx));
    let y = Frac::from_bits(from_unit_bits(qy));
    let z = Frac::from_bits(from_unit_bits(qz));

    let gx = two.mul(x.mul(z).sub(w.mul(y)));
    let gy = two.mul(w.mul(x).add(y.mul(z)));
    let gz = w.mul(w).sub(x.mul(x)).sub(y.mul(y)).add(z.mul(z));

    let yn = two.mul(x).mul(y).sub(two.mul(w).mul(z));
    let yd = two.mul(w).mul(w).add(two.mul(x).mul(x)).sub(one);
    if !within_atan2_domain(yn, yd) || !within_atan2_domain(gy, gz) {
        return None;
    }
    let s = gy.mul(gy).add(gz.mul(gz));
    if s.bits == i32::MIN {
        return None;
    }
    let root = niirf_raw(s.bits);
    if !within_atan2_domain(gx, Frac::from_bits(root)) {
        return None;
    }
    Some(
        YawPitchRoll {
            yaw: Frac::from_bits(atan2_raw(yn.bits, yd.bits)),
            pitch: Frac::from_bits(atan2_raw(gx.bits, root)),
            roll: Frac::from_bits(atan2_raw(gy.bits, gz.bits)),
        },
    )
}

/// Whether `atan2` is defined on `(y, x)`.
fn within_atan2_domain(y: Frac, x: Frac) -> (r: bool)
    ensures
        r == atan2_defined(y.bits as int, x.bits as int),
{
    let lim: i32 = 0x80_0000;
    let small: i32 = 256;
    -lim <= y.bits && y.bits <= lim && -lim <= x.bits && x.bits <= lim && (y.bits == 0 || x.bits == 0
        || y.bits <= -small || y.bits >= small || x.bits <= -small || x.bits >= small)
}

} // verus!
