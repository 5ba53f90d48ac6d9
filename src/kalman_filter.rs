//! The complementary filter that fuses the integrated gyro rate with the
//! accelerometer's attitude.
use vstd::prelude::*;
use crate::fixed_point::{Frac, wrap_i32};
use crate::measurements::{SensorData, Velocity, YawPitchRoll, add_spec, sub_spec, mul_spec, div_spec};
use crate::sensor::Sensor;

verus! {

pub struct KalmanFilter {
    acc_sphi: YawPitchRoll,
    out_rate: Velocity,
    out_phi: YawPitchRoll,
    /// The tick period `dt` in seconds.
    pub integration_constant: Frac,
    c1: Frac,
    c2: Frac,
}

/// One channel of a fusion step: the integrated angle advanced by
/// `rate·dt`, its error against the accelerometer angle, and the angle after
/// a `1/c1` share of the error is taken off.
pub open spec fn advanced(phi: Frac, rate: Frac, dt: Frac) -> Frac {
    Frac { bits: add_spec(phi, Frac { bits: mul_spec(rate, dt) as i32 }) as i32 }
}

pub open spec fn fusion_error(phi: Frac, rate: Frac, dt: Frac, acc: Frac) -> Frac {
    Frac { bits: sub_spec(advanced(phi, rate, dt), acc) as i32 }
}

pub open spec fn fused(phi: Frac, rate: Frac, dt: Frac, acc: Frac, c1: Frac) -> Frac {
    let e = fusion_error(phi, rate, dt, acc);
    Frac { bits: sub_spec(advanced(phi, rate, dt), Frac { bits: div_spec(e, c1) as i32 }) as i32 }
}

/// The bias estimate moved by `(error/dt)/c2`.
pub open spec fn bias_step(bias: Frac, e: Frac, dt: Frac, c2: Frac) -> int {
    add_spec(bias, Frac { bits: div_spec(Frac { bits: div_spec(e, dt) as i32 }, c2) as i32 })
}

impl KalmanFilter {
    pub closed spec fn integrated(self) -> YawPitchRoll {
        self.out_phi
    }

    pub closed spec fn dt(self) -> Frac {
        self.integration_constant
    }

    pub closed spec fn gain_c1(self) -> Frac {
        self.c1
    }

    pub closed spec fn gain_c2(self) -> Frac {
        self.c2
    }

    pub fn new(c1: Frac, c2: Frac) -> (r: KalmanFilter)
        ensures
            r.integrated().is_zero(),
            r.dt().bits == 0,
            r.gain_c1() == c1,
            r.gain_c2() == c2,
    {
        KalmanFilter {
            acc_sphi: YawPitchRoll::new(),
            out_rate: Velocity::new(),
            out_phi: YawPitchRoll::new(),
            integration_constant: Frac::zero(),
            c1,
            c2,
        }
    }

    /// One fusion step. `acc_attitude` is the attitude derived from the
    /// corrected acceleration. The integrated attitude advances by the rate
    /// times `dt` and is pulled toward the accelerometer attitude; the rate
    /// bias estimate moves by `(error/dt)/c2`; the published attitude is the
    /// integrated one less the calibrated attitude offset, with yaw zeroed.
    pub fn fusion_algorithm(&mut self, sensor: &mut Sensor, acc_attitude: YawPitchRoll)
        requires
            old(self).gain_c1().bits != 0,
            old(self).gain_c2().bits != 0,
            old(self).dt().bits != 0,
        ensures
            ({
                let dt = old(self).dt();
                let c1 = old(self).gain_c1();
                let c2 = old(self).gain_c2();
                let phi = old(self).integrated();
                let rate = old(sensor).data.velocity;
                let bias = old(sensor).calibrate_offset.velocity;
                let out = final(self).integrated();
                &&& out.yaw == fused(phi.yaw, rate.yaw, dt, acc_attitude.yaw, c1)
                &&& out.pitch == fused(phi.pitch, rate.pitch, dt, acc_attitude.pitch, c1)
                &&& out.roll == fused(phi.roll, rate.roll, dt, acc_attitude.roll, c1)
                &&& final(sensor).calibrate_offset.velocity.yaw.bits == bias_step(
                    bias.yaw,
                    fusion_error(phi.yaw, rate.yaw, dt, acc_attitude.yaw),
                    dt,
                    c2,
                )
                &&& final(sensor).calibrate_offset.velocity.pitch.bits == bias_step(
                    bias.pitch,
                    fusion_error(phi.pitch, rate.pitch, dt, acc_attitude.pitch),
                    dt,
                    c2,
                )
                &&& final(sensor).calibrate_offset.velocity.roll.bits == bias_step(
                    bias.roll,
                    fusion_error(phi.roll, rate.roll, dt, acc_attitude.roll),
                    dt,
                    c2,
                )
                &&& final(sensor).data.radius.yaw.bits == 0
                &&& final(sensor).data.radius.pitch.bits == sub_spec(out.pitch, old(sensor).calibrate_offset.radius.pitch)
                &&& final(sensor).data.radius.roll.bits == sub_spec(out.roll, old(sensor).calibrate_offset.radius.roll)
            }),
            final(self).dt() == old(self).dt(),
            final(self).gain_c1() == old(self).gain_c1(),
            final(self).gain_c2() == old(self).gain_c2(),
            final(sensor).data == (SensorData { radius: final(sensor).data.radius, ..old(sensor).data }),
            final(sensor).calibrate_offset == (SensorData {
                velocity: final(sensor).calibrate_offset.velocity,
                ..old(sensor).calibrate_offset
            }),
            final(sensor).calibrated == old(sensor).calibrated,
            final(sensor).cache == old(sensor).cache,
            final(sensor).pressure_zero_point == old(sensor).pressure_zero_point,
            final(sensor).gravity_scale == old(sensor).gravity_scale,
            final(sensor).filter_times == old(sensor).filter_times,
            final(sensor).fir_cache@ == old(sensor).fir_cache@,
    {
        self.acc_sphi = acc_attitude;
        self.out_rate = sensor.data.velocity;
        self.out_phi = self.out_phi.add(self.out_rate.mul(self.integration_constant));
        let e = self.out_phi.sub(self.acc_sphi);
        self.out_phi = self.out_phi.sub(e.div(self.c1));
        sensor.calibrate_offset.velocity = sensor.calibrate_offset.velocity.add_ypr(
            e.div(self.integration_constant).div(self.c2),
        );
        sensor.data.radius = self.out_phi.sub(sensor.calibrate_offset.radius);
        sensor.data.radius.yaw = Frac::zero();
    }
}

} // verus!
