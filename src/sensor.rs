//! The attitude and height estimator's sensor side: applying readings and
//! calibration offsets, calibration, height from pressure and the two
//! smoothing filters.
use vstd::prelude::*;
use crate::fixed_point::{Frac, wrap_i32, mul_bits, div_bits, trunc_div};
use crate::measurements::{
    Accel, SensorData, Velocity, YawPitchRoll, add_spec, sub_spec, mul_spec, div_spec, int_add,
    int_sub, scale_int, div_toward_zero,
};

verus! {

/// Raw samples taken for one calibration.
pub const CALIBRATION_SAMPLES: usize = 20;

/// Raw bits of π/180 in 16.16 (`I16F16::PI / 180`): degrees to radians.
pub const DEG_TO_RAD_BITS: i32 = 1143;

/// Raw bits of standard gravity, 9.80665 m/s², in 16.16.
pub const STANDARD_GRAVITY_BITS: i32 = 642689;

/// Pressure units per metre of height in the linear barometric model.
pub const PRESSURE_PER_METRE: i32 = 11;

/// One reading of the hardware, as plain values. `attitude` is the fused
/// attitude when the hardware provided one.
#[derive(Clone, Copy, Debug)]
pub struct RawReading {
    pub attitude: Option<YawPitchRoll>,
    pub gyro_x: i16,
    pub gyro_y: i16,
    pub gyro_z: i16,
    pub accel_x: i16,
    pub accel_y: i16,
    pub accel_z: i16,
    pub motors: [u16; 4],
    pub battery: u16,
    pub pressure: Frac,
}

/// The sensor state of the estimator.
pub struct Sensor {
    pub data: SensorData,
    pub calibrate_offset: SensorData,
    pub calibrated: bool,
    pub cache: SensorData,
    pub fir_cache: Vec<SensorData>,
    pub gravity_scale: Frac,
    pub pressure_zero_point: Frac,
    pub filter_times: i32,
}

/// A gyro reading in degrees per second as radians per second.
pub open spec fn rate_of(raw: int) -> int {
    mul_bits(raw * 0x1_0000, DEG_TO_RAD_BITS as int)
}

/// Height in metres from the pressure drop since calibration.
pub open spec fn height_of(zero_point: Frac, pressure: Frac) -> int {
    div_bits(wrap_i32(zero_point.bits - pressure.bits), PRESSURE_PER_METRE * 0x1_0000)
}

/// `alpha·new + (1 − alpha)·previous` on one fixed-point field.
pub open spec fn ewma(new: Frac, prev: Frac, alpha: Frac) -> int {
    wrap_i32(mul_bits(new.bits as int, alpha.bits as int) + mul_bits(prev.bits as int, wrap_i32(0x1_0000 - alpha.bits)))
}

/// The same on an integer field.
pub open spec fn ewma_int(new: i32, prev: i32, alpha: Frac) -> int {
    wrap_i32(scale_int(new, alpha) + scale_int(prev, Frac { bits: wrap_i32(0x1_0000 - alpha.bits) as i32 }))
}

pub open spec fn sum_of(s: Seq<int>) -> int
    decreases s.len(),
{
    if s.len() == 0 {
        0
    } else {
        sum_of(s.drop_last()) + s.last()
    }
}

/// The mean of a field over the calibration samples, as calibration
/// computes it: the wrapped sum divided by the number of samples.
pub open spec fn mean_bits(s: Seq<int>) -> int {
    div_bits(wrap_i32(sum_of(s)), CALIBRATION_SAMPLES * 0x1_0000)
}

/// The average of an integer field over the calibration samples: the
/// wrapped sum divided by the number of samples, rounded toward zero.
pub open spec fn int_average(s: Seq<int>) -> int {
    trunc_div(wrap_i32(sum_of(s)), CALIBRATION_SAMPLES as int)
}

/// A value with an offset taken off when `apply` holds.
pub open spec fn corrected(v: int, offset: int, apply: bool) -> int {
    if apply {
        wrap_i32(v - offset)
    } else {
        v
    }
}

/// One of the six fixed-point attitude and rate fields of a sample: radius
/// yaw, pitch, roll, then velocity yaw, pitch, roll.
pub open spec fn field(d: SensorData, k: int) -> int {
    if k == 0 {
        d.radius.yaw.bits as int
    } else if k == 1 {
        d.radius.pitch.bits as int
    } else if k == 2 {
        d.radius.roll.bits as int
    } else if k == 3 {
        d.velocity.yaw.bits as int
    } else if k == 4 {
        d.velocity.pitch.bits as int
    } else {
        d.velocity.roll.bits as int
    }
}

/// One acceleration component of a sample: x, y, then z.
pub open spec fn accel_field(d: SensorData, k: int) -> int {
    if k == 0 {
        d.acceleration.x as int
    } else if k == 1 {
        d.acceleration.y as int
    } else {
        d.acceleration.z as int
    }
}

pub open spec fn column(s: Seq<SensorData>, k: int) -> Seq<int> {
    s.map_values(|d: SensorData| field(d, k))
}

pub open spec fn accel_column(s: Seq<SensorData>, k: int) -> Seq<int> {
    s.map_values(|d: SensorData| accel_field(d, k))
}

/// `a·x + b·y + c·z` on one fixed-point field.
pub open spec fn weighted3(x: Frac, y: Frac, z: Frac, a: Frac, b: Frac, c: Frac) -> int {
    wrap_i32(mul_spec(x, a) + mul_spec(y, b) + mul_spec(z, c))
}

/// The same on an integer field.
pub open spec fn weighted3_int(x: i32, y: i32, z: i32, a: Frac, b: Frac, c: Frac) -> int {
    wrap_i32(scale_int(x, a) + scale_int(y, b) + scale_int(z, c))
}

/// The wrapped sum of one of the six attitude and rate fields.
fn column_sum(samples: &Vec<SensorData>, k: u8) -> (r: Frac)
    requires
        k < 6,
    ensures
        r.bits == wrap_i32(sum_of(column(samples@, k as int))),
{
    let mut acc = Frac::zero();
    let mut n: usize = 0;
    while n < samples.len()
        invariant
            n <= samples@.len(),
            k < 6,
            acc.bits == wrap_i32(sum_of(column(samples@.subrange(0, n as int), k as int))),
        decreases samples@.len() - n,
    {
        let d = samples[n];
        let v = if k == 0 {
            d.radius.yaw
        } else if k == 1 {
            d.radius.pitch
        } else if k == 2 {
            d.radius.roll
        } else if k == 3 {
            d.velocity.yaw
        } else if k == 4 {
            d.velocity.pitch
        } else {
            d.velocity.roll
        };
        proof {
            let pre = samples@.subrange(0, n as int);
            let post = samples@.subrange(0, n as int + 1);
            assert(column(post, k as int).drop_last() =~= column(pre, k as int));
            crate::control::lemma_wrap_i32_add(sum_of(column(pre, k as int)), v.bits as int);
        }
        acc = acc.add(v);
        n = n + 1;
    }
    proof {
        assert(samples@.subrange(0, samples@.len() as int) =~= samples@);
    }
    acc
}

/// The average of one acceleration component over the samples.
fn accel_column_average(samples: &Vec<SensorData>, k: u8) -> (r: i32)
    requires
        k < 3,
    ensures
        r == int_average(accel_column(samples@, k as int)),
{
    let mut acc: i32 = 0;
    let mut n: usize = 0;
    while n < samples.len()
        invariant
            n <= samples@.len(),
            k < 3,
            acc == wrap_i32(sum_of(accel_column(samples@.subrange(0, n as int), k as int))),
        decreases samples@.len() - n,
    {
        let d = samples[n];
        let v = if k == 0 {
            d.acceleration.x
        } else if k == 1 {
            d.acceleration.y
        } else {
            d.acceleration.z
        };
        proof {
            let pre = samples@.subrange(0, n as int);
            let post = samples@.subrange(0, n as int + 1);
            assert(accel_column(post, k as int).drop_last() =~= accel_column(pre, k as int));
            crate::control::lemma_wrap_i32_add(sum_of(accel_column(pre, k as int)), v as int);
        }
        acc = acc.wrapping_add(v);
        n = n + 1;
    }
    proof {
        assert(samples@.subrange(0, samples@.len() as int) =~= samples@);
    }
    div_toward_zero(acc, CALIBRATION_SAMPLES as i32)
}

/// Exponential smoothing with alpha one gives the new sample, with alpha
/// zero the previous smoothed value, on every fixed-point field and on every
/// integer field that fits sixteen bits (as raw accelerometer values do).
pub proof fn lemma_ewma_extremes(new: Frac, prev: Frac, x: i32, y: i32)
    ensures
        ewma(new, prev, Frac { bits: 0x1_0000 }) == new.bits,
        ewma(new, prev, Frac { bits: 0 }) == prev.bits,
        -0x8000 <= x < 0x8000 ==> ewma_int(x, y, Frac { bits: 0x1_0000 }) == x,
        -0x8000 <= y < 0x8000 ==> ewma_int(x, y, Frac { bits: 0 }) == y,
{
    assert((new.bits * 0x1_0000) / 0x1_0000 == new.bits) by (nonlinear_arith);
    assert((prev.bits * 0x1_0000) / 0x1_0000 == prev.bits) by (nonlinear_arith);
    assert(wrap_i32(0) == 0);
    assert(wrap_i32(0x1_0000 - 0x1_0000) == 0);
    assert(wrap_i32(0x1_0000 - 0) == 0x1_0000);
    assert((prev.bits * 0) / 0x1_0000 == 0);
    assert((new.bits * 0) / 0x1_0000 == 0);
    assert((0 * x) == 0 && (0 * y) == 0);
    crate::fixed_point::lemma_wrap_i32_in_range(new.bits as int);
    crate::fixed_point::lemma_wrap_i32_in_range(prev.bits as int);
    crate::fixed_point::lemma_wrap_i32_in_range(x as int);
    crate::fixed_point::lemma_wrap_i32_in_range(y as int);
    if -0x8000 <= x < 0x8000 {
        assert(-0x8000_0000 <= 0x1_0000 * x < 0x8000_0000) by (nonlinear_arith)
            requires
                -0x8000 <= x < 0x8000,
        ;
        assert((0x1_0000 * x) / 0x1_0000 == x) by (nonlinear_arith);
        crate::fixed_point::lemma_wrap_i32_in_range(0x1_0000 * x);
    }
    if -0x8000 <= y < 0x8000 {
        assert(-0x8000_0000 <= 0x1_0000 * y < 0x8000_0000) by (nonlinear_arith)
            requires
                -0x8000 <= y < 0x8000,
        ;
        assert((0x1_0000 * y) / 0x1_0000 == y) by (nonlinear_arith);
        crate::fixed_point::lemma_wrap_i32_in_range(0x1_0000 * y);
    }
}

proof fn lemma_sum_constant(s: Seq<int>, v: int)
    requires
        forall|k: int| 0 <= k < s.len() ==> s[k] == v,
    ensures
        sum_of(s) == s.len() * v,
    decreases s.len(),
{
    if s.len() > 0 {
        lemma_sum_constant(s.drop_last(), v);
        assert(sum_of(s) == (s.len() - 1) * v + v);
        assert((s.len() - 1) * v + v == s.len() * v) by (nonlinear_arith);
    }
}

/// Calibrating on twenty equal samples gives that sample's attitude, rate
/// and acceleration back exactly (when twenty times each fits `i32`).
pub proof fn lemma_calibration_of_constant(samples: Seq<SensorData>, c: SensorData, k: int)
    requires
        samples.len() == CALIBRATION_SAMPLES,
        forall|j: int| 0 <= j < samples.len() ==> #[trigger] samples[j] == c,
        0 <= k < 6,
        -0x8000_0000 <= 20 * field(c, k) < 0x8000_0000,
        k < 3 ==> -0x8000_0000 <= 20 * accel_field(c, k) < 0x8000_0000,
    ensures
        mean_bits(column(samples, k)) == field(c, k),
        k < 3 ==> int_average(accel_column(samples, k)) == accel_field(c, k),
{
    let v = field(c, k);
    lemma_sum_constant(column(samples, k), v);
    assert(wrap_i32(20 * v) == 20 * v);
    let n = 20 * v * 0x1_0000;
    assert(trunc_div(n, 20 * 0x1_0000int) == v) by {
        if v >= 0 {
            assert(n / (20 * 0x1_0000int) == v) by (nonlinear_arith)
                requires
                    n == 20 * v * 0x1_0000,
            ;
        } else {
            assert((-n) / (20 * 0x1_0000int) == -v) by (nonlinear_arith)
                requires
                    n == 20 * v * 0x1_0000,
            ;
        }
    }
    assert(wrap_i32(v) == v);
    if k < 3 {
        let a = accel_field(c, k);
        lemma_sum_constant(accel_column(samples, k), a);
        assert(wrap_i32(20 * a) == 20 * a);
        assert(trunc_div(20 * a, 20) == a) by {
            if a >= 0 {
                assert((20 * a) / 20 == a) by (nonlinear_arith);
            } else {
                assert((-(20 * a)) / 20 == -a) by (nonlinear_arith);
            }
        }
    }
}

/// `d` is the exponential smoothing of the new sample `n` against the
/// previous smoothed `c`: `alpha·new + (1 − alpha)·previous` field by field,
/// pressure with its own alpha; battery level and motor speeds are the new
/// sample's.
pub open spec fn smoothed(n: SensorData, c: SensorData, d: SensorData, alpha: Frac, pressure_alpha: Frac) -> bool {
    &&& d.height.bits == ewma(n.height, c.height, alpha)
    &&& d.v_z.bits == ewma(n.v_z, c.v_z, alpha)
    &&& d.pressure.bits == ewma(n.pressure, c.pressure, pressure_alpha)
    &&& d.velocity.yaw.bits == ewma(n.velocity.yaw, c.velocity.yaw, alpha)
    &&& d.velocity.pitch.bits == ewma(n.velocity.pitch, c.velocity.pitch, alpha)
    &&& d.velocity.roll.bits == ewma(n.velocity.roll, c.velocity.roll, alpha)
    &&& d.radius.yaw.bits == ewma(n.radius.yaw, c.radius.yaw, alpha)
    &&& d.radius.pitch.bits == ewma(n.radius.pitch, c.radius.pitch, alpha)
    &&& d.radius.roll.bits == ewma(n.radius.roll, c.radius.roll, alpha)
    &&& d.acceleration.x == ewma_int(n.acceleration.x, c.acceleration.x, alpha)
    &&& d.acceleration.y == ewma_int(n.acceleration.y, c.acceleration.y, alpha)
    &&& d.acceleration.z == ewma_int(n.acceleration.z, c.acceleration.z, alpha)
    &&& d.bat == n.bat
    &&& d.motor_speeds == n.motor_speeds
}

impl Sensor {
    pub fn new() -> (r: Sensor)
        ensures
            !r.calibrated,
            r.fir_cache@.len() == 0,
            r.gravity_scale.bits == 0,
            r.pressure_zero_point.bits == 0,
            r.filter_times == 0,
            r.data.is_zero(),
            r.cache.is_zero(),
            r.calibrate_offset.is_zero(),
    {
        Sensor {
            data: SensorData::new(),
            calibrate_offset: SensorData::new(),
            calibrated: false,
            cache: SensorData::new(),
            fir_cache: Vec::new(),
            gravity_scale: Frac::zero(),
            pressure_zero_point: Frac::zero(),
            filter_times: 0,
        }
    }

    /// Once calibrated, sets the height from the pressure drop since
    /// calibration; before that it does nothing.
    pub fn calculate_height(&mut self, _integration_constant: Frac)
        ensures
            old(self).calibrated ==> final(self).data.height.bits == height_of(
                old(self).pressure_zero_point,
                old(self).data.pressure,
            ),
            final(self).data == (SensorData { height: final(self).data.height, ..old(self).data }),
            !old(self).calibrated ==> final(self).data == old(self).data,
            final(self).calibrated == old(self).calibrated,
            final(self).pressure_zero_point == old(self).pressure_zero_point,
            final(self).cache == old(self).cache,
            final(self).calibrate_offset == old(self).calibrate_offset,
            final(self).fir_cache@ == old(self).fir_cache@,
            final(self).gravity_scale == old(self).gravity_scale,
            final(self).filter_times == old(self).filter_times,
    {
        if self.calibrated {
            let scale = Frac::from_int(PRESSURE_PER_METRE);
            self.data.height = self.pressure_zero_point.sub(self.data.pressure).div(scale);
        }
    }
}

impl Sensor {
    /// Takes in one hardware reading: the fused attitude when there is one,
    /// the gyro rates converted to radians per second, acceleration, motors,
    /// battery and pressure. Until calibrated, the pressure is also kept as
    /// the height-zero reference. With `cal_option` the calibration offsets
    /// are taken off attitude, rate and acceleration.
    pub fn get_values(&mut self, cal_option: bool, reading: &RawReading)
        ensures
            ({
                let att = match reading.attitude {
                    Some(a) => a,
                    None => old(self).data.radius,
                };
                let off = old(self).calibrate_offset;
                let d = final(self).data;
                &&& d.radius.yaw.bits == corrected(att.yaw.bits as int, off.radius.yaw.bits as int, cal_option)
                &&& d.radius.pitch.bits == corrected(att.pitch.bits as int, off.radius.pitch.bits as int, cal_option)
                &&& d.radius.roll.bits == corrected(att.roll.bits as int, off.radius.roll.bits as int, cal_option)
                &&& d.velocity.yaw.bits == corrected(rate_of(reading.gyro_z as int), off.velocity.yaw.bits as int, cal_option)
                &&& d.velocity.roll.bits == corrected(rate_of(reading.gyro_x as int), off.velocity.roll.bits as int, cal_option)
                &&& d.velocity.pitch.bits == corrected(
                    rate_of(crate::fixed_point::wrap_i16(-reading.gyro_y)),
                    off.velocity.pitch.bits as int,
                    cal_option,
                )
                &&& d.acceleration.x == corrected(reading.accel_x as int, off.acceleration.x as int, cal_option)
                &&& d.acceleration.y == corrected(reading.accel_y as int, off.acceleration.y as int, cal_option)
                &&& d.acceleration.z == corrected(reading.accel_z as int, off.acceleration.z as int, cal_option)
                &&& d.motor_speeds == reading.motors
                &&& d.bat == reading.battery
                &&& d.pressure == reading.pressure
                &&& d.height == old(self).data.height
                &&& d.v_z == old(self).data.v_z
            }),
            final(self).cache.pressure == (if old(self).calibrated {
                old(self).cache.pressure
            } else {
                reading.pressure
            }),
            final(self).cache == (SensorData { pressure: final(self).cache.pressure, ..old(self).cache }),
            final(self).calibrate_offset == old(self).calibrate_offset,
            final(self).calibrated == old(self).calibrated,
            final(self).pressure_zero_point == old(self).pressure_zero_point,
            final(self).gravity_scale == old(self).gravity_scale,
            final(self).fir_cache@ == old(self).fir_cache@,
    {
        match reading.attitude {
            Some(a) => {
                self.data.radius = a;
            },
            None => {},
        }
        let angle_scale = Frac::from_bits(DEG_TO_RAD_BITS);
        let neg_y: i16 = if reading.gyro_y == i16::MIN {
            i16::MIN
        } else {
            -reading.gyro_y
        };
        proof {
            if reading.gyro_y != i16::MIN {
                crate::fixed_point::lemma_wrap_i16_in_range(-reading.gyro_y);
            }
        }
        self.data.velocity.yaw = Frac::from_int(reading.gyro_z as i32).mul(angle_scale);
        self.data.velocity.roll = Frac::from_int(reading.gyro_x as i32).mul(angle_scale);
        self.data.velocity.pitch = Frac::from_int(neg_y as i32).mul(angle_scale);
        self.data.motor_speeds = reading.motors;
        self.data.acceleration.x = reading.accel_x as i32;
        self.data.acceleration.y = reading.accel_y as i32;
        self.data.acceleration.z = reading.accel_z as i32;
        self.data.bat = reading.battery;
        self.data.pressure = reading.pressure;
        if !self.calibrated {
            self.cache.pressure = self.data.pressure;
        }
        if cal_option {
            self.data.radius = self.data.radius.sub(self.calibrate_offset.radius);
            self.data.acceleration = self.data.acceleration.sub(self.calibrate_offset.acceleration);
            self.data.velocity = self.data.velocity.sub(self.calibrate_offset.velocity);
        }
    }

    /// The acceleration the accelerometer attitude is derived from: the
    /// reading with the calibration offset added back.
    pub fn fusion_acceleration(&self) -> (r: Accel)
        ensures
            r.x == int_add(self.data.acceleration.x, self.calibrate_offset.acceleration.x),
            r.y == int_add(self.data.acceleration.y, self.calibrate_offset.acceleration.y),
            r.z == int_add(self.data.acceleration.z, self.calibrate_offset.acceleration.z),
    {
        self.data.acceleration.add(self.calibrate_offset.acceleration)
    }

    /// Forms the calibration offsets from twenty raw samples: the mean
    /// attitude and rate, the average acceleration and a
    /// twentieth of the last pressure. Also derives the gravity scale from
    /// the vertical acceleration, takes the kept pressure as the height-zero
    /// reference, and marks the sensor calibrated.
    pub fn calibrate(&mut self, samples: &Vec<SensorData>)
        requires
            samples@.len() == CALIBRATION_SAMPLES,
        ensures
            ({
                let off = final(self).calibrate_offset;
                &&& off.radius.yaw.bits == mean_bits(column(samples@, 0))
                &&& off.radius.pitch.bits == mean_bits(column(samples@, 1))
                &&& off.radius.roll.bits == mean_bits(column(samples@, 2))
                &&& off.velocity.yaw.bits == mean_bits(column(samples@, 3))
                &&& off.velocity.pitch.bits == mean_bits(column(samples@, 4))
                &&& off.velocity.roll.bits == mean_bits(column(samples@, 5))
                &&& off.acceleration.x == int_average(accel_column(samples@, 0))
                &&& off.acceleration.y == int_average(accel_column(samples@, 1))
                &&& off.acceleration.z == int_average(accel_column(samples@, 2))
                &&& off.pressure.bits == div_bits(samples@.last().pressure.bits as int, CALIBRATION_SAMPLES * 0x1_0000)
                &&& off.height.bits == 0 && off.v_z.bits == 0 && off.bat == 0
                &&& off.motor_speeds@ == seq![0u16, 0u16, 0u16, 0u16]
                &&& final(self).gravity_scale.bits == div_bits(
                    wrap_i32(off.acceleration.z * 0x1_0000),
                    STANDARD_GRAVITY_BITS as int,
                )
            }),
            final(self).pressure_zero_point == old(self).cache.pressure,
            final(self).calibrated,
            final(self).data == old(self).data,
            final(self).cache == old(self).cache,
            final(self).fir_cache@ == old(self).fir_cache@,
    {
        let scale = Frac::from_int(CALIBRATION_SAMPLES as i32);
        let mut offset = SensorData::new();
        offset.radius.yaw = column_sum(samples, 0).div(scale);
        offset.radius.pitch = column_sum(samples, 1).div(scale);
        offset.radius.roll = column_sum(samples, 2).div(scale);
        offset.velocity.yaw = column_sum(samples, 3).div(scale);
        offset.velocity.pitch = column_sum(samples, 4).div(scale);
        offset.velocity.roll = column_sum(samples, 5).div(scale);
        offset.acceleration.x = accel_column_average(samples, 0);
        offset.acceleration.y = accel_column_average(samples, 1);
        offset.acceleration.z = accel_column_average(samples, 2);
        offset.pressure = samples[CALIBRATION_SAMPLES - 1].pressure.div(scale);
        self.pressure_zero_point = self.cache.pressure;
        self.gravity_scale = Frac::from_int(offset.acceleration.z).div(Frac::from_bits(STANDARD_GRAVITY_BITS));
        self.calibrate_offset = offset;
        self.calibrated = true;
    }

    /// Exponential smoothing: the sample becomes `alpha·new + (1 −
    /// alpha)·previous` field by field (pressure with its own alpha), and the
    /// result is kept as the next previous value. Battery level and motor
    /// speeds are the new sample's.
    pub fn filter_ewma(&mut self, alpha: Frac, pressure_alpha: Frac)
        ensures
            smoothed(old(self).data, old(self).cache, final(self).data, alpha, pressure_alpha),
            final(self).cache == final(self).data,
            final(self).calibrate_offset == old(self).calibrate_offset,
            final(self).calibrated == old(self).calibrated,
            final(self).pressure_zero_point == old(self).pressure_zero_point,
            final(self).fir_cache@ == old(self).fir_cache@,
            final(self).gravity_scale == old(self).gravity_scale,
            final(self).filter_times == old(self).filter_times,
    {
        let pressure = self.data.pressure;
        let cache_pressure = self.cache.pressure;
        let one = Frac::from_int(1);
        self.data = self.data.mul(alpha).add(self.cache.mul(one.sub(alpha)));
        self.data.pressure = pressure.mul(pressure_alpha).add(cache_pressure.mul(one.sub(pressure_alpha)));
        self.cache = self.data;
    }

    /// The estimator's step on a fresh reading, once calibrated: the reading
    /// joins the FIR history, is smoothed exponentially, and the height is
    /// taken from the smoothed pressure. Before calibration nothing changes.
    /// The result says whether the step ran.
    pub fn filter_step(&mut self, alpha: Frac, pressure_alpha: Frac) -> (r: bool)
        ensures
            r == old(self).calibrated,
            r ==> {
                &&& final(self).fir_cache@ == crate::control::enqueued(old(self).fir_cache@, old(self).data)
                &&& smoothed(old(self).data, old(self).cache, final(self).cache, alpha, pressure_alpha)
                &&& final(self).data.height.bits == height_of(old(self).pressure_zero_point, final(self).cache.pressure)
                &&& final(self).data == (SensorData { height: final(self).data.height, ..final(self).cache })
            },
            !r ==> {
                &&& final(self).data == old(self).data
                &&& final(self).cache == old(self).cache
                &&& final(self).fir_cache@ == old(self).fir_cache@
            },
            final(self).calibrate_offset == old(self).calibrate_offset,
            final(self).calibrated == old(self).calibrated,
            final(self).pressure_zero_point == old(self).pressure_zero_point,
            final(self).gravity_scale == old(self).gravity_scale,
            final(self).filter_times == old(self).filter_times,
    {
        if !self.calibrated {
            return false;
        }
        crate::control::enqueue(&mut self.fir_cache, self.data);
        self.filter_ewma(alpha, pressure_alpha);
        self.calculate_height(Frac::zero());
        true
    }

    /// Finite-impulse smoothing: the sample becomes the weighted sum of the
    /// three most recent cached samples, oldest first. Battery level and
    /// motor speeds are the oldest one's.
    pub fn filter_fir(&mut self, alpha: Frac, beta: Frac, gama: Frac)
        requires
            old(self).fir_cache@.len() >= 3,
        ensures
            ({
                let n = old(self).fir_cache@.len();
                let x = old(self).fir_cache@[n - 3];
                let y = old(self).fir_cache@[n - 2];
                let z = old(self).fir_cache@[n - 1];
                let d = final(self).data;
                &&& d.height.bits == weighted3(x.height, y.height, z.height, alpha, beta, gama)
                &&& d.v_z.bits == weighted3(x.v_z, y.v_z, z.v_z, alpha, beta, gama)
                &&& d.pressure.bits == weighted3(x.pressure, y.pressure, z.pressure, alpha, beta, gama)
                &&& d.velocity.yaw.bits == weighted3(x.velocity.yaw, y.velocity.yaw, z.velocity.yaw, alpha, beta, gama)
                &&& d.velocity.pitch.bits == weighted3(x.velocity.pitch, y.velocity.pitch, z.velocity.pitch, alpha, beta, gama)
                &&& d.velocity.roll.bits == weighted3(x.velocity.roll, y.velocity.roll, z.velocity.roll, alpha, beta, gama)
                &&& d.radius.yaw.bits == weighted3(x.radius.yaw, y.radius.yaw, z.radius.yaw, alpha, beta, gama)
                &&& d.radius.pitch.bits == weighted3(x.radius.pitch, y.radius.pitch, z.radius.pitch, alpha, beta, gama)
                &&& d.radius.roll.bits == weighted3(x.radius.roll, y.radius.roll, z.radius.roll, alpha, beta, gama)
                &&& d.acceleration.x == weighted3_int(x.acceleration.x, y.acceleration.x, z.acceleration.x, alpha, beta, gama)
                &&& d.acceleration.y == weighted3_int(x.acceleration.y, y.acceleration.y, z.acceleration.y, alpha, beta, gama)
                &&& d.acceleration.z == weighted3_int(x.acceleration.z, y.acceleration.z, z.acceleration.z, alpha, beta, gama)
                &&& d.bat == x.bat
                &&& d.motor_speeds == x.motor_speeds
            }),
            final(self).cache == old(self).cache,
            final(self).calibrate_offset == old(self).calibrate_offset,
            final(self).calibrated == old(self).calibrated,
            final(self).fir_cache@ == old(self).fir_cache@,
    {
        let n = self.fir_cache.len();
        let x = self.fir_cache[n - 3].mul(alpha);
        let y = self.fir_cache[n - 2].mul(beta);
        let z = self.fir_cache[n - 1].mul(gama);
        proof {
            crate::control::lemma_wrap_i32_add(x.height.bits + y.height.bits, z.height.bits as int);
            crate::control::lemma_wrap_i32_add(x.v_z.bits + y.v_z.bits, z.v_z.bits as int);
            crate::control::lemma_wrap_i32_add(x.pressure.bits + y.pressure.bits, z.pressure.bits as int);
            crate::control::lemma_wrap_i32_add(x.velocity.yaw.bits + y.velocity.yaw.bits, z.velocity.yaw.bits as int);
            crate::control::lemma_wrap_i32_add(x.velocity.pitch.bits + y.velocity.pitch.bits, z.velocity.pitch.bits as int);
            crate::control::lemma_wrap_i32_add(x.velocity.roll.bits + y.velocity.roll.bits, z.velocity.roll.bits as int);
            crate::control::lemma_wrap_i32_add(x.radius.yaw.bits + y.radius.yaw.bits, z.radius.yaw.bits as int);
            crate::control::lemma_wrap_i32_add(x.radius.pitch.bits + y.radius.pitch.bits, z.radius.pitch.bits as int);
            crate::control::lemma_wrap_i32_add(x.radius.roll.bits + y.radius.roll.bits, z.radius.roll.bits as int);
            crate::control::lemma_wrap_i32_add(x.acceleration.x + y.acceleration.x, z.acceleration.x as int);
            crate::control::lemma_wrap_i32_add(x.acceleration.y + y.acceleration.y, z.acceleration.y as int);
            crate::control::lemma_wrap_i32_add(x.acceleration.z + y.acceleration.z, z.acceleration.z as int);
        }
        self.data = x.add(y).add(z);
    }
}

} // verus!
