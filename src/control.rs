//! The controller: bounded error history, per-mode motor mixing and the
//! panic ramp-down.
use vstd::prelude::*;
use crate::fixed_point::{Frac, wrap_i32, wrap_i16, mul_bits, div_bits, floor_bits, trunc_div};
use crate::measurements::{ControllerInput, ControlRequest, sub_spec};
use crate::mode::{Mode, LoggerMode, transition_allowed};
use crate::liveness::{Liveliness, LivelinessError};
use crate::sensor::Sensor;

verus! {

/// How many entries a history keeps.
pub const HISTORY_LEN: usize = 10;

/// Lower bound of the throttle at which flight modes drive the motors.
pub const ARMING_THROTTLE: i16 = 1000;

/// Below this throttle the PID modes stop the motors.
pub const MIN_PID_THROTTLE: i16 = 50;

/// What the motors are decreased by at each step of the panic ramp-down.
pub const PANIC_DECREMENT: u16 = 2;

/// The upper bound the panic ramp-down keeps the motors under.
pub const PANIC_MOTOR_MAX: u16 = 400;

/// Steps of the panic ramp-down before the vehicle is declared safe.
pub const PANIC_STEPS: u16 = 200;

// ---------------------------------------------------------------------
// Bounded history
// ---------------------------------------------------------------------

/// A history after one push: the value is appended, and when the history
/// is full its oldest entry is dropped first.
pub open spec fn enqueued<T>(s: Seq<T>, value: T) -> Seq<T> {
    if s.len() < HISTORY_LEN {
        s.push(value)
    } else {
        s.subrange(1, s.len() as int).push(value)
    }
}

/// Pushes `value` onto a history of at most ten entries.
pub fn enqueue<T>(v: &mut Vec<T>, value: T)
    ensures
        final(v)@ == enqueued(old(v)@, value),
{
    if v.len() < HISTORY_LEN {
        v.push(value);
    } else {
        v.remove(0);
        v.push(value);
    }
}

/// A history after pushing each of `items` in turn.
pub open spec fn enqueued_all<T>(s: Seq<T>, items: Seq<T>) -> Seq<T>
    decreases items.len(),
{
    if items.len() == 0 {
        s
    } else {
        enqueued(enqueued_all(s, items.drop_last()), items.last())
    }
}

/// The last ten entries of a sequence (all of them when there are fewer).
pub open spec fn last_window<T>(s: Seq<T>) -> Seq<T> {
    if s.len() <= HISTORY_LEN {
        s
    } else {
        s.subrange(s.len() - HISTORY_LEN, s.len() as int)
    }
}

/// Pushing onto a history keeps exactly the last ten of all that was
/// pushed, oldest first; while no more than ten were pushed nothing is
/// dropped.
pub proof fn lemma_history_keeps_last_window<T>(s: Seq<T>, items: Seq<T>)
    requires
        s.len() <= HISTORY_LEN,
    ensures
        enqueued_all(s, items) == last_window(s + items),
        (s + items).len() <= HISTORY_LEN ==> enqueued_all(s, items) == s + items,
    decreases items.len(),
{
    if items.len() == 0 {
        assert(s + items =~= s);
    } else {
        let prev = items.drop_last();
        lemma_history_keeps_last_window(s, prev);
        let x = s + prev;
        let v = items.last();
        assert(s + items =~= x.push(v));
        assert(enqueued(last_window(x), v) =~= last_window(x.push(v)));
    }
}

// ---------------------------------------------------------------------
// Arithmetic used by the mixer
// ---------------------------------------------------------------------

pub open spec fn clamp(x: int, lo: int, hi: int) -> int {
    if x < lo {
        lo
    } else if x > hi {
        hi
    } else {
        x
    }
}

/// The integer part of a 16.16 value as the mixer's `i16`.
pub open spec fn int_part(bits: int) -> int {
    wrap_i16(floor_bits(bits))
}

/// The lift of a throttle: a tenth of it, rounded toward zero.
pub open spec fn lift_of(throttle: i16) -> int {
    trunc_div(throttle as int, 10)
}

/// One motor of a PID mode: the axis term limited to `[-band, band]`, plus
/// the base lift, limited to `[lo, hi]`.
pub open spec fn motor_value(term: int, band: int, base: int, lo: int, hi: int) -> int {
    clamp(clamp(term, -band, band) + base, lo, hi)
}

pub open spec fn bits_sum(s: Seq<int>) -> int
    decreases s.len(),
{
    if s.len() == 0 {
        0
    } else {
        bits_sum(s.drop_last()) + s.last()
    }
}

pub open spec fn pitch_history(cache: Seq<ControllerInput>) -> Seq<int> {
    cache.map_values(|c: ControllerInput| c.ypr.pitch.bits as int)
}

pub open spec fn roll_history(cache: Seq<ControllerInput>) -> Seq<int> {
    cache.map_values(|c: ControllerInput| c.ypr.roll.bits as int)
}

pub open spec fn height_history(cache: Seq<ControllerInput>) -> Seq<int> {
    cache.map_values(|c: ControllerInput| c.height.bits as int)
}

/// The current error minus the one before the latest history entry (zero
/// while the history holds fewer than two entries).
pub open spec fn derivative(cur: int, hist: Seq<int>) -> int {
    if hist.len() > 1 {
        wrap_i32(cur - hist[hist.len() - 2])
    } else {
        0
    }
}

/// The sum of the errors in the history window.
pub open spec fn window_sum(hist: Seq<int>) -> int {
    wrap_i32(bits_sum(hist))
}

/// `error·P + derivative·D + windowSum·I`, as the mixer's integer.
pub open spec fn pid_output(cur: int, hist: Seq<int>, p: Frac, i: Frac, d: Frac) -> int {
    int_part(
        wrap_i32(
            mul_bits(cur, p.bits as int) + mul_bits(derivative(cur, hist), d.bits as int) + mul_bits(
                window_sum(hist),
                i.bits as int,
            ),
        ),
    )
}

/// The proportional-only yaw term `error·P / divisor`.
pub open spec fn yaw_output(yaw: Frac, p: Frac, divisor: int) -> int {
    int_part(div_bits(mul_bits(yaw.bits as int, p.bits as int), divisor * 0x1_0000))
}

/// A commanded angle times a scale, as the mixer's integer.
pub open spec fn scaled(angle: Frac, scale: int) -> int {
    int_part(mul_bits(angle.bits as int, scale * 0x1_0000))
}

pub open spec fn zero_motors() -> Seq<int> {
    seq![0int, 0int, 0int, 0int]
}

/// Motors of a PID mode (front, right, back, left) from the pitch, roll and
/// yaw terms.
pub open spec fn axis_motors(pitch: int, roll: int, yaw: int, band: int, base: int, lo: int, hi: int) -> Seq<int> {
    seq![
        motor_value(wrap_i16(pitch + yaw), band, base, lo, hi),
        motor_value(-wrap_i16(roll + yaw), band, base, lo, hi),
        motor_value(-wrap_i16(pitch - yaw), band, base, lo, hi),
        motor_value(wrap_i16(roll - yaw), band, base, lo, hi),
    ]
}

/// Manual mode: the commanded attitude mixed straight into the lift.
pub open spec fn manual_motors(req: ControlRequest) -> Seq<int> {
    let lift = lift_of(req.throttle);
    let r = req.radius;
    seq![
        clamp(lift + scaled(Frac { bits: wrap_i32(r.pitch.bits + r.yaw.bits) as i32 }, 100), 200, 400),
        clamp(lift - scaled(Frac { bits: wrap_i32(r.roll.bits + r.yaw.bits) as i32 }, 100), 200, 400),
        clamp(lift - scaled(Frac { bits: wrap_i32(r.pitch.bits - r.yaw.bits) as i32 }, 100), 200, 400),
        clamp(lift + scaled(Frac { bits: wrap_i32(r.roll.bits - r.yaw.bits) as i32 }, 100), 200, 400),
    ]
}

/// Yaw-control mode: proportional yaw rate, commanded roll and pitch passed
/// through scaled by 80.
pub open spec fn yaw_control_motors(input: ControllerInput, p: Frac, req: ControlRequest) -> Seq<int> {
    axis_motors(
        scaled(req.radius.pitch, 80),
        scaled(req.radius.roll, 80),
        yaw_output(input.ypr.yaw, p, 8),
        200,
        lift_of(req.throttle),
        200,
        500,
    )
}

/// Full-control mode: PID on pitch and roll, proportional yaw.
pub open spec fn full_control_motors(
    input: ControllerInput,
    cache: Seq<ControllerInput>,
    p: Frac,
    i: Frac,
    d: Frac,
    req: ControlRequest,
) -> Seq<int> {
    if req.throttle < MIN_PID_THROTTLE {
        zero_motors()
    } else {
        axis_motors(
            pid_output(input.ypr.pitch.bits as int, pitch_history(cache), p, i, d),
            pid_output(input.ypr.roll.bits as int, roll_history(cache), p, i, d),
            yaw_output(input.ypr.yaw, p, 4),
            300,
            lift_of(req.throttle),
            180,
            800,
        )
    }
}

/// Height mode: full control plus a PID term on the height error, around a
/// fixed hover lift.
pub open spec fn height_motors(
    input: ControllerInput,
    cache: Seq<ControllerInput>,
    p: Frac,
    i: Frac,
    d: Frac,
    req: ControlRequest,
) -> Seq<int> {
    if req.throttle < MIN_PID_THROTTLE {
        zero_motors()
    } else {
        let h = pid_output(input.height.bits as int, height_history(cache), p, i, d);
        let pitch = pid_output(input.ypr.pitch.bits as int, pitch_history(cache), p, i, d);
        let roll = pid_output(input.ypr.roll.bits as int, roll_history(cache), p, i, d);
        height_axis_motors(pitch, roll, h, yaw_output(input.ypr.yaw, p, 8))
    }
}

/// Height mode's motors from the pitch, roll, height and yaw terms, around
/// the hover lift of 300.
pub open spec fn height_axis_motors(pitch: int, roll: int, h: int, yaw: int) -> Seq<int> {
    seq![
        motor_value(wrap_i16(wrap_i16(pitch + yaw) + h), 100, 300, 150, 600),
        motor_value(-wrap_i16(wrap_i16(roll + yaw) - h), 100, 300, 150, 600),
        motor_value(-wrap_i16(wrap_i16(pitch - yaw) - h), 100, 300, 150, 600),
        motor_value(wrap_i16(wrap_i16(h + roll) - yaw), 100, 300, 150, 600),
    ]
}

/// Whether the arming guard silences the motors.
pub open spec fn disarmed(mode: Mode, throttle: i16) -> bool {
    throttle < ARMING_THROTTLE && mode != Mode::Safe && mode != Mode::Panic && mode != Mode::Calibrate
}

/// The four motor values (front, right, back, left) for a mode.
pub open spec fn mix(
    mode: Mode,
    input: ControllerInput,
    cache: Seq<ControllerInput>,
    p: Frac,
    i: Frac,
    d: Frac,
    req: ControlRequest,
) -> Seq<int> {
    if disarmed(mode, req.throttle) {
        zero_motors()
    } else {
        match mode {
            Mode::FullControl => full_control_motors(input, cache, p, i, d, req),
            Mode::Manual => manual_motors(req),
            Mode::YawControl => yaw_control_motors(input, p, req),
            Mode::Height => height_motors(input, cache, p, i, d, req),
            _ => zero_motors(),
        }
    }
}

pub open spec fn motors_are(r: [u16; 4], m: Seq<int>) -> bool {
    m.len() == 4 && forall|k: int| 0 <= k < 4 ==> r@[k] as int == m[k]
}

// ---------------------------------------------------------------------
// Proofs about wrapping
// ---------------------------------------------------------------------

pub proof fn lemma_wrap_i32_range(x: int)
    ensures
        i32::MIN <= wrap_i32(x) <= i32::MAX,
        (wrap_i32(x) - x) % 0x1_0000_0000 == 0,
{
    vstd::arithmetic::div_mod::lemma_fundamental_div_mod(x, 0x1_0000_0000);
    let q = x / 0x1_0000_0000;
    if x % 0x1_0000_0000 > 0x7fff_ffff {
        vstd::arithmetic::div_mod::lemma_mod_multiples_basic(-q - 1, 0x1_0000_0000);
        assert(wrap_i32(x) - x == (-q - 1) * 0x1_0000_0000);
    } else {
        vstd::arithmetic::div_mod::lemma_mod_multiples_basic(-q, 0x1_0000_0000);
        assert(wrap_i32(x) - x == (-q) * 0x1_0000_0000);
    }
}

proof fn lemma_wrap_i32_congruent(a: int, b: int)
    requires
        (a - b) % 0x1_0000_0000 == 0,
    ensures
        wrap_i32(a) == wrap_i32(b),
{
    vstd::arithmetic::div_mod::lemma_fundamental_div_mod(a - b, 0x1_0000_0000);
    let k = (a - b) / 0x1_0000_0000;
    assert(a == b + k * 0x1_0000_0000);
    vstd::arithmetic::div_mod::lemma_mod_multiples_vanish(k, b, 0x1_0000_0000);
}

/// Wrapping after each addition is the same as wrapping once.
pub proof fn lemma_wrap_i32_add(a: int, b: int)
    ensures
        wrap_i32(wrap_i32(a) + b) == wrap_i32(a + b),
        wrap_i32(a + wrap_i32(b)) == wrap_i32(a + b),
{
    lemma_wrap_i32_range(a);
    lemma_wrap_i32_range(b);
    lemma_wrap_i32_congruent(wrap_i32(a) + b, a + b);
    lemma_wrap_i32_congruent(a + wrap_i32(b), a + b);
}

// ---------------------------------------------------------------------
// Executable mixing
// ---------------------------------------------------------------------

fn clamp_i32(x: i32, lo: i32, hi: i32) -> (r: i32)
    requires
        lo <= hi,
    ensures
        r == clamp(x as int, lo as int, hi as int),
{
    if x < lo {
        lo
    } else if x > hi {
        hi
    } else {
        x
    }
}

/// One motor value of a PID mode.
fn motor_cmd(term: i32, band: i32, base: i32, lo: i32, hi: i32) -> (r: u16)
    requires
        0 <= band <= 1000,
        -10000 <= base <= 10000,
        0 <= lo <= hi <= 1000,
    ensures
        r as int == motor_value(term as int, band as int, base as int, lo as int, hi as int),
{
    let t = clamp_i32(term, -band, band);
    clamp_i32(t + base, lo, hi) as u16
}

fn lift(throttle: i16) -> (r: i32)
    ensures
        r == lift_of(throttle),
        -3277 <= r <= 3277,
{
    crate::measurements::div_toward_zero(throttle as i32, 10)
}

/// The four PID-mode motor values from the axis terms.
fn axis_cmds(pitch: i16, roll: i16, yaw: i16, band: i32, base: i32, lo: i32, hi: i32) -> (r: [u16; 4])
    requires
        0 <= band <= 1000,
        -10000 <= base <= 10000,
        0 <= lo <= hi <= 1000,
    ensures
        motors_are(r, axis_motors(pitch as int, roll as int, yaw as int, band as int, base as int, lo as int, hi as int)),
{
    let front = motor_cmd(add16(pitch, yaw) as i32, band, base, lo, hi);
    let right = motor_cmd(-(add16(roll, yaw) as i32), band, base, lo, hi);
    let back = motor_cmd(-(sub16(pitch, yaw) as i32), band, base, lo, hi);
    let left = motor_cmd(sub16(roll, yaw) as i32, band, base, lo, hi);
    [front, right, back, left]
}

/// `wrap_i16` agrees with the wrapping operations of `i16` on sums of two
/// `i16` values.
pub proof fn lemma_wrap_i16_matches(x: int)
    requires
        2 * (i16::MIN as int) <= x <= 2 * (i16::MAX as int) + 1,
    ensures
        wrap_i16(x) == (if x > i16::MAX { x - 0x1_0000 } else if x < i16::MIN { x + 0x1_0000 } else { x }),
{
}

/// The integer part of a fixed-point value.
fn int_part_of(x: Frac) -> (r: i16)
    ensures
        r as int == int_part(x.bits as int),
{
    x.to_i16()
}

/// The sums of the pitch, roll and height errors over the history.
fn window_sums(cache: &Vec<ControllerInput>) -> (r: (Frac, Frac, Frac))
    ensures
        r.0.bits == window_sum(pitch_history(cache@)),
        r.1.bits == window_sum(roll_history(cache@)),
        r.2.bits == window_sum(height_history(cache@)),
{
    let mut pitch = Frac::zero();
    let mut roll = Frac::zero();
    let mut height = Frac::zero();
    let mut k: usize = 0;
    while k < cache.len()
        invariant
            k <= cache@.len(),
            pitch.bits == window_sum(pitch_history(cache@.subrange(0, k as int))),
            roll.bits == window_sum(roll_history(cache@.subrange(0, k as int))),
            height.bits == window_sum(height_history(cache@.subrange(0, k as int))),
        decreases cache@.len() - k,
    {
        let c = cache[k];
        let ghost pre = cache@.subrange(0, k as int);
        let ghost post = cache@.subrange(0, k as int + 1);
        proof {
            assert(post.drop_last() =~= pre);
            assert(pitch_history(post).drop_last() =~= pitch_history(pre));
            assert(roll_history(post).drop_last() =~= roll_history(pre));
            assert(height_history(post).drop_last() =~= height_history(pre));
            lemma_wrap_i32_add(bits_sum(pitch_history(pre)), c.ypr.pitch.bits as int);
            lemma_wrap_i32_add(bits_sum(roll_history(pre)), c.ypr.roll.bits as int);
            lemma_wrap_i32_add(bits_sum(height_history(pre)), c.height.bits as int);
        }
        pitch = pitch.add(c.ypr.pitch);
        roll = roll.add(c.ypr.roll);
        height = height.add(c.height);
        k = k + 1;
    }
    proof {
        assert(cache@.subrange(0, cache@.len() as int) =~= cache@);
    }
    (pitch, roll, height)
}

/// `error·P + derivative·D + sum·I` as an integer.
fn pid(cur: Frac, derivative: Frac, sum: Frac, p: Frac, i: Frac, d: Frac) -> (r: i16)
    ensures
        r as int == int_part(
            wrap_i32(
                mul_bits(cur.bits as int, p.bits as int) + mul_bits(derivative.bits as int, d.bits as int)
                    + mul_bits(sum.bits as int, i.bits as int),
            ),
        ),
{
    let a = cur.mul(p);
    let b = derivative.mul(d);
    let c = sum.mul(i);
    let t = a.add(b).add(c);
    proof {
        lemma_wrap_i32_add(a.bits + b.bits, c.bits as int);
    }
    int_part_of(t)
}

/// The derivative term of an error against the history.
fn derivative_of(cur: Frac, hist: &Vec<ControllerInput>, which: u8) -> (r: Frac)
    requires
        which < 3,
    ensures
        which == 0 ==> r.bits == derivative(cur.bits as int, pitch_history(hist@)),
        which == 1 ==> r.bits == derivative(cur.bits as int, roll_history(hist@)),
        which == 2 ==> r.bits == derivative(cur.bits as int, height_history(hist@)),
{
    let n = hist.len();
    if n > 1 {
        let prev = hist[n - 2];
        if which == 0 {
            cur.sub(prev.ypr.pitch)
        } else if which == 1 {
            cur.sub(prev.ypr.roll)
        } else {
            cur.sub(prev.height)
        }
    } else {
        Frac::zero()
    }
}

/// The proportional yaw term `error·P / divisor`.
fn yaw_term(yaw: Frac, p: Frac, divisor: i32) -> (r: i16)
    requires
        1 <= divisor <= 16,
    ensures
        r as int == yaw_output(yaw, p, divisor as int),
{
    let div = Frac::from_int(divisor);
    int_part_of(yaw.mul(p).div(div))
}

/// A commanded angle times an integer scale.
fn scaled_term(angle: Frac, scale: i32) -> (r: i16)
    requires
        1 <= scale <= 100,
    ensures
        r as int == scaled(angle, scale as int),
{
    int_part_of(angle.mul(Frac::from_int(scale)))
}

/// Yaw-rate deadzone, in tenths of a radian per second.
pub const YAW_DEADZONE_TENTHS: i32 = 6;

/// Pitch and roll deadzone, in tenths of a radian (none).
pub const PITCH_ROLL_DEADZONE_TENTHS: i32 = 0;

/// Height deadzone, in tenths of a metre.
pub const HEIGHT_DEADZONE_TENTHS: i32 = 1;

/// Battery level (in centivolts) at or below which the vehicle panics; zero
/// means no reading.
pub const MIN_BATTERY: u16 = 910;

/// Tick rate and gains of the raw estimator.
pub const RAW_FREQUENCY: u64 = 350;
pub const RAW_P: i32 = 100;
pub const RAW_I: i32 = 10;
pub const RAW_D: i32 = 2300;

/// A value strictly inside `(-tenths/10, tenths/10)` becomes zero.
pub open spec fn deadzoned(v: int, tenths: int) -> int {
    if v * 10 < tenths * 0x1_0000 && v * 10 > -tenths * 0x1_0000 {
        0
    } else {
        v
    }
}

fn deadzone(v: Frac, tenths: i32) -> (r: Frac)
    requires
        0 <= tenths <= 100,
    ensures
        r.bits == deadzoned(v.bits as int, tenths as int),
{
    let x = (v.bits as i64) * 10;
    let bound = (tenths as i64) * 65536;
    if x < bound && x > -bound {
        Frac::zero()
    } else {
        v
    }
}

/// One step of the panic ramp-down on a motor: decreased by two (stopping at
/// zero) and kept under 400.
pub open spec fn ramp_value(m: int) -> int {
    clamp(if m >= PANIC_DECREMENT { m - PANIC_DECREMENT } else { 0 }, 0, PANIC_MOTOR_MAX as int)
}

/// A motor after `k` ramp-down steps.
pub open spec fn ramped(m: int, k: nat) -> int
    decreases k,
{
    if k == 0 {
        m
    } else {
        ramp_value(ramped(m, (k - 1) as nat))
    }
}

/// One ramp-down step on the four live motor values.
pub fn panic_ramp_step(motors: [u16; 4]) -> (r: [u16; 4])
    ensures
        forall|k: int| 0 <= k < 4 ==> r@[k] as int == ramp_value(motors@[k] as int),
{
    let mut r = motors;
    let mut k: usize = 0;
    while k < 4
        invariant
            k <= 4,
            forall|j: int| 0 <= j < k ==> r@[j] as int == ramp_value(motors@[j] as int),
            forall|j: int| k <= j < 4 ==> r@[j] == motors@[j],
        decreases 4 - k,
    {
        let m = motors[k];
        let lowered = if m >= PANIC_DECREMENT { m - PANIC_DECREMENT } else { 0 };
        r[k] = if lowered > PANIC_MOTOR_MAX { PANIC_MOTOR_MAX } else { lowered };
        k = k + 1;
    }
    r
}

/// A motor starting at or under 400 loses two per ramp-down step until it
/// reaches zero, and never goes below zero.
pub proof fn lemma_ramp_down(m: int, k: nat)
    requires
        0 <= m <= PANIC_MOTOR_MAX,
    ensures
        ramped(m, k) == (if m - 2 * k > 0 { m - 2 * k } else { 0 }),
        ramped(m, k) >= 0,
    decreases k,
{
    if k > 0 {
        lemma_ramp_down(m, (k - 1) as nat);
    }
}

/// Within the ramp-down's step budget every motor that starts at or under
/// 400 reaches zero.
pub proof fn lemma_panic_ramp_reaches_zero(m: int)
    requires
        0 <= m <= PANIC_MOTOR_MAX,
    ensures
        ramped(m, PANIC_STEPS as nat) == 0,
        forall|k: nat| k <= PANIC_STEPS ==> #[trigger] ramped(m, k) >= 0,
{
    lemma_ramp_down(m, PANIC_STEPS as nat);
    assert forall|k: nat| k <= PANIC_STEPS implies #[trigger] ramped(m, k) >= 0 by {
        lemma_ramp_down(m, k);
    }
}

/// With all gains zero, full control puts every motor at the lift clamped
/// to `[180, 800]`, whatever the error and history (above the arming
/// throttle, below which every flight mode is silenced).
pub proof fn lemma_full_control_zero_gains(input: ControllerInput, cache: Seq<ControllerInput>, req: ControlRequest)
    requires
        req.throttle >= ARMING_THROTTLE,
    ensures
        ({
            let z = Frac { bits: 0 };
            let c = clamp(lift_of(req.throttle), 180, 800);
            mix(Mode::FullControl, input, cache, z, z, z, req) == seq![c, c, c, c]
        }),
{
    let z = Frac { bits: 0 };
    let c = clamp(lift_of(req.throttle), 180, 800);
    assert(trunc_div(0, 4 * 0x1_0000int) == 0);
    assert(wrap_i16(0) == 0);
    let m = mix(Mode::FullControl, input, cache, z, z, z, req);
    assert(m =~= seq![c, c, c, c]);
}

/// With a level command (zero pitch, roll and yaw), manual mode puts every
/// motor at the lift clamped to `[200, 400]` (above the arming throttle).
pub proof fn lemma_manual_level_command(req: ControlRequest)
    requires
        req.throttle >= ARMING_THROTTLE,
        req.radius.is_zero(),
    ensures
        ({
            let z = Frac { bits: 0 };
            let c = clamp(lift_of(req.throttle), 200, 400);
            forall|input: ControllerInput, cache: Seq<ControllerInput>, p: Frac, i: Frac, d: Frac|
                #[trigger] mix(Mode::Manual, input, cache, p, i, d, req) == seq![c, c, c, c]
        }),
{
    let c = clamp(lift_of(req.throttle), 200, 400);
    assert(wrap_i16(0) == 0);
    assert(manual_motors(req) =~= seq![c, c, c, c]);
}

/// A message from the ground station, as the controller acts on it.
#[derive(Clone, Copy, Debug)]
pub enum Command {
    /// A mode change; `acknowledged` says whether echoing it back succeeded.
    ChangeMode { mode: Mode, acknowledged: bool },
    ControlInput { request: ControlRequest },
    TuneParameter { parameter: char, value: Frac },
    LoggerMode { logger: LoggerMode },
    /// A message the vehicle has nothing to do with.
    Ignored,
    /// A message only the vehicle itself may send.
    Unexpected,
}

/// What is left for the caller to do after a command.
#[derive(Clone, Copy, Debug, PartialEq, Eq, Structural)]
pub enum Reply {
    Nothing,
    /// The raw estimator was switched on: run the loop at this rate.
    SetTickFrequency { frequency: u64 },
    /// The tuning request named no known gain.
    UnknownParameter,
    EnableLogging,
    DisableLogging,
    /// Send the flight log (only granted in Safe mode).
    Download,
    /// A protocol violation: stop.
    Abort,
}

/// The controller's error, outputs, history and estimator settings agree.
pub open spec fn same_state(a: Controller, b: Controller) -> bool {
    &&& a.input == b.input
    &&& a.output == b.output
    &&& a.cache@ == b.cache@
    &&& a.raw_option == b.raw_option
    &&& a.frequency == b.frequency
}

pub open spec fn same_gains(a: Controller, b: Controller) -> bool {
    a.p == b.p && a.i == b.i && a.d == b.d
}

/// Nothing of the controller changed.
pub open spec fn unchanged(a: Controller, b: Controller) -> bool {
    same_state(a, b) && same_gains(a, b) && a.mode == b.mode
}

/// The new tick rate a mode request calls for: the raw estimator's, when
/// an acknowledged request for Raw switches it on.
pub open spec fn mode_request_result(mode: Mode, acknowledged: bool) -> Option<u64> {
    if acknowledged && mode == Mode::Raw {
        Some(RAW_FREQUENCY)
    } else {
        None
    }
}

/// The controller `new` after a mode request on `old`. A request whose echo
/// failed forces Panic. An acknowledged request for Raw switches on the raw
/// estimator with its tick rate and gains and keeps the mode. Any other
/// acknowledged request is applied if the transition table allows it.
/// Nothing else changes.
pub open spec fn mode_requested(old: Controller, new: Controller, mode: Mode, acknowledged: bool) -> bool {
    if !acknowledged {
        new.mode == Mode::Panic && same_state(old, new) && same_gains(old, new)
    } else if mode == Mode::Raw {
        &&& new.raw_option
        &&& new.frequency == RAW_FREQUENCY
        &&& new.mode == old.mode
        &&& new.p.bits == RAW_P * 0x1_0000
        &&& new.i.bits == RAW_I * 0x1_0000
        &&& new.d.bits == RAW_D * 0x1_0000
        &&& new.input == old.input
        &&& new.output == old.output
        &&& new.cache@ == old.cache@
    } else {
        &&& new.mode == (if transition_allowed(old.mode, mode) {
            mode
        } else {
            old.mode
        })
        &&& same_state(old, new)
        &&& same_gains(old, new)
    }
}

/// The controller `new` after tuning `parameter` of `old`: the named gain
/// takes the value; nothing else changes.
pub open spec fn parameter_tuned(old: Controller, new: Controller, parameter: char, value: Frac) -> bool {
    &&& new.p == (if parameter == 'p' { value } else { old.p })
    &&& new.i == (if parameter == 'i' { value } else { old.i })
    &&& new.d == (if parameter == 'd' { value } else { old.d })
    &&& new.mode == old.mode
    &&& same_state(old, new)
}

/// The flight controller: gains, the current error, its bounded history and
/// the flight mode.
pub struct Controller {
    pub p: Frac,
    pub i: Frac,
    pub d: Frac,
    pub input: ControllerInput,
    pub output: [u16; 4],
    pub cache: Vec<ControllerInput>,
    pub mode: Mode,
    pub raw_option: bool,
    pub frequency: u64,
}

impl Controller {
    pub fn new() -> (r: Controller)
        ensures
            r.p.bits == 0 && r.i.bits == 0 && r.d.bits == 0,
            r.input.ypr.is_zero() && r.input.height.bits == 0,
            r.output@ == seq![0u16, 0u16, 0u16, 0u16],
            r.cache@.len() == 0,
            r.mode == Mode::Safe,
            !r.raw_option,
            r.frequency == 150,
    {
        Controller {
            p: Frac::zero(),
            i: Frac::zero(),
            d: Frac::zero(),
            input: ControllerInput::new(),
            output: [0, 0, 0, 0],
            cache: Vec::new(),
            mode: Mode::Safe,
            raw_option: false,
            frequency: 150,
        }
    }

    pub fn set_parameters(&mut self, p: Frac, i: Frac, d: Frac)
        ensures
            final(self).p == p,
            final(self).i == i,
            final(self).d == d,
            final(self).input == old(self).input,
            final(self).output == old(self).output,
            final(self).cache@ == old(self).cache@,
            final(self).mode == old(self).mode,
            final(self).raw_option == old(self).raw_option,
            final(self).frequency == old(self).frequency,
    {
        self.p = p;
        self.i = i;
        self.d = d;
    }

    /// The error the mixer acts on: commanded minus estimated attitude,
    /// except that yaw compares the commanded yaw rate with the measured
    /// one, and the height error is `throttle/400` minus the estimated
    /// height; each then passes its deadzone.
    pub fn calculate_difference(&mut self, sensor: &Sensor, request: &ControlRequest)
        ensures
            final(self).input.ypr.yaw.bits == deadzoned(
                sub_spec(request.radius.yaw, sensor.data.velocity.yaw),
                YAW_DEADZONE_TENTHS as int,
            ),
            final(self).input.ypr.pitch.bits == deadzoned(
                sub_spec(request.radius.pitch, sensor.data.radius.pitch),
                PITCH_ROLL_DEADZONE_TENTHS as int,
            ),
            final(self).input.ypr.roll.bits == deadzoned(
                sub_spec(request.radius.roll, sensor.data.radius.roll),
                PITCH_ROLL_DEADZONE_TENTHS as int,
            ),
            final(self).input.height.bits == deadzoned(
                wrap_i32(trunc_div(request.throttle as int, 400) * 0x1_0000 - sensor.data.height.bits),
                HEIGHT_DEADZONE_TENTHS as int,
            ),
            final(self).mode == old(self).mode,
            final(self).cache@ == old(self).cache@,
            final(self).p == old(self).p && final(self).i == old(self).i && final(self).d == old(self).d,
            final(self).raw_option == old(self).raw_option,
            final(self).frequency == old(self).frequency,
            final(self).output == old(self).output,
    {
        let mut ypr = request.radius.sub(sensor.data.radius);
        ypr.yaw = request.radius.yaw.sub(sensor.data.velocity.yaw);
        let target = crate::measurements::div_toward_zero(request.throttle as i32, 400);
        let height = Frac::from_int(target).sub(sensor.data.height);
        self.input.ypr.yaw = deadzone(ypr.yaw, YAW_DEADZONE_TENTHS);
        self.input.ypr.pitch = deadzone(ypr.pitch, PITCH_ROLL_DEADZONE_TENTHS);
        self.input.ypr.roll = deadzone(ypr.roll, PITCH_ROLL_DEADZONE_TENTHS);
        self.input.height = deadzone(height, HEIGHT_DEADZONE_TENTHS);
    }

    /// A reported link loss forces Panic unless the vehicle is in Safe mode.
    pub fn apply_link_status(&mut self, status: Option<LivelinessError>)
        ensures
            final(self).mode == (if status is Some && old(self).mode != Mode::Safe {
                Mode::Panic
            } else {
                old(self).mode
            }),
            same_state(*old(self), *final(self)),
            same_gains(*old(self), *final(self)),
    {
        if status.is_some() && self.mode != Mode::Safe {
            self.mode = Mode::Panic;
        }
    }

    /// A low battery reading (non-zero and at most the minimum) forces
    /// Panic; the result says whether it did, so the change can be reported.
    pub fn check_battery(&mut self, bat: u16) -> (r: bool)
        ensures
            r == (bat != 0 && bat <= MIN_BATTERY),
            final(self).mode == (if r { Mode::Panic } else { old(self).mode }),
            same_state(*old(self), *final(self)),
            same_gains(*old(self), *final(self)),
    {
        if bat != 0 && bat <= MIN_BATTERY {
            self.mode = Mode::Panic;
            true
        } else {
            false
        }
    }

    /// A mode request. When echoing it back failed the vehicle panics. A
    /// request for Raw switches on the raw estimator, its tick rate and
    /// gains, and leaves the mode as it is. Any other request is applied
    /// when the state machine allows it and ignored otherwise.
    pub fn request_mode(&mut self, mode: Mode, acknowledged: bool) -> (r: Option<u64>)
        ensures
            r == mode_request_result(mode, acknowledged),
            mode_requested(*old(self), *final(self), mode, acknowledged),
    {
        if !acknowledged {
            self.mode = Mode::Panic;
            return None;
        }
        if mode == Mode::Raw {
            self.raw_option = true;
            self.frequency = RAW_FREQUENCY;
            self.set_parameters(Frac::from_int(RAW_P), Frac::from_int(RAW_I), Frac::from_int(RAW_D));
            Some(RAW_FREQUENCY)
        } else {
            if crate::state_machine::check_state(self, mode) {
                self.mode = mode;
            }
            None
        }
    }

    /// Sets the gain that `parameter` names (`p`, `i` or `d`); the result
    /// says whether it named one.
    pub fn tune_parameter(&mut self, parameter: char, value: Frac) -> (r: bool)
        ensures
            r == (parameter == 'p' || parameter == 'i' || parameter == 'd'),
            parameter_tuned(*old(self), *final(self), parameter, value),
    {
        if parameter == 'p' {
            self.p = value;
            true
        } else if parameter == 'i' {
            self.i = value;
            true
        } else if parameter == 'd' {
            self.d = value;
            true
        } else {
            false
        }
    }

    /// One step of the panic ramp-down, given the live motor values and the
    /// number of steps taken. Outside Panic it does nothing. Within the step
    /// budget it returns the lowered motor values; once the budget is spent
    /// the vehicle is Safe and nothing is returned.
    pub fn panic_ramp(&mut self, steps_done: u16, live: [u16; 4]) -> (r: Option<[u16; 4]>)
        ensures
            old(self).mode != Mode::Panic ==> r is None && final(self).mode == old(self).mode,
            old(self).mode == Mode::Panic && steps_done < PANIC_STEPS ==> {
                &&& r is Some
                &&& forall|k: int| 0 <= k < 4 ==> r->Some_0@[k] as int == ramp_value(live@[k] as int)
                &&& final(self).mode == Mode::Panic
            },
            old(self).mode == Mode::Panic && steps_done >= PANIC_STEPS ==> r is None && final(self).mode
                == Mode::Safe,
            same_state(*old(self), *final(self)),
            same_gains(*old(self), *final(self)),
    {
        if self.mode != Mode::Panic {
            None
        } else if steps_done < PANIC_STEPS {
            Some(panic_ramp_step(live))
        } else {
            self.mode = Mode::Safe;
            None
        }
    }

    /// Applies one command from the ground station to the controller, the
    /// operator's request and the liveness monitor, and says what is left
    /// for the caller to do.
    pub fn handle_command(&mut self, liveness: &mut Liveliness, request: &mut ControlRequest, command: Command) -> (r: Reply)
        ensures
            match command {
                Command::ChangeMode { mode, acknowledged } => {
                    &&& r == (if acknowledged && mode == Mode::Raw {
                        Reply::SetTickFrequency { frequency: RAW_FREQUENCY }
                    } else {
                        Reply::Nothing
                    })
                    &&& mode_requested(*old(self), *final(self), mode, acknowledged)
                    &&& *final(request) == *old(request)
                    &&& *final(liveness) == *old(liveness)
                },
                Command::ControlInput { request: new_request } => {
                    &&& r == Reply::Nothing
                    &&& unchanged(*old(self), *final(self))
                    &&& *final(request) == new_request
                    &&& final(liveness).seen_alive()
                    &&& final(liveness).last_alive() == old(liveness).current()
                    &&& final(liveness).current() == old(liveness).current()
                    &&& final(liveness).max_wait() == old(liveness).max_wait()
                },
                Command::TuneParameter { parameter, value } => {
                    &&& r == (if parameter == 'p' || parameter == 'i' || parameter == 'd' {
                        Reply::Nothing
                    } else {
                        Reply::UnknownParameter
                    })
                    &&& parameter_tuned(*old(self), *final(self), parameter, value)
                    &&& *final(request) == *old(request)
                    &&& *final(liveness) == *old(liveness)
                },
                Command::LoggerMode { logger } => {
                    &&& r == match logger {
                        LoggerMode::Enabled => Reply::EnableLogging,
                        LoggerMode::Disabled => Reply::DisableLogging,
                        LoggerMode::Download => if old(self).mode == Mode::Safe {
                            Reply::Download
                        } else {
                            Reply::Nothing
                        },
                    }
                    &&& unchanged(*old(self), *final(self))
                    &&& *final(request) == *old(request)
                    &&& *final(liveness) == *old(liveness)
                },
                Command::Ignored => {
                    &&& r == Reply::Nothing
                    &&& unchanged(*old(self), *final(self))
                    &&& *final(request) == *old(request)
                    &&& *final(liveness) == *old(liveness)
                },
                Command::Unexpected => {
                    &&& r == Reply::Abort
                    &&& unchanged(*old(self), *final(self))
                    &&& *final(request) == *old(request)
                    &&& *final(liveness) == *old(liveness)
                },
            },
    {
        match command {
            Command::ChangeMode { mode, acknowledged } => {
                match self.request_mode(mode, acknowledged) {
                    Some(frequency) => Reply::SetTickFrequency { frequency },
                    None => Reply::Nothing,
                }
            },
            Command::ControlInput { request: new_request } => {
                request.radius = new_request.radius;
                request.throttle = new_request.throttle;
                liveness.notify_alive();
                Reply::Nothing
            },
            Command::TuneParameter { parameter, value } => {
                if self.tune_parameter(parameter, value) {
                    Reply::Nothing
                } else {
                    Reply::UnknownParameter
                }
            },
            Command::LoggerMode { logger } => match logger {
                LoggerMode::Enabled => Reply::EnableLogging,
                LoggerMode::Disabled => Reply::DisableLogging,
                LoggerMode::Download => {
                    if self.mode == Mode::Safe {
                        Reply::Download
                    } else {
                        Reply::Nothing
                    }
                },
            },
            Command::Ignored => Reply::Nothing,
            Command::Unexpected => Reply::Abort,
        }
    }

    /// The four motor values (front, right, back, left) for the current
    /// mode, command, error and history. Safe, Panic, Calibrate, Raw and
    /// WireLess give zeros; the panic ramp-down and the calibration run are
    /// separate steps.
    pub fn control_algo(&self, data: &ControlRequest) -> (r: [u16; 4])
        ensures
            motors_are(r, mix(self.mode, self.input, self.cache@, self.p, self.i, self.d, *data)),
    {
        let zero: [u16; 4] = [0, 0, 0, 0];
        if data.throttle < ARMING_THROTTLE && self.mode != Mode::Safe && self.mode != Mode::Panic
            && self.mode != Mode::Calibrate {
            return zero;
        }
        match self.mode {
            Mode::FullControl => self.full_control_cmds(data),
            Mode::Manual => manual_cmds(data),
            Mode::YawControl => self.yaw_control_cmds(data),
            Mode::Height => self.height_cmds(data),
            _ => zero,
        }
    }

    fn full_control_cmds(&self, data: &ControlRequest) -> (r: [u16; 4])
        ensures
            motors_are(r, full_control_motors(self.input, self.cache@, self.p, self.i, self.d, *data)),
    {
        if data.throttle < MIN_PID_THROTTLE {
            return [0, 0, 0, 0];
        }
        let lift = lift(data.throttle);
        let (pitch_sum, roll_sum, _height_sum) = window_sums(&self.cache);
        let pitch_d = derivative_of(self.input.ypr.pitch, &self.cache, 0);
        let roll_d = derivative_of(self.input.ypr.roll, &self.cache, 1);
        let pitch = pid(self.input.ypr.pitch, pitch_d, pitch_sum, self.p, self.i, self.d);
        let roll = pid(self.input.ypr.roll, roll_d, roll_sum, self.p, self.i, self.d);
        let yaw = yaw_term(self.input.ypr.yaw, self.p, 4);
        axis_cmds(pitch, roll, yaw, 300, lift, 180, 800)
    }

    fn yaw_control_cmds(&self, data: &ControlRequest) -> (r: [u16; 4])
        ensures
            motors_are(r, yaw_control_motors(self.input, self.p, *data)),
    {
        let lift = lift(data.throttle);
        let yaw = yaw_term(self.input.ypr.yaw, self.p, 8);
        let pitch = scaled_term(data.radius.pitch, 80);
        let roll = scaled_term(data.radius.roll, 80);
        axis_cmds(pitch, roll, yaw, 200, lift, 200, 500)
    }

    fn height_cmds(&self, data: &ControlRequest) -> (r: [u16; 4])
        ensures
            motors_are(r, height_motors(self.input, self.cache@, self.p, self.i, self.d, *data)),
    {
        if data.throttle < MIN_PID_THROTTLE {
            return [0, 0, 0, 0];
        }
        let (pitch_sum, roll_sum, height_sum) = window_sums(&self.cache);
        let pitch_d = derivative_of(self.input.ypr.pitch, &self.cache, 0);
        let roll_d = derivative_of(self.input.ypr.roll, &self.cache, 1);
        let height_d = derivative_of(self.input.height, &self.cache, 2);
        let pitch = pid(self.input.ypr.pitch, pitch_d, pitch_sum, self.p, self.i, self.d);
        let roll = pid(self.input.ypr.roll, roll_d, roll_sum, self.p, self.i, self.d);
        let h = pid(self.input.height, height_d, height_sum, self.p, self.i, self.d);
        let yaw = yaw_term(self.input.ypr.yaw, self.p, 8);
        height_axis_cmds(pitch, roll, h, yaw)
    }
}

fn add16(a: i16, b: i16) -> (r: i16)
    ensures
        r == wrap_i16(a + b),
{
    proof {
        lemma_wrap_i16_matches(a + b);
    }
    a.wrapping_add(b)
}

fn sub16(a: i16, b: i16) -> (r: i16)
    ensures
        r == wrap_i16(a - b),
{
    proof {
        lemma_wrap_i16_matches(a - b);
    }
    a.wrapping_sub(b)
}

fn height_axis_cmds(pitch: i16, roll: i16, h: i16, yaw: i16) -> (r: [u16; 4])
    ensures
        motors_are(r, height_axis_motors(pitch as int, roll as int, h as int, yaw as int)),
{
    let front = add16(add16(pitch, yaw), h);
    let right = sub16(add16(roll, yaw), h);
    let back = sub16(sub16(pitch, yaw), h);
    let left = sub16(add16(h, roll), yaw);
    [
        motor_cmd(front as i32, 100, 300, 150, 600),
        motor_cmd(-(right as i32), 100, 300, 150, 600),
        motor_cmd(-(back as i32), 100, 300, 150, 600),
        motor_cmd(left as i32, 100, 300, 150, 600),
    ]
}

/// Manual mode's motor values.
fn manual_cmds(data: &ControlRequest) -> (r: [u16; 4])
    ensures
        motors_are(r, manual_motors(*data)),
{
    let lift = lift(data.throttle);
    let r = data.radius;
    let front = scaled_term(r.pitch.add(r.yaw), 100);
    let right = scaled_term(r.roll.add(r.yaw), 100);
    let back = scaled_term(r.pitch.sub(r.yaw), 100);
    let left = scaled_term(r.roll.sub(r.yaw), 100);
    [
        clamp_i32(lift + front as i32, 200, 400) as u16,
        clamp_i32(lift - right as i32, 200, 400) as u16,
        clamp_i32(lift - back as i32, 200, 400) as u16,
        clamp_i32(lift + left as i32, 200, 400) as u16,
    ]
}

} // verus!
