use quad_flight::control::{enqueue, panic_ramp_step, Command, Controller, Reply};
use quad_flight::fixed_point::Frac;
use quad_flight::kalman_filter::KalmanFilter;
use quad_flight::liveness::{Liveliness, LivelinessError};
use quad_flight::measurements::{Accel, ControlRequest, ControllerInput, SensorData, Velocity, YawPitchRoll};
use quad_flight::mode::{is_transition_allowed, LoggerMode, Mode};
use quad_flight::orientation::yaw_pitch_roll_from_quaternion;
use quad_flight::sensor::{RawReading, Sensor, DEG_TO_RAD_BITS, STANDARD_GRAVITY_BITS};
use quad_flight::state_machine::check_state;

const ONE: i32 = 65536;

fn f(n: i32) -> Frac {
    Frac::from_int(n)
}

fn all_modes() -> [Mode; 9] {
    [
        Mode::Safe,
        Mode::Panic,
        Mode::Manual,
        Mode::Calibrate,
        Mode::YawControl,
        Mode::FullControl,
        Mode::Raw,
        Mode::Height,
        Mode::WireLess,
    ]
}

fn request(pitch: Frac, roll: Frac, yaw: Frac, throttle: i16) -> ControlRequest {
    ControlRequest { radius: YawPitchRoll { yaw, pitch, roll }, throttle }
}

fn controller_in(mode: Mode) -> Controller {
    let mut c = Controller::new();
    c.mode = mode;
    c
}

#[test]
fn transition_table_all_pairs() {
    for current in all_modes() {
        for requested in all_modes() {
            let expected = match current {
                Mode::Safe => requested != Mode::Panic,
                Mode::Panic => requested == Mode::Safe,
                _ => requested == Mode::Safe || requested == Mode::Panic,
            };
            assert_eq!(is_transition_allowed(current, requested), expected, "{:?} -> {:?}", current, requested);
        }
    }
    assert!(!is_transition_allowed(Mode::Safe, Mode::Panic));
    assert!(is_transition_allowed(Mode::Safe, Mode::Safe));
    assert!(!is_transition_allowed(Mode::Panic, Mode::Panic));
    assert!(is_transition_allowed(Mode::Panic, Mode::Safe));
    assert!(!is_transition_allowed(Mode::Manual, Mode::FullControl));
    assert!(is_transition_allowed(Mode::Height, Mode::Panic));
    assert!(!is_transition_allowed(Mode::WireLess, Mode::WireLess));
}

#[test]
fn check_state_follows_controller_mode() {
    let mut c = controller_in(Mode::Manual);
    assert!(check_state(&mut c, Mode::Safe));
    assert!(!check_state(&mut c, Mode::Height));
    assert_eq!(c.mode, Mode::Manual);
}

#[test]
fn history_keeps_last_ten_in_order() {
    let mut v: Vec<u32> = Vec::new();
    for k in 0..10u32 {
        enqueue(&mut v, k);
    }
    assert_eq!(v, (0..10).collect::<Vec<u32>>());
    enqueue(&mut v, 10);
    assert_eq!(v, (1..11).collect::<Vec<u32>>());
}

#[test]
fn history_under_capacity_never_evicts() {
    let mut v: Vec<i32> = Vec::new();
    for k in 0..7 {
        enqueue(&mut v, k * 3);
        assert_eq!(v.len(), (k + 1) as usize);
        assert_eq!(v[0], 0);
    }
}

#[test]
fn liveness_disconnect_across_wraparound() {
    let mut l = Liveliness::new(120);
    for _ in 0..65530u32 {
        assert_eq!(l.tick(), None);
    }
    l.notify_alive();
    // Ten quiet ticks carry the counter past 65535 without a report.
    for _ in 0..10 {
        assert_eq!(l.tick(), None);
    }
    for _ in 10..119 {
        assert_eq!(l.tick(), None);
    }
    assert_eq!(l.tick(), Some(LivelinessError::LinkDisconnected));
    assert_eq!(l.tick(), Some(LivelinessError::LinkDisconnected));
}

#[test]
fn liveness_silent_before_first_message() {
    let mut l = Liveliness::new(3);
    for _ in 0..100 {
        assert_eq!(l.tick(), None);
    }
}

#[test]
fn liveness_notify_resets_window() {
    let mut l = Liveliness::new(5);
    l.notify_alive();
    for _ in 0..4 {
        assert_eq!(l.tick(), None);
    }
    l.notify_alive();
    for _ in 0..4 {
        assert_eq!(l.tick(), None);
    }
    assert_eq!(l.tick(), Some(LivelinessError::LinkDisconnected));
}

#[test]
fn full_control_zero_gains_gives_clamped_lift() {
    let mut c = controller_in(Mode::FullControl);
    c.input = ControllerInput::new();
    // Below the arming throttle every flight mode is silenced.
    assert_eq!(c.control_algo(&request(f(0), f(0), f(0), 600)), [0, 0, 0, 0]);
    assert_eq!(c.control_algo(&request(f(0), f(0), f(0), 1000)), [180, 180, 180, 180]);
    assert_eq!(c.control_algo(&request(f(0), f(0), f(0), 6000)), [600, 600, 600, 600]);
    assert_eq!(c.control_algo(&request(f(0), f(0), f(0), 9000)), [800, 800, 800, 800]);
}

#[test]
fn full_control_pid_terms() {
    let mut c = controller_in(Mode::FullControl);
    c.set_parameters(f(10), f(1), f(2));
    let prev = ControllerInput { ypr: YawPitchRoll { yaw: f(0), pitch: f(1), roll: f(0) }, height: f(0) };
    let cur = ControllerInput { ypr: YawPitchRoll { yaw: f(0), pitch: f(3), roll: f(-2) }, height: f(0) };
    enqueue(&mut c.cache, prev);
    enqueue(&mut c.cache, cur);
    c.input = cur;
    // pitch: 3*10 + (3-1)*2 + (1+3)*1 = 38; roll: -20 + (-2)*2 + (-2)*1 = -26
    let out = c.control_algo(&request(f(0), f(0), f(0), 3000));
    assert_eq!(out, [300 + 38, 300 + 26, 300 - 38, 300 - 26]);
}

#[test]
fn full_control_low_throttle_guard() {
    let c = controller_in(Mode::FullControl);
    assert_eq!(c.control_algo(&request(f(1), f(1), f(1), 40)), [0, 0, 0, 0]);
}

#[test]
fn manual_mixer_level_command_boundaries() {
    let c = controller_in(Mode::Manual);
    assert_eq!(c.control_algo(&request(f(0), f(0), f(0), 2000)), [200, 200, 200, 200]);
    assert_eq!(c.control_algo(&request(f(0), f(0), f(0), 1990)), [200, 200, 200, 200]);
    assert_eq!(c.control_algo(&request(f(0), f(0), f(0), 1999)), [200, 200, 200, 200]);
    assert_eq!(c.control_algo(&request(f(0), f(0), f(0), 2009)), [200, 200, 200, 200]);
    assert_eq!(c.control_algo(&request(f(0), f(0), f(0), 2010)), [201, 201, 201, 201]);
    assert_eq!(c.control_algo(&request(f(0), f(0), f(0), 3000)), [300, 300, 300, 300]);
    assert_eq!(c.control_algo(&request(f(0), f(0), f(0), 5000)), [400, 400, 400, 400]);
}

#[test]
fn manual_mixer_attitude_terms() {
    let c = controller_in(Mode::Manual);
    // pitch 0.5 rad -> 50, roll 0.25 rad -> 25
    let out = c.control_algo(&request(Frac::from_bits(ONE / 2), Frac::from_bits(ONE / 4), f(0), 3000));
    assert_eq!(out, [350, 275, 250, 325]);
}

#[test]
fn yaw_control_mixer() {
    let mut c = controller_in(Mode::YawControl);
    c.set_parameters(f(16), f(0), f(0));
    c.input.ypr.yaw = f(1);
    // yaw term 1*16/8 = 2; roll 1 rad * 80 = 80
    let out = c.control_algo(&request(f(0), f(1), f(0), 3000));
    assert_eq!(out, [302, 218, 302, 378]);
}

#[test]
fn height_mixer_hover_lift() {
    let mut c = controller_in(Mode::Height);
    assert_eq!(c.control_algo(&request(f(0), f(0), f(0), 3000)), [300, 300, 300, 300]);
    c.set_parameters(f(50), f(0), f(0));
    c.input.height = f(1);
    assert_eq!(c.control_algo(&request(f(0), f(0), f(0), 3000)), [350, 350, 350, 350]);
    c.input.height = f(10);
    assert_eq!(c.control_algo(&request(f(0), f(0), f(0), 3000)), [400, 400, 400, 400]);
}

#[test]
fn non_flight_modes_give_zero() {
    for mode in [Mode::Safe, Mode::Panic, Mode::Calibrate, Mode::Raw, Mode::WireLess] {
        let c = controller_in(mode);
        assert_eq!(c.control_algo(&request(f(1), f(1), f(1), 5000)), [0, 0, 0, 0]);
    }
}

#[test]
fn panic_ramp_from_210_reaches_zero_within_budget() {
    let mut c = controller_in(Mode::Panic);
    let mut motors = [210u16, 210, 210, 210];
    let mut steps: u16 = 0;
    while let Some(next) = c.panic_ramp(steps, motors) {
        for k in 0..4 {
            assert!(next[k] <= motors[k]);
        }
        motors = next;
        steps += 1;
    }
    assert_eq!(steps, 200);
    assert_eq!(motors, [0, 0, 0, 0]);
    assert_eq!(c.mode, Mode::Safe);
    let mut m = [210u16, 1, 0, 500];
    for _ in 0..105 {
        m = panic_ramp_step(m);
    }
    assert_eq!(m, [0, 0, 0, 192]);
}

#[test]
fn panic_ramp_outside_panic_does_nothing() {
    let mut c = controller_in(Mode::Manual);
    assert_eq!(c.panic_ramp(0, [100, 100, 100, 100]), None);
    assert_eq!(c.mode, Mode::Manual);
}

fn sample(value: i32, accel: i32, pressure: i32) -> SensorData {
    let mut d = SensorData::new();
    d.radius = YawPitchRoll { yaw: Frac::from_bits(value), pitch: Frac::from_bits(-value), roll: Frac::from_bits(value / 2) };
    d.velocity = Velocity { yaw: Frac::from_bits(value / 3), pitch: Frac::from_bits(7), roll: Frac::from_bits(-value) };
    d.acceleration = Accel { x: accel, y: -accel, z: accel * 2 };
    d.pressure = Frac::from_bits(pressure);
    d.height = f(2);
    d.bat = 1100;
    d.motor_speeds = [1, 2, 3, 4];
    d
}

#[test]
fn ewma_alpha_one_and_zero() {
    let mut s = Sensor::new();
    s.cache = sample(1000, 40, 5000);
    s.data = sample(7000, 100, 9000);
    s.filter_ewma(f(1), f(1));
    let n = sample(7000, 100, 9000);
    assert_eq!(s.data.radius, n.radius);
    assert_eq!(s.data.velocity, n.velocity);
    assert_eq!(s.data.acceleration, n.acceleration);
    assert_eq!(s.data.pressure, n.pressure);
    assert_eq!(s.cache.radius, n.radius);

    let mut s = Sensor::new();
    let prev = sample(1000, 40, 5000);
    s.cache = prev;
    s.data = sample(7000, 100, 9000);
    s.filter_ewma(f(0), f(0));
    assert_eq!(s.data.radius, prev.radius);
    assert_eq!(s.data.velocity, prev.velocity);
    assert_eq!(s.data.acceleration, prev.acceleration);
    assert_eq!(s.data.pressure, prev.pressure);
    assert_eq!(s.data.height, prev.height);
}

#[test]
fn ewma_half_weights() {
    let mut s = Sensor::new();
    let mut prev = SensorData::new();
    prev.height = f(2);
    let mut new = SensorData::new();
    new.height = f(4);
    new.acceleration = Accel { x: 10, y: 0, z: 0 };
    s.cache = prev;
    s.data = new;
    s.filter_ewma(Frac::from_bits(ONE / 2), Frac::from_bits(ONE / 2));
    assert_eq!(s.data.height, f(3));
    assert_eq!(s.data.acceleration.x, 5);
}

#[test]
fn fir_weighted_sum() {
    let mut s = Sensor::new();
    let mut a = SensorData::new();
    a.height = f(10);
    a.bat = 5;
    let mut b = SensorData::new();
    b.height = f(20);
    let mut c = SensorData::new();
    c.height = f(40);
    s.fir_cache = vec![a, b, c];
    s.filter_fir(Frac::from_bits(ONE / 2), Frac::from_bits(ONE / 4), Frac::from_bits(ONE / 4));
    assert_eq!(s.data.height, f(20));
    assert_eq!(s.data.bat, 5);
}

#[test]
fn calibration_of_constant_input() {
    let mut s = Sensor::new();
    let c = sample(6000, 40, 2000);
    let samples = vec![c; 20];
    s.cache.pressure = f(3);
    s.calibrate(&samples);
    assert!(s.calibrated);
    assert_eq!(s.calibrate_offset.radius, c.radius);
    assert_eq!(s.calibrate_offset.velocity, c.velocity);
    assert_eq!(s.calibrate_offset.acceleration, c.acceleration);
    assert_eq!(s.calibrate_offset.pressure, Frac::from_bits(100));
    assert_eq!(s.pressure_zero_point, f(3));
    assert_eq!(s.gravity_scale, f(80).div(Frac::from_bits(STANDARD_GRAVITY_BITS)));
}

#[test]
fn calibration_averages_acceleration() {
    let mut s = Sensor::new();
    let samples = vec![sample(0, 7, 0); 20];
    s.calibrate(&samples);
    assert_eq!(s.calibrate_offset.acceleration, Accel { x: 7, y: -7, z: 14 });
    let samples = vec![sample(0, 1, 0); 20];
    s.calibrate(&samples);
    assert_eq!(s.calibrate_offset.acceleration, Accel { x: 1, y: -1, z: 2 });
    // 19 samples of 0 and one of 39: the sum 39 over 20 rounds toward zero.
    let mut samples = vec![sample(0, 0, 0); 20];
    samples[19] = sample(0, 39, 0);
    s.calibrate(&samples);
    assert_eq!(s.calibrate_offset.acceleration, Accel { x: 1, y: -1, z: 3 });
}

#[test]
fn fir_uses_three_most_recent() {
    let mut s = Sensor::new();
    let mut cache = Vec::new();
    for h in 0..4 {
        let mut d = SensorData::new();
        d.height = f(h);
        d.bat = h as u16;
        cache.push(d);
    }
    s.fir_cache = cache;
    s.filter_fir(f(1), f(0), f(0));
    assert_eq!(s.data.height, f(1));
    assert_eq!(s.data.bat, 1);
    s.filter_fir(f(0), f(0), f(1));
    assert_eq!(s.data.height, f(3));
}

#[test]
fn filter_step_runs_once_calibrated() {
    let mut s = Sensor::new();
    s.data.pressure = f(10);
    assert!(!s.filter_step(f(1), f(1)));
    assert_eq!(s.fir_cache.len(), 0);
    assert_eq!(s.data.height, f(0));
    s.calibrated = true;
    s.pressure_zero_point = f(32);
    assert!(s.filter_step(f(1), f(1)));
    assert_eq!(s.fir_cache.len(), 1);
    assert_eq!(s.cache.pressure, f(10));
    assert_eq!(s.data.height, f(2));
    assert_eq!(s.cache.height, f(0));
}

#[test]
fn fresh_sensor_error() {
    let mut c = Controller::new();
    let s = Sensor::new();
    let req = request(Frac::from_bits(ONE / 4), Frac::from_bits(-ONE / 4), Frac::from_bits(ONE / 2), 450);
    c.calculate_difference(&s, &req);
    assert_eq!(c.input.ypr, YawPitchRoll { yaw: f(0), pitch: Frac::from_bits(ONE / 4), roll: Frac::from_bits(-ONE / 4) });
    assert_eq!(c.input.height, f(1));
    assert_eq!(c.output, [0, 0, 0, 0]);
}

#[test]
fn height_from_pressure() {
    let mut s = Sensor::new();
    s.data.pressure = f(10);
    s.pressure_zero_point = f(32);
    s.calculate_height(f(0));
    assert_eq!(s.data.height, f(0));
    s.calibrated = true;
    s.calculate_height(f(0));
    assert_eq!(s.data.height, f(2));
}

#[test]
fn get_values_applies_offsets() {
    let mut s = Sensor::new();
    s.calibrate_offset.acceleration = Accel { x: 1, y: 2, z: 3 };
    s.calibrate_offset.radius.pitch = f(1);
    let reading = RawReading {
        attitude: Some(YawPitchRoll { yaw: f(0), pitch: f(3), roll: f(0) }),
        gyro_x: 180,
        gyro_y: 0,
        gyro_z: 0,
        accel_x: 10,
        accel_y: 20,
        accel_z: 30,
        motors: [5, 6, 7, 8],
        battery: 1000,
        pressure: f(4),
    };
    s.get_values(true, &reading);
    assert_eq!(s.data.acceleration, Accel { x: 9, y: 18, z: 27 });
    assert_eq!(s.data.radius.pitch, f(2));
    assert_eq!(s.data.velocity.roll, Frac::from_bits(180 * DEG_TO_RAD_BITS));
    assert_eq!(s.data.motor_speeds, [5, 6, 7, 8]);
    assert_eq!(s.cache.pressure, f(4));
    s.get_values(false, &reading);
    assert_eq!(s.data.radius.pitch, f(3));
}

#[test]
fn calculate_difference_deadzones() {
    let mut c = Controller::new();
    let mut s = Sensor::new();
    s.data.velocity.yaw = Frac::from_bits(ONE / 2);
    s.data.radius.pitch = Frac::from_bits(1);
    s.data.height = Frac::from_bits(ONE / 20);
    let req = request(f(0), f(0), f(0), 0);
    c.calculate_difference(&s, &req);
    assert_eq!(c.input.ypr.yaw, f(0));
    assert_eq!(c.input.ypr.pitch, Frac::from_bits(-1));
    assert_eq!(c.input.height, f(0));
    s.data.velocity.yaw = Frac::from_bits(-ONE);
    let req = request(f(0), f(0), f(0), 800);
    c.calculate_difference(&s, &req);
    assert_eq!(c.input.ypr.yaw, f(1));
    assert_eq!(c.input.height, Frac::from_bits(2 * ONE - ONE / 20));
}

#[test]
fn mode_requests_follow_state_machine() {
    let mut c = Controller::new();
    assert_eq!(c.request_mode(Mode::Manual, true), None);
    assert_eq!(c.mode, Mode::Manual);
    assert_eq!(c.request_mode(Mode::FullControl, true), None);
    assert_eq!(c.mode, Mode::Manual);
    assert_eq!(c.request_mode(Mode::Raw, true), Some(350));
    assert!(c.raw_option);
    assert_eq!(c.mode, Mode::Manual);
    assert_eq!(c.p, f(100));
    assert_eq!(c.d, f(2300));
    assert_eq!(c.request_mode(Mode::Safe, false), None);
    assert_eq!(c.mode, Mode::Panic);
}

#[test]
fn link_loss_and_battery_force_panic() {
    let mut c = controller_in(Mode::Safe);
    c.apply_link_status(Some(LivelinessError::LinkDisconnected));
    assert_eq!(c.mode, Mode::Safe);
    let mut c = controller_in(Mode::FullControl);
    c.apply_link_status(None);
    assert_eq!(c.mode, Mode::FullControl);
    c.apply_link_status(Some(LivelinessError::LinkDisconnected));
    assert_eq!(c.mode, Mode::Panic);
    let mut c = controller_in(Mode::Manual);
    assert!(!c.check_battery(0));
    assert!(!c.check_battery(911));
    assert_eq!(c.mode, Mode::Manual);
    assert!(c.check_battery(910));
    assert_eq!(c.mode, Mode::Panic);
}

#[test]
fn commands_update_controller() {
    let mut c = Controller::new();
    let mut l = Liveliness::new(10);
    let mut req = ControlRequest::new();
    let new_req = request(f(1), f(0), f(0), 1234);
    assert_eq!(c.handle_command(&mut l, &mut req, Command::ControlInput { request: new_req }), Reply::Nothing);
    assert_eq!(req, new_req);
    assert_eq!(c.handle_command(&mut l, &mut req, Command::TuneParameter { parameter: 'i', value: f(7) }), Reply::Nothing);
    assert_eq!(c.i, f(7));
    assert_eq!(c.handle_command(&mut l, &mut req, Command::TuneParameter { parameter: 'x', value: f(7) }), Reply::UnknownParameter);
    assert_eq!(c.handle_command(&mut l, &mut req, Command::LoggerMode { logger: LoggerMode::Download }), Reply::Download);
    assert_eq!(c.handle_command(&mut l, &mut req, Command::LoggerMode { logger: LoggerMode::Enabled }), Reply::EnableLogging);
    assert_eq!(c.handle_command(&mut l, &mut req, Command::Unexpected), Reply::Abort);
    assert_eq!(
        c.handle_command(&mut l, &mut req, Command::ChangeMode { mode: Mode::Raw, acknowledged: true }),
        Reply::SetTickFrequency { frequency: 350 }
    );
    assert!(c.raw_option);
    assert_eq!(c.frequency, 350);
    assert_eq!((c.p, c.i, c.d), (f(100), f(10), f(2300)));
    assert_eq!(c.mode, Mode::Safe);
    c.mode = Mode::Manual;
    assert_eq!(c.handle_command(&mut l, &mut req, Command::LoggerMode { logger: LoggerMode::Download }), Reply::Nothing);
    assert_eq!(
        c.handle_command(&mut l, &mut req, Command::ChangeMode { mode: Mode::Height, acknowledged: true }),
        Reply::Nothing
    );
    assert_eq!(c.mode, Mode::Manual);
    assert!(c.raw_option);
    assert_eq!(c.p, f(100));
    assert_eq!(
        c.handle_command(&mut l, &mut req, Command::ChangeMode { mode: Mode::Safe, acknowledged: false }),
        Reply::Nothing
    );
    assert_eq!(c.mode, Mode::Panic);
    assert_eq!(c.frequency, 350);
}

#[test]
fn fusion_step_moves_toward_accelerometer() {
    let mut k = KalmanFilter::new(f(4), f(5000));
    k.integration_constant = Frac::from_bits(ONE / 2);
    let mut s = Sensor::new();
    s.data.velocity = Velocity { yaw: f(0), pitch: f(2), roll: f(0) };
    // integrated pitch 0 + 2*0.5 = 1; error 1 - 0 = 1; pulled back by 1/4.
    k.fusion_algorithm(&mut s, YawPitchRoll::new());
    assert_eq!(s.data.radius.pitch, Frac::from_bits(3 * ONE / 4));
    assert_eq!(s.data.radius.yaw, f(0));
    // bias moves by (1 / 0.5) / 5000
    assert_eq!(s.calibrate_offset.velocity.pitch, f(2).div(f(5000)));
}

#[test]
fn fixed_point_matches_i16f16() {
    type Fx = fixed::types::I16F16;
    let a = Fx::from_num(3.25);
    let b = Fx::from_num(-1.5);
    assert_eq!(Frac::from_bits(a.to_bits()).mul(Frac::from_bits(b.to_bits())).bits, (a * b).to_bits());
    assert_eq!(Frac::from_bits(a.to_bits()).div(Frac::from_bits(b.to_bits())).bits, (a / b).to_bits());
    assert_eq!(Frac::from_bits(b.to_bits()).to_i16(), -2);
    assert_eq!(Frac::from_bits(a.to_bits()).to_i32(), 3);
    assert_eq!(f(-3).bits, -3 * ONE);
    assert_eq!(Frac::from_bits(ONE).mul_int(5), f(5));
    assert_eq!(DEG_TO_RAD_BITS, (Fx::PI / 180).to_bits());
    assert_eq!(STANDARD_GRAVITY_BITS, Fx::from_num(9.80665).to_bits());
    assert_eq!(Frac::from_bits(i32::MAX).add(Frac::from_bits(1)).bits, i32::MIN);
}

#[test]
fn quaternion_level_attitude() {
    let one = 1 << 30;
    let r = yaw_pitch_roll_from_quaternion(one, 0, 0, 0).unwrap();
    assert_eq!(r.yaw, f(0));
    assert_eq!(r.pitch, f(0));
    assert_eq!(r.roll, f(0));
}

#[test]
fn quaternion_roll_matches_trigonometry() {
    type Fx = fixed::types::I16F16;
    // a rotation about the x axis: w = cos(0.25), x = sin(0.25)
    let w = fixed::types::I2F30::from_num(0.9689124217106447);
    let x = fixed::types::I2F30::from_num(0.24740395925452294);
    let r = yaw_pitch_roll_from_quaternion(w.to_bits(), x.to_bits(), 0, 0).unwrap();
    let wf = Fx::from_num(w);
    let xf = Fx::from_num(x);
    let two = Fx::from_num(2);
    let gy = two * (wf * xf);
    let gz = wf * wf - xf * xf;
    assert_eq!(r.roll.bits, fixed_trigonometry::atan::atan2(gy, gz).to_bits());
    assert!((r.roll.bits - ONE / 2).abs() < ONE / 100);
}

#[test]
fn accel_and_request_arithmetic() {
    let a = Accel { x: 7, y: -7, z: 40 };
    assert_eq!(a.div(2), Accel { x: 3, y: -3, z: 20 });
    assert_eq!(a.add(Accel { x: 1, y: 1, z: 1 }), Accel { x: 8, y: -6, z: 41 });
    assert_eq!(a.sub(a), Accel::new());
    let r = request(f(1), f(2), f(3), 100).add(request(f(1), f(1), f(1), 50));
    assert_eq!(r, request(f(2), f(3), f(4), 150));
    let v = Velocity { yaw: f(2), pitch: f(0), roll: f(-2) };
    assert_eq!(v.mul(Frac::from_bits(ONE / 2)), YawPitchRoll { yaw: f(1), pitch: f(0), roll: f(-1) });
    assert_eq!(YawPitchRoll { yaw: f(4), pitch: f(2), roll: f(0) }.div(f(2)), YawPitchRoll { yaw: f(2), pitch: f(1), roll: f(0) });
}

#[test]
fn quaternion_pitch_matches_trigonometry() {
    type Fx = fixed::types::I16F16;
    // a rotation about the y axis: w = cos(0.25), y = sin(0.25)
    let w = fixed::types::I2F30::from_num(0.9689124217106447);
    let y = fixed::types::I2F30::from_num(0.24740395925452294);
    let r = yaw_pitch_roll_from_quaternion(w.to_bits(), 0, y.to_bits(), 0).unwrap();
    let wf = Fx::from_num(w);
    let yf = Fx::from_num(y);
    let zero = Fx::from_num(0);
    let two = Fx::from_num(2);
    let gx = two * (zero * zero - wf * yf);
    let gy = two * (wf * zero + yf * zero);
    let gz = wf * wf - zero * zero - yf * yf + zero * zero;
    let root = fixed_trigonometry::sqrt::niirf(gy * gy + gz * gz, 2);
    assert_eq!(r.pitch.bits, fixed_trigonometry::atan::atan2(gx, root).to_bits());
    assert!((r.pitch.bits + ONE / 2).abs() < ONE / 50);
    assert_eq!(r.roll.bits, fixed_trigonometry::atan::atan2(gy, gz).to_bits());
}

#[test]
fn quaternion_outside_trigonometry_domain() {
    // A zero quaternion leaves the gravity vector at zero, where atan2 is
    // defined.
    assert!(yaw_pitch_roll_from_quaternion(0, 0, 0, 0).is_some());
    // Here the gravity's y and z components are both non-zero and under
    // 1/256, where atan2 would divide by zero.
    let w = 2000 << 14;
    let z = 1900 << 14;
    assert!(yaw_pitch_roll_from_quaternion(w, w, 0, z).is_none());
}
