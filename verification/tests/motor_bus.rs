use lekiwi::config::{
    BatteryConfig, DriveConfig, FramesConfig, LimitsConfig, RobotConfig, RobotInfo, SafetyConfig,
    ServoBusConfig, WheelMount,
};
use lekiwi::messages::VelocityCommand;
use lekiwi::services::motor_bus::{
    battery_percent, build_power_state, build_servo_state, is_low_battery, wheel_velocity,
    MotorBus,
};

fn mount(name: &str, sin_ppm: i32, cos_ppm: i32, servo_id: u8, direction: i8) -> WheelMount {
    WheelMount {
        name: name.to_string(),
        angle_sin_ppm: sin_ppm,
        angle_cos_ppm: cos_ppm,
        servo_id,
        direction,
    }
}

fn command(vx: i64, vy: i64, omega: i64) -> VelocityCommand {
    VelocityCommand {
        timestamp_ns: 1,
        vx_um_s: vx,
        vy_um_s: vy,
        omega_urad_s: omega,
        source: "behavior_router".to_string(),
        priority: 0,
    }
}

fn battery(nominal_uv: i64, low_uv: i64) -> BatteryConfig {
    BatteryConfig { kind: "li-ion".to_string(), nominal_voltage_uv: nominal_uv, low_voltage_uv: low_uv }
}

fn drive() -> DriveConfig {
    DriveConfig {
        wheel_radius_um: 50_000,
        wheel_distance_um: 100_000,
        wheel_mounts: vec![
            mount("front", 0, 1_000_000, 1, 1),
            mount("left", 866_025, -500_000, 2, 1),
            mount("right", -866_025, -500_000, 3, -1),
        ],
    }
}

fn robot() -> RobotConfig {
    RobotConfig {
        robot: RobotInfo {
            name: "kiwi".to_string(),
            platform: "omni".to_string(),
            compute: "sbc".to_string(),
        },
        battery: battery(12_000_000, 10_000_000),
        servo_bus: ServoBusConfig {
            port: "/dev/ttyACM0".to_string(),
            baud_rate: 1_000_000,
            protocol: "feetech".to_string(),
        },
        drive: drive(),
        limits: LimitsConfig {
            max_vx_um_s: 1_000_000,
            max_vy_um_s: 1_000_000,
            max_omega_urad_s: 2_000_000,
            max_accel_um_s2: 2_000_000,
            max_alpha_urad_s2: 4_000_000,
        },
        safety: SafetyConfig {
            command_timeout_ms: 200,
            estop_enabled: true,
            servo_temp_limit_uc: 70_000_000,
            low_battery_stop: false,
        },
        frames: FramesConfig {
            base_link: "base_link".to_string(),
            odom: "odom".to_string(),
            map: "map".to_string(),
        },
    }
}

#[test]
fn forward_command_on_a_wheel_at_angle_zero_is_not_negative() {
    let wheel = mount("front", 0, 1_000_000, 1, 1);
    for vx in [1, 1_000, 500_000, 1_000_000, i64::MAX] {
        let w = wheel_velocity(&wheel, 50_000, 100_000, &command(vx, 0, 0));
        assert!(w >= 0);
        assert_eq!(w, 0);
    }
}

#[test]
fn sideways_command_turns_a_wheel_at_angle_zero() {
    let wheel = mount("front", 0, 1_000_000, 1, 1);
    // 0.5 m/s over a 0.05 m radius is 10 rad/s.
    assert_eq!(wheel_velocity(&wheel, 50_000, 100_000, &command(0, 500_000, 0)), 10_000_000);
    assert_eq!(wheel_velocity(&wheel, 50_000, 100_000, &command(0, -500_000, 0)), -10_000_000);
}

#[test]
fn forward_command_turns_a_wheel_at_a_right_angle_backwards() {
    let wheel = mount("side", 1_000_000, 0, 1, 1);
    assert_eq!(wheel_velocity(&wheel, 50_000, 100_000, &command(500_000, 0, 0)), -10_000_000);
}

#[test]
fn rotation_turns_every_wheel_by_distance_over_radius() {
    let wheel = mount("any", 866_025, -500_000, 1, 1);
    // 1 rad/s at 0.1 m from the centre over a 0.05 m radius is 2 rad/s.
    assert_eq!(wheel_velocity(&wheel, 50_000, 100_000, &command(0, 0, 1_000_000)), 2_000_000);
}

#[test]
fn wheel_formula_adds_the_three_terms() {
    let wheel = mount("left", 866_025, -500_000, 2, 1);
    // (-0.866025 * 0.2 - 0.5 * 0.1 + 0.1 * 0.5) / 0.05 = -3.4641 rad/s
    assert_eq!(
        wheel_velocity(&wheel, 50_000, 100_000, &command(200_000, 100_000, 500_000)),
        -3_464_100
    );
}

#[test]
fn direction_sign_flips_the_wheel() {
    let forward = mount("w", 0, 1_000_000, 1, 1);
    let reverse = mount("w", 0, 1_000_000, 1, -1);
    let cmd = command(0, 123_457, 0);
    let a = wheel_velocity(&forward, 50_000, 100_000, &cmd);
    let b = wheel_velocity(&reverse, 50_000, 100_000, &cmd);
    assert_eq!(a, 2_469_140);
    assert_eq!(b, -2_469_140);
}

#[test]
fn wheel_quotient_rounds_toward_zero() {
    let wheel = mount("w", 0, 1_000_000, 1, 1);
    assert_eq!(wheel_velocity(&wheel, 3_000, 0, &command(0, 1, 0)), 333);
    assert_eq!(wheel_velocity(&wheel, 3_000, 0, &command(0, -1, 0)), -333);
    assert_eq!(wheel_velocity(&wheel, 3_000, 0, &command(0, 2, 0)), 666);
}

#[test]
fn wheel_radius_has_a_floor() {
    let wheel = mount("w", 0, 1_000_000, 1, 1);
    let cmd = command(0, 1_000, 0);
    assert_eq!(wheel_velocity(&wheel, 0, 0, &cmd), 10_000_000);
    assert_eq!(wheel_velocity(&wheel, -5, 0, &cmd), 10_000_000);
    assert_eq!(wheel_velocity(&wheel, 99, 0, &cmd), 10_000_000);
    assert_eq!(wheel_velocity(&wheel, 100, 0, &cmd), 10_000_000);
    assert_eq!(wheel_velocity(&wheel, 200, 0, &cmd), 5_000_000);
}

#[test]
fn wheel_velocity_saturates() {
    let wheel = mount("w", i32::MIN, i32::MAX, 1, i8::MIN);
    let cmd = command(i64::MAX, i64::MAX, i64::MAX);
    assert_eq!(wheel_velocity(&wheel, 0, i64::MAX, &cmd), i64::MIN);
    let wheel = mount("w", i32::MIN, i32::MAX, 1, i8::MAX);
    assert_eq!(wheel_velocity(&wheel, 0, i64::MAX, &cmd), i64::MAX);
    let cmd = command(i64::MIN, i64::MIN, i64::MIN);
    assert_eq!(wheel_velocity(&wheel, 0, i64::MIN, &cmd), i64::MAX);
}

#[test]
fn servo_state_lists_every_wheel_in_order() {
    let out = build_servo_state(
        &command(0, 500_000, 1_000_000),
        &drive(),
        &battery(12_000_000, 10_000_000),
        77,
    );
    assert_eq!(out.timestamp_ns, 77);
    assert_eq!(out.servos.len(), 3);
    assert_eq!(out.servos[0].name, "front");
    assert_eq!(out.servos[1].name, "left");
    assert_eq!(out.servos[2].name, "right");
    assert_eq!(out.servos[0].id, 1);
    assert_eq!(out.servos[1].id, 2);
    assert_eq!(out.servos[2].id, 3);
    assert_eq!(out.servos[0].velocity_urad_s, 12_000_000);
    assert_eq!(out.servos[1].velocity_urad_s, -3_000_000);
    assert_eq!(out.servos[2].velocity_urad_s, 3_000_000);
    for servo in &out.servos {
        assert_eq!(servo.position_urad, 0);
        assert_eq!(servo.load_ppm, 0);
        assert_eq!(servo.temperature_uc, 0);
        assert_eq!(servo.voltage_uv, 12_000_000);
        assert_eq!(servo.error_flags, 0);
    }
}

#[test]
fn servo_state_of_no_wheels_is_empty() {
    let mut drive = drive();
    drive.wheel_mounts.clear();
    let out = build_servo_state(&command(1, 2, 3), &drive, &battery(12_000_000, 10_000_000), 5);
    assert_eq!(out.timestamp_ns, 5);
    assert!(out.servos.is_empty());
}

#[test]
fn battery_percent_is_linear_between_low_and_nominal() {
    let battery = battery(12_000_000, 10_000_000);
    assert_eq!(battery_percent(12_000_000, &battery), 1_000_000);
    assert_eq!(battery_percent(10_000_000, &battery), 0);
    assert_eq!(battery_percent(11_000_000, &battery), 500_000);
    assert_eq!(battery_percent(10_500_000, &battery), 250_000);
    assert_eq!(battery_percent(11_999_999, &battery), 999_999);
    assert_eq!(battery_percent(10_000_001, &battery), 0);
    assert_eq!(battery_percent(10_000_002, &battery), 1);
}

#[test]
fn battery_percent_is_held_to_the_unit_range() {
    let battery = battery(12_000_000, 10_000_000);
    assert_eq!(battery_percent(13_000_000, &battery), 1_000_000);
    assert_eq!(battery_percent(9_000_000, &battery), 0);
    assert_eq!(battery_percent(i64::MAX, &battery), 1_000_000);
    assert_eq!(battery_percent(i64::MIN, &battery), 0);
}

#[test]
fn battery_percent_of_a_degenerate_configuration_is_one() {
    assert_eq!(battery_percent(5_000_000, &battery(10_000_000, 10_000_000)), 1_000_000);
    assert_eq!(battery_percent(5_000_000, &battery(9_000_000, 10_000_000)), 1_000_000);
    assert_eq!(battery_percent(0, &battery(i64::MIN, i64::MAX)), 1_000_000);
}

#[test]
fn battery_percent_survives_the_widest_span() {
    let wide = battery(i64::MAX, i64::MIN);
    assert_eq!(battery_percent(i64::MIN, &wide), 0);
    assert_eq!(battery_percent(i64::MAX, &wide), 1_000_000);
    assert_eq!(battery_percent(0, &wide), 500_000);
}

#[test]
fn low_battery_is_at_or_below_the_threshold() {
    let battery = battery(12_000_000, 10_000_000);
    assert!(is_low_battery(10_000_000, &battery));
    assert!(is_low_battery(9_999_999, &battery));
    assert!(!is_low_battery(10_000_001, &battery));
    assert!(!is_low_battery(12_000_000, &battery));
}

#[test]
fn power_state_reports_the_nominal_voltage() {
    let out = build_power_state(&battery(12_000_000, 10_000_000), 9);
    assert_eq!(out.timestamp_ns, 9);
    assert_eq!(out.battery_voltage_uv, 12_000_000);
    assert_eq!(out.battery_percent_ppm, 1_000_000);
    assert!(!out.low_battery);
}

#[test]
fn power_state_of_a_degenerate_configuration() {
    let out = build_power_state(&battery(10_000_000, 10_000_000), 9);
    assert_eq!(out.battery_percent_ppm, 1_000_000);
    assert!(out.low_battery);
    let out = build_power_state(&battery(9_000_000, 10_000_000), 9);
    assert_eq!(out.battery_percent_ppm, 1_000_000);
    assert!(out.low_battery);
}

#[test]
fn motor_bus_holds_the_zero_command_at_first() {
    let mut bus = MotorBus::new(0, 3);
    assert_eq!(bus.last_cmd.source, "motor_bus");
    assert_eq!(bus.last_cmd.timestamp_ns, 3);
    let out = bus.tick(&robot(), 100_000_000, 8);
    assert_eq!(out.servos.timestamp_ns, 8);
    assert_eq!(out.servos.servos.len(), 3);
    for servo in &out.servos.servos {
        assert_eq!(servo.velocity_urad_s, 0);
    }
    assert!(out.power.is_none());
}

#[test]
fn motor_bus_recomputes_from_the_latest_command() {
    let mut bus = MotorBus::new(0, 0);
    bus.on_command(command(0, 500_000, 0));
    let out = bus.tick(&robot(), 100_000_000, 0);
    assert_eq!(out.servos.servos[0].velocity_urad_s, 10_000_000);
    bus.on_command(command(0, -500_000, 0));
    let out = bus.tick(&robot(), 200_000_000, 0);
    assert_eq!(out.servos.servos[0].velocity_urad_s, -10_000_000);
}

#[test]
fn motor_bus_reports_power_once_a_second() {
    let mut bus = MotorBus::new(0, 0);
    let robot = robot();
    let mut now = 0;
    let mut reports = 0;
    for tick in 1..=25u64 {
        now += 100_000_000;
        let out = bus.tick(&robot, now, now);
        if tick % 10 == 0 {
            let power = out.power.expect("the battery reading is due");
            assert_eq!(power.timestamp_ns, now);
            assert_eq!(power.battery_voltage_uv, 12_000_000);
            assert_eq!(bus.last_power_ns, now);
            reports += 1;
        } else {
            assert!(out.power.is_none());
        }
    }
    assert_eq!(reports, 2);
}
