//! Drive kinematics: turns the arbitrated command into a target angular velocity
//! for each wheel, and models the battery.
use crate::config::{BatteryConfig, DriveConfig, RobotConfig, WheelMount};
use crate::fixed::{
    div_round_toward_zero, div_toward_zero, elapsed, elapsed_spec, saturate, saturate_spec, MICRO,
};
use crate::messages::{
    PowerState, ServoState, ServoStateArray, ServoStateView, VelocityCommand, VelocityCommandView,
};
use vstd::prelude::*;

verus! {

/// The smallest wheel radius the formula divides by, in micrometres.
pub const MIN_WHEEL_RADIUS_UM: i64 = 100;

/// How often the wheel targets are published unless configured otherwise.
pub const SERVO_PUBLISH_HZ: u64 = 10;

/// How often the battery reading is published.
pub const POWER_PERIOD_NS: u64 = 1_000_000_000;

/// The wheel radius the formula divides by: the configured one, floored.
pub open spec fn effective_radius_spec(wheel_radius_um: i64) -> int {
    if wheel_radius_um < MIN_WHEEL_RADIUS_UM {
        MIN_WHEEL_RADIUS_UM as int
    } else {
        wheel_radius_um as int
    }
}

/// A million times the speed of the wheel's contact point along its rolling
/// direction: `-sin(a)·vx + cos(a)·vy + L·omega`, with the sine and cosine in
/// millionths.
pub open spec fn tangential_spec(
    angle_sin_ppm: int,
    angle_cos_ppm: int,
    wheel_distance_um: int,
    vx_um_s: int,
    vy_um_s: int,
    omega_urad_s: int,
) -> int {
    -angle_sin_ppm * vx_um_s + angle_cos_ppm * vy_um_s + wheel_distance_um * omega_urad_s
}

/// The wheel's target angular velocity in microradians per second: the
/// tangential speed over the radius, rounded toward zero, times the direction
/// sign, held to the `i64` range.
pub open spec fn wheel_velocity_spec(
    mount: WheelMount,
    wheel_radius_um: i64,
    wheel_distance_um: i64,
    cmd: VelocityCommandView,
) -> int {
    saturate_spec(
        div_toward_zero(
            tangential_spec(
                mount.angle_sin_ppm as int,
                mount.angle_cos_ppm as int,
                wheel_distance_um as int,
                cmd.vx_um_s,
                cmd.vy_um_s,
                cmd.omega_urad_s,
            ),
            effective_radius_spec(wheel_radius_um),
        ) * (mount.direction as int),
    )
}

/// The target angular velocity of one wheel for the given command.
pub fn wheel_velocity(
    mount: &WheelMount,
    wheel_radius_um: i64,
    wheel_distance_um: i64,
    cmd: &VelocityCommand,
) -> (w: i64)
    ensures
        w as int == wheel_velocity_spec(*mount, wheel_radius_um, wheel_distance_um, cmd@),
{
    let radius: i128 = if wheel_radius_um < MIN_WHEEL_RADIUS_UM {
        MIN_WHEEL_RADIUS_UM as i128
    } else {
        wheel_radius_um as i128
    };
    let s: i128 = mount.angle_sin_ppm as i128;
    let c: i128 = mount.angle_cos_ppm as i128;
    let vx: i128 = cmd.vx_um_s as i128;
    let vy: i128 = cmd.vy_um_s as i128;
    let om: i128 = cmd.omega_urad_s as i128;
    let dist: i128 = wheel_distance_um as i128;
    proof {
        lemma_product_bound(-s as int, vx as int, 0x8000_0000, 0x8000_0000_0000_0000);
        lemma_product_bound(c as int, vy as int, 0x8000_0000, 0x8000_0000_0000_0000);
        lemma_product_bound(
            dist as int,
            om as int,
            0x8000_0000_0000_0000,
            0x8000_0000_0000_0000,
        );
        assert(0x8000_0000 * 0x8000_0000_0000_0000 == 0x4000_0000_0000_0000_0000_0000) by
            (nonlinear_arith);
        assert(0x8000_0000_0000_0000 * 0x8000_0000_0000_0000
            == 0x4000_0000_0000_0000_0000_0000_0000_0000) by (nonlinear_arith);
    }
    let numerator: i128 = (-s) * vx + c * vy + dist * om;
    let quotient: i128 = div_round_toward_zero(numerator, radius);
    proof {
        lemma_quotient_bound(
            numerator as int,
            radius as int,
            0x4000_0000_8000_0000_0000_0000_0000_0000,
        );
        lemma_product_bound(
            quotient as int,
            mount.direction as int,
            850705917698486971229758206547140280,
            0x80,
        );
        assert(850705917698486971229758206547140280 * 0x80
            == 108890357465406332317409050438033955840) by (nonlinear_arith);
    }
    saturate(quotient * (mount.direction as i128))
}

/// A product is bounded by the product of its factors' bounds.
proof fn lemma_product_bound(a: int, b: int, bound_a: int, bound_b: int)
    requires
        -bound_a <= a <= bound_a,
        -bound_b <= b <= bound_b,
    ensures
        -(bound_a * bound_b) <= a * b <= bound_a * bound_b,
{
    assert(-(bound_a * bound_b) <= a * b <= bound_a * bound_b) by (nonlinear_arith)
        requires
            -bound_a <= a <= bound_a,
            -bound_b <= b <= bound_b,
    ;
}

/// Dividing by a radius of at least the floor shrinks a bounded numerator at
/// least a hundredfold.
proof fn lemma_quotient_bound(n: int, r: int, bound: int)
    requires
        -bound <= n <= bound,
        r >= MIN_WHEEL_RADIUS_UM,
    ensures
        -(bound / 100) <= div_toward_zero(n, r) <= bound / 100,
{
    let magnitude = if n >= 0 {
        n
    } else {
        -n
    };
    assert(0 <= magnitude / r <= bound / 100) by (nonlinear_arith)
        requires
            0 <= magnitude <= bound,
            r >= 100,
    ;
}

/// The snapshot of one wheel: its target velocity, the nominal supply voltage,
/// and zero in every field that only a real servo could report.
pub open spec fn servo_state_spec(
    mount: WheelMount,
    wheel_radius_um: i64,
    wheel_distance_um: i64,
    nominal_voltage_uv: i64,
    cmd: VelocityCommandView,
) -> ServoStateView {
    ServoStateView {
        id: mount.servo_id,
        name: mount.name@,
        position_urad: 0,
        velocity_urad_s: wheel_velocity_spec(mount, wheel_radius_um, wheel_distance_um, cmd),
        load_ppm: 0,
        temperature_uc: 0,
        voltage_uv: nominal_voltage_uv as int,
        error_flags: 0,
    }
}

/// The snapshot of every configured wheel for the given command, in the order of
/// the configuration.
pub fn build_servo_state(
    cmd: &VelocityCommand,
    drive: &DriveConfig,
    battery: &BatteryConfig,
    timestamp_ns: u64,
) -> (out: ServoStateArray)
    ensures
        out.timestamp_ns == timestamp_ns,
        out.servos@.len() == drive.wheel_mounts@.len(),
        forall|i: int|
            0 <= i < drive.wheel_mounts@.len() ==> (#[trigger] out.servos@[i])@
                == servo_state_spec(
                drive.wheel_mounts@[i],
                drive.wheel_radius_um,
                drive.wheel_distance_um,
                battery.nominal_voltage_uv,
                cmd@,
            ),
{
    let mut servos: Vec<ServoState> = Vec::with_capacity(drive.wheel_mounts.len());
    let mut i: usize = 0;
    while i < drive.wheel_mounts.len()
        invariant
            i <= drive.wheel_mounts@.len(),
            servos@.len() == i,
            forall|k: int|
                0 <= k < i ==> (#[trigger] servos@[k])@ == servo_state_spec(
                    drive.wheel_mounts@[k],
                    drive.wheel_radius_um,
                    drive.wheel_distance_um,
                    battery.nominal_voltage_uv,
                    cmd@,
                ),
        decreases drive.wheel_mounts@.len() - i,
    {
        let mount = &drive.wheel_mounts[i];
        let velocity = wheel_velocity(mount, drive.wheel_radius_um, drive.wheel_distance_um, cmd);
        servos.push(
            ServoState {
                id: mount.servo_id,
                name: mount.name.clone(),
                position_urad: 0,
                velocity_urad_s: velocity,
                load_ppm: 0,
                temperature_uc: 0,
                voltage_uv: battery.nominal_voltage_uv,
                error_flags: 0,
            },
        );
        i += 1;
    }
    ServoStateArray { timestamp_ns, servos }
}

/// The charge as a ratio in millionths: linear between the low voltage (zero) and
/// the nominal voltage (one), held to that range; one when the nominal voltage
/// does not exceed the low voltage.
pub open spec fn battery_percent_spec(voltage_uv: int, nominal_uv: int, low_uv: int) -> int {
    if nominal_uv <= low_uv {
        MICRO as int
    } else if voltage_uv <= low_uv {
        0
    } else if voltage_uv >= nominal_uv {
        MICRO as int
    } else {
        ((voltage_uv - low_uv) * (MICRO as int)) / (nominal_uv - low_uv)
    }
}

/// The charge at `voltage_uv` as a ratio in millionths.
pub fn battery_percent(voltage_uv: i64, battery: &BatteryConfig) -> (ppm: i64)
    ensures
        ppm as int == battery_percent_spec(
            voltage_uv as int,
            battery.nominal_voltage_uv as int,
            battery.low_voltage_uv as int,
        ),
        0 <= ppm <= MICRO,
{
    let nominal: i128 = battery.nominal_voltage_uv as i128;
    let low: i128 = battery.low_voltage_uv as i128;
    let voltage: i128 = voltage_uv as i128;
    if nominal <= low {
        MICRO
    } else if voltage <= low {
        0
    } else if voltage >= nominal {
        MICRO
    } else {
        let span: i128 = nominal - low;
        let above: i128 = voltage - low;
        assert(0 <= (above as int * 1_000_000) / (span as int) < 1_000_000) by (nonlinear_arith)
            requires
                0 < above < span,
        ;
        ((above * (MICRO as i128)) / span) as i64
    }
}

/// True when `voltage_uv` is at or below the low-voltage threshold.
pub fn is_low_battery(voltage_uv: i64, battery: &BatteryConfig) -> (low: bool)
    ensures
        low == (voltage_uv <= battery.low_voltage_uv),
{
    voltage_uv <= battery.low_voltage_uv
}

/// The battery reading: the battery is taken to sit at its nominal voltage.
pub fn build_power_state(battery: &BatteryConfig, timestamp_ns: u64) -> (out: PowerState)
    ensures
        out == (PowerState {
            timestamp_ns,
            battery_voltage_uv: battery.nominal_voltage_uv,
            battery_percent_ppm: MICRO,
            low_battery: battery.nominal_voltage_uv <= battery.low_voltage_uv,
        }),
{
    let voltage = battery.nominal_voltage_uv;
    PowerState {
        timestamp_ns,
        battery_voltage_uv: voltage,
        battery_percent_ppm: battery_percent(voltage, battery),
        low_battery: is_low_battery(voltage, battery),
    }
}

/// The rolling state of the drive component.
#[derive(Debug)]
pub struct MotorBus {
    /// The arbitrated command received last.
    pub last_cmd: VelocityCommand,
    /// When the battery reading was published last.
    pub last_power_ns: u64,
}

/// What one tick of the drive component publishes.
#[derive(Debug)]
pub struct MotorTick {
    pub servos: ServoStateArray,
    pub power: Option<PowerState>,
}

impl MotorBus {
    /// A drive component that has received nothing yet: it holds the zero command.
    pub fn new(now_ns: u64, stamp_ns: u64) -> (bus: MotorBus)
        ensures
            bus.last_cmd@ == VelocityCommandView::zero("motor_bus"@, stamp_ns),
            bus.last_power_ns == now_ns,
    {
        MotorBus { last_cmd: VelocityCommand::zero("motor_bus", stamp_ns), last_power_ns: now_ns }
    }

    /// Takes in an arbitrated command; it replaces the previous one.
    pub fn on_command(&mut self, cmd: VelocityCommand)
        ensures
            final(self).last_cmd@ == cmd@,
            final(self).last_power_ns == old(self).last_power_ns,
    {
        self.last_cmd = cmd;
    }

    /// True when a tick at `now_ns` also publishes the battery reading.
    pub open spec fn power_due(&self, now_ns: u64) -> bool {
        elapsed_spec(now_ns, self.last_power_ns) >= POWER_PERIOD_NS as nat
    }

    /// One tick: the wheel targets for the command held, computed afresh, and once
    /// a second the battery reading.
    pub fn tick(&mut self, robot: &RobotConfig, now_ns: u64, stamp_ns: u64) -> (out: MotorTick)
        ensures
            final(self).last_cmd@ == old(self).last_cmd@,
            final(self).last_power_ns == if old(self).power_due(now_ns) {
                now_ns
            } else {
                old(self).last_power_ns
            },
            out.servos.timestamp_ns == stamp_ns,
            out.servos.servos@.len() == robot.drive.wheel_mounts@.len(),
            forall|i: int|
                0 <= i < robot.drive.wheel_mounts@.len() ==> (#[trigger] out.servos.servos@[i])@
                    == servo_state_spec(
                    robot.drive.wheel_mounts@[i],
                    robot.drive.wheel_radius_um,
                    robot.drive.wheel_distance_um,
                    robot.battery.nominal_voltage_uv,
                    old(self).last_cmd@,
                ),
            out.power == if old(self).power_due(now_ns) {
                Some(
                    PowerState {
                        timestamp_ns: stamp_ns,
                        battery_voltage_uv: robot.battery.nominal_voltage_uv,
                        battery_percent_ppm: MICRO,
                        low_battery: robot.battery.nominal_voltage_uv
                            <= robot.battery.low_voltage_uv,
                    },
                )
            } else {
                None
            },
    {
        let servos = build_servo_state(&self.last_cmd, &robot.drive, &robot.battery, stamp_ns);
        let power = if elapsed(now_ns, self.last_power_ns) >= POWER_PERIOD_NS {
            self.last_power_ns = now_ns;
            Some(build_power_state(&robot.battery, stamp_ns))
        } else {
            None
        };
        MotorTick { servos, power }
    }
}

/// Sign law: a wheel mounted at angle zero that turns in the positive direction
/// gets a target that is not negative from a purely forward command.
pub proof fn lemma_forward_wheel_not_negative(
    mount: WheelMount,
    wheel_radius_um: i64,
    wheel_distance_um: i64,
    cmd: VelocityCommandView,
)
    requires
        mount.angle_sin_ppm == 0,
        mount.angle_cos_ppm == MICRO,
        mount.direction == 1,
        cmd.vx_um_s > 0,
        cmd.vy_um_s == 0,
        cmd.omega_urad_s == 0,
    ensures
        wheel_velocity_spec(mount, wheel_radius_um, wheel_distance_um, cmd) >= 0,
{
    assert(tangential_spec(
        0,
        MICRO as int,
        wheel_distance_um as int,
        cmd.vx_um_s,
        0,
        0,
    ) == 0) by (nonlinear_arith);
}

} // verus!
