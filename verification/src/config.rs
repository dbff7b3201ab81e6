//! The static configuration of a run; the core never changes it.
use vstd::prelude::*;

verus! {

/// Everything the robot stack is configured with.
#[derive(Debug, Clone)]
pub struct AppConfig {
    pub robot: RobotConfig,
    pub cameras: CamerasConfig,
    pub logging: LoggingConfig,
}

/// The robot's own configuration.
#[derive(Debug, Clone)]
pub struct RobotConfig {
    pub robot: RobotInfo,
    pub battery: BatteryConfig,
    pub servo_bus: ServoBusConfig,
    pub drive: DriveConfig,
    pub limits: LimitsConfig,
    pub safety: SafetyConfig,
    pub frames: FramesConfig,
}

/// Who the robot is.
#[derive(Debug, Clone)]
pub struct RobotInfo {
    pub name: String,
    pub platform: String,
    pub compute: String,
}

/// The battery's chemistry and its two reference voltages, in microvolts.
#[derive(Debug, Clone)]
pub struct BatteryConfig {
    pub kind: String,
    pub nominal_voltage_uv: i64,
    pub low_voltage_uv: i64,
}

/// How the servos are reached.
#[derive(Debug, Clone)]
pub struct ServoBusConfig {
    pub port: String,
    pub baud_rate: u32,
    pub protocol: String,
}

/// The drive geometry shared by all wheels, in micrometres, and the wheels themselves.
#[derive(Debug, Clone)]
pub struct DriveConfig {
    pub wheel_radius_um: i64,
    pub wheel_distance_um: i64,
    pub wheel_mounts: Vec<WheelMount>,
}

/// One wheel: where it sits on the body and which way it turns.
///
/// The mounting angle is held as its sine and cosine in millionths, which is what
/// the drive formula reads.
#[derive(Debug, Clone)]
pub struct WheelMount {
    pub name: String,
    pub angle_sin_ppm: i32,
    pub angle_cos_ppm: i32,
    pub servo_id: u8,
    pub direction: i8,
}

/// Largest speeds and accelerations the arbiter lets through, as magnitudes.
#[derive(Debug, Clone)]
pub struct LimitsConfig {
    pub max_vx_um_s: u64,
    pub max_vy_um_s: u64,
    pub max_omega_urad_s: u64,
    pub max_accel_um_s2: u64,
    pub max_alpha_urad_s2: u64,
}

/// The safety rules the arbiter enforces; the temperature limit is in millionths
/// of a degree Celsius.
#[derive(Debug, Clone)]
pub struct SafetyConfig {
    pub command_timeout_ms: u64,
    pub estop_enabled: bool,
    pub servo_temp_limit_uc: i64,
    pub low_battery_stop: bool,
}

/// The names of the coordinate frames.
#[derive(Debug, Clone)]
pub struct FramesConfig {
    pub base_link: String,
    pub odom: String,
    pub map: String,
}

/// The cameras of the robot.
#[derive(Debug, Clone)]
pub struct CamerasConfig {
    pub cameras: Vec<CameraConfig>,
}

/// One camera: its device, frame size, rate and format.
#[derive(Debug, Clone)]
pub struct CameraConfig {
    pub name: String,
    pub device: String,
    pub width: u32,
    pub height: u32,
    pub fps: u32,
    pub format: String,
    pub auto_exposure: bool,
    pub auto_focus: bool,
    pub flip_horizontal: bool,
    pub flip_vertical: bool,
}

/// The recording configuration as its file holds it.
#[derive(Debug, Clone)]
pub struct LoggingConfig {
    pub logging: LoggingSettings,
}

/// Where recordings go and what they hold by default.
#[derive(Debug, Clone)]
pub struct LoggingSettings {
    pub directory: String,
    pub include_cameras: bool,
    pub rotate_on_size_mb: u64,
    pub default_topics: Vec<String>,
}

} // verus!
