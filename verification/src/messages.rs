//! The typed messages that travel between components.
//!
//! Velocities, positions, angles, voltages and ratios are signed integers in
//! millionths of their unit; timestamps and durations are nanoseconds.
use vstd::prelude::*;

verus! {

/// A planar velocity request: body-frame translation and rotation about the vertical axis.
#[derive(Debug, Clone)]
pub struct VelocityCommand {
    pub timestamp_ns: u64,
    pub vx_um_s: i64,
    pub vy_um_s: i64,
    pub omega_urad_s: i64,
    pub source: String,
    pub priority: i32,
}

/// The mathematical content of a [`VelocityCommand`].
pub struct VelocityCommandView {
    pub timestamp_ns: u64,
    pub vx_um_s: int,
    pub vy_um_s: int,
    pub omega_urad_s: int,
    pub source: Seq<char>,
    pub priority: int,
}

impl View for VelocityCommand {
    type V = VelocityCommandView;

    open spec fn view(&self) -> VelocityCommandView {
        VelocityCommandView {
            timestamp_ns: self.timestamp_ns,
            vx_um_s: self.vx_um_s as int,
            vy_um_s: self.vy_um_s as int,
            omega_urad_s: self.omega_urad_s as int,
            source: self.source@,
            priority: self.priority as int,
        }
    }
}

impl VelocityCommandView {
    /// The command that asks for no motion at all.
    pub open spec fn zero(source: Seq<char>, timestamp_ns: u64) -> VelocityCommandView {
        VelocityCommandView {
            timestamp_ns,
            vx_um_s: 0,
            vy_um_s: 0,
            omega_urad_s: 0,
            source,
            priority: 0,
        }
    }

    /// True when all three velocity components are zero.
    pub open spec fn is_stopped(self) -> bool {
        self.vx_um_s == 0 && self.vy_um_s == 0 && self.omega_urad_s == 0
    }
}

impl VelocityCommand {
    /// The command that asks for no motion, tagged with its origin and time.
    pub fn zero(source: &str, timestamp_ns: u64) -> (cmd: VelocityCommand)
        ensures
            cmd@ == VelocityCommandView::zero(source@, timestamp_ns),
    {
        VelocityCommand {
            timestamp_ns,
            vx_um_s: 0,
            vy_um_s: 0,
            omega_urad_s: 0,
            source: source.to_owned(),
            priority: 0,
        }
    }

    /// An independent copy with the same content.
    pub fn duplicate(&self) -> (cmd: VelocityCommand)
        ensures
            cmd@ == self@,
    {
        VelocityCommand {
            timestamp_ns: self.timestamp_ns,
            vx_um_s: self.vx_um_s,
            vy_um_s: self.vy_um_s,
            omega_urad_s: self.omega_urad_s,
            source: self.source.clone(),
            priority: self.priority,
        }
    }
}

/// A request to run a named skill; `params_json` carries its arguments as JSON text.
#[derive(Debug, Clone)]
pub struct SkillCommand {
    pub timestamp_ns: u64,
    pub request_id: String,
    pub skill_name: String,
    pub params_json: String,
    pub timeout_us: u64,
    pub priority: i32,
}

/// The emergency-stop signal; the latest one received is the one in force.
#[derive(Debug, Clone)]
pub struct EstopCommand {
    pub timestamp_ns: u64,
    pub enabled: bool,
    pub reason: String,
    pub source: String,
}

/// What a recording request asks for.
#[derive(Debug, Clone, Copy, PartialEq, Eq, Structural)]
pub enum LogAction {
    Start,
    Stop,
}

/// A request to start or stop recording.
#[derive(Debug, Clone)]
pub struct LogControl {
    pub timestamp_ns: u64,
    pub action: LogAction,
    pub topics: Option<Vec<String>>,
    pub session_name: Option<String>,
}

/// The state of the recording session.
#[derive(Debug, Clone)]
pub struct LogStatus {
    pub timestamp_ns: u64,
    pub active: bool,
    pub file_path: Option<String>,
    pub size_bytes: Option<u64>,
    pub duration_ns: Option<u64>,
}

impl LogStatus {
    /// The status of a recorder that is not recording and has nothing to report.
    pub fn idle(timestamp_ns: u64) -> (status: LogStatus)
        ensures
            status.timestamp_ns == timestamp_ns,
            !status.active,
            status.file_path is None,
            status.size_bytes is None,
            status.duration_ns is None,
    {
        LogStatus {
            timestamp_ns,
            active: false,
            file_path: None,
            size_bytes: None,
            duration_ns: None,
        }
    }
}

/// The integrated pose together with the velocity that produced it.
#[derive(Debug, Clone)]
pub struct Odometry {
    pub timestamp_ns: u64,
    pub x_um: i64,
    pub y_um: i64,
    pub theta_urad: i64,
    pub vx_um_s: i64,
    pub vy_um_s: i64,
    pub omega_urad_s: i64,
    pub frame_id: String,
}

/// The actuation snapshot of one wheel servo.
#[derive(Debug, Clone)]
pub struct ServoState {
    pub id: u8,
    pub name: String,
    pub position_urad: i64,
    pub velocity_urad_s: i64,
    pub load_ppm: i64,
    pub temperature_uc: i64,
    pub voltage_uv: i64,
    pub error_flags: u32,
}

/// The mathematical content of a [`ServoState`].
pub struct ServoStateView {
    pub id: u8,
    pub name: Seq<char>,
    pub position_urad: int,
    pub velocity_urad_s: int,
    pub load_ppm: int,
    pub temperature_uc: int,
    pub voltage_uv: int,
    pub error_flags: u32,
}

impl View for ServoState {
    type V = ServoStateView;

    open spec fn view(&self) -> ServoStateView {
        ServoStateView {
            id: self.id,
            name: self.name@,
            position_urad: self.position_urad as int,
            velocity_urad_s: self.velocity_urad_s as int,
            load_ppm: self.load_ppm as int,
            temperature_uc: self.temperature_uc as int,
            voltage_uv: self.voltage_uv as int,
            error_flags: self.error_flags,
        }
    }
}

/// The actuation snapshots of all wheels at one instant.
#[derive(Debug, Clone)]
pub struct ServoStateArray {
    pub timestamp_ns: u64,
    pub servos: Vec<ServoState>,
}

/// The battery reading.
#[derive(Debug, Clone)]
pub struct PowerState {
    pub timestamp_ns: u64,
    pub battery_voltage_uv: i64,
    pub battery_percent_ppm: i64,
    pub low_battery: bool,
}

/// The overall health reported in a diagnostics summary.
#[derive(Debug, Clone, Copy, PartialEq, Eq, Structural)]
pub enum DiagnosticStatus {
    Okay,
    Warn,
    Error,
}

/// A periodic health summary.
#[derive(Debug, Clone)]
pub struct Diagnostics {
    pub timestamp_ns: u64,
    pub status: DiagnosticStatus,
    pub warnings: Vec<String>,
    pub last_error: Option<String>,
    pub uptime_ns: u64,
}

/// The mathematical content of a [`Diagnostics`] summary.
pub struct DiagnosticsView {
    pub timestamp_ns: u64,
    pub status: DiagnosticStatus,
    pub warnings: Seq<Seq<char>>,
    pub last_error: Option<Seq<char>>,
    pub uptime_ns: u64,
}

impl View for Diagnostics {
    type V = DiagnosticsView;

    open spec fn view(&self) -> DiagnosticsView {
        DiagnosticsView {
            timestamp_ns: self.timestamp_ns,
            status: self.status,
            warnings: self.warnings.deep_view(),
            last_error: match self.last_error {
                Some(text) => Some(text@),
                None => None,
            },
            uptime_ns: self.uptime_ns,
        }
    }
}

/// One camera frame; the image travels as base64 text.
#[derive(Debug, Clone)]
pub struct CameraFrame {
    pub timestamp_ns: u64,
    pub camera_name: String,
    pub frame_id: String,
    pub width: u32,
    pub height: u32,
    pub encoding: String,
    pub data_base64: String,
}

/// The timestamp a message carries once accepted: the producer's own when it set
/// one, the time of arrival otherwise.
pub open spec fn stamped_spec(timestamp_ns: u64, now_ns: u64) -> u64 {
    if timestamp_ns == 0 {
        now_ns
    } else {
        timestamp_ns
    }
}

/// The timestamp a message carries once accepted: the producer's own when it set
/// one, the time of arrival otherwise.
pub fn stamped(timestamp_ns: u64, now_ns: u64) -> (t: u64)
    ensures
        t == stamped_spec(timestamp_ns, now_ns),
{
    if timestamp_ns == 0 {
        now_ns
    } else {
        timestamp_ns
    }
}

} // verus!
