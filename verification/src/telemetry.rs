//! The names under which the bus's traffic is published to the outside.
use vstd::prelude::*;

verus! {

pub const TOPIC_CMD_VELOCITY: &'static str = "/cmd/velocity";

pub const TOPIC_CMD_SKILL: &'static str = "/cmd/skill";

pub const TOPIC_CMD_ESTOP: &'static str = "/cmd/estop";

pub const TOPIC_STATE_ODOM: &'static str = "/state/odometry";

pub const TOPIC_STATE_SERVOS: &'static str = "/state/servos";

pub const TOPIC_STATE_POWER: &'static str = "/state/power";

pub const TOPIC_SYSTEM_DIAG: &'static str = "/system/diagnostics";

pub const TOPIC_CAMERA_BASE: &'static str = "/sensors/camera/base";

pub const TOPIC_CAMERA_WRIST: &'static str = "/sensors/camera/wrist";

pub const TOPIC_LOG_CONTROL: &'static str = "/log/control";

pub const TOPIC_LOG_STATUS: &'static str = "/log/status";

/// True when the two texts are the same, character for character.
pub fn same_text(a: &str, b: &str) -> (same: bool)
    ensures
        same == (a@ == b@),
{
    a.to_owned() == b.to_owned()
}

/// The topic a camera's frames are published under: the wrist camera has its own,
/// every other camera shares the base camera's.
pub open spec fn camera_topic_spec(camera_name: Seq<char>) -> Seq<char> {
    if camera_name == "wrist"@ {
        TOPIC_CAMERA_WRIST@
    } else {
        TOPIC_CAMERA_BASE@
    }
}

/// The topic a camera's frames are published under.
pub fn camera_topic(camera_name: &str) -> (topic: &'static str)
    ensures
        topic@ == camera_topic_spec(camera_name@),
{
    if same_text(camera_name, "wrist") {
        TOPIC_CAMERA_WRIST
    } else {
        TOPIC_CAMERA_BASE
    }
}

} // verus!
