//! The camera component: publishes a frame without image data at each camera's
//! frame rate.
use crate::config::CameraConfig;
use crate::fixed::NANOS_PER_SEC;
use crate::messages::CameraFrame;
use vstd::prelude::*;
use vstd::string::StringExecFns;

verus! {

/// The time between two frames at `fps` frames per second; a rate of zero
/// counts as one.
pub open spec fn frame_period_spec(fps: u32) -> int {
    if fps == 0 {
        NANOS_PER_SEC as int
    } else {
        (NANOS_PER_SEC as int) / (fps as int)
    }
}

/// The time between two frames, in nanoseconds.
pub fn frame_period_ns(fps: u32) -> (period: u64)
    ensures
        period as int == frame_period_spec(fps),
{
    let rate: u64 = if fps == 0 {
        1
    } else {
        fps as u64
    };
    NANOS_PER_SEC / rate
}

/// A frame of the configured size and format that carries no image; its frame
/// identifier is the camera's name after `camera_`.
pub fn blank_frame(camera: &CameraConfig, timestamp_ns: u64) -> (frame: CameraFrame)
    ensures
        frame.timestamp_ns == timestamp_ns,
        frame.camera_name@ == camera.name@,
        frame.frame_id@ == "camera_"@ + camera.name@,
        frame.width == camera.width,
        frame.height == camera.height,
        frame.encoding@ == camera.format@,
        frame.data_base64@ == Seq::<char>::empty(),
{
    let mut frame_id = "camera_".to_owned();
    frame_id.append(camera.name.as_str());
    CameraFrame {
        timestamp_ns,
        camera_name: camera.name.clone(),
        frame_id,
        width: camera.width,
        height: camera.height,
        encoding: camera.format.clone(),
        data_base64: String::new(),
    }
}

} // verus!
