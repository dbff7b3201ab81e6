use lekiwi::config::{CameraConfig, LoggingSettings};
use lekiwi::messages::{stamped, LogAction, LogControl, LogStatus, VelocityCommand};
use lekiwi::services::cameras::{frame_period_ns, blank_frame};
use lekiwi::services::foxglove_server::{route_client_message, ClientRoute};
use lekiwi::services::mcap_logger::{
    decimal, log_file_name, resolve_topics, topic_selected, Recorder, RecorderPlan,
};
use lekiwi::telemetry::{camera_topic, same_text, TOPIC_CAMERA_BASE, TOPIC_CAMERA_WRIST};

fn settings(include_cameras: bool, defaults: &[&str]) -> LoggingSettings {
    LoggingSettings {
        directory: "logs".to_string(),
        include_cameras,
        rotate_on_size_mb: 512,
        default_topics: defaults.iter().map(|s| s.to_string()).collect(),
    }
}

fn sorted(mut topics: Vec<String>) -> Vec<String> {
    topics.sort();
    topics
}

#[test]
fn zero_command_is_at_rest() {
    let cmd = VelocityCommand::zero("timeout", 12);
    assert_eq!(cmd.timestamp_ns, 12);
    assert_eq!(cmd.vx_um_s, 0);
    assert_eq!(cmd.vy_um_s, 0);
    assert_eq!(cmd.omega_urad_s, 0);
    assert_eq!(cmd.source, "timeout");
    assert_eq!(cmd.priority, 0);
}

#[test]
fn duplicate_copies_every_field() {
    let cmd = VelocityCommand {
        timestamp_ns: 4,
        vx_um_s: -1,
        vy_um_s: 2,
        omega_urad_s: -3,
        source: "teleop".to_string(),
        priority: 9,
    };
    let copy = cmd.duplicate();
    assert_eq!(copy.timestamp_ns, 4);
    assert_eq!(copy.vx_um_s, -1);
    assert_eq!(copy.vy_um_s, 2);
    assert_eq!(copy.omega_urad_s, -3);
    assert_eq!(copy.source, "teleop");
    assert_eq!(copy.priority, 9);
}

#[test]
fn unstamped_messages_get_the_arrival_time() {
    assert_eq!(stamped(0, 500), 500);
    assert_eq!(stamped(17, 500), 17);
    assert_eq!(stamped(0, 0), 0);
}

#[test]
fn requested_topics_win_over_defaults() {
    let logging = settings(false, &["/state/odometry", "/state/power"]);
    let topics = resolve_topics(&logging, Some(vec!["/cmd/velocity".to_string()]));
    assert_eq!(topics, vec!["/cmd/velocity".to_string()]);
}

#[test]
fn defaults_apply_when_nothing_is_requested() {
    let logging = settings(false, &["/state/odometry", "/state/power"]);
    let expected = vec!["/state/odometry".to_string(), "/state/power".to_string()];
    assert_eq!(sorted(resolve_topics(&logging, None)), expected);
    assert_eq!(sorted(resolve_topics(&logging, Some(Vec::new()))), expected);
}

#[test]
fn camera_topics_are_added_when_included() {
    let logging = settings(true, &["/state/odometry"]);
    let topics = sorted(resolve_topics(&logging, None));
    assert_eq!(
        topics,
        vec![
            TOPIC_CAMERA_BASE.to_string(),
            TOPIC_CAMERA_WRIST.to_string(),
            "/state/odometry".to_string(),
        ]
    );
}

#[test]
fn each_topic_is_named_once() {
    let logging = settings(true, &[]);
    let requested = vec![
        "/a".to_string(),
        "/sensors/camera/base".to_string(),
        "/a".to_string(),
        "/b".to_string(),
    ];
    let topics = sorted(resolve_topics(&logging, Some(requested)));
    assert_eq!(
        topics,
        vec![
            "/a".to_string(),
            "/b".to_string(),
            "/sensors/camera/base".to_string(),
            "/sensors/camera/wrist".to_string(),
        ]
    );
}

#[test]
fn nothing_requested_and_no_defaults_records_nothing() {
    let logging = settings(false, &[]);
    assert!(resolve_topics(&logging, None).is_empty());
}

#[test]
fn topic_selection_is_exact() {
    let topics = vec!["/a".to_string(), "/b".to_string()];
    assert!(topic_selected(&topics, "/a"));
    assert!(topic_selected(&topics, "/b"));
    assert!(!topic_selected(&topics, "/c"));
    assert!(!topic_selected(&topics, "/A"));
    assert!(!topic_selected(&Vec::new(), "/a"));
}

#[test]
fn the_wrist_camera_has_its_own_topic() {
    assert_eq!(camera_topic("wrist"), "/sensors/camera/wrist");
    assert_eq!(camera_topic("base"), "/sensors/camera/base");
    assert_eq!(camera_topic("front"), "/sensors/camera/base");
    assert_eq!(camera_topic(""), "/sensors/camera/base");
}

#[test]
fn same_text_compares_character_for_character() {
    assert!(same_text("json", "json"));
    assert!(!same_text("json", "JSON"));
    assert!(!same_text("json", "jso"));
    assert!(same_text("", ""));
}

#[test]
fn decimal_writes_numerals_without_leading_zeros() {
    assert_eq!(decimal(0), "0");
    assert_eq!(decimal(7), "7");
    assert_eq!(decimal(10), "10");
    assert_eq!(decimal(1_234_567_890), "1234567890");
    assert_eq!(decimal(u64::MAX), "18446744073709551615");
    for n in [9u64, 99, 100, 101, 1_000_000, 987_654_321_012] {
        assert_eq!(decimal(n), n.to_string());
    }
}

#[test]
fn log_file_takes_the_session_name() {
    assert_eq!(log_file_name(Some("run1"), 5), "run1.mcap");
    assert_eq!(log_file_name(Some(""), 5), ".mcap");
}

#[test]
fn log_file_without_a_session_name_is_named_by_the_time() {
    assert_eq!(log_file_name(None, 1_700_000_000_000_000_000), "session-1700000000000000000.mcap");
    assert_eq!(log_file_name(None, 0), "session-0.mcap");
}

fn control(action: LogAction, topics: Option<Vec<String>>, session: Option<&str>) -> LogControl {
    LogControl { timestamp_ns: 1, action, topics, session_name: session.map(|s| s.to_string()) }
}

#[test]
fn recorder_opens_a_session_on_start() {
    let logging = settings(true, &["/state/odometry"]);
    let mut recorder = Recorder::new();
    assert!(!recorder.active);
    match recorder.plan(&logging, control(LogAction::Start, None, Some("demo")), 9) {
        RecorderPlan::Open { file_name, topics } => {
            assert_eq!(file_name, "demo.mcap");
            assert_eq!(
                sorted(topics),
                vec![
                    "/sensors/camera/base".to_string(),
                    "/sensors/camera/wrist".to_string(),
                    "/state/odometry".to_string(),
                ]
            );
        }
        other => panic!("expected a session to open, got {:?}", other),
    }
    let status = recorder.started("logs/demo.mcap".to_string(), 1_000, 2_000);
    assert!(recorder.active);
    assert_eq!(recorder.start_ns, Some(1_000));
    assert_eq!(recorder.active_path.as_deref(), Some("logs/demo.mcap"));
    assert_eq!(status.timestamp_ns, 2_000);
    assert!(status.active);
    assert_eq!(status.file_path.as_deref(), Some("logs/demo.mcap"));
    assert!(status.size_bytes.is_none());
    assert!(status.duration_ns.is_none());
}

#[test]
fn recorder_names_a_session_by_the_time_when_it_has_no_name() {
    let logging = settings(false, &["/a"]);
    let recorder = Recorder::new();
    match recorder.plan(&logging, control(LogAction::Start, Some(vec!["/b".to_string()]), None), 42) {
        RecorderPlan::Open { file_name, topics } => {
            assert_eq!(file_name, "session-42.mcap");
            assert_eq!(topics, vec!["/b".to_string()]);
        }
        other => panic!("expected a session to open, got {:?}", other),
    }
}

#[test]
fn recorder_refuses_a_second_start() {
    let logging = settings(false, &["/a"]);
    let mut recorder = Recorder::new();
    let _ = recorder.started("logs/a.mcap".to_string(), 0, 0);
    assert!(matches!(
        recorder.plan(&logging, control(LogAction::Start, None, None), 1),
        RecorderPlan::AlreadyActive
    ));
    assert!(matches!(
        recorder.plan(&logging, control(LogAction::Stop, None, None), 1),
        RecorderPlan::Close
    ));
}

#[test]
fn recorder_reports_file_and_duration_on_stop() {
    let mut recorder = Recorder::new();
    let _ = recorder.started("logs/a.mcap".to_string(), 1_000, 0);
    let status = recorder.stopped(4_500, 77);
    assert!(!recorder.active);
    assert!(recorder.active_path.is_none());
    assert!(recorder.start_ns.is_none());
    assert_eq!(status.timestamp_ns, 77);
    assert!(!status.active);
    assert_eq!(status.file_path.as_deref(), Some("logs/a.mcap"));
    assert_eq!(status.duration_ns, Some(3_500));
    assert!(status.size_bytes.is_none());
}

#[test]
fn recorder_stop_without_a_session_reports_nothing() {
    let mut recorder = Recorder::new();
    let status = recorder.stopped(10, 20);
    assert!(!status.active);
    assert!(status.file_path.is_none());
    assert!(status.duration_ns.is_none());
    assert_eq!(status.timestamp_ns, 20);
}

#[test]
fn idle_status_reports_nothing() {
    let status = LogStatus::idle(31);
    assert_eq!(status.timestamp_ns, 31);
    assert!(!status.active);
    assert!(status.file_path.is_none());
    assert!(status.size_bytes.is_none());
    assert!(status.duration_ns.is_none());
}

#[test]
fn client_messages_are_routed_by_topic() {
    assert_eq!(route_client_message("json", "/cmd/velocity"), ClientRoute::Velocity);
    assert_eq!(route_client_message("json", "/cmd/skill"), ClientRoute::Skill);
    assert_eq!(route_client_message("json", "/cmd/estop"), ClientRoute::Estop);
    assert_eq!(route_client_message("json", "/log/control"), ClientRoute::LogControl);
    assert_eq!(route_client_message("json", "/state/odometry"), ClientRoute::Ignored);
    assert_eq!(route_client_message("json", ""), ClientRoute::Ignored);
}

#[test]
fn client_messages_in_another_encoding_are_dropped() {
    assert_eq!(route_client_message("protobuf", "/cmd/velocity"), ClientRoute::UnsupportedEncoding);
    assert_eq!(route_client_message("", "/cmd/estop"), ClientRoute::UnsupportedEncoding);
    assert_eq!(route_client_message("JSON", "/nowhere"), ClientRoute::UnsupportedEncoding);
}

fn camera(name: &str, fps: u32) -> CameraConfig {
    CameraConfig {
        name: name.to_string(),
        device: "/dev/video0".to_string(),
        width: 640,
        height: 480,
        fps,
        format: "mjpeg".to_string(),
        auto_exposure: true,
        auto_focus: false,
        flip_horizontal: false,
        flip_vertical: false,
    }
}

#[test]
fn frame_period_is_the_inverse_of_the_rate() {
    assert_eq!(frame_period_ns(1), 1_000_000_000);
    assert_eq!(frame_period_ns(30), 33_333_333);
    assert_eq!(frame_period_ns(50), 20_000_000);
    assert_eq!(frame_period_ns(0), 1_000_000_000);
    assert_eq!(frame_period_ns(u32::MAX), 0);
}

#[test]
fn blank_frame_carries_no_image() {
    let frame = blank_frame(&camera("wrist", 30), 123);
    assert_eq!(frame.timestamp_ns, 123);
    assert_eq!(frame.camera_name, "wrist");
    assert_eq!(frame.frame_id, "camera_wrist");
    assert_eq!(frame.width, 640);
    assert_eq!(frame.height, 480);
    assert_eq!(frame.encoding, "mjpeg");
    assert_eq!(frame.data_base64, "");
}
