use robot_control_server::cameras::{
    camera_index, camera_info, handle_camera_command, is_known_driver, strip_trailing_zeros, CameraCommand,
    CameraConfig, CameraStatus, CameraStatusMessage, CaptureSettings,
};

#[test]
fn status_names() {
    let all = [
        (CameraStatus::Pending, "pending"),
        (CameraStatus::Connecting, "connecting"),
        (CameraStatus::Running, "running"),
        (CameraStatus::Reconnecting, "reconnecting"),
        (CameraStatus::Error, "error"),
        (CameraStatus::Stopped, "stopped"),
    ];
    for (s, n) in all {
        assert_eq!(s.as_str(), n);
    }
}

#[test]
fn status_message_shape() {
    let m = CameraStatusMessage::status(CameraStatus::Error, Some("boom".to_string()));
    assert_eq!(m.event, "status");
    assert_eq!(m.state, "error");
    assert_eq!(m.message.as_deref(), Some("boom"));
}

#[test]
fn ping_gets_pong_and_disconnect_nothing() {
    let m = handle_camera_command(&CameraCommand::Ping).unwrap();
    assert_eq!(m.event, "status");
    assert_eq!(m.state, "running");
    assert_eq!(m.message.as_deref(), Some("pong"));
    assert!(handle_camera_command(&CameraCommand::Disconnect).is_none());
}

#[test]
fn capture_settings_defaults() {
    let c = CameraConfig {
        driver: "usb_camera".to_string(),
        fingerprint: "2".to_string(),
        name: None,
        width: None,
        height: None,
        fps: None,
    };
    assert_eq!(c.capture_settings(), CaptureSettings { index: 2, width: 640, height: 480, fps: 30 });
    let c2 = CameraConfig { fingerprint: "cam".to_string(), width: Some(1920), height: Some(1080), fps: Some(5), ..c };
    assert_eq!(c2.capture_settings(), CaptureSettings { index: 0, width: 1920, height: 1080, fps: 5 });
}

#[test]
fn camera_index_of_fingerprints() {
    assert_eq!(camera_index("0"), 0);
    assert_eq!(camera_index("17"), 17);
    assert_eq!(camera_index("-1"), 0);
    assert_eq!(camera_index(""), 0);
    assert_eq!(camera_index("4294967296"), 0);
}

#[test]
fn listed_fingerprint_names_the_camera_again() {
    for idx in [0u32, 3, 42, 4_000_000_000] {
        let info = camera_info(idx, "Logitech C920".to_string(), 640, 480);
        assert_eq!(info.driver, "usb_camera");
        assert_eq!(info.fingerprint, idx.to_string());
        assert_eq!(camera_index(&info.fingerprint), idx);
        assert_eq!(info.hardware_name, "Logitech C920");
        assert_eq!(info.default_profile.width, 640);
        assert_eq!(info.default_profile.height, 480);
        assert_eq!(info.default_profile.fps, vec![30]);
    }
}

#[test]
fn only_usb_camera_driver_is_known() {
    assert!(is_known_driver("usb_camera"));
    assert!(!is_known_driver("ip_camera"));
    assert!(!is_known_driver(""));
}

#[test]
fn strips_zero_padding_only_at_the_end() {
    assert_eq!(strip_trailing_zeros(&[0xFF, 0xD8, 0, 1, 0xFF, 0xD9, 0, 0, 0]), vec![0xFF, 0xD8, 0, 1, 0xFF, 0xD9]);
    assert_eq!(strip_trailing_zeros(&[0, 0]), Vec::<u8>::new());
    assert_eq!(strip_trailing_zeros(&[]), Vec::<u8>::new());
    assert_eq!(strip_trailing_zeros(&[5]), vec![5]);
    let once = strip_trailing_zeros(&[1, 0, 2, 0, 0]);
    assert_eq!(strip_trailing_zeros(&once), once);
}
