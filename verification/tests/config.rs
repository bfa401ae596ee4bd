use robot_control_server::config::{
    default_baud_rate, default_calibration_path, default_fps, default_host, default_log_level, default_port, Settings,
};

#[test]
fn defaults() {
    assert_eq!(default_host(), "0.0.0.0");
    assert_eq!(default_port(), 8000);
    assert_eq!(default_log_level(), "info");
    assert_eq!(default_calibration_path(), "../calibration/leader.json");
    assert_eq!(default_fps(), 30);
    assert_eq!(default_baud_rate(), 1_000_000);
    let s = Settings::default();
    assert_eq!(s.host, "0.0.0.0");
    assert_eq!(s.port, 8000);
    assert_eq!(s.baud_rate, 1_000_000);
}

#[test]
fn environment_values_override_defaults() {
    let s = Settings::from_env_values(
        Some("127.0.0.1".to_string()),
        Some("9000".to_string()),
        Some("debug".to_string()),
        Some("cal.json".to_string()),
        Some("60".to_string()),
        Some("115200".to_string()),
    );
    assert_eq!(s.host, "127.0.0.1");
    assert_eq!(s.port, 9000);
    assert_eq!(s.log_level, "debug");
    assert_eq!(s.calibration_path, "cal.json");
    assert_eq!(s.default_fps, 60);
    assert_eq!(s.baud_rate, 115200);
}

#[test]
fn unreadable_numbers_keep_defaults() {
    let s = Settings::from_env_values(None, Some("70000".to_string()), None, None, Some("fast".to_string()), Some("-1".to_string()));
    assert_eq!(s.host, "0.0.0.0");
    assert_eq!(s.port, 8000);
    assert_eq!(s.log_level, "info");
    assert_eq!(s.default_fps, 30);
    assert_eq!(s.baud_rate, 1_000_000);
}

#[test]
fn address_text() {
    assert_eq!(Settings::default().address_text(), "0.0.0.0:8000");
    let s = Settings::from_env_values(Some("::1".to_string()), Some("0".to_string()), None, None, None, None);
    assert_eq!(s.address_text(), "::1:0");
}
