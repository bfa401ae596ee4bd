use robot_control_server::error::{AppError, ErrorPayload};

#[test]
fn constructors_set_codes_and_statuses() {
    let e = AppError::robot_not_found("X".to_string());
    assert!(matches!(e, AppError::RobotNotFound(_)));
    assert_eq!(e.payload().error, "robot_not_found");
    assert_eq!(e.payload().message, "X");
    assert_eq!(e.status_code(), 404);
    assert_eq!(e.to_text(), "Robot not found: X");

    let e = AppError::robot_not_found_with_code("lock_error", "lock error".to_string());
    assert_eq!(e.payload().error, "lock_error");
    assert_eq!(e.status_code(), 404);

    let e = AppError::robot_not_connected("Y".to_string());
    assert_eq!(e.payload().error, "robot_not_connected");
    assert_eq!(e.status_code(), 503);
    assert_eq!(e.to_text(), "Robot not connected: Y");

    let e = AppError::invalid_command("Z".to_string());
    assert_eq!(e.payload().error, "invalid_command");
    assert_eq!(e.status_code(), 400);
    assert_eq!(e.to_text(), "Invalid command: Z");

    let e = AppError::internal("task_error", "panicked".to_string());
    assert_eq!(e.payload().error, "task_error");
    assert_eq!(e.status_code(), 500);
    assert_eq!(e.to_text(), "Internal error: panicked");
}

#[test]
fn other_kinds_text() {
    let p = || ErrorPayload { error: "e".to_string(), message: "m".to_string() };
    assert_eq!(AppError::SerialPort(p()).to_text(), "Serial port error: m");
    assert_eq!(AppError::Calibration(p()).to_text(), "Calibration error: m");
    assert_eq!(AppError::WebSocket(p()).to_text(), "WebSocket error: m");
    assert_eq!(AppError::WebSocket(p()).status_code(), 500);
}
