use robot_control_server::calibration::{ArmCalibration, JointCalibration};
use robot_control_server::config::Settings;
use robot_control_server::state::AppState;
use robot_control_server::cli::{check_calibration_count, resolve_ports};
use robot_control_server::feetech::{arm_readings, AppliedCalibration};
use robot_control_server::health::{debug_ports, health, ready};
use robot_control_server::joint::{Joint, NormMode};
use robot_control_server::ports::{PortRecord, UsbPortInfo};
use robot_control_server::worker::{clamp_fps, frame_interval_ms, PollSchedule, RobotWorkerConfig, WsQuery};

fn usb(name: &str, sn: &str) -> PortRecord {
    PortRecord {
        port_name: name.to_string(),
        usb: Some(UsbPortInfo { serial_number: Some(sn.to_string()), manufacturer: None, product: None }),
    }
}

#[test]
fn health_and_ready_are_ok() {
    assert_eq!(health().status, "ok");
    let mut state: AppState<u8> = AppState::new(Settings::default(), None);
    let r = ready(&state);
    assert_eq!(r.status, "ok");
    assert_eq!(r.connected_robots, 0);
    state.register_robot("A", 1, None);
    state.register_robot("B", 2, None);
    state.register_robot("A", 3, Some("follower"));
    let r = ready(&state);
    assert_eq!(r.status, "ok");
    assert_eq!(r.connected_robots, 2);
}

#[test]
fn debug_ports_lists_serial_numbers() {
    let ports = vec![usb("/dev/ttyACM0", "A"), PortRecord { port_name: "/dev/ttyS0".to_string(), usb: None }];
    let r = debug_ports(&ports);
    assert_eq!(r.ports.len(), 2);
    assert_eq!(r.ports[0].name, "/dev/ttyACM0");
    assert_eq!(r.ports[0].serial_number.as_deref(), Some("A"));
    assert_eq!(r.ports[1].serial_number, None);
}

#[test]
fn worker_rates() {
    assert_eq!(RobotWorkerConfig::default().fps, 30);
    assert_eq!(RobotWorkerConfig::default().poll_interval_ms(), 33);
    assert_eq!(RobotWorkerConfig { fps: 0 }.poll_interval_ms(), 1000);
    assert_eq!(RobotWorkerConfig { fps: 1000 }.poll_interval_ms(), 4);
    assert_eq!(clamp_fps(0), 1);
    assert_eq!(clamp_fps(241), 240);
    assert_eq!(clamp_fps(60), 60);
    assert_eq!(frame_interval_ms(60), 16);
}

#[test]
fn ws_query_defaults() {
    let q = WsQuery { fps: None, driver: None, normalize: None, calibration_id: None };
    assert_eq!(q.stream_fps(), 30);
    assert!(q.stream_normalize());
    let q = WsQuery { fps: Some(500), driver: None, normalize: Some(false), calibration_id: None };
    assert_eq!(q.stream_fps(), 240);
    assert!(!q.stream_normalize());
}

#[test]
fn resolve_ports_orders_serials_then_paths() {
    let avail = vec![usb("/dev/ttyACM0", "A"), usb("/dev/ttyACM1", "B")];
    let r = resolve_ports(&vec!["B".to_string(), "A".to_string()], &vec!["/dev/ttyUSB9".to_string()], &avail);
    assert_eq!(r, Ok(vec!["/dev/ttyACM1".to_string(), "/dev/ttyACM0".to_string(), "/dev/ttyUSB9".to_string()]));
}

#[test]
fn resolve_ports_errors() {
    let avail = vec![usb("/dev/ttyACM0", "A")];
    let none = resolve_ports(&vec![], &vec![], &avail).unwrap_err();
    assert!(none.starts_with("At least one --serial-number or --port must be specified.\nUse"));
    let missing = resolve_ports(&vec!["Z".to_string()], &vec![], &avail).unwrap_err();
    assert!(missing.starts_with("No USB serial port found with serial number 'Z'."));
    let first_missing =
        resolve_ports(&vec!["A".to_string(), "Y".to_string(), "Z".to_string()], &vec!["/dev/ttyUSB0".to_string()], &avail)
            .unwrap_err();
    assert!(first_missing.starts_with("No USB serial port found with serial number 'Y'."));
    assert_eq!(resolve_ports(&vec![], &vec!["/dev/ttyUSB0".to_string()], &avail), Ok(vec!["/dev/ttyUSB0".to_string()]));
}

#[test]
fn calibration_count_must_match() {
    assert_eq!(check_calibration_count(0, 3), Ok(()));
    assert_eq!(check_calibration_count(2, 2), Ok(()));
    assert_eq!(
        check_calibration_count(1, 2),
        Err("Number of --calibration files (1) must match the number of robots (2).\nProvide one calibration file per robot in the same order as --serial-number / --port.".to_string())
    );
}

#[test]
fn arm_readings_apply_calibration_by_joint_name() {
    let mut cal = ArmCalibration::new();
    let g = JointCalibration { id: 6, drive_mode: 1, homing_offset: 0, range_min: 2000, range_max: 3000 };
    let b = JointCalibration { id: 1, drive_mode: 0, homing_offset: 5, range_min: 700, range_max: 3400 };
    cal.insert("gripper".to_string(), g);
    cal.insert("shoulder_pan".to_string(), b);
    let raw = vec![100i16, 200, 300, 400, 500, 600, 700];
    let r = arm_readings(&raw, Some(&cal));
    assert_eq!(r.len(), 6);
    assert_eq!(r[0].joint, Joint::Base);
    assert_eq!(r[0].motor_id, 1);
    assert_eq!(r[0].raw_position, 100);
    assert_eq!(r[0].calibration, Some(AppliedCalibration { calibration: b, mode: NormMode::RangeM100To100 }));
    assert_eq!(r[1].calibration, None);
    assert_eq!(r[5].joint, Joint::Gripper);
    assert_eq!(r[5].raw_position, 600);
    assert_eq!(r[5].calibration, Some(AppliedCalibration { calibration: g, mode: NormMode::Range0To100 }));
    let plain = arm_readings(&raw, None);
    assert!(plain.iter().all(|j| j.calibration.is_none()));
}

#[test]
fn poll_schedule_polls_first_then_every_interval() {
    let mut s = PollSchedule::new(33);
    assert!(s.tick(5));
    assert_eq!(s.last_poll_ms, Some(5));
    assert!(!s.tick(20));
    assert!(!s.tick(37));
    assert!(s.tick(38));
    assert_eq!(s.last_poll_ms, Some(38));
    assert!(!s.tick(38));
}
