use robot_control_server::calibration::{ArmCalibration, JointCalibration};
use robot_control_server::commands::RobotClient;
use robot_control_server::config::Settings;
use robot_control_server::ports::{PortRecord, UsbPortInfo};
use robot_control_server::state::{calibration_source, port_for_robot, AppState, CalibrationSource, RobotClientInfo};

fn usb(name: &str, sn: Option<&str>, manufacturer: Option<&str>) -> PortRecord {
    PortRecord {
        port_name: name.to_string(),
        usb: Some(UsbPortInfo {
            serial_number: sn.map(String::from),
            manufacturer: manufacturer.map(String::from),
            product: None,
        }),
    }
}

fn state() -> AppState<u32> {
    AppState::new(Settings::default(), None)
}

#[test]
fn new_state_has_no_robots() {
    let s = state();
    assert_eq!(s.robots.len(), 0);
    assert!(s.robot_client("A").is_err());
}

#[test]
fn registered_robot_is_reused_with_same_calibration() {
    let mut s = state();
    assert!(!s.reuse_or_evict("A", None));
    s.register_robot("A", 7, None);
    assert!(s.reuse_or_evict("A", None));
    assert_eq!(s.robot_client("A"), Ok(&7));

    s.register_robot("B", 8, Some("follower"));
    assert!(s.reuse_or_evict("B", Some("follower")));
    assert_eq!(s.robots.len(), 2);
}

#[test]
fn other_calibration_drops_the_client() {
    let mut s = state();
    s.register_robot("A", 7, Some("leader"));
    assert!(!s.reuse_or_evict("A", Some("follower")));
    assert!(!s.robots.contains("A"));
    assert_eq!(s.robot_client("A"), Err("Robot not found: A".to_string()));
    s.register_robot("A", 9, Some("follower"));
    assert!(s.reuse_or_evict("A", Some("follower")));
    assert_eq!(s.robot_client("A"), Ok(&9));
}

#[test]
fn default_calibration_differs_from_named_one() {
    let mut s = state();
    s.register_robot("A", 7, None);
    assert!(!s.reuse_or_evict("A", Some("leader")));
    assert!(!s.robots.contains("A"));
}

#[test]
fn register_replaces_a_client() {
    let mut s = state();
    s.register_robot("A", 1, None);
    s.register_robot("A", 2, None);
    assert_eq!(s.robots.len(), 1);
    assert_eq!(s.robot_client("A"), Ok(&2));
}

#[test]
fn calibration_comes_from_named_file_or_default() {
    match calibration_source(Some("follower")) {
        CalibrationSource::File(p) => assert_eq!(p, "calibration/follower.json"),
        CalibrationSource::Default => panic!("expected a file"),
    }
    assert!(matches!(calibration_source(None), CalibrationSource::Default));
}

#[test]
fn default_calibration_is_copied() {
    let mut cal = ArmCalibration::new();
    let jc = JointCalibration { id: 6, drive_mode: 0, homing_offset: 0, range_min: 2000, range_max: 3000 };
    cal.insert("gripper".to_string(), jc);
    let s: AppState<u32> = AppState::new(Settings::default(), Some(cal));
    let copy = s.default_calibration().unwrap();
    assert_eq!(copy.get("gripper"), Some(&jc));
    assert_eq!(copy.len(), 1);
    let none: AppState<u32> = AppState::new(Settings::default(), None);
    assert!(none.default_calibration().is_none());
}

#[test]
fn port_for_robot_falls_back_to_serial_id() {
    let ports = vec![usb("/dev/ttyACM0", Some("A"), None), usb("/dev/ttyACM1", Some("B"), None)];
    assert_eq!(port_for_robot(&ports, "B"), "/dev/ttyACM1");
    assert_eq!(port_for_robot(&ports, "/dev/ttyUSB0"), "/dev/ttyUSB0");
}

#[test]
fn list_robots_dedups_and_marks_connected() {
    let ports = vec![
        usb("/dev/ttyACM0", Some("A"), Some("QinHeng")),
        PortRecord { port_name: "/dev/ttyS0".to_string(), usb: None },
        usb("/dev/ttyACM1", None, Some("X")),
        usb("/dev/ttyACM2", Some("A"), Some("Other")),
        usb("/dev/ttyACM3", Some("B"), None),
    ];
    let mut s = state();
    s.register_robot("B", 1, None);
    let list = s.list_robots(&ports);
    assert_eq!(list.len(), 2);
    assert_eq!(list[0].serial_id, "A");
    assert_eq!(list[0].port, "/dev/ttyACM0");
    assert_eq!(list[0].manufacturer, "QinHeng");
    assert_eq!(list[0].description, "USB Serial Device");
    assert_eq!(list[0].client, None);
    assert_eq!(list[1].serial_id, "B");
    assert_eq!(list[1].manufacturer, "Unknown");
    assert_eq!(list[1].client, Some(RobotClientInfo { is_connected: true, use_count: 1 }));
}

struct FakeRobot {
    port: String,
    connected: bool,
}

impl RobotClient for FakeRobot {
    type Positions = ();
    type State = ();
    type TorqueReport = ();
    fn port(&self) -> &str {
        &self.port
    }
    fn is_connected(&self) -> bool {
        self.connected
    }
    fn read_state(&self) -> Result<(), String> {
        Ok(())
    }
    fn set_joints_state(&self, _positions: ()) -> Result<(), String> {
        Ok(())
    }
    fn enable_torque(&self) -> Result<Self::TorqueReport, String> {
        Ok(())
    }
    fn disable_torque(&self) -> Result<Self::TorqueReport, String> {
        Ok(())
    }
}

#[test]
fn robot_status_of_known_and_unknown_robots() {
    let mut s: AppState<FakeRobot> = AppState::new(Settings::default(), None);
    s.register_robot("A", FakeRobot { port: "/dev/ttyACM0".to_string(), connected: true }, None);
    assert_eq!(s.robot_status("A"), ("/dev/ttyACM0".to_string(), 1, true));
    assert_eq!(s.robot_status("Z"), ("unknown".to_string(), 0, false));
}

#[test]
fn robot_state_is_read_from_the_registered_client() {
    let mut s: AppState<FakeRobot> = AppState::new(Settings::default(), None);
    s.register_robot("A", FakeRobot { port: "/dev/ttyACM0".to_string(), connected: false }, None);
    assert_eq!(s.get_robot_state("A"), Ok(()));
    assert_eq!(s.get_robot_state("Q"), Err("Robot not found: Q".to_string()));
}
