use robot_control_server::calibration::{by_motor_id, calibration_file_path, calibration_load_error, ArmCalibration, JointCalibration};

fn jc(id: u8, min: i32, max: i32) -> JointCalibration {
    JointCalibration { id, drive_mode: 0, homing_offset: 0, range_min: min, range_max: max }
}

#[test]
fn by_motor_id_indexes_every_joint() {
    let mut cal = ArmCalibration::new();
    cal.insert("shoulder_pan".to_string(), jc(1, 700, 3400));
    cal.insert("gripper".to_string(), jc(6, 2000, 3300));
    let t = by_motor_id(&cal);
    assert_eq!(t.len(), 2);
    assert_eq!(t.get(&1), Some(&jc(1, 700, 3400)));
    assert_eq!(t.get(&6), Some(&jc(6, 2000, 3300)));
    assert_eq!(t.get(&2), None);
    assert!(by_motor_id(&ArmCalibration::new()).is_empty());
}

#[test]
fn by_motor_id_picks_one_of_two_claimants() {
    let mut cal = ArmCalibration::new();
    cal.insert("a".to_string(), jc(3, 1, 2));
    cal.insert("b".to_string(), jc(3, 5, 6));
    let t = by_motor_id(&cal);
    assert_eq!(t.len(), 1);
    let v = t.get(&3).unwrap();
    assert!(*v == jc(3, 1, 2) || *v == jc(3, 5, 6));
}

#[test]
fn keyed_list_insert_replace_remove() {
    let mut cal = ArmCalibration::new();
    cal.insert("elbow_flex".to_string(), jc(3, 1, 2));
    cal.insert("elbow_flex".to_string(), jc(3, 7, 8));
    assert_eq!(cal.len(), 1);
    assert_eq!(cal.get("elbow_flex"), Some(&jc(3, 7, 8)));
    assert!(cal.contains("elbow_flex"));
    cal.remove("elbow_flex");
    assert!(!cal.contains("elbow_flex"));
    assert_eq!(cal.len(), 0);
    cal.remove("missing");
    assert_eq!(cal.keys(), Vec::<String>::new());
}

#[test]
fn calibration_paths_and_errors() {
    assert_eq!(calibration_file_path("follower"), "calibration/follower.json");
    assert_eq!(
        calibration_load_error("follower", "No such file"),
        "Failed to load calibration 'follower': No such file"
    );
}
