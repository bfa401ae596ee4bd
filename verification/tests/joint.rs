use robot_control_server::joint::{motor_ids, Joint, NormMode};

#[test]
fn joints_in_bus_order() {
    assert_eq!(
        Joint::all(),
        vec![
            Joint::Base,
            Joint::Shoulder,
            Joint::Elbow,
            Joint::WristPitch,
            Joint::WristRoll,
            Joint::Gripper
        ]
    );
}

#[test]
fn motor_ids_are_one_to_six() {
    assert_eq!(motor_ids(), vec![1, 2, 3, 4, 5, 6]);
    let ids: Vec<u8> = Joint::all().into_iter().map(|j| j.motor_id()).collect();
    assert_eq!(ids, vec![1, 2, 3, 4, 5, 6]);
}

#[test]
fn joint_names_follow_lerobot() {
    let names: Vec<&str> = Joint::all().iter().map(|j| j.name()).collect();
    assert_eq!(
        names,
        vec!["shoulder_pan", "shoulder_lift", "elbow_flex", "wrist_flex", "wrist_roll", "gripper"]
    );
    let mut sorted = names.clone();
    sorted.sort();
    sorted.dedup();
    assert_eq!(sorted.len(), 6);
}

#[test]
fn gripper_is_read_as_percentage() {
    assert_eq!(Joint::Gripper.norm_mode(), NormMode::Range0To100);
    for j in [Joint::Base, Joint::Shoulder, Joint::Elbow, Joint::WristPitch, Joint::WristRoll] {
        assert_eq!(j.norm_mode(), NormMode::RangeM100To100);
    }
}
