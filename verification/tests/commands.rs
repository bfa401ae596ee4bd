use std::cell::{Cell, RefCell};

use robot_control_server::commands::{
    command_response, disable_torque_response, enable_torque_response, handle_command, set_joints_response,
    RobotClient, RobotCommand, RobotResponse,
};

struct Arm {
    fail: bool,
    calls: Cell<u32>,
    targets: RefCell<Vec<Vec<(String, i32)>>>,
}

fn arm(fail: bool) -> Arm {
    Arm { fail, calls: Cell::new(0), targets: RefCell::new(Vec::new()) }
}

impl RobotClient for Arm {
    type Positions = Vec<(String, i32)>;
    type State = u32;
    type TorqueReport = ();
    fn port(&self) -> &str {
        "/dev/ttyACM0"
    }
    fn is_connected(&self) -> bool {
        !self.fail
    }
    fn read_state(&self) -> Result<u32, String> {
        Ok(1)
    }
    fn set_joints_state(&self, positions: Vec<(String, i32)>) -> Result<u32, String> {
        self.calls.set(self.calls.get() + 1);
        self.targets.borrow_mut().push(positions.clone());
        if self.fail { Err("bus timeout".to_string()) } else { Ok(positions.len() as u32) }
    }
    fn enable_torque(&self) -> Result<Self::TorqueReport, String> {
        self.calls.set(self.calls.get() + 1);
        if self.fail { Err("no servo".to_string()) } else { Ok(()) }
    }
    fn disable_torque(&self) -> Result<Self::TorqueReport, String> {
        self.calls.set(self.calls.get() + 1);
        if self.fail { Err("no servo".to_string()) } else { Ok(()) }
    }
}

fn err(code: &str, msg: &str) -> (String, String) {
    (code.to_string(), msg.to_string())
}

fn as_error(r: &RobotResponse<u32>) -> Option<(String, String)> {
    match r {
        RobotResponse::Error { error, message } => Some((error.clone(), message.clone())),
        _ => None,
    }
}

#[test]
fn ping_is_answered_without_the_robot() {
    let arm = arm(true);
    assert!(matches!(handle_command(&arm, RobotCommand::Ping), RobotResponse::Pong));
    assert_eq!(arm.calls.get(), 0);
}

#[test]
fn commands_succeed() {
    let arm = arm(false);
    assert!(matches!(handle_command(&arm, RobotCommand::EnableTorque), RobotResponse::TorqueWasEnabled));
    assert!(matches!(handle_command(&arm, RobotCommand::DisableTorque), RobotResponse::TorqueWasDisabled));
    let set = handle_command(&arm, RobotCommand::SetJointsState { joints: vec![("gripper".to_string(), 10)] });
    assert!(matches!(set, RobotResponse::JointsStateWasSet));
    assert_eq!(arm.calls.get(), 3);
}

#[test]
fn failures_name_the_action() {
    let arm = arm(true);
    assert_eq!(as_error(&handle_command(&arm, RobotCommand::EnableTorque)), Some(err("enable_torque_failed", "no servo")));
    assert_eq!(as_error(&handle_command(&arm, RobotCommand::DisableTorque)), Some(err("disable_torque_failed", "no servo")));
    assert_eq!(
        as_error(&handle_command(&arm, RobotCommand::SetJointsState { joints: vec![] })),
        Some(err("set_joints_failed", "bus timeout"))
    );
}

#[test]
fn outcome_responses() {
    assert!(matches!(enable_torque_response::<u32, ()>(Ok(())), RobotResponse::TorqueWasEnabled));
    assert!(matches!(disable_torque_response::<u32, ()>(Ok(())), RobotResponse::TorqueWasDisabled));
    assert!(matches!(set_joints_response::<u32>(Ok(5)), RobotResponse::JointsStateWasSet));
    assert_eq!(as_error(&set_joints_response(Err("x".to_string()))), Some(err("set_joints_failed", "x")));
}

#[test]
fn http_answer_of_a_response() {
    let ok = command_response::<u32>(&RobotResponse::JointsStateWasSet);
    assert!(ok.success);
    assert_eq!(ok.message, "Command sent");
    let bad = command_response::<u32>(&RobotResponse::Error { error: "set_joints_failed".to_string(), message: "bus timeout".to_string() });
    assert!(!bad.success);
    assert_eq!(bad.message, "set_joints_failed: bus timeout");
}

#[test]
fn set_joints_asks_the_robot_with_the_targets() {
    let a = arm(false);
    let joints = vec![("gripper".to_string(), 10), ("elbow_flex".to_string(), -20)];
    let r = handle_command(&a, RobotCommand::SetJointsState { joints: joints.clone() });
    assert!(matches!(r, RobotResponse::JointsStateWasSet));
    assert_eq!(a.calls.get(), 1);
    assert_eq!(*a.targets.borrow(), vec![joints]);
}
