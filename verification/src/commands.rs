//! Commands sent to a robot and the responses they get.
use vstd::prelude::*;
use vstd::string::StringExecFns;

verus! {

/// A command for a robot; `P` is the type of the joint targets that
/// `SetJointsState` carries.
#[derive(Debug, Clone)]
pub enum RobotCommand<P> {
    Ping,
    EnableTorque,
    DisableTorque,
    SetJointsState { joints: P },
}

/// The response to a command; `S` is the type of the state update that
/// `StateWasUpdated` carries.
#[derive(Debug, Clone)]
pub enum RobotResponse<S> {
    Pong,
    TorqueWasEnabled,
    TorqueWasDisabled,
    JointsStateWasSet,
    BaseWasStopped,
    StateWasUpdated { update: S },
    Error { error: String, message: String },
}

/// A robot arm that commands can be sent to.
///
/// `read_state` and `set_joints_state` report the arm's state as a
/// `State`; `set_joints_state` takes its targets as a `Positions`; switching
/// the torque reports a `TorqueReport`. Errors are reported as text.
///
/// What the arm answers depends on the hardware, so each method's contract
/// says only that its result is one the arm may give, as the spec functions
/// of the implementation describe it.
pub trait RobotClient {
    type Positions;

    type State;

    type TorqueReport;

    /// `port` is a serial port this robot may report (by default, any).
    open spec fn reports_port(&self, port: Seq<char>) -> bool {
        true
    }

    /// `connected` is a connection state this robot may report (by default,
    /// either).
    open spec fn reports_connected(&self, connected: bool) -> bool {
        true
    }

    /// `outcome` is a result the robot may give when asked for the state of
    /// its arm (by default, any).
    open spec fn read_state_outcome(&self, outcome: Result<Self::State, String>) -> bool {
        true
    }

    /// `outcome` is a result the robot may give when asked to move its
    /// joints to `positions` (by default, any).
    open spec fn set_joints_outcome(
        &self,
        positions: Self::Positions,
        outcome: Result<Self::State, String>,
    ) -> bool {
        true
    }

    /// `outcome` is a result the robot may give when asked to switch its
    /// torque on (`enable`) or off (by default, any).
    open spec fn torque_outcome(&self, enable: bool, outcome: Result<Self::TorqueReport, String>) -> bool {
        true
    }

    /// The serial port of the robot.
    fn port(&self) -> (r: &str)
        ensures
            self.reports_port(r@),
    ;

    /// Whether the robot can be talked to.
    fn is_connected(&self) -> (r: bool)
        ensures
            self.reports_connected(r),
    ;

    /// The current state of the arm, raw and calibrated values.
    fn read_state(&self) -> (r: Result<Self::State, String>)
        ensures
            self.read_state_outcome(r),
    ;

    /// Moves the joints to the given targets (in calibrated units where the
    /// robot has calibration data) and then reads the state.
    fn set_joints_state(&self, positions: Self::Positions) -> (r: Result<Self::State, String>)
        ensures
            self.set_joints_outcome(positions, r),
    ;

    /// Switches the servos' torque on.
    fn enable_torque(&self) -> (r: Result<Self::TorqueReport, String>)
        ensures
            self.torque_outcome(true, r),
    ;

    /// Switches the servos' torque off.
    fn disable_torque(&self) -> (r: Result<Self::TorqueReport, String>)
        ensures
            self.torque_outcome(false, r),
    ;
}

/// `r` is the error response with code `code` and message `message`.
pub open spec fn is_error_response<S>(r: RobotResponse<S>, code: Seq<char>, message: Seq<char>) -> bool {
    r matches RobotResponse::Error { error, message: m } && error@ == code && m@ == message
}

/// `r` is the response `done` when the robot's action succeeded, and the
/// error response with code `code` and the robot's message when it failed.
pub open spec fn answers<S, T>(
    r: RobotResponse<S>,
    outcome: Result<T, String>,
    done: RobotResponse<S>,
    code: Seq<char>,
) -> bool {
    match outcome {
        Ok(_) => r == done,
        Err(m) => is_error_response(r, code, m@),
    }
}

fn error_response<S>(code: &str, message: String) -> (r: RobotResponse<S>)
    ensures
        is_error_response(r, code@, message@),
{
    RobotResponse::Error { error: String::from_str(code), message }
}

/// The response to `EnableTorque` for the robot's outcome.
pub fn enable_torque_response<S, T>(outcome: Result<T, String>) -> (r: RobotResponse<S>)
    ensures
        answers(r, outcome, RobotResponse::TorqueWasEnabled, "enable_torque_failed"@),
{
    match outcome {
        Ok(_) => RobotResponse::TorqueWasEnabled,
        Err(e) => error_response("enable_torque_failed", e),
    }
}

/// The response to `DisableTorque` for the robot's outcome.
pub fn disable_torque_response<S, T>(outcome: Result<T, String>) -> (r: RobotResponse<S>)
    ensures
        answers(r, outcome, RobotResponse::TorqueWasDisabled, "disable_torque_failed"@),
{
    match outcome {
        Ok(_) => RobotResponse::TorqueWasDisabled,
        Err(e) => error_response("disable_torque_failed", e),
    }
}

/// The response to `SetJointsState` for the robot's outcome.
pub fn set_joints_response<S>(outcome: Result<S, String>) -> (r: RobotResponse<S>)
    ensures
        answers(r, outcome, RobotResponse::JointsStateWasSet, "set_joints_failed"@),
{
    match outcome {
        Ok(_) => RobotResponse::JointsStateWasSet,
        Err(e) => error_response("set_joints_failed", e),
    }
}

/// `r` answers `cmd` on `robot`: `Pong` for `Ping`; for the others, the
/// answer that [`answers`] gives for a result the robot may give when asked
/// to do what the command says (with the command's joint targets for
/// `SetJointsState`).
pub open spec fn command_answered<R: RobotClient>(
    robot: &R,
    cmd: RobotCommand<R::Positions>,
    r: RobotResponse<R::State>,
) -> bool {
    match cmd {
        RobotCommand::Ping => r is Pong,
        RobotCommand::EnableTorque => exists|o: Result<R::TorqueReport, String>|
            robot.torque_outcome(true, o) && answers(
                r,
                o,
                RobotResponse::TorqueWasEnabled,
                "enable_torque_failed"@,
            ),
        RobotCommand::DisableTorque => exists|o: Result<R::TorqueReport, String>|
            robot.torque_outcome(false, o) && answers(
                r,
                o,
                RobotResponse::TorqueWasDisabled,
                "disable_torque_failed"@,
            ),
        RobotCommand::SetJointsState { joints } => exists|o: Result<R::State, String>|
            robot.set_joints_outcome(joints, o) && answers(
                r,
                o,
                RobotResponse::JointsStateWasSet,
                "set_joints_failed"@,
            ),
    }
}

/// Carries out `cmd` on `robot`: `Ping` is answered at once; the others ask
/// the robot (to switch its torque on or off, or to move to the command's
/// joint targets) and answer with the success response of the command, or
/// with the error response that names the failed action and carries the
/// robot's message.
pub fn handle_command<R: RobotClient>(robot: &R, cmd: RobotCommand<R::Positions>) -> (r:
    RobotResponse<R::State>)
    ensures
        command_answered(robot, cmd, r),
{
    match cmd {
        RobotCommand::Ping => RobotResponse::Pong,
        RobotCommand::EnableTorque => {
            let o = robot.enable_torque();
            enable_torque_response(o)
        },
        RobotCommand::DisableTorque => {
            let o = robot.disable_torque();
            disable_torque_response(o)
        },
        RobotCommand::SetJointsState { joints } => {
            let ghost targets = joints;
            let o = robot.set_joints_state(joints);
            let ghost o_copy = o;
            let r = set_joints_response(o);
            assert(robot.set_joints_outcome(targets, o_copy));
            r
        },
    }
}

/// The answer to a command sent over the HTTP API.
#[derive(Debug, Clone)]
pub struct CommandResponse {
    pub success: bool,
    pub message: String,
}

/// The HTTP answer for a command's response: a failure whose message is
/// `<code>: <message>` for an error response, success with the message
/// `Command sent` for any other.
pub fn command_response<S>(resp: &RobotResponse<S>) -> (r: CommandResponse)
    ensures
        match resp {
            RobotResponse::Error { error, message } => !r.success && r.message@ == error@ + ": "@
                + message@,
            _ => r.success && r.message@ == "Command sent"@,
        },
{
    match resp {
        RobotResponse::Error { error, message } => {
            let mut m = error.clone();
            m.append(": ");
            m.append(message.as_str());
            CommandResponse { success: false, message: m }
        },
        _ => CommandResponse { success: true, message: String::from_str("Command sent") },
    }
}

/// Whether robot state requests report normalised values unless asked
/// otherwise: they do.
pub fn default_normalize() -> (r: bool)
    ensures
        r,
{
    true
}

/// The answer to a robot state request in its full form.
#[derive(Debug, Clone)]
pub struct RobotFullStateResponse<S> {
    pub serial_id: String,
    pub state: S,
}

} // verus!
