//! What a WebSocket session does with each thing that happens on it.
use vstd::prelude::*;
use vstd::string::StringExecFns;

use crate::cameras::{
    handle_camera_command, is_status_message, CameraCommand, CameraStatus, CameraStatusMessage,
};
use crate::commands::{command_answered, handle_command, is_error_response, RobotClient, RobotCommand, RobotResponse};

verus! {

/// Something that happens on a robot's WebSocket session.
pub enum RobotSessionEvent<P> {
    /// The client sent a command.
    Command(RobotCommand<P>),
    /// The client sent a text that is not a command; the reason is given.
    Unparsable(String),
    /// The client closed the session, or the connection failed.
    Closed,
    /// The client sent something else (binary data, a ping).
    Other,
}

/// What a robot session does next.
pub enum RobotSessionAction<S> {
    /// Send this response to the client (and stop if that fails).
    Send(RobotResponse<S>),
    /// End the session.
    Stop,
    /// Wait for the next event.
    Ignore,
}

/// The robot session's answer to `event`: a command is carried out on
/// `robot` and its response sent; an unreadable text is answered with a
/// `parse_error`; a close ends the session; anything else is ignored.
pub fn robot_session_step<R: RobotClient>(robot: &R, event: RobotSessionEvent<R::Positions>) -> (r:
    RobotSessionAction<R::State>)
    ensures
        match event {
            RobotSessionEvent::Command(cmd) => r matches RobotSessionAction::Send(resp)
                && command_answered(robot, cmd, resp),
            RobotSessionEvent::Unparsable(e) => r matches RobotSessionAction::Send(resp)
                && is_error_response(resp, "parse_error"@, e@),
            RobotSessionEvent::Closed => r is Stop,
            RobotSessionEvent::Other => r is Ignore,
        },
{
    match event {
        RobotSessionEvent::Command(cmd) => RobotSessionAction::Send(handle_command(robot, cmd)),
        RobotSessionEvent::Unparsable(e) => RobotSessionAction::Send(
            RobotResponse::Error { error: String::from_str("parse_error"), message: e },
        ),
        RobotSessionEvent::Closed => RobotSessionAction::Stop,
        RobotSessionEvent::Other => RobotSessionAction::Ignore,
    }
}

/// Something that happens on a camera's WebSocket session.
pub enum CameraSessionEvent {
    /// The camera delivered an encoded frame, or failed to with this reason.
    Frame(Result<Vec<u8>, String>),
    /// The camera changed state.
    Status(CameraStatus),
    /// The client sent a command.
    Command(CameraCommand),
    /// The client sent a text that is not a command.
    Unparsable(String),
    /// The client closed the session.
    Closed,
    /// The client sent something else.
    Other,
}

/// What a camera session does next.
pub enum CameraSessionAction {
    /// Send the frame as binary data (and stop if that fails).
    SendFrame(Vec<u8>),
    /// Send this status message (and stop if that fails).
    SendMessage(CameraStatusMessage),
    /// Answer the client with this message (whether it arrives or not).
    Reply(CameraStatusMessage),
    /// End the session.
    Stop,
    /// Wait for the next event.
    Ignore,
}

/// The camera session's answer to `event`: frames are forwarded, a failed
/// frame is reported as an `error` status with its reason, state changes are
/// sent as status messages without a message, `Disconnect` and a close end
/// the session, `Ping` is answered, and anything else is ignored.
pub fn camera_session_step(event: CameraSessionEvent) -> (r: CameraSessionAction)
    ensures
        match event {
            CameraSessionEvent::Frame(Ok(bytes)) => r == CameraSessionAction::SendFrame(bytes),
            CameraSessionEvent::Frame(Err(e)) => r matches CameraSessionAction::SendMessage(m)
                && is_status_message(m, CameraStatus::Error, Some(e)),
            CameraSessionEvent::Status(s) => r matches CameraSessionAction::SendMessage(m)
                && is_status_message(m, s, None),
            CameraSessionEvent::Command(CameraCommand::Disconnect) => r is Stop,
            CameraSessionEvent::Command(CameraCommand::Ping) => r matches CameraSessionAction::Reply(m)
                && is_status_message(m, CameraStatus::Running, m.message) && m.message is Some
                && m.message.unwrap()@ == "pong"@,
            CameraSessionEvent::Unparsable(_) => r is Ignore,
            CameraSessionEvent::Closed => r is Stop,
            CameraSessionEvent::Other => r is Ignore,
        },
{
    match event {
        CameraSessionEvent::Frame(Ok(bytes)) => CameraSessionAction::SendFrame(bytes),
        CameraSessionEvent::Frame(Err(e)) => CameraSessionAction::SendMessage(
            CameraStatusMessage::status(CameraStatus::Error, Some(e)),
        ),
        CameraSessionEvent::Status(s) => CameraSessionAction::SendMessage(
            CameraStatusMessage::status(s, None),
        ),
        CameraSessionEvent::Command(cmd) => {
            if cmd == CameraCommand::Disconnect {
                CameraSessionAction::Stop
            } else {
                match handle_camera_command(&cmd) {
                    Some(m) => CameraSessionAction::Reply(m),
                    None => CameraSessionAction::Ignore,
                }
            }
        },
        CameraSessionEvent::Unparsable(_) => CameraSessionAction::Ignore,
        CameraSessionEvent::Closed => CameraSessionAction::Stop,
        CameraSessionEvent::Other => CameraSessionAction::Ignore,
    }
}

} // verus!
