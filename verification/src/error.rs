//! Errors the HTTP API answers with.
use vstd::prelude::*;
use vstd::string::StringExecFns;

verus! {

/// The body of an error answer: a machine-readable code and a message.
#[derive(Debug, Clone)]
pub struct ErrorPayload {
    pub error: String,
    pub message: String,
}

/// An error of the HTTP API; each kind has its HTTP status.
#[derive(Debug, Clone)]
pub enum AppError {
    RobotNotFound(ErrorPayload),
    RobotNotConnected(ErrorPayload),
    InvalidCommand(ErrorPayload),
    SerialPort(ErrorPayload),
    Calibration(ErrorPayload),
    WebSocket(ErrorPayload),
    Internal(ErrorPayload),
}

/// The payload of an error.
pub open spec fn spec_payload(e: AppError) -> ErrorPayload {
    match e {
        AppError::RobotNotFound(p) => p,
        AppError::RobotNotConnected(p) => p,
        AppError::InvalidCommand(p) => p,
        AppError::SerialPort(p) => p,
        AppError::Calibration(p) => p,
        AppError::WebSocket(p) => p,
        AppError::Internal(p) => p,
    }
}

/// The HTTP status of each kind of error.
pub open spec fn spec_status_code(e: AppError) -> u16 {
    match e {
        AppError::RobotNotFound(_) => 404,
        AppError::RobotNotConnected(_) => 503,
        AppError::InvalidCommand(_) => 400,
        AppError::SerialPort(_) => 500,
        AppError::Calibration(_) => 500,
        AppError::WebSocket(_) => 500,
        AppError::Internal(_) => 500,
    }
}

/// The words that start the text of each kind of error.
pub open spec fn spec_error_title(e: AppError) -> Seq<char> {
    match e {
        AppError::RobotNotFound(_) => "Robot not found: "@,
        AppError::RobotNotConnected(_) => "Robot not connected: "@,
        AppError::InvalidCommand(_) => "Invalid command: "@,
        AppError::SerialPort(_) => "Serial port error: "@,
        AppError::Calibration(_) => "Calibration error: "@,
        AppError::WebSocket(_) => "WebSocket error: "@,
        AppError::Internal(_) => "Internal error: "@,
    }
}

/// An unknown robot is answered with 404 Not Found, a robot that cannot be
/// reached with 503 Service Unavailable, a bad command with 400 Bad Request,
/// and every other error with 500 Internal Server Error.
pub proof fn lemma_status_codes(e: AppError)
    ensures
        e is RobotNotFound <==> spec_status_code(e) == 404,
        e is RobotNotConnected <==> spec_status_code(e) == 503,
        e is InvalidCommand <==> spec_status_code(e) == 400,
        !(e is RobotNotFound || e is RobotNotConnected || e is InvalidCommand) <==> spec_status_code(e)
            == 500,
{
}

fn payload_of(code: &str, msg: String) -> (p: ErrorPayload)
    ensures
        p.error@ == code@,
        p.message == msg,
{
    ErrorPayload { error: String::from_str(code), message: msg }
}

impl AppError {
    /// A robot that is not known; code `robot_not_found`.
    pub fn robot_not_found(msg: String) -> (e: Self)
        ensures
            e is RobotNotFound,
            spec_payload(e).error@ == "robot_not_found"@,
            spec_payload(e).message == msg,
    {
        AppError::RobotNotFound(payload_of("robot_not_found", msg))
    }

    /// A robot that is not known, with the code `code`.
    pub fn robot_not_found_with_code(code: &str, msg: String) -> (e: Self)
        ensures
            e is RobotNotFound,
            spec_payload(e).error@ == code@,
            spec_payload(e).message == msg,
    {
        AppError::RobotNotFound(payload_of(code, msg))
    }

    /// A robot that does not answer; code `robot_not_connected`.
    pub fn robot_not_connected(msg: String) -> (e: Self)
        ensures
            e is RobotNotConnected,
            spec_payload(e).error@ == "robot_not_connected"@,
            spec_payload(e).message == msg,
    {
        AppError::RobotNotConnected(payload_of("robot_not_connected", msg))
    }

    /// A command that cannot be carried out; code `invalid_command`.
    pub fn invalid_command(msg: String) -> (e: Self)
        ensures
            e is InvalidCommand,
            spec_payload(e).error@ == "invalid_command"@,
            spec_payload(e).message == msg,
    {
        AppError::InvalidCommand(payload_of("invalid_command", msg))
    }

    /// An internal failure, with the code `error_code`.
    pub fn internal(error_code: &str, msg: String) -> (e: Self)
        ensures
            e is Internal,
            spec_payload(e).error@ == error_code@,
            spec_payload(e).message == msg,
    {
        AppError::Internal(payload_of(error_code, msg))
    }

    /// The payload of this error.
    pub fn payload(&self) -> (p: &ErrorPayload)
        ensures
            *p == spec_payload(*self),
    {
        match self {
            AppError::RobotNotFound(p) => p,
            AppError::RobotNotConnected(p) => p,
            AppError::InvalidCommand(p) => p,
            AppError::SerialPort(p) => p,
            AppError::Calibration(p) => p,
            AppError::WebSocket(p) => p,
            AppError::Internal(p) => p,
        }
    }

    /// The HTTP status this error is answered with.
    pub fn status_code(&self) -> (s: u16)
        ensures
            s == spec_status_code(*self),
            *self is RobotNotFound ==> s == 404,
            *self is RobotNotConnected ==> s == 503,
            *self is InvalidCommand ==> s == 400,
            !(*self is RobotNotFound || *self is RobotNotConnected || *self is InvalidCommand) ==> s
                == 500,
    {
        match self {
            AppError::RobotNotFound(_) => 404,
            AppError::RobotNotConnected(_) => 503,
            AppError::InvalidCommand(_) => 400,
            _ => 500,
        }
    }

    /// The text of this error: its kind, then its message.
    pub fn to_text(&self) -> (s: String)
        ensures
            s@ == spec_error_title(*self) + spec_payload(*self).message@,
    {
        let title = match self {
            AppError::RobotNotFound(_) => "Robot not found: ",
            AppError::RobotNotConnected(_) => "Robot not connected: ",
            AppError::InvalidCommand(_) => "Invalid command: ",
            AppError::SerialPort(_) => "Serial port error: ",
            AppError::Calibration(_) => "Calibration error: ",
            AppError::WebSocket(_) => "WebSocket error: ",
            AppError::Internal(_) => "Internal error: ",
        };
        let mut s = String::from_str(title);
        s.append(self.payload().message.as_str());
        s
    }
}

} // verus!
