//! Cameras: their descriptions, capture settings, frames and status messages.
use vstd::prelude::*;
use vstd::string::StringExecFns;

use crate::text::{decimal_string, format_u64, parse_u32, parse_unsigned_spec, str_eq};

verus! {

/// A frame size and the frame rates offered at it.
#[derive(Debug, Clone)]
pub struct CameraResolution {
    pub width: u32,
    pub height: u32,
    pub fps: Vec<u32>,
}

/// A camera found on the system.
#[derive(Debug, Clone)]
pub struct CameraInfo {
    pub driver: String,
    pub fingerprint: String,
    pub hardware_name: String,
    pub default_profile: CameraResolution,
}

/// The camera a client asks to stream, and how.
#[derive(Debug, Clone)]
pub struct CameraConfig {
    pub driver: String,
    pub fingerprint: String,
    pub name: Option<String>,
    pub width: Option<u32>,
    pub height: Option<u32>,
    pub fps: Option<u32>,
}

/// The query of a camera WebSocket request: the camera configuration as JSON.
#[derive(Debug, Clone)]
pub struct CameraQuery {
    pub camera: String,
}

/// The state of a camera stream.
#[derive(Debug, Clone, Copy, PartialEq, Eq, Structural)]
pub enum CameraStatus {
    Pending,
    Connecting,
    Running,
    Reconnecting,
    Error,
    Stopped,
}

/// The name of each camera state, as status messages write it.
pub open spec fn spec_status_name(s: CameraStatus) -> Seq<char> {
    match s {
        CameraStatus::Pending => "pending"@,
        CameraStatus::Connecting => "connecting"@,
        CameraStatus::Running => "running"@,
        CameraStatus::Reconnecting => "reconnecting"@,
        CameraStatus::Error => "error"@,
        CameraStatus::Stopped => "stopped"@,
    }
}

impl CameraStatus {
    /// The name of this state.
    pub fn as_str(&self) -> (r: &'static str)
        ensures
            r@ == spec_status_name(*self),
    {
        match self {
            CameraStatus::Pending => "pending",
            CameraStatus::Connecting => "connecting",
            CameraStatus::Running => "running",
            CameraStatus::Reconnecting => "reconnecting",
            CameraStatus::Error => "error",
            CameraStatus::Stopped => "stopped",
        }
    }
}

/// No two camera states share a name.
pub proof fn lemma_status_names_distinct(a: CameraStatus, b: CameraStatus)
    ensures
        spec_status_name(a) == spec_status_name(b) <==> a == b,
{
    reveal_strlit("pending");
    reveal_strlit("connecting");
    reveal_strlit("running");
    reveal_strlit("reconnecting");
    reveal_strlit("error");
    reveal_strlit("stopped");
    if a != b && spec_status_name(a) == spec_status_name(b) {
        let x = spec_status_name(a);
        let y = spec_status_name(b);
        assert(x.len() == y.len());
        assert(x[0] == y[0]);
    }
}

/// A status message sent to a camera stream's client.
#[derive(Debug, Clone)]
pub struct CameraStatusMessage {
    pub event: String,
    pub state: String,
    pub message: Option<String>,
}

/// `m` is the status message for state `state` with message `message`.
pub open spec fn is_status_message(m: CameraStatusMessage, state: CameraStatus, message: Option<String>) -> bool {
    &&& m.event@ == "status"@
    &&& m.state@ == spec_status_name(state)
    &&& m.message == message
}

impl CameraStatusMessage {
    /// The status message of event `status` for the state `state`.
    pub fn status(state: CameraStatus, message: Option<String>) -> (m: Self)
        ensures
            is_status_message(m, state, message),
    {
        CameraStatusMessage {
            event: String::from_str("status"),
            state: String::from_str(state.as_str()),
            message,
        }
    }
}

/// A command of a camera stream's client.
#[derive(Debug, Clone, Copy, PartialEq, Eq, Structural)]
pub enum CameraCommand {
    Ping,
    Disconnect,
}

/// The answer to a client command: `Ping` is answered with the status
/// `running` and the message `pong`; `Disconnect` has no answer (the caller
/// ends the stream).
pub fn handle_camera_command(cmd: &CameraCommand) -> (r: Option<CameraStatusMessage>)
    ensures
        match cmd {
            CameraCommand::Ping => r is Some && is_status_message(
                r.unwrap(),
                CameraStatus::Running,
                r.unwrap().message,
            ) && r.unwrap().message is Some && r.unwrap().message.unwrap()@ == "pong"@,
            CameraCommand::Disconnect => r is None,
        },
{
    match cmd {
        CameraCommand::Ping => Some(
            CameraStatusMessage::status(CameraStatus::Running, Some(String::from_str("pong"))),
        ),
        CameraCommand::Disconnect => None,
    }
}

/// The camera index a fingerprint names: the fingerprint read as a number,
/// or 0 when it is not one.
pub open spec fn spec_camera_index(fingerprint: Seq<char>) -> u32 {
    match parse_unsigned_spec(fingerprint, u32::MAX as int) {
        Some(v) => v as u32,
        None => 0,
    }
}

/// The camera index a fingerprint names.
pub fn camera_index(fingerprint: &str) -> (r: u32)
    ensures
        r == spec_camera_index(fingerprint@),
{
    match parse_u32(fingerprint) {
        Some(v) => v,
        None => 0,
    }
}

/// How a camera is opened for a stream.
#[derive(Debug, Clone, Copy, PartialEq, Eq, Structural)]
pub struct CaptureSettings {
    pub index: u32,
    pub width: u32,
    pub height: u32,
    pub fps: u32,
}

fn u32_or(v: Option<u32>, default: u32) -> (r: u32)
    ensures
        r == match v {
            Some(x) => x,
            None => default,
        },
{
    match v {
        Some(x) => x,
        None => default,
    }
}

impl CameraConfig {
    /// How the camera of this configuration is opened: the camera its
    /// fingerprint names, 640x480 at 30 fps unless the configuration says
    /// otherwise.
    pub fn capture_settings(&self) -> (r: CaptureSettings)
        ensures
            r.index == spec_camera_index(self.fingerprint@),
            r.width == match self.width {
                Some(x) => x,
                None => 640,
            },
            r.height == match self.height {
                Some(x) => x,
                None => 480,
            },
            r.fps == match self.fps {
                Some(x) => x,
                None => 30,
            },
    {
        CaptureSettings {
            index: camera_index(self.fingerprint.as_str()),
            width: u32_or(self.width, 640),
            height: u32_or(self.height, 480),
            fps: u32_or(self.fps, 30),
        }
    }
}

/// The description of the USB camera at index `index`, named
/// `hardware_name`, whose default format is `width`x`height`: its
/// fingerprint is its index in decimal, and 30 fps is offered.
pub fn camera_info(index: u32, hardware_name: String, width: u32, height: u32) -> (r: CameraInfo)
    ensures
        r.driver@ == "usb_camera"@,
        r.fingerprint@ == decimal_string(index as nat),
        r.hardware_name == hardware_name,
        r.default_profile.width == width,
        r.default_profile.height == height,
        r.default_profile.fps@ == seq![30u32],
{
    let fps = vec![30u32];
    CameraInfo {
        driver: String::from_str("usb_camera"),
        fingerprint: format_u64(index as u64),
        hardware_name,
        default_profile: CameraResolution { width, height, fps },
    }
}

/// The fingerprint under which a camera is listed names that camera again
/// when a stream or its formats are asked for.
pub proof fn lemma_fingerprint_names_camera(index: u32)
    ensures
        spec_camera_index(decimal_string(index as nat)) == index,
{
    crate::text::lemma_parse_decimal_string(index as nat, u32::MAX as int);
}

/// Whether the camera driver is one the server can query.
pub fn is_known_driver(driver: &str) -> (r: bool)
    ensures
        r == (driver@ == "usb_camera"@),
{
    str_eq(driver, "usb_camera")
}

/// `s` without its trailing zero bytes.
pub open spec fn without_trailing_zeros(s: Seq<u8>) -> Seq<u8>
    decreases s.len(),
{
    if s.len() > 0 && s.last() == 0 {
        without_trailing_zeros(s.drop_last())
    } else {
        s
    }
}

proof fn lemma_without_trailing_zeros_take(s: Seq<u8>, k: int)
    requires
        0 <= k <= s.len(),
        forall|j: int| k <= j < s.len() ==> s[j] == 0,
    ensures
        without_trailing_zeros(s) == without_trailing_zeros(s.take(k)),
    decreases s.len() - k,
{
    if k < s.len() {
        assert(s.drop_last().take(k) =~= s.take(k));
        lemma_without_trailing_zeros_take(s.drop_last(), k);
    } else {
        assert(s.take(k) =~= s);
    }
}

/// A motion-JPEG frame without the zero bytes that pad it at the end (strict
/// decoders such as browsers reject such padding).
pub fn strip_trailing_zeros(data: &[u8]) -> (r: Vec<u8>)
    ensures
        r@ == without_trailing_zeros(data@),
{
    let mut k: usize = data.len();
    while k > 0 && data[k - 1] == 0
        invariant
            k <= data@.len(),
            forall|j: int| k <= j < data@.len() ==> data@[j] == 0,
        decreases k,
    {
        k = k - 1;
    }
    proof {
        lemma_without_trailing_zeros_take(data@, k as int);
        let t = data@.take(k as int);
        if k > 0 {
            assert(t.last() != 0);
        }
    }
    let mut r: Vec<u8> = Vec::new();
    let mut i: usize = 0;
    while i < k
        invariant
            i <= k <= data@.len(),
            r@ == data@.take(i as int),
        decreases k - i,
    {
        r.push(data[i]);
        i = i + 1;
        assert(r@ =~= data@.take(i as int));
    }
    r
}

/// Stripping the padding leaves a frame that is a prefix of the given one,
/// does not end in a zero byte, and is not changed by stripping again.
pub proof fn lemma_strip_trailing_zeros(s: Seq<u8>)
    ensures
        without_trailing_zeros(s).len() <= s.len(),
        without_trailing_zeros(s) =~= s.take(without_trailing_zeros(s).len() as int),
        without_trailing_zeros(s).len() > 0 ==> without_trailing_zeros(s).last() != 0,
        forall|j: int| without_trailing_zeros(s).len() <= j < s.len() ==> s[j] == 0,
        without_trailing_zeros(without_trailing_zeros(s)) == without_trailing_zeros(s),
    decreases s.len(),
{
    if s.len() > 0 && s.last() == 0 {
        lemma_strip_trailing_zeros(s.drop_last());
        let w = without_trailing_zeros(s.drop_last());
        assert(s.drop_last().take(w.len() as int) =~= s.take(w.len() as int));
        assert forall|j: int| w.len() <= j < s.len() implies s[j] == 0 by {
            if j < s.len() - 1 {
                assert(s.drop_last()[j] == s[j]);
            }
        }
    } else {
        assert(s.take(s.len() as int) =~= s);
    }
}

} // verus!
