//! Server settings: defaults and how environment values override them.
use vstd::prelude::*;
use vstd::string::StringExecFns;

use crate::ports::view_or;
use crate::text::{decimal_string, format_u64, parse_u16, parse_u32, parse_unsigned_spec};

verus! {

/// The settings of the server.
#[derive(Debug, Clone)]
pub struct Settings {
    pub host: String,
    pub port: u16,
    pub log_level: String,
    pub calibration_path: String,
    pub default_fps: u32,
    pub baud_rate: u32,
}

/// The address the server listens on unless told otherwise.
pub fn default_host() -> (r: String)
    ensures
        r@ == "0.0.0.0"@,
{
    String::from_str("0.0.0.0")
}

/// The TCP port the server listens on unless told otherwise.
pub fn default_port() -> (r: u16)
    ensures
        r == 8000,
{
    8000
}

/// The log level unless told otherwise.
pub fn default_log_level() -> (r: String)
    ensures
        r@ == "info"@,
{
    String::from_str("info")
}

/// The calibration file loaded at start unless told otherwise.
pub fn default_calibration_path() -> (r: String)
    ensures
        r@ == "../calibration/leader.json"@,
{
    String::from_str("../calibration/leader.json")
}

/// The frame rate of state streams unless told otherwise.
pub fn default_fps() -> (r: u32)
    ensures
        r == 30,
{
    30
}

/// The serial baud rate of the servo bus unless told otherwise.
pub fn default_baud_rate() -> (r: u32)
    ensures
        r == 1_000_000,
{
    1_000_000
}

/// A number read from an optional text, or `default` when the text is
/// absent or is not a number of at most `max`.
pub open spec fn parsed_or(s: Option<String>, max: int, default: int) -> int {
    match s {
        Some(t) => match parse_unsigned_spec(t@, max) {
            Some(v) => v,
            None => default,
        },
        None => default,
    }
}

/// The settings made from the environment's values (`None` where a variable
/// is unset): each text replaces its default, and each number replaces its
/// default when it reads as a number of its type.
pub open spec fn settings_from_values(
    s: Settings,
    host: Option<String>,
    port: Option<String>,
    log_level: Option<String>,
    calibration_path: Option<String>,
    default_fps: Option<String>,
    baud_rate: Option<String>,
) -> bool {
    &&& s.host@ == view_or(host, "0.0.0.0"@)
    &&& s.port == parsed_or(port, u16::MAX as int, 8000)
    &&& s.log_level@ == view_or(log_level, "info"@)
    &&& s.calibration_path@ == view_or(calibration_path, "../calibration/leader.json"@)
    &&& s.default_fps == parsed_or(default_fps, u32::MAX as int, 30)
    &&& s.baud_rate == parsed_or(baud_rate, u32::MAX as int, 1_000_000)
}

fn text_or(s: Option<String>, default: String) -> (r: String)
    ensures
        r@ == view_or(s, default@),
{
    match s {
        Some(t) => t,
        None => default,
    }
}

fn u16_or(s: &Option<String>, default: u16) -> (r: u16)
    ensures
        r == parsed_or(*s, u16::MAX as int, default as int),
{
    match s {
        Some(t) => match parse_u16(t.as_str()) {
            Some(v) => v,
            None => default,
        },
        None => default,
    }
}

fn u32_or(s: &Option<String>, default: u32) -> (r: u32)
    ensures
        r == parsed_or(*s, u32::MAX as int, default as int),
{
    match s {
        Some(t) => match parse_u32(t.as_str()) {
            Some(v) => v,
            None => default,
        },
        None => default,
    }
}

/// A variable that is not set leaves its setting at the default: host
/// `0.0.0.0`, port 8000, log level `info`, calibration file
/// `../calibration/leader.json`, 30 frames per second and 1000000 baud; a
/// text variable that is set is taken as it is.
pub proof fn lemma_unset_values_take_defaults(
    s: Settings,
    host: Option<String>,
    port: Option<String>,
    log_level: Option<String>,
    calibration_path: Option<String>,
    default_fps: Option<String>,
    baud_rate: Option<String>,
)
    requires
        settings_from_values(s, host, port, log_level, calibration_path, default_fps, baud_rate),
    ensures
        host is None ==> s.host@ == "0.0.0.0"@,
        port is None ==> s.port == 8000,
        log_level is None ==> s.log_level@ == "info"@,
        calibration_path is None ==> s.calibration_path@ == "../calibration/leader.json"@,
        default_fps is None ==> s.default_fps == 30,
        baud_rate is None ==> s.baud_rate == 1_000_000,
        host matches Some(h) ==> s.host@ == h@,
        log_level matches Some(l) ==> s.log_level@ == l@,
        calibration_path matches Some(c) ==> s.calibration_path@ == c@,
{
}

impl Settings {
    /// The settings for the values of the environment variables `HOST`,
    /// `PORT`, `LOG_LEVEL`, `CALIBRATION_PATH`, `DEFAULT_FPS` and `BAUD_RATE`.
    pub fn from_env_values(
        host: Option<String>,
        port: Option<String>,
        log_level: Option<String>,
        calibration_path: Option<String>,
        default_fps: Option<String>,
        baud_rate: Option<String>,
    ) -> (r: Settings)
        ensures
            settings_from_values(r, host, port, log_level, calibration_path, default_fps, baud_rate),
            host is None ==> r.host@ == "0.0.0.0"@,
            port is None ==> r.port == 8000,
            log_level is None ==> r.log_level@ == "info"@,
            calibration_path is None ==> r.calibration_path@ == "../calibration/leader.json"@,
            default_fps is None ==> r.default_fps == 30,
            baud_rate is None ==> r.baud_rate == 1_000_000,
            calibration_path matches Some(c) ==> r.calibration_path@ == c@,
    {
        let p = u16_or(&port, default_port());
        let f = u32_or(&default_fps, self::default_fps());
        let b = u32_or(&baud_rate, default_baud_rate());
        Settings {
            host: text_or(host, default_host()),
            port: p,
            log_level: text_or(log_level, default_log_level()),
            calibration_path: text_or(calibration_path, default_calibration_path()),
            default_fps: f,
            baud_rate: b,
        }
    }

    /// The text `host:port` that the listening address is read from.
    pub fn address_text(&self) -> (r: String)
        ensures
            r@ == self.host@ + ":"@ + decimal_string(self.port as nat),
    {
        let mut s = self.host.clone();
        s.append(":");
        let p = format_u64(self.port as u64);
        s.append(p.as_str());
        s
    }
}

impl Default for Settings {
    fn default() -> (r: Settings)
        ensures
            settings_from_values(r, None, None, None, None, None, None),
            r.host@ == "0.0.0.0"@,
            r.port == 8000,
            r.log_level@ == "info"@,
            r.calibration_path@ == "../calibration/leader.json"@,
            r.default_fps == 30,
            r.baud_rate == 1_000_000,
    {
        Settings {
            host: default_host(),
            port: default_port(),
            log_level: default_log_level(),
            calibration_path: default_calibration_path(),
            default_fps: default_fps(),
            baud_rate: default_baud_rate(),
        }
    }
}

} // verus!
