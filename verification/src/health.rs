//! Health, readiness and port diagnostics answers.
use vstd::prelude::*;
use vstd::string::StringExecFns;

use crate::ports::{port_serial, PortRecord};
use crate::state::AppState;

verus! {

/// The answer to a health check.
#[derive(Debug, Clone)]
pub struct HealthResponse {
    pub status: String,
}

/// The answer to a readiness check: the server is up and holds clients for
/// this many robots.
#[derive(Debug, Clone)]
pub struct ReadyResponse {
    pub status: String,
    pub connected_robots: usize,
}

/// One serial port as the diagnostics list it.
#[derive(Debug, Clone)]
pub struct PortInfo {
    pub name: String,
    pub serial_number: Option<String>,
}

/// The serial ports the system lists.
#[derive(Debug, Clone)]
pub struct DebugPortsResponse {
    pub ports: Vec<PortInfo>,
}

/// The server is up.
pub fn health() -> (r: HealthResponse)
    ensures
        r.status@ == "ok"@,
{
    HealthResponse { status: String::from_str("ok") }
}

/// The server is ready; the answer counts the robots it holds clients for.
pub fn ready<C>(state: &AppState<C>) -> (r: ReadyResponse)
    requires
        state.wf(),
    ensures
        r.status@ == "ok"@,
        r.connected_robots == state.robots.view().dom().len(),
{
    ReadyResponse { status: String::from_str("ok"), connected_robots: state.robots.len() }
}

/// Every listed port, in order, with its USB serial number when it is a USB
/// port that has one.
pub fn debug_ports(ports: &Vec<PortRecord>) -> (r: DebugPortsResponse)
    ensures
        r.ports@.len() == ports@.len(),
        forall|i: int|
            0 <= i < ports@.len() ==> (#[trigger] r.ports@[i]).name@ == ports@[i].port_name@
                && crate::ports::opt_view(r.ports@[i].serial_number) == port_serial(ports@[i]),
{
    let mut out: Vec<PortInfo> = Vec::new();
    let mut i: usize = 0;
    while i < ports.len()
        invariant
            i <= ports@.len(),
            out@.len() == i,
            forall|j: int|
                0 <= j < i ==> (#[trigger] out@[j]).name@ == ports@[j].port_name@
                    && crate::ports::opt_view(out@[j].serial_number) == port_serial(ports@[j]),
        decreases ports@.len() - i,
    {
        let p = &ports[i];
        let serial_number = match &p.usb {
            Some(u) => match &u.serial_number {
                Some(s) => Some(s.clone()),
                None => None,
            },
            None => None,
        };
        out.push(PortInfo { name: p.port_name.clone(), serial_number });
        i = i + 1;
    }
    DebugPortsResponse { ports: out }
}

} // verus!
