//! Choosing a serial port among the ports the system lists.
use vstd::prelude::*;
use vstd::string::StringExecFns;

use crate::text::str_eq;

verus! {

/// What the USB layer reports of a USB serial adapter.
#[derive(Debug, Clone)]
pub struct UsbPortInfo {
    pub serial_number: Option<String>,
    pub manufacturer: Option<String>,
    pub product: Option<String>,
}

/// One serial port as the system lists it; `usb` is `Some` for a USB port.
#[derive(Debug, Clone)]
pub struct PortRecord {
    pub port_name: String,
    pub usb: Option<UsbPortInfo>,
}

/// The view of an optional string.
pub open spec fn opt_view(s: Option<String>) -> Option<Seq<char>> {
    match s {
        Some(x) => Some(x@),
        None => None,
    }
}

/// The view of an optional string, or `default` when it is absent.
pub open spec fn view_or(s: Option<String>, default: Seq<char>) -> Seq<char> {
    match s {
        Some(x) => x@,
        None => default,
    }
}

/// The USB serial number of a port, if it is a USB port that has one.
pub open spec fn port_serial(p: PortRecord) -> Option<Seq<char>> {
    match p.usb {
        Some(u) => opt_view(u.serial_number),
        None => None,
    }
}

/// Port `i` is the first port whose USB serial number is `sn`.
pub open spec fn is_first_serial_match(ports: Seq<PortRecord>, sn: Seq<char>, i: int) -> bool {
    &&& 0 <= i < ports.len()
    &&& port_serial(ports[i]) == Some(sn)
    &&& forall|j: int| 0 <= j < i ==> port_serial(#[trigger] ports[j]) != Some(sn)
}

/// Some port has the USB serial number `sn`.
pub open spec fn has_serial(ports: Seq<PortRecord>, sn: Seq<char>) -> bool {
    exists|i: int| 0 <= i < ports.len() && port_serial(#[trigger] ports[i]) == Some(sn)
}

/// Listing one more port adds its serial number, if it has one, to those the
/// list has.
pub proof fn lemma_has_serial_push(ports: Seq<PortRecord>, p: PortRecord)
    ensures
        forall|s: Seq<char>|
            #[trigger] has_serial(ports.push(p), s) <==> (has_serial(ports, s) || port_serial(p)
                == Some(s)),
{
    let after = ports.push(p);
    assert forall|s: Seq<char>|
        #[trigger] has_serial(after, s) <==> (has_serial(ports, s) || port_serial(p) == Some(s)) by {
        if has_serial(after, s) {
            let j = choose|j: int| 0 <= j < after.len() && port_serial(#[trigger] after[j]) == Some(s);
            if j < ports.len() {
                assert(ports[j] == after[j]);
            }
        }
        if has_serial(ports, s) {
            let j = choose|j: int| 0 <= j < ports.len() && port_serial(#[trigger] ports[j]) == Some(s);
            assert(ports[j] == after[j]);
        }
        if port_serial(p) == Some(s) {
            assert(port_serial(after[ports.len() as int]) == Some(s));
        }
    }
}

/// Some port is a USB port.
pub open spec fn has_usb_port(ports: Seq<PortRecord>) -> bool {
    exists|i: int| 0 <= i < ports.len() && (#[trigger] ports[i]).usb is Some
}

/// The line that describes one USB port in the "not found" message.
pub open spec fn usb_port_line(name: Seq<char>, u: UsbPortInfo) -> Seq<char> {
    "  "@ + name + "  serial="@ + view_or(u.serial_number, "<no serial number>"@) + "  product="@
        + view_or(u.product, "<unknown>"@) + "  manufacturer="@ + view_or(
        u.manufacturer,
        "<unknown>"@,
    ) + "\n"@
}

/// The lines that describe every USB port, in the order listed.
pub open spec fn usb_port_lines(ports: Seq<PortRecord>) -> Seq<char>
    decreases ports.len(),
{
    if ports.len() == 0 {
        Seq::empty()
    } else {
        let p = ports.last();
        usb_port_lines(ports.drop_last()) + match p.usb {
            Some(u) => usb_port_line(p.port_name@, u),
            None => Seq::empty(),
        }
    }
}

/// The error reported when no port has the serial number `sn`.
pub open spec fn missing_port_message(ports: Seq<PortRecord>, sn: Seq<char>) -> Seq<char> {
    if has_usb_port(ports) {
        "No USB serial port found with serial number '"@ + sn
            + "'.\n\nAvailable USB serial ports:\n"@ + usb_port_lines(ports)
    } else {
        "No USB serial ports found on this system"@
    }
}

fn opt_str<'a>(s: &'a Option<String>, default: &'a str) -> (r: &'a str)
    ensures
        r@ == view_or(*s, default@),
{
    match s {
        Some(x) => x.as_str(),
        None => default,
    }
}

fn describe_usb_port(name: &str, u: &UsbPortInfo) -> (r: String)
    ensures
        r@ == usb_port_line(name@, *u),
{
    let mut line = String::from_str("  ");
    line.append(name);
    line.append("  serial=");
    line.append(opt_str(&u.serial_number, "<no serial number>"));
    line.append("  product=");
    line.append(opt_str(&u.product, "<unknown>"));
    line.append("  manufacturer=");
    line.append(opt_str(&u.manufacturer, "<unknown>"));
    line.append("\n");
    line
}

/// Whether the port is a USB port whose serial number is `sn`.
pub fn port_has_serial(p: &PortRecord, sn: &str) -> (r: bool)
    ensures
        r == (port_serial(*p) == Some(sn@)),
{
    match &p.usb {
        Some(u) => match &u.serial_number {
            Some(s) => str_eq(s.as_str(), sn),
            None => false,
        },
        None => false,
    }
}

/// Finds the port of the USB device with serial number `serial_number`: the
/// first listed port that has it. When there is none, the error says so and
/// lists every USB port with its serial number, product and manufacturer.
pub fn find_port_by_serial_number(ports: &Vec<PortRecord>, serial_number: &str) -> (r: Result<
    String,
    String,
>)
    ensures
        match r {
            Ok(name) => exists|i: int|
                is_first_serial_match(ports@, serial_number@, i) && name@
                    == (#[trigger] ports@[i]).port_name@,
            Err(msg) => !has_serial(ports@, serial_number@) && msg@ == missing_port_message(
                ports@,
                serial_number@,
            ),
        },
{
    let mut lines = String::new();
    let mut any_usb = false;
    let mut i: usize = 0;
    while i < ports.len()
        invariant
            i <= ports@.len(),
            lines@ == usb_port_lines(ports@.take(i as int)),
            any_usb == exists|j: int| 0 <= j < i && (#[trigger] ports@[j]).usb is Some,
            forall|j: int| 0 <= j < i ==> port_serial(#[trigger] ports@[j]) != Some(serial_number@),
        decreases ports@.len() - i,
    {
        let p = &ports[i];
        assert(ports@.take(i + 1).drop_last() =~= ports@.take(i as int));
        if port_has_serial(p, serial_number) {
            assert(is_first_serial_match(ports@, serial_number@, i as int));
            return Ok(p.port_name.clone());
        }
        match &p.usb {
            Some(u) => {
                let line = describe_usb_port(p.port_name.as_str(), u);
                lines.append(line.as_str());
                any_usb = true;
            },
            None => {},
        }
        i = i + 1;
    }
    assert(ports@.take(i as int) =~= ports@);
    if !any_usb {
        return Err(String::from_str("No USB serial ports found on this system"));
    }
    let mut msg = String::from_str("No USB serial port found with serial number '");
    msg.append(serial_number);
    msg.append("'.\n\nAvailable USB serial ports:\n");
    msg.append(lines.as_str());
    Err(msg)
}

/// The names of all listed ports, in order.
pub fn list_available_ports(ports: &Vec<PortRecord>) -> (r: Vec<String>)
    ensures
        r@.len() == ports@.len(),
        forall|i: int| 0 <= i < ports@.len() ==> (#[trigger] r@[i])@ == ports@[i].port_name@,
{
    let mut out: Vec<String> = Vec::new();
    let mut i: usize = 0;
    while i < ports.len()
        invariant
            i <= ports@.len(),
            out@.len() == i,
            forall|j: int| 0 <= j < i ==> (#[trigger] out@[j])@ == ports@[j].port_name@,
        decreases ports@.len() - i,
    {
        out.push(ports[i].port_name.clone());
        i = i + 1;
    }
    out
}

} // verus!
