//! The command-line tool's choice of ports and calibration files.
use vstd::prelude::*;
use vstd::string::StringExecFns;

use crate::ports::{find_port_by_serial_number, is_first_serial_match, missing_port_message, has_serial, PortRecord};
use crate::text::{decimal_string, format_u64};

verus! {

/// The error when neither a serial number nor a port is given.
pub open spec fn no_robot_message() -> Seq<char> {
    "At least one --serial-number or --port must be specified.\nUse --serial-number=<SN> to auto-detect, or --port=<path> for an explicit path.\nBoth flags can be repeated for multiple robots."@
}

/// The port found for each serial number, in order; serial number `k` is
/// found at `found[k]`.
pub open spec fn ports_found(ports: Seq<PortRecord>, serial_numbers: Seq<String>, found: Seq<String>) -> bool {
    &&& found.len() == serial_numbers.len()
    &&& forall|k: int|
        0 <= k < serial_numbers.len() ==> found_at(ports, serial_numbers[k]@, (#[trigger] found[k])@)
}

/// `name` is the name of the first port with serial number `sn`.
pub open spec fn found_at(ports: Seq<PortRecord>, sn: Seq<char>, name: Seq<char>) -> bool {
    exists|i: int| is_first_serial_match(ports, sn, i) && name == (#[trigger] ports[i]).port_name@
}

/// The ports of the robots to read: the port of each serial number, in
/// order, then the explicit ports, in order. It fails when neither is given,
/// and with the first serial number that no port has.
pub fn resolve_ports(serial_numbers: &Vec<String>, explicit_ports: &Vec<String>, available: &Vec<
    PortRecord,
>) -> (r: Result<Vec<String>, String>)
    ensures
        serial_numbers@.len() == 0 && explicit_ports@.len() == 0 ==> (r matches Err(m) && m@
            == no_robot_message()),
        r matches Ok(v) ==> v@.len() == serial_numbers@.len() + explicit_ports@.len()
            && ports_found(available@, serial_numbers@, v@.take(serial_numbers@.len() as int))
            && forall|k: int|
            0 <= k < explicit_ports@.len() ==> (#[trigger] v@[serial_numbers@.len() + k])@
                == explicit_ports@[k]@,
        r is Ok <==> (serial_numbers@.len() + explicit_ports@.len() > 0 && forall|k: int|
            0 <= k < serial_numbers@.len() ==> has_serial(available@, (#[trigger] serial_numbers@[k])@)),
        serial_numbers@.len() + explicit_ports@.len() > 0 ==> (r matches Err(m) ==> exists|k: int|
            0 <= k < serial_numbers@.len() && !has_serial(available@, (#[trigger] serial_numbers@[k])@)
                && (forall|j: int| 0 <= j < k ==> has_serial(available@, (#[trigger] serial_numbers@[j])@))
                && m@ == missing_port_message(available@, serial_numbers@[k]@)),
{
    if serial_numbers.len() == 0 && explicit_ports.len() == 0 {
        return Err(
            String::from_str(
                "At least one --serial-number or --port must be specified.\nUse --serial-number=<SN> to auto-detect, or --port=<path> for an explicit path.\nBoth flags can be repeated for multiple robots.",
            ),
        );
    }
    let mut out: Vec<String> = Vec::new();
    let mut k: usize = 0;
    while k < serial_numbers.len()
        invariant
            k <= serial_numbers@.len(),
            out@.len() == k,
            ports_found(available@, serial_numbers@.take(k as int), out@),
            forall|j: int| 0 <= j < k ==> has_serial(available@, (#[trigger] serial_numbers@[j])@),
        decreases serial_numbers@.len() - k,
    {
        match find_port_by_serial_number(available, serial_numbers[k].as_str()) {
            Ok(p) => {
                let ghost before = out@;
                out.push(p);
                assert forall|j: int| 0 <= j < k + 1 implies found_at(
                    available@,
                    serial_numbers@.take(k + 1)[j]@,
                    (#[trigger] out@[j])@,
                ) by {
                    if j < k {
                        assert(serial_numbers@.take(k + 1)[j] == serial_numbers@.take(k as int)[j]);
                        assert(out@[j] == before[j]);
                    } else {
                        let i = choose|i: int|
                            is_first_serial_match(available@, serial_numbers@[k as int]@, i)
                                && p@ == (#[trigger] available@[i]).port_name@;
                        assert(serial_numbers@.take(k + 1)[j] == serial_numbers@[k as int]);
                        assert(out@[j] == p);
                        assert(is_first_serial_match(available@, serial_numbers@.take(k + 1)[j]@, i));
                    }
                }
                proof {
                    let i = choose|i: int|
                        is_first_serial_match(available@, serial_numbers@[k as int]@, i)
                            && p@ == (#[trigger] available@[i]).port_name@;
                    assert(crate::ports::port_serial(available@[i]) == Some(serial_numbers@[k as int]@));
                }
            },
            Err(e) => {
                return Err(e);
            },
        }
        k = k + 1;
    }
    assert(serial_numbers@.take(k as int) =~= serial_numbers@);
    assert(out@.take(serial_numbers@.len() as int) =~= out@);
    let mut j: usize = 0;
    while j < explicit_ports.len()
        invariant
            j <= explicit_ports@.len(),
            out@.len() == serial_numbers@.len() + j,
            ports_found(available@, serial_numbers@, out@.take(serial_numbers@.len() as int)),
            forall|m: int|
                0 <= m < j ==> (#[trigger] out@[serial_numbers@.len() + m])@ == explicit_ports@[m]@,
        decreases explicit_ports@.len() - j,
    {
        let ghost before = out@;
        out.push(explicit_ports[j].clone());
        assert(out@.take(serial_numbers@.len() as int) =~= before.take(serial_numbers@.len() as int));
        j = j + 1;
    }
    Ok(out)
}

/// The error when the number of calibration files differs from the number
/// of robots.
pub open spec fn calibration_count_message(paths: nat, robots: nat) -> Seq<char> {
    "Number of --calibration files ("@ + decimal_string(paths) + ") must match the number of robots ("@
        + decimal_string(robots)
        + ").\nProvide one calibration file per robot in the same order as --serial-number / --port."@
}

/// Checks that the calibration files given match the robots: none at all,
/// or exactly one per robot.
pub fn check_calibration_count(paths: usize, robots: usize) -> (r: Result<(), String>)
    ensures
        r is Ok <==> (paths == 0 || paths == robots),
        r matches Err(m) ==> m@ == calibration_count_message(paths as nat, robots as nat),
{
    if paths == 0 || paths == robots {
        return Ok(());
    }
    let mut m = String::from_str("Number of --calibration files (");
    m.append(format_u64(paths as u64).as_str());
    m.append(") must match the number of robots (");
    m.append(format_u64(robots as u64).as_str());
    m.append(").\nProvide one calibration file per robot in the same order as --serial-number / --port.");
    Err(m)
}

} // verus!
