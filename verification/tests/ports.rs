use robot_control_server::ports::{find_port_by_serial_number, list_available_ports, PortRecord, UsbPortInfo};

fn usb(name: &str, sn: Option<&str>, manufacturer: Option<&str>, product: Option<&str>) -> PortRecord {
    PortRecord {
        port_name: name.to_string(),
        usb: Some(UsbPortInfo {
            serial_number: sn.map(String::from),
            manufacturer: manufacturer.map(String::from),
            product: product.map(String::from),
        }),
    }
}

fn plain(name: &str) -> PortRecord {
    PortRecord { port_name: name.to_string(), usb: None }
}

#[test]
fn finds_the_first_port_with_the_serial_number() {
    let ports = vec![
        plain("/dev/ttyS0"),
        usb("/dev/ttyACM0", Some("5AAF270379"), Some("QinHeng"), Some("USB Single Serial")),
        usb("/dev/ttyACM1", Some("5AAF270379"), None, None),
    ];
    assert_eq!(find_port_by_serial_number(&ports, "5AAF270379"), Ok("/dev/ttyACM0".to_string()));
}

#[test]
fn reports_no_usb_ports() {
    let ports = vec![plain("/dev/ttyS0"), plain("/dev/ttyS1")];
    assert_eq!(
        find_port_by_serial_number(&ports, "X"),
        Err("No USB serial ports found on this system".to_string())
    );
    assert_eq!(
        find_port_by_serial_number(&vec![], "X"),
        Err("No USB serial ports found on this system".to_string())
    );
}

#[test]
fn lists_usb_ports_when_serial_number_missing() {
    let ports = vec![
        usb("/dev/ttyACM0", Some("AAA"), Some("QinHeng"), Some("USB Single Serial")),
        plain("/dev/ttyS0"),
        usb("/dev/ttyACM1", None, None, None),
    ];
    let expected = "No USB serial port found with serial number 'BBB'.\n\nAvailable USB serial ports:\n  /dev/ttyACM0  serial=AAA  product=USB Single Serial  manufacturer=QinHeng\n  /dev/ttyACM1  serial=<no serial number>  product=<unknown>  manufacturer=<unknown>\n";
    assert_eq!(find_port_by_serial_number(&ports, "BBB"), Err(expected.to_string()));
}

#[test]
fn available_port_names_in_order() {
    let ports = vec![plain("/dev/ttyS0"), usb("/dev/ttyACM0", Some("A"), None, None)];
    assert_eq!(list_available_ports(&ports), vec!["/dev/ttyS0".to_string(), "/dev/ttyACM0".to_string()]);
    assert!(list_available_ports(&vec![]).is_empty());
}
