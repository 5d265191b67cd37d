use tty_relay::Port;
use tty_relay::RelayError;
use tty_relay::locate::{PortInfo, RELAY_PID, RELAY_VID, find_in_ports, find_name_in_ports};

/// The attached serial devices, read the way the binary reads them before
/// handing them to the library.
fn scan_ports() -> Vec<PortInfo> {
    let mut out: Vec<PortInfo> = Vec::new();
    if let Ok(ports) = serialport::available_ports() {
        for p in ports {
            let usb = match p.port_type {
                serialport::SerialPortType::UsbPort(u) => Some((u.vid, u.pid)),
                _ => None,
            };
            out.push(PortInfo { name: p.port_name, usb });
        }
    }
    out
}

#[test]
fn test_find() {
    let ports = scan_ports();

    let port = Port::find_tty(&ports, 666, 666);

    assert!(port.is_none());
}

#[test]
fn test_find_in_ports_picks_first_match() {
    let ports = vec![
        PortInfo { name: "/dev/ttyS0".to_string(), usb: None },
        PortInfo { name: "/dev/ttyUSB0".to_string(), usb: Some((0x1a86, 0x7523)) },
        PortInfo { name: "/dev/ttyUSB1".to_string(), usb: Some((0x1a86, 0x7523)) },
    ];

    assert_eq!(find_in_ports(&ports, 0x1a86, 0x7523), Some(1));
    assert_eq!(
        find_name_in_ports(&ports, 0x1a86, 0x7523),
        Some("/dev/ttyUSB0".to_string())
    );
}

#[test]
fn test_find_in_ports_skips_other_identities() {
    let ports = vec![
        PortInfo { name: "/dev/ttyUSB0".to_string(), usb: Some((0x1a86, 0x0001)) },
        PortInfo { name: "/dev/ttyUSB1".to_string(), usb: Some((0x0001, 0x7523)) },
        PortInfo { name: "/dev/ttyS0".to_string(), usb: None },
    ];

    assert_eq!(find_in_ports(&ports, 0x1a86, 0x7523), None);
    assert_eq!(find_name_in_ports(&ports, 0x1a86, 0x7523), None);
}

#[test]
fn test_find_in_ports_empty_list() {
    let ports: Vec<PortInfo> = Vec::new();

    assert_eq!(find_in_ports(&ports, RELAY_VID, RELAY_PID), None);
}

#[test]
fn test_locate_explicit_path_returned_as_is() {
    let ports: Vec<PortInfo> = Vec::new();

    let r = Port::locate(Some("/dev/NOT_FOUND".to_string()), &ports);

    assert_eq!(r, Ok("/dev/NOT_FOUND".to_string()));
}

#[test]
fn test_locate_picks_relay_by_identity() {
    let ports = vec![
        PortInfo { name: "/dev/ttyS0".to_string(), usb: None },
        PortInfo { name: "/dev/ttyUSB0".to_string(), usb: Some((RELAY_VID, RELAY_PID)) },
    ];

    let r = Port::locate(None, &ports);

    assert_eq!(r, Ok("/dev/ttyUSB0".to_string()));
}

#[test]
fn test_locate_without_device_is_not_found() {
    let ports = vec![
        PortInfo { name: "/dev/ttyS0".to_string(), usb: None },
        PortInfo { name: "/dev/ttyUSB0".to_string(), usb: Some((RELAY_VID, 0x0001)) },
    ];

    let r = Port::locate(None, &ports);

    assert_eq!(r, Err(RelayError::DeviceNotFound));
}

#[test]
fn test_locate_on_this_machine_finds_no_relay() {
    // No relay hardware is attached here, so discovery over the real
    // enumeration must report that.
    let r = Port::locate(None, &scan_ports());

    assert_eq!(r, Err(RelayError::DeviceNotFound));
}
