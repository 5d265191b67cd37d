//! Device discovery: pick the relay out of the attached serial devices.
//!
//! The supported relay hardware identifies itself by a fixed USB vendor and
//! product ID pair.  Enumerating the attached devices is the caller's job
//! (on Linux the serial crate's fallback scan aborts outright when
//! `/sys/class/tty` is missing, so the call cannot stand in verified code);
//! the caller hands the result over as plain [`PortInfo`] values, and the
//! selection of the first matching device is verified here, so it holds for
//! whatever list the machine reports.

use vstd::prelude::*;

use crate::RelayError;
use crate::port::Port;

verus! {

/// USB vendor ID of the supported relay model.
pub const RELAY_VID: u16 = 0x1a86;

/// USB product ID of the supported relay model.
pub const RELAY_PID: u16 = 0x7523;

/// What discovery reads of one attached serial device: its path and, where
/// the device is connected over USB, its vendor and product IDs.
pub struct PortInfo {
    /// The short name (path) of the serial device.
    pub name: String,
    /// `Some((vendor_id, product_id))` for a USB device, `None` where the
    /// device exposes no USB metadata and is to be skipped.
    pub usb: Option<(u16, u16)>,
}

/// Whether one device reports exactly the wanted USB identity.
pub open spec fn port_matches(p: PortInfo, vid: u16, pid: u16) -> bool {
    p.usb == Some((vid, pid))
}

/// The index of the first device in `ports` that reports the USB identity
/// `(vid, pid)`, or `None` when no device does.
pub fn find_in_ports(ports: &Vec<PortInfo>, vid: u16, pid: u16) -> (r: Option<usize>)
    ensures
        match r {
            Some(i) => i < ports@.len() && port_matches(ports@[i as int], vid, pid)
                && (forall|j: int| 0 <= j < i ==> !port_matches(ports@[j], vid, pid)),
            None => forall|j: int| 0 <= j < ports@.len() ==> !port_matches(ports@[j], vid, pid),
        },
{
    let mut i: usize = 0;
    while i < ports.len()
        invariant
            i <= ports@.len(),
            forall|j: int| 0 <= j < i ==> !port_matches(ports@[j], vid, pid),
        decreases ports@.len() - i,
    {
        match &ports[i].usb {
            Some((v, p)) => {
                if *v == vid && *p == pid {
                    return Some(i);
                }
            },
            None => {},
        }
        i = i + 1;
    }
    None
}

/// The name of the first device in `ports` that reports the USB identity
/// `(vid, pid)`, or `None` when no device does.
pub fn find_name_in_ports(ports: &Vec<PortInfo>, vid: u16, pid: u16) -> (r: Option<String>)
    ensures
        match r {
            Some(name) => exists|i: int|
                0 <= i < ports@.len() && port_matches(ports@[i], vid, pid)
                    && name@ == ports@[i].name@
                    && (forall|j: int| 0 <= j < i ==> !port_matches(ports@[j], vid, pid)),
            None => forall|j: int| 0 <= j < ports@.len() ==> !port_matches(ports@[j], vid, pid),
        },
{
    match find_in_ports(ports, vid, pid) {
        Some(i) => Some(ports[i].name.clone()),
        None => None,
    }
}

impl Port {
    /// The path of the first device in `ports` that reports the USB
    /// identity `(vid, pid)`, or `None` when no device does.
    pub fn find_tty(ports: &Vec<PortInfo>, vid: u16, pid: u16) -> (r: Option<String>)
        ensures
            match r {
                Some(name) => exists|i: int|
                    0 <= i < ports@.len() && port_matches(ports@[i], vid, pid)
                        && name@ == ports@[i].name@
                        && (forall|j: int| 0 <= j < i ==> !port_matches(ports@[j], vid, pid)),
                None => forall|j: int| 0 <= j < ports@.len() ==> !port_matches(ports@[j], vid, pid),
            },
    {
        find_name_in_ports(ports, vid, pid)
    }

    /// Resolve the serial device to talk to.  An explicit path is returned
    /// as it is (whether it can be opened is the opener's concern); without
    /// one, the first device in `ports` with the relay's fixed USB identity
    /// is chosen, and `DeviceNotFound` comes exactly when there is none.
    pub fn locate(tty_path: Option<String>, ports: &Vec<PortInfo>) -> (r: Result<
        String,
        RelayError,
    >)
        ensures
            match tty_path {
                Some(p) => r == Ok::<String, RelayError>(p),
                None => match r {
                    Ok(name) => exists|i: int|
                        0 <= i < ports@.len() && port_matches(ports@[i], RELAY_VID, RELAY_PID)
                            && name@ == ports@[i].name@
                            && (forall|j: int|
                                0 <= j < i ==> !port_matches(ports@[j], RELAY_VID, RELAY_PID)),
                    Err(e) => e == RelayError::DeviceNotFound
                        && (forall|j: int|
                            0 <= j < ports@.len() ==> !port_matches(
                                ports@[j],
                                RELAY_VID,
                                RELAY_PID,
                            )),
                },
            },
    {
        match tty_path {
            Some(p) => Ok(p),
            None => match Port::find_tty(ports, RELAY_VID, RELAY_PID) {
                Some(path) => Ok(path),
                None => Err(RelayError::DeviceNotFound),
            },
        }
    }
}

} // verus!
