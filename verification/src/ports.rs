//! Discovery by USB identity: which of the machine's serial ports
//! belong to the device. Enumerating ports is the caller's business;
//! the filtering rules live here.

use vstd::prelude::*;
use crate::error::Error;

verus! {

/// USB vendor id of the device.
pub const VENDOR_ID: u16 = 0x16C0;

/// USB product id of the device.
pub const PRODUCT_ID: u16 = 0x048A;

/// One candidate serial port: its name, and its USB identity if it is
/// a USB port at all.
pub struct PortInfo {
    pub name: String,
    pub usb: Option<(u16, u16)>,
}

/// Whether a port carries the device's USB identity.
pub open spec fn is_device(p: PortInfo) -> bool {
    p.usb == Some((VENDOR_ID, PRODUCT_ID))
}

/// Check a port against the fixed vendor/product pair.
pub fn matches_identity(p: &PortInfo) -> (r: bool)
    ensures
        r == is_device(*p),
{
    match p.usb {
        Some((vid, pid)) => vid == VENDOR_ID && pid == PRODUCT_ID,
        None => false,
    }
}

/// The names of the matching ports, in enumeration order.
pub open spec fn device_names(ports: Seq<PortInfo>) -> Seq<Seq<char>>
    decreases ports.len(),
{
    if ports.len() == 0 {
        Seq::empty()
    } else {
        device_names(ports.drop_last()) + (if is_device(ports.last()) {
            seq![ports.last().name@]
        } else {
            Seq::empty()
        })
    }
}

/// List the names of all ports that carry the device's USB identity,
/// in the order they were enumerated.
pub fn list_device_ports(ports: &Vec<PortInfo>) -> (r: Vec<String>)
    ensures
        r@.map_values(|s: String| s@) == device_names(ports@),
{
    let mut r: Vec<String> = Vec::new();
    let mut i: usize = 0;
    proof {
        assert(ports@.take(0) =~= Seq::<PortInfo>::empty());
        assert(r@.map_values(|s: String| s@) =~= device_names(ports@.take(0)));
    }
    while i < ports.len()
        invariant
            i <= ports@.len(),
            r@.map_values(|s: String| s@) == device_names(ports@.take(i as int)),
        decreases ports@.len() - i,
    {
        proof {
            assert(ports@.take(i + 1).drop_last() =~= ports@.take(i as int));
            assert(ports@.take(i + 1).last() == ports@[i as int]);
        }
        if matches_identity(&ports[i]) {
            r.push(ports[i].name.clone());
            proof {
                assert(r@.map_values(|s: String| s@) =~= device_names(ports@.take(i as int))
                    + seq![ports@[i as int].name@]);
            }
        } else {
            proof {
                assert(device_names(ports@.take(i + 1)) =~= device_names(ports@.take(i as int)));
            }
        }
        i = i + 1;
    }
    proof {
        assert(ports@.take(ports@.len() as int) =~= ports@);
    }
    r
}

/// Index of the first port whose USB identity matches, if any; how the
/// session picks a port when detecting the device system-wide.
pub fn detect_port(ports: &Vec<PortInfo>) -> (r: Result<usize, Error>)
    ensures
        r matches Ok(i) ==> i < ports@.len() && is_device(ports@[i as int]) && (forall|j: int|
            0 <= j < i ==> !is_device(ports@[j])),
        r is Err ==> r == Err::<usize, Error>(Error::DeviceNotFound) && (forall|j: int|
            0 <= j < ports@.len() ==> !is_device(ports@[j])),
{
    let mut i: usize = 0;
    while i < ports.len()
        invariant
            i <= ports@.len(),
            forall|j: int| 0 <= j < i ==> !is_device(ports@[j]),
        decreases ports@.len() - i,
    {
        if matches_identity(&ports[i]) {
            return Ok(i);
        }
        i = i + 1;
    }
    Err(Error::DeviceNotFound)
}

/// Look up a port by name: the index of the first port so named,
/// provided it carries the device's identity. A named port that exists
/// but is no device is `DeviceNotFound`; an absent name is
/// `PortNotFound`.
pub fn find_named_port(ports: &Vec<PortInfo>, name: &String) -> (r: Result<usize, Error>)
    ensures
        r matches Ok(i) ==> i < ports@.len() && ports@[i as int].name@ == name@ && is_device(
            ports@[i as int],
        ) && (forall|j: int| 0 <= j < i ==> ports@[j].name@ != name@),
        r == Err::<usize, Error>(Error::DeviceNotFound) ==> exists|i: int|
            0 <= i < ports@.len() && ports@[i].name@ == name@ && !is_device(ports@[i]) && (
            forall|j: int| 0 <= j < i ==> ports@[j].name@ != name@),
        r == Err::<usize, Error>(Error::PortNotFound) ==> forall|j: int|
            0 <= j < ports@.len() ==> ports@[j].name@ != name@,
        r is Err ==> r == Err::<usize, Error>(Error::DeviceNotFound) || r == Err::<usize, Error>(
            Error::PortNotFound,
        ),
{
    let mut i: usize = 0;
    while i < ports.len()
        invariant
            i <= ports@.len(),
            forall|j: int| 0 <= j < i ==> ports@[j].name@ != name@,
        decreases ports@.len() - i,
    {
        if ports[i].name.eq(name) {
            if matches_identity(&ports[i]) {
                return Ok(i);
            } else {
                return Err(Error::DeviceNotFound);
            }
        }
        i = i + 1;
    }
    Err(Error::PortNotFound)
}

} // verus!
