use vstd::prelude::*;

use crate::error::Error;

verus! {

/// Interface class code of application-specific interfaces.
pub const CLASS_APPLICATION: u8 = 0xFE;

/// Subclass code of USBTMC within the application-specific class.
pub const SUBCLASS_USBTMC: u8 = 0x03;

/// One alternate setting of one interface, as its descriptor gives it.
#[derive(Debug, Clone, Copy, PartialEq, Eq, Structural)]
pub struct InterfaceInfo {
    pub config_number: u8,
    pub interface_number: u8,
    pub setting_number: u8,
    pub class_code: u8,
    pub sub_class_code: u8,
}

/// One endpoint of the chosen alternate setting, as its descriptor gives it.
#[derive(Debug, Clone, Copy, PartialEq, Eq, Structural)]
pub struct EndpointInfo {
    /// bEndpointAddress: bit 7 set for device-to-host.
    pub address: u8,
    /// bmAttributes: bits 0 and 1 give the transfer type, 2 for bulk.
    pub attributes: u8,
}

/// Where the USBTMC function lives on the device.
#[derive(Debug, Clone, Copy, PartialEq, Eq, Structural)]
pub struct DeviceMode {
    pub config_number: u8,
    pub interface_number: u8,
    pub setting_number: u8,
    /// A kernel driver held the interface and was detached from it.
    pub has_kernel_driver: bool,
}

/// The bulk endpoints of the USBTMC interface.
#[derive(Debug, Clone, Copy, PartialEq, Eq, Structural)]
pub struct UsbtmcEndpoints {
    pub bulk_in_ep: u8,
    pub bulk_out_ep: u8,
}

pub open spec fn is_usbtmc(i: InterfaceInfo) -> bool {
    i.class_code == CLASS_APPLICATION && i.sub_class_code == SUBCLASS_USBTMC
}

pub open spec fn is_bulk_in(e: EndpointInfo) -> bool {
    e.attributes % 4 == 2 && e.address >= 0x80
}

pub open spec fn is_bulk_out(e: EndpointInfo) -> bool {
    e.attributes % 4 == 2 && e.address < 0x80
}

/// Picks the first USBTMC interface among `ifaces`; the kernel-driver flag
/// starts out false, to be set by whoever detaches the driver.
pub fn get_usbtmc_mode(ifaces: &[InterfaceInfo]) -> (r: Result<DeviceMode, Error>)
    ensures
        match r {
            Ok(m) => exists|i: int|
                0 <= i < ifaces@.len() && is_usbtmc(ifaces@[i]) && (forall|j: int|
                    0 <= j < i ==> !is_usbtmc(#[trigger] ifaces@[j])) && m == (DeviceMode {
                    config_number: ifaces@[i].config_number,
                    interface_number: ifaces@[i].interface_number,
                    setting_number: ifaces@[i].setting_number,
                    has_kernel_driver: false,
                }),
            Err(e) => e == Error::UnsupportedDevice && forall|j: int|
                0 <= j < ifaces@.len() ==> !is_usbtmc(#[trigger] ifaces@[j]),
        },
{
    let mut i: usize = 0;
    while i < ifaces.len()
        invariant
            i <= ifaces@.len(),
            forall|j: int| 0 <= j < i ==> !is_usbtmc(#[trigger] ifaces@[j]),
        decreases ifaces@.len() - i,
    {
        let f = ifaces[i];
        if f.class_code == CLASS_APPLICATION && f.sub_class_code == SUBCLASS_USBTMC {
            return Ok(
                DeviceMode {
                    config_number: f.config_number,
                    interface_number: f.interface_number,
                    setting_number: f.setting_number,
                    has_kernel_driver: false,
                },
            );
        }
        i = i + 1;
    }
    Err(Error::UnsupportedDevice)
}

/// Picks the first bulk-in and the first bulk-out endpoint among `eps`.
pub fn get_endpoints(eps: &[EndpointInfo]) -> (r: Result<UsbtmcEndpoints, Error>)
    ensures
        match r {
            Ok(p) => (exists|i: int|
                0 <= i < eps@.len() && is_bulk_in(eps@[i]) && eps@[i].address == p.bulk_in_ep
                    && forall|j: int| 0 <= j < i ==> !is_bulk_in(#[trigger] eps@[j])) && (exists|
                i: int|
                0 <= i < eps@.len() && is_bulk_out(eps@[i]) && eps@[i].address == p.bulk_out_ep
                    && forall|j: int| 0 <= j < i ==> !is_bulk_out(#[trigger] eps@[j])),
            Err(e) => e == Error::UnsupportedDevice && ((forall|j: int|
                0 <= j < eps@.len() ==> !is_bulk_in(#[trigger] eps@[j])) || (forall|j: int|
                0 <= j < eps@.len() ==> !is_bulk_out(#[trigger] eps@[j]))),
        },
{
    let mut bulk_in: Option<u8> = None;
    let mut bulk_out: Option<u8> = None;
    let mut i: usize = 0;
    while i < eps.len()
        invariant
            i <= eps@.len(),
            match bulk_in {
                Some(a) => exists|k: int|
                    0 <= k < i && is_bulk_in(eps@[k]) && eps@[k].address == a && forall|j: int|
                        0 <= j < k ==> !is_bulk_in(#[trigger] eps@[j]),
                None => forall|j: int| 0 <= j < i ==> !is_bulk_in(#[trigger] eps@[j]),
            },
            match bulk_out {
                Some(a) => exists|k: int|
                    0 <= k < i && is_bulk_out(eps@[k]) && eps@[k].address == a && forall|j: int|
                        0 <= j < k ==> !is_bulk_out(#[trigger] eps@[j]),
                None => forall|j: int| 0 <= j < i ==> !is_bulk_out(#[trigger] eps@[j]),
            },
        decreases eps@.len() - i,
    {
        let e = eps[i];
        if e.attributes % 4 == 2 {
            if e.address >= 0x80 {
                if bulk_in.is_none() {
                    bulk_in = Some(e.address);
                }
            } else if bulk_out.is_none() {
                bulk_out = Some(e.address);
            }
        }
        i = i + 1;
    }
    match (bulk_in, bulk_out) {
        (Some(a), Some(b)) => Ok(UsbtmcEndpoints { bulk_in_ep: a, bulk_out_ep: b }),
        _ => Err(Error::UnsupportedDevice),
    }
}

/// What closing a session, or abandoning a connect, has to undo.
#[derive(Debug, Clone, Copy, PartialEq, Eq, Structural)]
pub struct Teardown {
    /// The interface to release, if it was claimed.
    pub release_interface: Option<u8>,
    /// The interface to give back to its kernel driver, if one was detached.
    pub reattach_driver: Option<u8>,
}

/// The teardown for `mode`, with the interface claimed or not yet claimed.
pub fn teardown(mode: &DeviceMode, claimed: bool) -> (r: Teardown)
    ensures
        r.release_interface == (if claimed {
            Some(mode.interface_number)
        } else {
            None::<u8>
        }),
        r.reattach_driver == (if mode.has_kernel_driver {
            Some(mode.interface_number)
        } else {
            None::<u8>
        }),
{
    Teardown {
        release_interface: if claimed {
            Some(mode.interface_number)
        } else {
            None
        },
        reattach_driver: if mode.has_kernel_driver {
            Some(mode.interface_number)
        } else {
            None
        },
    }
}

} // verus!
