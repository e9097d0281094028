use vstd::prelude::*;

use crate::caps::{STATUS_PENDING, STATUS_SUCCESS};
use crate::error::Error;

verus! {

/// bmRequestType of a class request to an interface, device to host.
pub const CLASS_INTERFACE_IN: u8 = 0xA1;

/// bmRequestType of a standard request to an endpoint, host to device.
pub const STANDARD_ENDPOINT_OUT: u8 = 0x02;

pub const INITIATE_CLEAR: u8 = 5;

pub const CHECK_CLEAR_STATUS: u8 = 6;

pub const GET_CAPABILITIES: u8 = 7;

/// The standard CLEAR_FEATURE request.
pub const CLEAR_FEATURE: u8 = 1;

/// Feature selector ENDPOINT_HALT.
pub const ENDPOINT_HALT: u16 = 0;

/// One control transfer: the setup packet's fields, and for a transfer
/// from the device the number of bytes to read.
#[derive(Debug, Clone, Copy, PartialEq, Eq, Structural)]
pub struct ControlRequest {
    pub request_type: u8,
    pub request: u8,
    pub value: u16,
    pub index: u16,
    pub length: u16,
}

/// GET_CAPABILITIES on the USBTMC interface; the reply has 24 bytes.
pub fn get_capabilities_request(interface: u8) -> (r: ControlRequest)
    ensures
        r == (ControlRequest {
            request_type: CLASS_INTERFACE_IN,
            request: GET_CAPABILITIES,
            value: 0,
            index: interface as u16,
            length: 24,
        }),
{
    ControlRequest {
        request_type: CLASS_INTERFACE_IN,
        request: GET_CAPABILITIES,
        value: 0,
        index: interface as u16,
        length: 24,
    }
}

/// INITIATE_CLEAR on the USBTMC interface; the reply is one status byte.
pub fn initiate_clear_request(interface: u8) -> (r: ControlRequest)
    ensures
        r == (ControlRequest {
            request_type: CLASS_INTERFACE_IN,
            request: INITIATE_CLEAR,
            value: 0,
            index: interface as u16,
            length: 1,
        }),
{
    ControlRequest {
        request_type: CLASS_INTERFACE_IN,
        request: INITIATE_CLEAR,
        value: 0,
        index: interface as u16,
        length: 1,
    }
}

/// CHECK_CLEAR_STATUS on the USBTMC interface; the reply is a status byte
/// and bmClear.
pub fn check_clear_status_request(interface: u8) -> (r: ControlRequest)
    ensures
        r == (ControlRequest {
            request_type: CLASS_INTERFACE_IN,
            request: CHECK_CLEAR_STATUS,
            value: 0,
            index: interface as u16,
            length: 2,
        }),
{
    ControlRequest {
        request_type: CLASS_INTERFACE_IN,
        request: CHECK_CLEAR_STATUS,
        value: 0,
        index: interface as u16,
        length: 2,
    }
}

/// CLEAR_FEATURE(ENDPOINT_HALT) on the endpoint `endpoint`.
pub fn clear_feature_request(endpoint: u8) -> (r: ControlRequest)
    ensures
        r == (ControlRequest {
            request_type: STANDARD_ENDPOINT_OUT,
            request: CLEAR_FEATURE,
            value: ENDPOINT_HALT,
            index: endpoint as u16,
            length: 0,
        }),
{
    ControlRequest {
        request_type: STANDARD_ENDPOINT_OUT,
        request: CLEAR_FEATURE,
        value: ENDPOINT_HALT,
        index: endpoint as u16,
        length: 0,
    }
}

/// Where the clear-buffers handshake stands after a reply.
#[derive(Debug, Clone, Copy, PartialEq, Eq, Structural)]
pub enum ClearProgress {
    /// The device has cleared its buffers.
    Done,
    /// The clear is still pending: ask CHECK_CLEAR_STATUS again.
    Poll,
}

/// The meaning of the reply `b` to INITIATE_CLEAR.
pub open spec fn initiate_clear_outcome(b: Seq<u8>) -> Result<ClearProgress, Error> {
    if b.len() < 1 {
        Err(Error::ProtocolError)
    } else if b[0] == STATUS_SUCCESS {
        Ok(ClearProgress::Done)
    } else if b[0] == STATUS_PENDING {
        Ok(ClearProgress::Poll)
    } else {
        Err(Error::ProtocolError)
    }
}

/// The meaning of the reply `b` to CHECK_CLEAR_STATUS, when the session's
/// timeout has (`timed_out`) or has not yet elapsed since the handshake began.
pub open spec fn check_clear_outcome(b: Seq<u8>, timed_out: bool) -> Result<ClearProgress, Error> {
    if b.len() < 2 {
        Err(Error::ProtocolError)
    } else if b[0] == STATUS_PENDING {
        if timed_out {
            Err(Error::DeviceBusy)
        } else {
            Ok(ClearProgress::Poll)
        }
    } else if b[0] == STATUS_SUCCESS {
        Ok(ClearProgress::Done)
    } else {
        Err(Error::ProtocolError)
    }
}

/// Reads the reply to INITIATE_CLEAR.
pub fn on_initiate_clear(b: &[u8]) -> (r: Result<ClearProgress, Error>)
    ensures
        r == initiate_clear_outcome(b@),
{
    if b.len() < 1 {
        Err(Error::ProtocolError)
    } else if b[0] == STATUS_SUCCESS {
        Ok(ClearProgress::Done)
    } else if b[0] == STATUS_PENDING {
        Ok(ClearProgress::Poll)
    } else {
        Err(Error::ProtocolError)
    }
}

/// Reads the reply to CHECK_CLEAR_STATUS; a clear still pending once the
/// timeout has elapsed ends the handshake with `DeviceBusy`.
pub fn on_check_clear_status(b: &[u8], timed_out: bool) -> (r: Result<ClearProgress, Error>)
    ensures
        r == check_clear_outcome(b@, timed_out),
{
    if b.len() < 2 {
        Err(Error::ProtocolError)
    } else if b[0] == STATUS_PENDING {
        if timed_out {
            Err(Error::DeviceBusy)
        } else {
            Ok(ClearProgress::Poll)
        }
    } else if b[0] == STATUS_SUCCESS {
        Ok(ClearProgress::Done)
    } else {
        Err(Error::ProtocolError)
    }
}

} // verus!
