use vstd::prelude::*;

use crate::caps::{capabilities_of, capabilities_reply_ok, parse_capabilities, Capabilities};
use crate::client::{failure_error, ReadKind, TransferFailure, UsbtmcClient};
use crate::control::{
    check_clear_outcome, check_clear_status_request, clear_feature_request,
    get_capabilities_request, initiate_clear_outcome, initiate_clear_request, on_check_clear_status,
    on_initiate_clear, ClearProgress, ControlRequest, CHECK_CLEAR_STATUS, CLASS_INTERFACE_IN,
    CLEAR_FEATURE, ENDPOINT_HALT, GET_CAPABILITIES, INITIATE_CLEAR, STANDARD_ENDPOINT_OUT,
};
use crate::error::Error;
use crate::init::{teardown, DeviceMode, Teardown, UsbtmcEndpoints};
use std::time::Duration;

verus! {

/// The steps of connect that follow the claim of the interface, each
/// waiting for the reply to one control transfer.
#[derive(Debug, Clone, Copy, PartialEq, Eq, Structural)]
pub enum ConnectStage {
    /// GET_CAPABILITIES was sent.
    QueryCapabilities,
    /// INITIATE_CLEAR was sent.
    InitiateClear(Capabilities),
    /// CHECK_CLEAR_STATUS was sent.
    CheckClear(Capabilities),
    /// CLEAR_FEATURE(ENDPOINT_HALT) was sent to the bulk-out endpoint.
    ClearOutHalt(Capabilities),
    /// CLEAR_FEATURE(ENDPOINT_HALT) was sent to the bulk-in endpoint.
    ClearInHalt(Capabilities),
    /// Every step succeeded.
    Connected(Capabilities),
}

/// The stage that the reply `reply` to the request of `stage` leads to, or
/// the error that ends the connect.
pub open spec fn advance(
    stage: ConnectStage,
    reply: Result<Seq<u8>, TransferFailure>,
    timed_out: bool,
) -> Result<ConnectStage, Error> {
    match reply {
        Err(f) => Err(failure_error(f)),
        Ok(b) => match stage {
            ConnectStage::QueryCapabilities => if capabilities_reply_ok(b) {
                Ok(ConnectStage::InitiateClear(capabilities_of(b)))
            } else {
                Err(Error::ProtocolError)
            },
            ConnectStage::InitiateClear(c) => match initiate_clear_outcome(b) {
                Ok(ClearProgress::Done) => Ok(ConnectStage::ClearOutHalt(c)),
                Ok(ClearProgress::Poll) => Ok(ConnectStage::CheckClear(c)),
                Err(e) => Err(e),
            },
            ConnectStage::CheckClear(c) => match check_clear_outcome(b, timed_out) {
                Ok(ClearProgress::Done) => Ok(ConnectStage::ClearOutHalt(c)),
                Ok(ClearProgress::Poll) => Ok(ConnectStage::CheckClear(c)),
                Err(e) => Err(e),
            },
            ConnectStage::ClearOutHalt(c) => Ok(ConnectStage::ClearInHalt(c)),
            ConnectStage::ClearInHalt(c) => Ok(ConnectStage::Connected(c)),
            ConnectStage::Connected(c) => Ok(ConnectStage::Connected(c)),
        },
    }
}

/// The control transfer that a stage sends.
pub open spec fn stage_request(stage: ConnectStage, mode: DeviceMode, endpoints: UsbtmcEndpoints) -> ControlRequest {
    let class_request = |request: u8, length: u16|
        ControlRequest {
            request_type: CLASS_INTERFACE_IN,
            request,
            value: 0,
            index: mode.interface_number as u16,
            length,
        };
    let halt = |ep: u8|
        ControlRequest {
            request_type: STANDARD_ENDPOINT_OUT,
            request: CLEAR_FEATURE,
            value: ENDPOINT_HALT,
            index: ep as u16,
            length: 0,
        };
    match stage {
        ConnectStage::QueryCapabilities => class_request(GET_CAPABILITIES, 24),
        ConnectStage::InitiateClear(_) => class_request(INITIATE_CLEAR, 1),
        ConnectStage::CheckClear(_) => class_request(CHECK_CLEAR_STATUS, 2),
        ConnectStage::ClearOutHalt(_) => halt(endpoints.bulk_out_ep),
        ConnectStage::ClearInHalt(_) => halt(endpoints.bulk_in_ep),
        ConnectStage::Connected(_) => halt(endpoints.bulk_in_ep),
    }
}

/// The reply as values.
pub open spec fn reply_view(reply: &Result<Vec<u8>, TransferFailure>) -> Result<
    Seq<u8>,
    TransferFailure,
> {
    match reply {
        Ok(b) => Ok(b@),
        Err(f) => Err(*f),
    }
}

/// A connect under way, on a device whose configuration is set and whose
/// USBTMC interface is claimed.
#[derive(Debug)]
pub struct Connecting {
    pub mode: DeviceMode,
    pub endpoints: UsbtmcEndpoints,
    pub timeout: Duration,
    pub stage: ConnectStage,
}

/// What the caller does next.
#[derive(Debug)]
pub enum ConnectStep {
    /// Issue the control transfer and hand its reply to `step`.
    Control(Connecting, ControlRequest),
    /// Undo what the teardown names, then report the error.
    Abort(Teardown, Error),
    /// The session is ready.
    Ready(UsbtmcClient),
}

impl Connecting {
    /// Begins with the capability query.
    pub fn start(mode: DeviceMode, endpoints: UsbtmcEndpoints, timeout: Duration) -> (r: (
        Connecting,
        ControlRequest,
    ))
        ensures
            r.0.mode == mode,
            r.0.endpoints == endpoints,
            r.0.timeout == timeout,
            r.0.stage == ConnectStage::QueryCapabilities,
            r.1 == stage_request(ConnectStage::QueryCapabilities, mode, endpoints),
    {
        let req = get_capabilities_request(mode.interface_number);
        (Connecting { mode, endpoints, timeout, stage: ConnectStage::QueryCapabilities }, req)
    }

    /// Takes the outcome of the last control transfer; `timed_out` tells
    /// whether the session's timeout has elapsed since the clear-buffers
    /// handshake began. Any failure releases the claimed interface (and
    /// gives a detached kernel driver back) before the error is reported.
    pub fn step(self, reply: Result<Vec<u8>, TransferFailure>, timed_out: bool) -> (r: ConnectStep)
        ensures
            match advance(self.stage, reply_view(&reply), timed_out) {
                Err(e) => r matches ConnectStep::Abort(td, e2) && e2 == e
                    && td.release_interface == Some(self.mode.interface_number)
                    && td.reattach_driver == (if self.mode.has_kernel_driver {
                    Some(self.mode.interface_number)
                } else {
                    None::<u8>
                }),
                Ok(ConnectStage::Connected(c)) => r matches ConnectStep::Ready(client)
                    && client.wf() && client.mode_spec() == self.mode && client.endpoints_spec()
                    == self.endpoints && client.capabilities_spec() == c && client.timeout_spec()
                    == self.timeout && client.term_char_spec() == None::<u8>
                    && client.next_tag_spec() == 1 && client.reading() == None::<
                    (ReadKind, u8, Seq<u8>),
                >,
                Ok(s) => r matches ConnectStep::Control(next, req) && next.stage == s && next.mode
                    == self.mode && next.endpoints == self.endpoints && next.timeout == self.timeout
                    && req == stage_request(s, self.mode, self.endpoints),
            },
    {
        let Connecting { mode, endpoints, timeout, stage } = self;
        let b = match reply {
            Ok(b) => b,
            Err(TransferFailure::TimedOut) => return ConnectStep::Abort(
                teardown(&mode, true),
                Error::Timeout,
            ),
            Err(TransferFailure::Failed) => return ConnectStep::Abort(
                teardown(&mode, true),
                Error::TransportError,
            ),
        };
        let next = match stage {
            ConnectStage::QueryCapabilities => match parse_capabilities(b.as_slice()) {
                Ok(c) => ConnectStage::InitiateClear(c),
                Err(e) => return ConnectStep::Abort(teardown(&mode, true), e),
            },
            ConnectStage::InitiateClear(c) => match on_initiate_clear(b.as_slice()) {
                Ok(ClearProgress::Done) => ConnectStage::ClearOutHalt(c),
                Ok(ClearProgress::Poll) => ConnectStage::CheckClear(c),
                Err(e) => return ConnectStep::Abort(teardown(&mode, true), e),
            },
            ConnectStage::CheckClear(c) => match on_check_clear_status(b.as_slice(), timed_out) {
                Ok(ClearProgress::Done) => ConnectStage::ClearOutHalt(c),
                Ok(ClearProgress::Poll) => ConnectStage::CheckClear(c),
                Err(e) => return ConnectStep::Abort(teardown(&mode, true), e),
            },
            ConnectStage::ClearOutHalt(c) => ConnectStage::ClearInHalt(c),
            ConnectStage::ClearInHalt(c) => ConnectStage::Connected(c),
            ConnectStage::Connected(c) => ConnectStage::Connected(c),
        };
        let req = match next {
            ConnectStage::QueryCapabilities => get_capabilities_request(mode.interface_number),
            ConnectStage::InitiateClear(_) => initiate_clear_request(mode.interface_number),
            ConnectStage::CheckClear(_) => check_clear_status_request(mode.interface_number),
            ConnectStage::ClearOutHalt(_) => clear_feature_request(endpoints.bulk_out_ep),
            ConnectStage::ClearInHalt(_) => clear_feature_request(endpoints.bulk_in_ep),
            ConnectStage::Connected(c) => {
                return ConnectStep::Ready(UsbtmcClient::new(mode, endpoints, c, timeout));
            },
        };
        ConnectStep::Control(Connecting { mode, endpoints, timeout, stage: next }, req)
    }
}

} // verus!
