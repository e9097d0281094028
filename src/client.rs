use vstd::prelude::*;
use vstd::string::*;
use vstd::utf8::*;

use crate::bulk::{
    decode_msg_in, encode_msg_out, encode_request_in, msg_in_eom, msg_in_error, msg_in_payload,
    msg_out_frame, request_in_frame, HEADER_LEN, MAX_PAYLOAD_LEN,
};
use crate::caps::Capabilities;
use crate::error::Error;
use crate::init::{teardown, DeviceMode, Teardown, UsbtmcEndpoints};
use crate::tag::{next_tag, BTag};
use crate::text::{decode_text, trim_chars};
use std::time::Duration;

verus! {

/// The largest chunk that one REQUEST_DEV_DEP_MSG_IN asks for.
pub const READ_CHUNK_SIZE: u32 = 4096;

/// A bulk-in buffer that holds one chunk with its header and padding.
pub const READ_BUFFER_LEN: usize = HEADER_LEN + 4096 + 4;

/// How a response is handed back once complete.
#[derive(Debug, Clone, Copy, PartialEq, Eq, Structural)]
pub enum ReadKind {
    /// As the bytes received.
    Raw,
    /// As UTF-8 text without surrounding white space.
    Text,
}

/// A read in progress: the tag of the request that the next bulk-in frame
/// answers, and the payload gathered so far.
#[derive(Debug)]
struct PendingRead {
    kind: ReadKind,
    tag: u8,
    received: Vec<u8>,
}

/// The frames that a query puts on the bulk-out endpoint, in order: the
/// command, then the request for the first chunk of the response.
#[derive(Debug)]
pub struct Exchange {
    pub command: Vec<u8>,
    pub request: Vec<u8>,
}

/// A complete response.
#[derive(Debug, PartialEq, Eq)]
pub enum Response {
    Raw(Vec<u8>),
    Text(String),
}

/// What follows a bulk-in frame.
#[derive(Debug, PartialEq, Eq)]
pub enum ReadStep {
    /// The message goes on: send this REQUEST_DEV_DEP_MSG_IN frame, then
    /// read the next bulk-in frame.
    Continue(Vec<u8>),
    /// The end-of-message frame came: the whole response.
    Complete(Response),
}

/// How a transfer failed, as the transport reports it.
#[derive(Debug, Clone, Copy, PartialEq, Eq, Structural)]
pub enum TransferFailure {
    /// Nothing completed within the timeout.
    TimedOut,
    /// The transfer was rejected, stalled, or the device went away.
    Failed,
}

/// The error that a failed transfer becomes.
pub open spec fn failure_error(f: TransferFailure) -> Error {
    match f {
        TransferFailure::TimedOut => Error::Timeout,
        TransferFailure::Failed => Error::TransportError,
    }
}

/// The protocol state of a session with a USBTMC device whose interface has
/// been claimed: where it lives, what it can do, the sequence tags, the
/// timeout that every transfer is given, and the read in progress.
///
/// The transfers are made by the caller: each method returns the frames to
/// send and takes back what the device answered.
#[derive(Debug)]
pub struct UsbtmcClient {
    mode: DeviceMode,
    endpoints: UsbtmcEndpoints,
    capabilities: Capabilities,
    btag: BTag,
    timeout: Duration,
    term_char: Option<u8>,
    pending: Option<PendingRead>,
}

impl UsbtmcClient {
    pub closed spec fn wf(&self) -> bool {
        self.btag.wf()
    }

    pub closed spec fn mode_spec(&self) -> DeviceMode {
        self.mode
    }

    pub closed spec fn endpoints_spec(&self) -> UsbtmcEndpoints {
        self.endpoints
    }

    pub closed spec fn capabilities_spec(&self) -> Capabilities {
        self.capabilities
    }

    pub closed spec fn timeout_spec(&self) -> Duration {
        self.timeout
    }

    pub closed spec fn term_char_spec(&self) -> Option<u8> {
        self.term_char
    }

    /// The tag that the next frame sent will carry.
    pub closed spec fn next_tag_spec(&self) -> u8 {
        self.btag.current()
    }

    /// The read in progress: its kind, the tag that the awaited frame must
    /// carry, and the payload gathered so far.
    pub closed spec fn reading(&self) -> Option<(ReadKind, u8, Seq<u8>)> {
        match self.pending {
            Some(p) => Some((p.kind, p.tag, p.received@)),
            None => None,
        }
    }

    /// The two sessions agree on everything but tags and reads.
    pub open spec fn same_setup(&self, other: &UsbtmcClient) -> bool {
        self.mode_spec() == other.mode_spec() && self.endpoints_spec() == other.endpoints_spec()
            && self.capabilities_spec() == other.capabilities_spec() && self.timeout_spec()
            == other.timeout_spec() && self.term_char_spec() == other.term_char_spec()
    }

    /// The REQUEST_DEV_DEP_MSG_IN frame that this session sends with `tag`.
    pub open spec fn request_frame(&self, tag: u8) -> Seq<u8> {
        request_in_frame(tag, READ_CHUNK_SIZE, self.capabilities_spec(), self.term_char_spec())
    }

    /// A session on a configured device whose capabilities were read. Tags
    /// start at 1, no term character is set, and no read is in progress.
    pub fn new(
        mode: DeviceMode,
        endpoints: UsbtmcEndpoints,
        capabilities: Capabilities,
        timeout: Duration,
    ) -> (r: UsbtmcClient)
        ensures
            r.wf(),
            r.mode_spec() == mode,
            r.endpoints_spec() == endpoints,
            r.capabilities_spec() == capabilities,
            r.timeout_spec() == timeout,
            r.term_char_spec() == None::<u8>,
            r.next_tag_spec() == 1,
            r.reading() == None::<(ReadKind, u8, Seq<u8>)>,
    {
        UsbtmcClient {
            mode,
            endpoints,
            capabilities,
            btag: BTag::new(),
            timeout,
            term_char: None,
            pending: None,
        }
    }

    pub fn mode(&self) -> (r: DeviceMode)
        ensures
            r == self.mode_spec(),
    {
        self.mode
    }

    pub fn endpoints(&self) -> (r: UsbtmcEndpoints)
        ensures
            r == self.endpoints_spec(),
    {
        self.endpoints
    }

    pub fn capabilities(&self) -> (r: Capabilities)
        ensures
            r == self.capabilities_spec(),
    {
        self.capabilities
    }

    /// The timeout that each transfer of this session is given.
    pub fn timeout(&self) -> (r: &Duration)
        ensures
            *r == self.timeout_spec(),
    {
        &self.timeout
    }

    /// Sets the timeout for the transfers that follow.
    pub fn set_timeout(&mut self, duration: Duration)
        ensures
            final(self).timeout_spec() == duration,
            final(self).mode_spec() == old(self).mode_spec(),
            final(self).endpoints_spec() == old(self).endpoints_spec(),
            final(self).capabilities_spec() == old(self).capabilities_spec(),
            final(self).term_char_spec() == old(self).term_char_spec(),
            final(self).next_tag_spec() == old(self).next_tag_spec(),
            final(self).reading() == old(self).reading(),
            final(self).wf() == old(self).wf(),
    {
        self.timeout = duration;
    }

    /// Sets the character on which the device may end a bulk-in transfer; it
    /// is sent only if the device reports support for it.
    pub fn set_term_char(&mut self, term_char: Option<u8>)
        ensures
            final(self).term_char_spec() == term_char,
            final(self).mode_spec() == old(self).mode_spec(),
            final(self).endpoints_spec() == old(self).endpoints_spec(),
            final(self).capabilities_spec() == old(self).capabilities_spec(),
            final(self).timeout_spec() == old(self).timeout_spec(),
            final(self).next_tag_spec() == old(self).next_tag_spec(),
            final(self).reading() == old(self).reading(),
            final(self).wf() == old(self).wf(),
    {
        self.term_char = term_char;
    }

    /// The DEV_DEP_MSG_OUT frame that sends `cmd`; it takes the next tag and
    /// ends any read in progress.
    pub fn command(&mut self, cmd: &str) -> (r: Result<Vec<u8>, Error>)
        requires
            old(self).wf(),
        ensures
            final(self).wf(),
            final(self).same_setup(old(self)),
            match r {
                Ok(f) => cmd.spec_bytes().len() <= MAX_PAYLOAD_LEN && f@ == msg_out_frame(
                    old(self).next_tag_spec(),
                    cmd.spec_bytes(),
                ) && final(self).next_tag_spec() == next_tag(old(self).next_tag_spec())
                    && final(self).reading() == None::<(ReadKind, u8, Seq<u8>)>,
                Err(e) => cmd.spec_bytes().len() > MAX_PAYLOAD_LEN && e == Error::PayloadTooLarge
                    && final(self).next_tag_spec() == old(self).next_tag_spec()
                    && final(self).reading() == old(self).reading(),
            },
    {
        let bytes = cmd.as_bytes_vec();
        if bytes.len() > MAX_PAYLOAD_LEN {
            return Err(Error::PayloadTooLarge);
        }
        let tag = self.btag.next();
        self.pending = None;
        encode_msg_out(tag, bytes.as_slice())
    }

    fn start_query(&mut self, cmd: &str, kind: ReadKind) -> (r: Result<Exchange, Error>)
        requires
            old(self).wf(),
        ensures
            final(self).wf(),
            final(self).same_setup(old(self)),
            match r {
                Ok(x) => {
                    let t = old(self).next_tag_spec();
                    &&& cmd.spec_bytes().len() <= MAX_PAYLOAD_LEN
                    &&& x.command@ == msg_out_frame(t, cmd.spec_bytes())
                    &&& x.request@ == old(self).request_frame(next_tag(t))
                    &&& final(self).next_tag_spec() == next_tag(next_tag(t))
                    &&& final(self).reading() == Some((kind, next_tag(t), Seq::<u8>::empty()))
                },
                Err(e) => cmd.spec_bytes().len() > MAX_PAYLOAD_LEN && e == Error::PayloadTooLarge
                    && final(self).next_tag_spec() == old(self).next_tag_spec()
                    && final(self).reading() == old(self).reading(),
            },
    {
        let command = match self.command(cmd) {
            Ok(f) => f,
            Err(e) => return Err(e),
        };
        let tag = self.btag.next();
        let request = encode_request_in(tag, READ_CHUNK_SIZE, &self.capabilities, self.term_char);
        self.pending = Some(PendingRead { kind, tag, received: Vec::new() });
        Ok(Exchange { command, request })
    }

    /// Sends `cmd` and asks for its response, which `receive` hands back as
    /// bytes.
    pub fn query_raw(&mut self, cmd: &str) -> (r: Result<Exchange, Error>)
        requires
            old(self).wf(),
        ensures
            final(self).wf(),
            final(self).same_setup(old(self)),
            match r {
                Ok(x) => {
                    let t = old(self).next_tag_spec();
                    &&& cmd.spec_bytes().len() <= MAX_PAYLOAD_LEN
                    &&& x.command@ == msg_out_frame(t, cmd.spec_bytes())
                    &&& x.request@ == old(self).request_frame(next_tag(t))
                    &&& final(self).next_tag_spec() == next_tag(next_tag(t))
                    &&& final(self).reading() == Some(
                        (ReadKind::Raw, next_tag(t), Seq::<u8>::empty()),
                    )
                },
                Err(e) => cmd.spec_bytes().len() > MAX_PAYLOAD_LEN && e == Error::PayloadTooLarge
                    && final(self).next_tag_spec() == old(self).next_tag_spec()
                    && final(self).reading() == old(self).reading(),
            },
    {
        self.start_query(cmd, ReadKind::Raw)
    }

    /// Sends `cmd` and asks for its response, which `receive` hands back as
    /// text.
    pub fn query(&mut self, cmd: &str) -> (r: Result<Exchange, Error>)
        requires
            old(self).wf(),
        ensures
            final(self).wf(),
            final(self).same_setup(old(self)),
            match r {
                Ok(x) => {
                    let t = old(self).next_tag_spec();
                    &&& cmd.spec_bytes().len() <= MAX_PAYLOAD_LEN
                    &&& x.command@ == msg_out_frame(t, cmd.spec_bytes())
                    &&& x.request@ == old(self).request_frame(next_tag(t))
                    &&& final(self).next_tag_spec() == next_tag(next_tag(t))
                    &&& final(self).reading() == Some(
                        (ReadKind::Text, next_tag(t), Seq::<u8>::empty()),
                    )
                },
                Err(e) => cmd.spec_bytes().len() > MAX_PAYLOAD_LEN && e == Error::PayloadTooLarge
                    && final(self).next_tag_spec() == old(self).next_tag_spec()
                    && final(self).reading() == old(self).reading(),
            },
    {
        self.start_query(cmd, ReadKind::Text)
    }


    /// Takes one bulk-in frame of the read in progress. A frame without the
    /// end-of-message bit adds its payload and asks for the next chunk with a
    /// fresh tag; the end-of-message frame completes the response. Without a
    /// read in progress, or on a malformed or mistagged frame, the read ends
    /// with an error.
    pub fn receive(&mut self, frame: &[u8]) -> (r: Result<ReadStep, Error>)
        requires
            old(self).wf(),
        ensures
            final(self).wf(),
            final(self).same_setup(old(self)),
            match old(self).reading() {
                None => r == Err::<ReadStep, Error>(Error::ProtocolError) && final(self).reading()
                    == old(self).reading() && final(self).next_tag_spec()
                    == old(self).next_tag_spec(),
                Some((kind, tag, got)) => match msg_in_error(frame@, tag) {
                    Some(e) => r == Err::<ReadStep, Error>(e) && final(self).reading() == None::<
                        (ReadKind, u8, Seq<u8>),
                    > && final(self).next_tag_spec() == old(self).next_tag_spec(),
                    None => {
                        let all = got + msg_in_payload(frame@);
                        let t = old(self).next_tag_spec();
                        if !msg_in_eom(frame@) {
                            &&& r matches Ok(ReadStep::Continue(req))
                            &&& req@ == old(self).request_frame(t)
                            &&& final(self).next_tag_spec() == next_tag(t)
                            &&& final(self).reading() == Some((kind, t, all))
                        } else {
                            &&& final(self).reading() == None::<(ReadKind, u8, Seq<u8>)>
                            &&& final(self).next_tag_spec() == t
                            &&& kind == ReadKind::Raw ==> (r matches Ok(
                                ReadStep::Complete(Response::Raw(b)),
                            ) && b@ == all)
                            &&& kind == ReadKind::Text ==> if valid_utf8(all) {
                                r matches Ok(ReadStep::Complete(Response::Text(s))) && s@
                                    == trim_chars(decode_utf8(all))
                            } else {
                                r == Err::<ReadStep, Error>(Error::EncodingError)
                            }
                        }
                    },
                },
            },
    {
        let mut p = match self.pending.take() {
            Some(p) => p,
            None => return Err(Error::ProtocolError),
        };
        let m = match decode_msg_in(frame, p.tag) {
            Ok(m) => m,
            Err(e) => return Err(e),
        };
        let mut payload = m.payload;
        p.received.append(&mut payload);
        if !m.eom {
            let tag = self.btag.next();
            let request = encode_request_in(
                tag,
                READ_CHUNK_SIZE,
                &self.capabilities,
                self.term_char,
            );
            self.pending = Some(PendingRead { kind: p.kind, tag, received: p.received });
            return Ok(ReadStep::Continue(request));
        }
        match p.kind {
            ReadKind::Raw => Ok(ReadStep::Complete(Response::Raw(p.received))),
            ReadKind::Text => match decode_text(p.received.as_slice()) {
                Ok(s) => Ok(ReadStep::Complete(Response::Text(s))),
                Err(e) => Err(e),
            },
        }
    }

    /// A transfer of this session failed: the read in progress, if any, is
    /// abandoned, and the failure becomes `Timeout` or `TransportError`.
    pub fn fail(&mut self, failure: TransferFailure) -> (e: Error)
        requires
            old(self).wf(),
        ensures
            e == failure_error(failure),
            final(self).wf(),
            final(self).same_setup(old(self)),
            final(self).next_tag_spec() == old(self).next_tag_spec(),
            final(self).reading() == None::<(ReadKind, u8, Seq<u8>)>,
    {
        self.pending = None;
        match failure {
            TransferFailure::TimedOut => Error::Timeout,
            TransferFailure::Failed => Error::TransportError,
        }
    }

    /// What closing the session has to undo: release the claimed interface
    /// and, if a kernel driver was detached from it, attach it again.
    pub fn close(&self) -> (r: Teardown)
        ensures
            r.release_interface == Some(self.mode_spec().interface_number),
            r.reattach_driver == (if self.mode_spec().has_kernel_driver {
                Some(self.mode_spec().interface_number)
            } else {
                None::<u8>
            }),
    {
        teardown(&self.mode, true)
    }
} // impl UsbtmcClient

} // verus!
