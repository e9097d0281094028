use vstd::prelude::*;

use crate::caps::Capabilities;
use crate::error::Error;

verus! {

/// Length of every bulk message header.
pub const HEADER_LEN: usize = 12;

/// Message id of a DEV_DEP_MSG_OUT frame.
pub const MSG_DEV_DEP_OUT: u8 = 1;

/// Message id of a REQUEST_DEV_DEP_MSG_IN frame.
pub const MSG_REQUEST_DEV_DEP_IN: u8 = 2;

/// Message id of a DEV_DEP_MSG_IN frame.
pub const MSG_DEV_DEP_IN: u8 = 2;

/// Largest payload that the 32-bit transfer-size field can announce.
pub const MAX_PAYLOAD_LEN: usize = 0xFFFF_FFFF;

/// The four bytes of `n`, least significant first.
pub open spec fn le_u32_bytes(n: u32) -> Seq<u8> {
    seq![
        (n % 256) as u8,
        (n / 256 % 256) as u8,
        (n / 65536 % 256) as u8,
        (n / 16777216) as u8,
    ]
}

/// The little-endian 32-bit value at `at`.
pub open spec fn le_u32_at(b: Seq<u8>, at: int) -> nat {
    b[at] as nat + 256 * (b[at + 1] as nat) + 65536 * (b[at + 2] as nat) + 16777216 * (
    b[at + 3] as nat)
}

/// The common 12-byte header: message id, tag, inverted tag, a reserved
/// byte, the transfer size, the transfer attributes, one message-specific
/// byte and two reserved bytes.
pub open spec fn header(msg_id: u8, tag: u8, size: u32, attributes: u8, extra: u8) -> Seq<u8> {
    seq![msg_id, tag, (255 - tag) as u8, 0u8] + le_u32_bytes(size) + seq![attributes, extra, 0u8, 0u8]
}

/// Zero bytes that bring a payload of length `n` to a multiple of four.
pub open spec fn padding_len(n: nat) -> nat {
    ((4 - n % 4) % 4) as nat
}

pub open spec fn zeros(n: nat) -> Seq<u8> {
    Seq::new(n, |i: int| 0u8)
}

/// The DEV_DEP_MSG_OUT frame that carries `payload` as one whole message.
pub open spec fn msg_out_frame(tag: u8, payload: Seq<u8>) -> Seq<u8> {
    header(MSG_DEV_DEP_OUT, tag, payload.len() as u32, 1, 0) + payload + zeros(
        padding_len(payload.len()),
    )
}

/// The term character goes on the wire only when one is configured and the
/// device supports it.
pub open spec fn term_char_used(caps: Capabilities, term_char: Option<u8>) -> bool {
    caps.term_char && term_char is Some
}

/// The REQUEST_DEV_DEP_MSG_IN frame that asks for at most `max_size` bytes.
pub open spec fn request_in_frame(
    tag: u8,
    max_size: u32,
    caps: Capabilities,
    term_char: Option<u8>,
) -> Seq<u8> {
    if term_char_used(caps, term_char) {
        header(MSG_REQUEST_DEV_DEP_IN, tag, max_size, 1, term_char->0)
    } else {
        header(MSG_REQUEST_DEV_DEP_IN, tag, max_size, 0, 0)
    }
}

/// The payload length that a DEV_DEP_MSG_IN frame announces.
pub open spec fn msg_in_size(f: Seq<u8>) -> nat {
    le_u32_at(f, 4)
}

/// Why the frame `f` cannot answer the request tagged `tag`, if it cannot.
pub open spec fn msg_in_error(f: Seq<u8>, tag: u8) -> Option<Error> {
    if f.len() < HEADER_LEN || f[0] != MSG_DEV_DEP_IN {
        Some(Error::ProtocolError)
    } else if f[1] != tag {
        Some(Error::TagMismatch)
    } else if f[2] != 255 - tag || HEADER_LEN + msg_in_size(f) > f.len() {
        Some(Error::ProtocolError)
    } else {
        None
    }
}

/// The payload of a well-formed DEV_DEP_MSG_IN frame; padding is left out.
pub open spec fn msg_in_payload(f: Seq<u8>) -> Seq<u8> {
    f.subrange(HEADER_LEN as int, HEADER_LEN + msg_in_size(f))
}

/// Whether a DEV_DEP_MSG_IN frame ends the message.
pub open spec fn msg_in_eom(f: Seq<u8>) -> bool {
    f[8] % 2 == 1
}

/// A decoded DEV_DEP_MSG_IN frame.
#[derive(Debug)]
pub struct MsgIn {
    pub payload: Vec<u8>,
    pub eom: bool,
}

fn header_bytes(msg_id: u8, tag: u8, size: u32, attributes: u8, extra: u8) -> (r: Vec<u8>)
    ensures
        r@ == header(msg_id, tag, size, attributes, extra),
        r@.len() == HEADER_LEN,
{
    let mut v: Vec<u8> = Vec::new();
    v.push(msg_id);
    v.push(tag);
    v.push(255 - tag);
    v.push(0);
    v.push((size % 256) as u8);
    v.push((size / 256 % 256) as u8);
    v.push((size / 65536 % 256) as u8);
    v.push((size / 16777216) as u8);
    v.push(attributes);
    v.push(extra);
    v.push(0);
    v.push(0);
    assert(v@ =~= header(msg_id, tag, size, attributes, extra));
    v
}

/// Frames `payload` as one DEV_DEP_MSG_OUT message with the end-of-message
/// bit set, padded with zeros to a multiple of four bytes.
pub fn encode_msg_out(tag: u8, payload: &[u8]) -> (r: Result<Vec<u8>, Error>)
    ensures
        match r {
            Ok(f) => payload@.len() <= MAX_PAYLOAD_LEN && f@ == msg_out_frame(tag, payload@),
            Err(e) => payload@.len() > MAX_PAYLOAD_LEN && e == Error::PayloadTooLarge,
        },
{
    if payload.len() > MAX_PAYLOAD_LEN {
        return Err(Error::PayloadTooLarge);
    }
    let mut buf = header_bytes(MSG_DEV_DEP_OUT, tag, payload.len() as u32, 1, 0);
    let ghost head = buf@;
    let mut i: usize = 0;
    while i < payload.len()
        invariant
            i <= payload@.len(),
            buf@ == head + payload@.subrange(0, i as int),
        decreases payload@.len() - i,
    {
        buf.push(payload[i]);
        i = i + 1;
        assert(buf@ =~= head + payload@.subrange(0, i as int));
    }
    assert(payload@.subrange(0, i as int) =~= payload@);
    let pad: usize = (4 - payload.len() % 4) % 4;
    let ghost body = buf@;
    let mut j: usize = 0;
    while j < pad
        invariant
            j <= pad,
            pad == padding_len(payload@.len()),
            buf@ == body + zeros(j as nat),
        decreases pad - j,
    {
        buf.push(0);
        j = j + 1;
        assert(buf@ =~= body + zeros(j as nat));
    }
    Ok(buf)
}

/// Frames a REQUEST_DEV_DEP_MSG_IN asking for at most `max_size` bytes; the
/// term character is enabled only where the device supports it.
pub fn encode_request_in(tag: u8, max_size: u32, caps: &Capabilities, term_char: Option<u8>) -> (r:
    Vec<u8>)
    ensures
        r@ == request_in_frame(tag, max_size, *caps, term_char),
        r@.len() == HEADER_LEN,
{
    match term_char {
        Some(c) if caps.term_char => header_bytes(MSG_REQUEST_DEV_DEP_IN, tag, max_size, 1, c),
        _ => header_bytes(MSG_REQUEST_DEV_DEP_IN, tag, max_size, 0, 0),
    }
}

/// Decodes a DEV_DEP_MSG_IN frame that answers the request tagged `tag`.
pub fn decode_msg_in(f: &[u8], tag: u8) -> (r: Result<MsgIn, Error>)
    ensures
        match r {
            Ok(m) => msg_in_error(f@, tag) is None && m.payload@ == msg_in_payload(f@) && m.eom
                == msg_in_eom(f@),
            Err(e) => msg_in_error(f@, tag) == Some(e),
        },
{
    if f.len() < HEADER_LEN || f[0] != MSG_DEV_DEP_IN {
        return Err(Error::ProtocolError);
    }
    if f[1] != tag {
        return Err(Error::TagMismatch);
    }
    let size: u64 = f[4] as u64 + 256 * (f[5] as u64) + 65536 * (f[6] as u64) + 16777216 * (
    f[7] as u64);
    if f[2] != 255 - tag || size > (f.len() - HEADER_LEN) as u64 {
        return Err(Error::ProtocolError);
    }
    let end: usize = HEADER_LEN + size as usize;
    let mut payload: Vec<u8> = Vec::new();
    let mut i: usize = HEADER_LEN;
    while i < end
        invariant
            HEADER_LEN <= i <= end,
            end <= f@.len(),
            end == HEADER_LEN + msg_in_size(f@),
            payload@ == f@.subrange(HEADER_LEN as int, i as int),
        decreases end - i,
    {
        payload.push(f[i]);
        i = i + 1;
        assert(payload@ =~= f@.subrange(HEADER_LEN as int, i as int));
    }
    Ok(MsgIn { payload, eom: f[8] % 2 == 1 })
}

/// Every DEV_DEP_MSG_OUT frame announces the payload's length, has the
/// end-of-message bit set, and is a whole number of 4-byte words long.
pub proof fn lemma_msg_out_frame(tag: u8, payload: Seq<u8>)
    requires
        payload.len() <= MAX_PAYLOAD_LEN,
    ensures
        le_u32_at(msg_out_frame(tag, payload), 4) == payload.len(),
        msg_out_frame(tag, payload)[8] % 2 == 1,
        msg_out_frame(tag, payload)[0] == MSG_DEV_DEP_OUT,
        msg_out_frame(tag, payload).subrange(
            HEADER_LEN as int,
            HEADER_LEN + payload.len(),
        ) == payload,
        msg_out_frame(tag, payload).len() % 4 == 0,
{
    let f = msg_out_frame(tag, payload);
    let n = payload.len() as u32;
    let h = header(MSG_DEV_DEP_OUT, tag, n, 1, 0);
    assert(f == h + payload + zeros(padding_len(payload.len())));
    assert(h.len() == HEADER_LEN);
    assert(f[4] == (n % 256) as u8 && f[5] == (n / 256 % 256) as u8 && f[6] == (n / 65536
        % 256) as u8 && f[7] == (n / 16777216) as u8 && f[8] == 1);
    lemma_le_u32_bytes(n);
    assert(f.subrange(HEADER_LEN as int, HEADER_LEN + payload.len()) =~= payload);
    assert(f.len() == HEADER_LEN + payload.len() + padding_len(payload.len()));
}

/// A data frame whose tag differs from the request's is refused with
/// `TagMismatch`, never taken as a payload.
pub proof fn lemma_tag_mismatch(f: Seq<u8>, tag: u8)
    requires
        f.len() >= HEADER_LEN,
        f[0] == MSG_DEV_DEP_IN,
        f[1] != tag,
    ensures
        msg_in_error(f, tag) == Some(Error::TagMismatch),
{
}

/// A device without term-char support never sees the term-char-enabled bit,
/// nor a term character, whatever term character is configured.
pub proof fn lemma_term_char_gated(
    tag: u8,
    max_size: u32,
    caps: Capabilities,
    term_char: Option<u8>,
)
    requires
        !caps.term_char,
    ensures
        request_in_frame(tag, max_size, caps, term_char)[8] % 2 == 0,
        request_in_frame(tag, max_size, caps, term_char)[9] == 0,
        request_in_frame(tag, max_size, caps, term_char) == request_in_frame(
            tag,
            max_size,
            caps,
            None,
        ),
{
}

proof fn lemma_le_u32_bytes(n: u32)
    ensures
        ((n % 256) as u8) as nat + 256 * (((n / 256 % 256) as u8) as nat) + 65536 * (((n / 65536
            % 256) as u8) as nat) + 16777216 * (((n / 16777216) as u8) as nat) == n as nat,
{
    assert(n / 16777216 < 256);
    assert(n as nat == n % 256 + 256 * (n / 256 % 256) + 65536 * (n / 65536 % 256) + 16777216 * (n
        / 16777216)) by (nonlinear_arith);
}

} // verus!
