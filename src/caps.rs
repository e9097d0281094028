use vstd::prelude::*;

use crate::error::Error;

verus! {

/// Length of the GET_CAPABILITIES reply.
pub const CAPABILITIES_LEN: usize = 24;

/// The USBTMC status byte that reports success.
pub const STATUS_SUCCESS: u8 = 1;

/// The USBTMC status byte that reports a request still in progress.
pub const STATUS_PENDING: u8 = 2;

/// Bit `i` (0..=7) of a byte.
pub open spec fn bit(b: u8, i: nat) -> bool {
    (b as nat / pow2_nat(i)) % 2 == 1
}

pub open spec fn pow2_nat(i: nat) -> nat
    decreases i,
{
    if i == 0 {
        1
    } else {
        2 * pow2_nat((i - 1) as nat)
    }
}

/// Little-endian 16-bit value at `at`.
pub open spec fn le_u16(b: Seq<u8>, at: int) -> u16 {
    (b[at] as nat + 256 * (b[at + 1] as nat)) as u16
}

/// What the device reports of itself in its GET_CAPABILITIES reply.
#[derive(Debug, Clone, Copy, PartialEq, Eq, Structural)]
pub struct Capabilities {
    /// Version of the USBTMC specification, in BCD.
    pub bcd_usbtmc: u16,
    /// The interface accepts indicator-pulse requests.
    pub indicator_pulse: bool,
    /// The interface only sends data.
    pub talk_only: bool,
    /// The interface only receives data.
    pub listen_only: bool,
    /// The device ends a bulk-in transfer on a term character when asked to.
    pub term_char: bool,
    /// Version of the USB488 subclass specification, in BCD.
    pub bcd_usb488: u16,
    /// USB488 interface capability bits.
    pub usb488_interface: u8,
    /// USB488 device capability bits.
    pub usb488_device: u8,
}

/// The capabilities that a well-formed reply `b` describes.
pub open spec fn capabilities_of(b: Seq<u8>) -> Capabilities {
    Capabilities {
        bcd_usbtmc: le_u16(b, 2),
        indicator_pulse: bit(b[4], 2),
        talk_only: bit(b[4], 1),
        listen_only: bit(b[4], 0),
        term_char: bit(b[5], 0),
        bcd_usb488: le_u16(b, 12),
        usb488_interface: b[14],
        usb488_device: b[15],
    }
}

/// A reply is accepted when it has the fixed length and reports success.
pub open spec fn capabilities_reply_ok(b: Seq<u8>) -> bool {
    b.len() == CAPABILITIES_LEN && b[0] == STATUS_SUCCESS
}

/// Reads the GET_CAPABILITIES reply.
pub fn parse_capabilities(b: &[u8]) -> (r: Result<Capabilities, Error>)
    ensures
        capabilities_reply_ok(b@) ==> r == Ok::<Capabilities, Error>(capabilities_of(b@)),
        !capabilities_reply_ok(b@) ==> r == Err::<Capabilities, Error>(Error::ProtocolError),
{
    if b.len() != CAPABILITIES_LEN || b[0] != STATUS_SUCCESS {
        return Err(Error::ProtocolError);
    }
    proof {
        reveal_with_fuel(pow2_nat, 3);
        assert(pow2_nat(0) == 1 && pow2_nat(1) == 2 && pow2_nat(2) == 4);
    }
    let c = Capabilities {
        bcd_usbtmc: b[2] as u16 + 256 * (b[3] as u16),
        indicator_pulse: b[4] / 4 % 2 == 1,
        talk_only: b[4] / 2 % 2 == 1,
        listen_only: b[4] % 2 == 1,
        term_char: b[5] % 2 == 1,
        bcd_usb488: b[12] as u16 + 256 * (b[13] as u16),
        usb488_interface: b[14],
        usb488_device: b[15],
    };
    assert(c == capabilities_of(b@));
    Ok(c)
}

} // verus!
