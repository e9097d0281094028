use vstd::prelude::*;

verus! {

/// The failures that the protocol layer tells apart.
#[derive(Debug, Clone, Copy, PartialEq, Eq, Structural)]
pub enum Error {
    /// No device with the requested vendor and product id.
    DeviceNotFound,
    /// The device offers no USBTMC interface.
    UnsupportedDevice,
    /// A transfer was rejected, stalled, or the device went away.
    TransportError,
    /// A transfer did not complete within the session's timeout.
    Timeout,
    /// The clear-buffers handshake did not finish in time.
    DeviceBusy,
    /// A response carried another tag than the request it answers.
    TagMismatch,
    /// A malformed header, an unexpected message id or inconsistent lengths.
    ProtocolError,
    /// A response read as text is not valid UTF-8.
    EncodingError,
    /// A payload longer than the transfer-size field can express.
    PayloadTooLarge,
}

} // verus!
