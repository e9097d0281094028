//! Host side of the USB Test and Measurement Class protocol.
//!
//! The library holds the protocol's decisions: sequence tags, the bulk
//! message frames, the control requests and their replies, the discovery of
//! the USBTMC interface among the device's descriptors, and the session state
//! that ties a command to the reassembly of its response. The transfers
//! themselves are made by the caller, who hands each outcome back.
pub mod bulk;
pub mod caps;
pub mod client;
pub mod connect;
pub mod control;
pub mod error;
pub mod init;
pub mod tag;
pub mod text;

pub use client::UsbtmcClient;
pub use error::Error;
