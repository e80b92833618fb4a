//! Client-side codec for an ASCII-line serial protocol ("SLCAN-FD") used to
//! drive a USB/serial CAN-FD gateway: commands and CAN frames are encoded
//! into the device's line format, and lines emitted by the device are framed
//! and decoded back into typed CAN frames.
//!
//! Opening and configuring the actual serial port is left to the caller; the
//! library itself only computes over bytes.

pub mod command;
pub mod frame;
pub mod framer;
pub mod parser;
pub mod roundtrip;

pub use command::{AutoRetransmissionMode, Command, CommandKind, DataBitRate, NominalBitRate,
    OperatingMode};
pub use frame::{Can2Frame, CanFdFrame, CanFrame, ExtendedId, FdDataLengthCode, Id, StandardId};
pub use framer::{LineFramer, SLCAN_MTU};
pub use parser::{MessageKind, MessageParseError};
