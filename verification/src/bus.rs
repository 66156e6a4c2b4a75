//! Plain-value representation of two-wire bus transactions.
//!
//! The driver never touches bus hardware. It emits a [`BusAction`] describing
//! the transaction it needs, and the application answers with a [`BusEvent`]
//! (for the single-byte exchanges of initialization) or a [`ReadReply`] (for
//! the 14-byte sample block). A transaction either succeeds or fails as a
//! whole; the failure is undifferentiated at this layer.

use vstd::prelude::*;

verus! {

/// One bus transaction the driver asks the application to perform.
#[derive(Clone, Copy, Debug, PartialEq, Eq, Structural)]
pub enum BusAction {
    /// Write the two bytes `[reg, value]` to the slave address.
    Write { slave: u8, reg: u8, value: u8 },
    /// Write the single byte `[reg]` to the slave address, then read
    /// `read_len` bytes back in one combined transaction.
    WriteRead { slave: u8, reg: u8, read_len: usize },
}

/// The application's answer to a single-byte transaction of initialization.
#[derive(Clone, Copy, Debug, PartialEq, Eq, Structural)]
pub enum BusEvent {
    /// A `Write` transaction completed.
    WriteOk,
    /// A `WriteRead` transaction of one byte completed; this is the byte.
    ReadOk(u8),
    /// The transaction failed (NACK, arbitration loss, port-level timeout).
    Failed,
}

/// The application's answer to the 14-byte sample-block transaction.
#[derive(Clone, Copy, Debug, PartialEq)]
pub enum ReadReply {
    /// The block transaction completed; these are the 14 bytes, in register
    /// order starting at the first output register.
    Data([u8; 14]),
    /// The block transaction failed; no bytes were obtained.
    Failed,
}

} // verus!
