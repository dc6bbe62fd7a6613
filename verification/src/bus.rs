//! The bus port: one byte written to, or read from, a device at a 7-bit
//! address.
//!
//! The adapter never talks to an I2C peripheral directly; callers hand it a
//! type implementing [`I2cBus`], backed by whatever driver the platform
//! offers. An implementation is expected to issue exactly one bus
//! transaction per call, to block until it completes, and to report a
//! failed transaction through its result. The adapter keeps a ghost log of
//! the transactions it performs through this port, so its own contracts can
//! state exactly which bytes it puts on the bus and how many transactions
//! each operation makes.

use vstd::prelude::*;

verus! {

/// A failed bus transaction (device absent, arbitration lost, NACK, ...).
///
/// The `code` field carries the transport's own classification of the
/// failure; the adapter passes it through without interpreting it.
#[derive(Clone, Copy, Debug, PartialEq, Eq, Structural)]
pub struct BusError {
    /// Transport-defined classification of the failure.
    pub code: u8,
}

/// Synchronous single-byte bus transactions with an addressed device.
pub trait I2cBus {
    /// Write one byte to the device at the given 7-bit address, in one bus
    /// transaction.
    fn write_byte(&mut self, address: u8, byte: u8) -> (r: Result<(), BusError>);

    /// Read one byte from the device at the given 7-bit address, in one bus
    /// transaction. On success the returned byte is the one the device put
    /// on its lines.
    fn read_byte(&mut self, address: u8) -> (r: Result<u8, BusError>);
}

} // verus!
