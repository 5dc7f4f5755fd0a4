//! The two capabilities the driver is layered over: a byte-level bus
//! transport against one fixed 7-bit address, and a blocking millisecond
//! delay. The host supplies implementations; an in-memory fake serves for
//! testing without hardware.

use vstd::prelude::*;

verus! {

/// Failure of a single bus transaction (device absent, NACK, line fault).
#[derive(Clone, Copy, Debug, PartialEq, Eq, Structural)]
pub struct TransportFault;

/// Byte-level write / read / write-then-read transactions.
///
/// No behaviour is assumed of an implementation: the driver validates
/// everything it receives (lengths in code, data through the checksum),
/// so its contracts hold whatever an implementation returns.
pub trait I2cBus {
    /// Writes `bytes` to the device at `addr` in one transaction.
    fn write(&mut self, addr: u8, bytes: &[u8]) -> Result<(), TransportFault>;

    /// Reads `len` bytes from the device at `addr` in one transaction.
    fn read(&mut self, addr: u8, len: usize) -> Result<Vec<u8>, TransportFault>;

    /// Writes `bytes`, then reads `len` bytes, in one combined transaction.
    fn write_read(&mut self, addr: u8, bytes: &[u8], len: usize) -> Result<
        Vec<u8>,
        TransportFault,
    >;
}

/// Blocking delay, used only for the reset settling time.
pub trait DelayMs {
    /// Pauses execution for `ms` milliseconds.
    fn delay_ms(&mut self, ms: u16);
}

} // verus!
