//! Driver logic for an SHT2x humidity/temperature sensor on a two-wire bus.
//!
//! The crate covers the command protocol, the CRC-8 integrity check, the
//! configuration-register bit codec, and the raw-to-physical conversions.
//! The bus itself and the millisecond delay are abstracted as traits that
//! the host supplies.

use vstd::prelude::*;

pub mod bus;
pub mod checksum;
pub mod driver;
pub mod measure;
pub mod register;

pub use bus::DelayMs;
pub use bus::I2cBus;
pub use bus::TransportFault;
pub use driver::SHT2x;
pub use register::Resolution;
pub use register::UserRegister;

verus! {

/// The error kinds a driver operation can surface.
#[derive(Clone, Copy, Debug, PartialEq, Eq, Structural)]
pub enum Error {
    /// The underlying bus write/read failed (device absent, NACK, line fault).
    Transport,
    /// A received measurement failed its checksum validation.
    Integrity,
    /// A configuration byte carried a resolution bit pattern outside the
    /// defined values.
    Decode,
}

} // verus!
