//! The sensor driver: protocol transactions over the injected bus and
//! delay capabilities.
//!
//! Every operation is a self-contained request/response transaction. The
//! driver owns the two capabilities exclusively; nothing is cached across
//! calls, since the physical register can change out from under it.

use vstd::prelude::*;

use crate::Error;
use crate::bus::DelayMs;
use crate::bus::I2cBus;
use crate::checksum::crc8;
use crate::checksum::crc8_compute;
use crate::measure::decode_measurement;
use crate::measure::humidity_from_raw;
use crate::measure::rh_millipercent;
use crate::measure::temp_millicelsius;
use crate::measure::temperature_from_raw;
use crate::register::UserRegister;

verus! {

/// The fixed 7-bit bus address of the sensor.
const I2C_ADDR: u8 = 0x40;

/// Settling time after a soft reset, in milliseconds.
const RESET_SETTLE_MS: u16 = 15;

/// Protocol opcodes, sent as the first byte of a transaction.
#[allow(dead_code)]
enum Command {
    TempMeasurementHoldMaster,
    RelHumMeasurementHoldMaster,
    TempMeasurement,
    RelHumMeasurement,
    WriteUserRegister,
    ReadUserRegister,
    SoftReset,
}

impl Command {
    /// The wire byte of this opcode.
    spec fn spec_byte(self) -> u8 {
        match self {
            Command::TempMeasurementHoldMaster => 0xE3,
            Command::RelHumMeasurementHoldMaster => 0xE5,
            Command::TempMeasurement => 0xF3,
            Command::RelHumMeasurement => 0xF5,
            Command::WriteUserRegister => 0xE6,
            Command::ReadUserRegister => 0xE7,
            Command::SoftReset => 0xFE,
        }
    }

    fn byte(self) -> (r: u8)
        ensures
            r == self.spec_byte(),
    {
        match self {
            Command::TempMeasurementHoldMaster => 0xE3,
            Command::RelHumMeasurementHoldMaster => 0xE5,
            Command::TempMeasurement => 0xF3,
            Command::RelHumMeasurement => 0xF5,
            Command::WriteUserRegister => 0xE6,
            Command::ReadUserRegister => 0xE7,
            Command::SoftReset => 0xFE,
        }
    }
}

/// Driver for the SHT2x sensor family, layered over a bus transport and a
/// delay source that the host injects.
pub struct SHT2x<I2C, D> {
    i2c: I2C,
    delay: D,
}

impl<I2C: I2cBus, D: DelayMs> SHT2x<I2C, D> {
    /// Takes exclusive ownership of the two capabilities.
    pub fn new(i2c: I2C, delay: D) -> (s: SHT2x<I2C, D>) {
        SHT2x { i2c, delay }
    }

    /// Issues a soft reset and blocks for the documented settling time.
    ///
    /// Fire-and-forget: a transport failure is discarded by design, since
    /// there is nothing to recover for a reset; the call never panics.
    pub fn reset(&mut self) {
        let cmd: [u8; 1] = [Command::SoftReset.byte()];
        let _ = self.i2c.write(I2C_ADDR, cmd.as_slice());
        self.delay.delay_ms(RESET_SETTLE_MS);
    }

    /// One hold-master measurement transaction: command byte out, three
    /// bytes back, checksum validated, status bits masked out of the raw
    /// count. Whatever the bus returns, a value is produced only from a
    /// response whose checksum matches.
    fn measure(&mut self, cmd: u8) -> (r: Result<u16, Error>)
        ensures
            match r {
                Ok(raw) => raw & 0x03 == 0,
                Err(e) => e == Error::Transport || e == Error::Integrity,
            },
    {
        let cmdbuf: [u8; 1] = [cmd];
        match self.i2c.write(I2C_ADDR, cmdbuf.as_slice()) {
            Ok(_) => (),
            Err(_) => {
                return Err(Error::Transport);
            },
        }
        let data = match self.i2c.read(I2C_ADDR, 3) {
            Ok(d) => d,
            Err(_) => {
                return Err(Error::Transport);
            },
        };
        if data.len() != 3 {
            return Err(Error::Transport);
        }
        match decode_measurement(data[0], data[1], data[2]) {
            Ok(raw) => Ok(raw),
            Err(e) => Err(e),
        }
    }

    /// Measures temperature in hold-master mode.
    ///
    /// Returns milli-degrees Celsius: the raw count converted by
    /// `T = -46.85 + 175.72 * raw / 65536`, scaled by 1000. A response
    /// that fails checksum validation yields `Error::Integrity` and no
    /// value; a failed bus transaction yields `Error::Transport`.
    pub fn temperature(&mut self) -> (r: Result<i32, Error>)
        ensures
            match r {
                Ok(t) => exists|raw: u16| raw & 0x03 == 0 && t == temp_millicelsius(raw),
                Err(e) => e == Error::Transport || e == Error::Integrity,
            },
    {
        match self.measure(Command::TempMeasurementHoldMaster.byte()) {
            Ok(raw) => {
                let t = temperature_from_raw(raw);
                proof {
                    assert(raw & 0x03 == 0 && t == temp_millicelsius(raw));
                }
                Ok(t)
            },
            Err(e) => Err(e),
        }
    }

    /// Measures relative humidity in hold-master mode.
    ///
    /// Returns milli-percent relative humidity: the raw count converted by
    /// `RH = -6 + 125 * raw / 65536`, scaled by 1000. Failure cases are as
    /// for `temperature`.
    pub fn humidity(&mut self) -> (r: Result<i32, Error>)
        ensures
            match r {
                Ok(h) => exists|raw: u16| raw & 0x03 == 0 && h == rh_millipercent(raw),
                Err(e) => e == Error::Transport || e == Error::Integrity,
            },
    {
        match self.measure(Command::RelHumMeasurementHoldMaster.byte()) {
            Ok(raw) => {
                let h = humidity_from_raw(raw);
                proof {
                    assert(raw & 0x03 == 0 && h == rh_millipercent(raw));
                }
                Ok(h)
            },
            Err(e) => Err(e),
        }
    }

    /// Reads the configuration register and decodes it.
    pub fn read_user_register(&mut self) -> (r: Result<UserRegister, Error>)
        ensures
            match r {
                Ok(ur) => ur.wf() && exists|b: u8| ur == UserRegister::spec_from_bytes(b),
                Err(e) => e == Error::Transport,
            },
    {
        let cmd: [u8; 1] = [Command::ReadUserRegister.byte()];
        let buf = match self.i2c.write_read(I2C_ADDR, cmd.as_slice(), 1) {
            Ok(b) => b,
            Err(_) => {
                return Err(Error::Transport);
            },
        };
        if buf.len() != 1 {
            return Err(Error::Transport);
        }
        let ur = UserRegister::from_bytes(buf[0]);
        Ok(ur)
    }

    /// Encodes the fields and writes them back to the configuration
    /// register.
    pub fn write_user_register(&mut self, ur: UserRegister) -> (r: Result<(), Error>)
        ensures
            r is Err ==> r->Err_0 == Error::Transport,
    {
        let buf: [u8; 2] = [Command::WriteUserRegister.byte(), ur.to_bytes()];
        match self.i2c.write(I2C_ADDR, buf.as_slice()) {
            Ok(_) => Ok(()),
            Err(_) => Err(Error::Transport),
        }
    }

    /// Read-modify-write: sets the heater bit and preserves every other
    /// field, reserved bits included.
    pub fn enable_heater(&mut self) -> (r: Result<(), Error>)
        ensures
            r is Err ==> r->Err_0 == Error::Transport,
    {
        match self.read_user_register() {
            Ok(mut ur) => {
                ur.onchip_heater = true;
                self.write_user_register(ur)
            },
            Err(e) => Err(e),
        }
    }

    /// Read-modify-write: clears the heater bit and preserves every other
    /// field, reserved bits included.
    pub fn disable_heater(&mut self) -> (r: Result<(), Error>)
        ensures
            r is Err ==> r->Err_0 == Error::Transport,
    {
        match self.read_user_register() {
            Ok(mut ur) => {
                ur.onchip_heater = false;
                self.write_user_register(ur)
            },
            Err(e) => Err(e),
        }
    }

    /// Reads the end-of-battery flag from the configuration register
    /// without mutating device state.
    pub fn end_of_battery(&mut self) -> (r: Result<bool, Error>)
        ensures
            r is Err ==> r->Err_0 == Error::Transport,
    {
        match self.read_user_register() {
            Ok(ur) => Ok(ur.end_of_battery),
            Err(e) => Err(e),
        }
    }

    /// The CRC-8 of `data`, in the variant the protocol fixes: polynomial
    /// `0x31`, initial value `0x00`, MSB-first, no reflection, no final
    /// XOR.
    pub fn crc(data: &[u8]) -> (r: u8)
        ensures
            r == crc8(data@),
    {
        crc8_compute(data)
    }
}

} // verus!
