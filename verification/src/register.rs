//! Codec for the one-byte configuration ("user") register.
//!
//! Layout (bit 0 = LSB): bits 0 and 7 select the measurement resolution,
//! bit 1 is the OTP-reload-disable flag (inverted sense), bit 2 enables the
//! on-chip heater, bits 3..=5 are reserved and must be preserved across a
//! read-modify-write cycle, bit 6 is the read-only end-of-battery flag.

use vstd::prelude::*;

use crate::Error;

verus! {

/// Measurement resolution, selected by bits 0 and 7 of the register.
///
/// The four defined bit patterns are non-contiguous: `0x00` (12-bit),
/// `0x01` (8-bit), `0x80` (10-bit), `0x81` (11-bit).
#[derive(Clone, Copy, Debug, PartialEq, Eq, Structural)]
pub enum Resolution {
    Bits8,
    Bits10,
    Bits11,
    Bits12,
}

impl Resolution {
    /// The register bit pattern of this resolution, over bits 0 and 7.
    pub open spec fn spec_to_byte(self) -> u8 {
        match self {
            Resolution::Bits8 => 0x01,
            Resolution::Bits10 => 0x80,
            Resolution::Bits11 => 0x81,
            Resolution::Bits12 => 0x00,
        }
    }

    /// The resolution a bit pattern selects, or `Error::Decode` when the
    /// pattern is not one of the four defined values.
    pub open spec fn spec_from_byte(b: u8) -> Result<Resolution, Error> {
        if b == 0x01 {
            Ok(Resolution::Bits8)
        } else if b == 0x80 {
            Ok(Resolution::Bits10)
        } else if b == 0x81 {
            Ok(Resolution::Bits11)
        } else if b == 0x00 {
            Ok(Resolution::Bits12)
        } else {
            Err(Error::Decode)
        }
    }

    /// Encodes this resolution as its register bit pattern.
    pub fn to_byte(self) -> (r: u8)
        ensures
            r == self.spec_to_byte(),
    {
        match self {
            Resolution::Bits8 => 0x01,
            Resolution::Bits10 => 0x80,
            Resolution::Bits11 => 0x81,
            Resolution::Bits12 => 0x00,
        }
    }

    /// Decodes a resolution bit pattern; fails on every byte that is not
    /// one of the four defined patterns rather than defaulting.
    pub fn from_byte(b: u8) -> (r: Result<Resolution, Error>)
        ensures
            r == Resolution::spec_from_byte(b),
            r is Ok <==> (b == 0x00 || b == 0x01 || b == 0x80 || b == 0x81),
    {
        if b == 0x01 {
            Ok(Resolution::Bits8)
        } else if b == 0x80 {
            Ok(Resolution::Bits10)
        } else if b == 0x81 {
            Ok(Resolution::Bits11)
        } else if b == 0x00 {
            Ok(Resolution::Bits12)
        } else {
            Err(Error::Decode)
        }
    }
}

/// The resolution encoded by `m`, where `m` is a register byte already
/// masked to bits 0 and 7; every such value is one of the four patterns.
pub open spec fn resolution_of_masked(m: u8) -> Resolution {
    if m == 0x01 {
        Resolution::Bits8
    } else if m == 0x80 {
        Resolution::Bits10
    } else if m == 0x81 {
        Resolution::Bits11
    } else {
        Resolution::Bits12
    }
}

/// The configuration register decoded into named fields.
#[derive(Clone, Copy, Debug, PartialEq, Eq, Structural)]
pub struct UserRegister {
    /// Bits 3..=5, kept opaque and passed through unchanged on write-back.
    pub reserved_bits: u8,
    /// Bit 2: on-chip heater enable.
    pub onchip_heater: bool,
    /// Bit 1, inverted sense: the flag is `true` when OTP reload is enabled,
    /// i.e. when the register bit is clear.
    pub otp_reload: bool,
    /// Bit 6, read-only: the supply voltage is low.
    pub end_of_battery: bool,
    /// Bits 0 and 7.
    pub resolution: Resolution,
}

impl UserRegister {
    /// Well-formedness: the reserved field holds bits 3..=5 only.
    pub open spec fn wf(self) -> bool {
        self.reserved_bits & 0x38 == self.reserved_bits
    }

    /// The fields a register byte decodes to.
    pub open spec fn spec_from_bytes(b: u8) -> UserRegister {
        UserRegister {
            reserved_bits: b & 0x38,
            otp_reload: b & 0x02 != 0x02,
            onchip_heater: b & 0x04 == 0x04,
            end_of_battery: b & 0x40 == 0x40,
            resolution: resolution_of_masked(b & 0x81),
        }
    }

    /// The byte these fields encode to: the OR of every field placed at its
    /// bit position, with the reserved field confined to bits 3..=5.
    pub open spec fn spec_to_bytes(self) -> u8 {
        self.resolution.spec_to_byte() | (self.reserved_bits & 0x38) | (if self.otp_reload {
            0x00u8
        } else {
            0x02u8
        }) | (if self.onchip_heater {
            0x04u8
        } else {
            0x00u8
        }) | (if self.end_of_battery {
            0x40u8
        } else {
            0x00u8
        })
    }

    /// Decodes a register byte. Total: the resolution bits are masked out
    /// first, and every masked two-bit pattern is a defined resolution.
    pub fn from_bytes(b: u8) -> (r: Self)
        ensures
            r == UserRegister::spec_from_bytes(b),
            r.wf(),
    {
        let masked: u8 = b & 0x81;
        let resolution = if masked == 0x01 {
            Resolution::Bits8
        } else if masked == 0x80 {
            Resolution::Bits10
        } else if masked == 0x81 {
            Resolution::Bits11
        } else {
            Resolution::Bits12
        };
        proof {
            assert((b & 0x38) & 0x38 == b & 0x38) by (bit_vector);
        }
        UserRegister {
            reserved_bits: b & 0x38,
            otp_reload: b & 0x02 != 0x02,
            onchip_heater: b & 0x04 == 0x04,
            end_of_battery: b & 0x40 == 0x40,
            resolution,
        }
    }

    /// Encodes the fields back into a register byte.
    pub fn to_bytes(self) -> (r: u8)
        ensures
            r == self.spec_to_bytes(),
    {
        self.resolution.to_byte() | (self.reserved_bits & 0x38) | (if self.otp_reload {
            0x00u8
        } else {
            0x02u8
        }) | (if self.onchip_heater {
            0x04u8
        } else {
            0x00u8
        }) | (if self.end_of_battery {
            0x40u8
        } else {
            0x00u8
        })
    }
}

/// Encode-then-decode recovers every resolution: its bit pattern is always
/// one of the four the decoder accepts.
pub proof fn lemma_resolution_round_trip(r: Resolution)
    ensures
        Resolution::spec_from_byte(r.spec_to_byte()) == Ok::<Resolution, Error>(r),
{
}

/// Masking a register byte to bits 0 and 7 always yields one of the four
/// defined patterns, so the total decoder used for the register agrees
/// with the fallible one on every masked byte.
pub proof fn lemma_resolution_decoders_agree(b: u8)
    ensures
        Resolution::spec_from_byte(b & 0x81) == Ok::<Resolution, Error>(
            resolution_of_masked(b & 0x81),
        ),
{
    assert(b & 0x81 == 0x00 || b & 0x81 == 0x01 || b & 0x81 == 0x80 || b & 0x81 == 0x81)
        by (bit_vector);
}

/// Decode-then-encode reproduces every register byte exactly, whatever its
/// reserved-bit content and flag values.
pub proof fn lemma_register_round_trip(b: u8)
    ensures
        UserRegister::spec_from_bytes(b).spec_to_bytes() == b,
{
    let r = UserRegister::spec_from_bytes(b);
    assert(b & 0x81 == 0x00 || b & 0x81 == 0x01 || b & 0x81 == 0x80 || b & 0x81 == 0x81)
        by (bit_vector);
    assert(r.resolution.spec_to_byte() == b & 0x81);
    assert(b & 0x02 == 0x00 || b & 0x02 == 0x02) by (bit_vector);
    assert((if r.otp_reload { 0x00u8 } else { 0x02u8 }) == b & 0x02);
    assert(b & 0x04 == 0x00 || b & 0x04 == 0x04) by (bit_vector);
    assert((if r.onchip_heater { 0x04u8 } else { 0x00u8 }) == b & 0x04);
    assert(b & 0x40 == 0x00 || b & 0x40 == 0x40) by (bit_vector);
    assert((if r.end_of_battery { 0x40u8 } else { 0x00u8 }) == b & 0x40);
    assert((b & 0x38) & 0x38 == b & 0x38) by (bit_vector);
    assert((b & 0x81) | (b & 0x38) | (b & 0x02) | (b & 0x04) | (b & 0x40) == b) by (bit_vector);
}

/// Encode-then-decode recovers every well-formed field value exactly.
pub proof fn lemma_register_encode_decode(r: UserRegister)
    requires
        r.wf(),
    ensures
        UserRegister::spec_from_bytes(r.spec_to_bytes()) == r,
{
    let res: u8 = r.resolution.spec_to_byte();
    let rsv: u8 = r.reserved_bits;
    let otp: u8 = if r.otp_reload { 0x00u8 } else { 0x02u8 };
    let htr: u8 = if r.onchip_heater { 0x04u8 } else { 0x00u8 };
    let eob: u8 = if r.end_of_battery { 0x40u8 } else { 0x00u8 };
    let b: u8 = res | (rsv & 0x38) | otp | htr | eob;
    assert(res == 0x00 || res == 0x01 || res == 0x80 || res == 0x81);
    assert((res == 0x00 || res == 0x01 || res == 0x80 || res == 0x81) && (otp == 0x00 || otp
        == 0x02) && (htr == 0x00 || htr == 0x04) && (eob == 0x00 || eob == 0x40) ==> ((res | (rsv
        & 0x38) | otp | htr | eob) & 0x81 == res && (res | (rsv & 0x38) | otp | htr | eob) & 0x38
        == rsv & 0x38 && (res | (rsv & 0x38) | otp | htr | eob) & 0x02 == otp && (res | (rsv
        & 0x38) | otp | htr | eob) & 0x04 == htr && (res | (rsv & 0x38) | otp | htr | eob) & 0x40
        == eob)) by (bit_vector);
    assert(resolution_of_masked(res) == r.resolution);
}

/// Updating the heater flag alone touches only bit 2 of the encoded byte:
/// enabling sets it, disabling clears it, and decoding the written byte
/// shows every other field unchanged.
pub proof fn lemma_heater_update(b: u8, on: bool)
    ensures
        ({
            let updated = UserRegister { onchip_heater: on, ..UserRegister::spec_from_bytes(b) };
            updated.spec_to_bytes() == (if on {
                b | 0x04
            } else {
                b & 0xFB
            }) && UserRegister::spec_from_bytes(updated.spec_to_bytes()) == updated
        }),
{
    let before = UserRegister::spec_from_bytes(b);
    let updated = UserRegister { onchip_heater: on, ..before };
    assert((b & 0x38) & 0x38 == b & 0x38) by (bit_vector);
    assert(updated.wf());
    lemma_register_encode_decode(updated);
    lemma_register_round_trip(b);
    assert(before.spec_to_bytes() == b);
    if on {
        assert(((b & 0x81) | (b & 0x38) | (b & 0x02) | 0x04u8 | (b & 0x40)) == (b | 0x04))
            by (bit_vector);
        assert(b & 0x81 == 0x00 || b & 0x81 == 0x01 || b & 0x81 == 0x80 || b & 0x81 == 0x81)
            by (bit_vector);
        assert(updated.resolution.spec_to_byte() == b & 0x81);
        assert(b & 0x02 == 0x00 || b & 0x02 == 0x02) by (bit_vector);
        assert((if updated.otp_reload { 0x00u8 } else { 0x02u8 }) == b & 0x02);
        assert(b & 0x40 == 0x00 || b & 0x40 == 0x40) by (bit_vector);
        assert((if updated.end_of_battery { 0x40u8 } else { 0x00u8 }) == b & 0x40);
    } else {
        assert(((b & 0x81) | (b & 0x38) | (b & 0x02) | 0x00u8 | (b & 0x40)) == (b & 0xFB))
            by (bit_vector);
        assert(b & 0x81 == 0x00 || b & 0x81 == 0x01 || b & 0x81 == 0x80 || b & 0x81 == 0x81)
            by (bit_vector);
        assert(updated.resolution.spec_to_byte() == b & 0x81);
        assert(b & 0x02 == 0x00 || b & 0x02 == 0x02) by (bit_vector);
        assert((if updated.otp_reload { 0x00u8 } else { 0x02u8 }) == b & 0x02);
        assert(b & 0x40 == 0x00 || b & 0x40 == 0x40) by (bit_vector);
        assert((if updated.end_of_battery { 0x40u8 } else { 0x00u8 }) == b & 0x40);
    }
}

} // verus!
