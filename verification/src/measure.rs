//! Decoding and conversion of raw measurement responses.
//!
//! A measurement response is two big-endian data bytes followed by one
//! checksum byte. The two low bits of the 16-bit value carry status, not
//! measurement, and are masked to zero. The linear transforms to
//! milli-degrees Celsius and milli-percent relative humidity come from the
//! sensor's documented formulas `T = -46.85 + 175.72 * raw / 65536` and
//! `RH = -6 + 125 * raw / 65536`, scaled by 1000 and rounded toward zero.

use vstd::prelude::*;

use vstd::arithmetic::div_mod::lemma_div_is_ordered;
use vstd::arithmetic::div_mod::lemma_hoist_over_denominator;

use crate::Error;
use crate::checksum::crc8;
use crate::checksum::crc8_compute;

verus! {

/// The 16-bit raw count held in a measurement response: the two data bytes
/// big-endian, with the two low status bits masked to zero.
pub open spec fn raw_from_bytes(d0: u8, d1: u8) -> u16 {
    (((d0 as u16) << 8) | (d1 as u16)) & 0xFFFC
}

/// Milli-degrees Celsius for a raw temperature count.
pub open spec fn temp_millicelsius(raw: u16) -> int {
    -46850 + (175720 * raw) / 65536
}

/// Milli-percent relative humidity for a raw humidity count.
pub open spec fn rh_millipercent(raw: u16) -> int {
    -6000 + (125000 * raw) / 65536
}

/// Validates a measurement response and extracts its raw count.
///
/// Succeeds exactly when the checksum of the two data bytes equals the
/// transmitted checksum byte; a mismatch is a data-integrity fault and the
/// sample is discarded.
pub fn decode_measurement(d0: u8, d1: u8, checksum: u8) -> (r: Result<u16, Error>)
    ensures
        crc8(seq![d0, d1]) == checksum ==> r == Ok::<u16, Error>(raw_from_bytes(d0, d1)),
        crc8(seq![d0, d1]) != checksum ==> r == Err::<u16, Error>(Error::Integrity),
        r is Ok ==> r->Ok_0 & 0x03 == 0,
{
    let data: [u8; 2] = [d0, d1];
    let computed = crc8_compute(data.as_slice());
    proof {
        assert(data@ =~= seq![d0, d1]);
        assert((((d0 as u16) << 8) | (d1 as u16)) & 0xFFFC & 0x03 == 0) by (bit_vector);
    }
    if computed == checksum {
        Ok((((d0 as u16) << 8) | (d1 as u16)) & 0xFFFC)
    } else {
        Err(Error::Integrity)
    }
}

/// Converts a raw temperature count to milli-degrees Celsius.
pub fn temperature_from_raw(raw: u16) -> (t: i32)
    ensures
        t == temp_millicelsius(raw),
{
    let scaled: u64 = (175720u64 * (raw as u64)) / 65536;
    proof {
        lemma_div_is_ordered(175720 * (raw as int), 11515810200, 65536);
    }
    (scaled as i32) - 46850
}

/// Converts a raw humidity count to milli-percent relative humidity.
pub fn humidity_from_raw(raw: u16) -> (h: i32)
    ensures
        h == rh_millipercent(raw),
{
    let scaled: u64 = (125000u64 * (raw as u64)) / 65536;
    proof {
        lemma_div_is_ordered(125000 * (raw as int), 8191875000, 65536);
    }
    (scaled as i32) - 6000
}

/// The temperature conversion is strictly increasing in the raw count.
pub proof fn lemma_temperature_monotonic(r1: u16, r2: u16)
    requires
        r1 < r2,
    ensures
        temp_millicelsius(r1) < temp_millicelsius(r2),
{
    let a = 175720 * (r1 as int);
    let b = 175720 * (r2 as int);
    assert(a + 175720 <= b) by (nonlinear_arith)
        requires
            r1 < r2,
            a == 175720 * (r1 as int),
            b == 175720 * (r2 as int),
    ;
    lemma_hoist_over_denominator(a, 1, 65536);
    lemma_div_is_ordered(a + 65536, b, 65536);
}

/// The humidity conversion is strictly increasing in the raw count.
pub proof fn lemma_humidity_monotonic(r1: u16, r2: u16)
    requires
        r1 < r2,
    ensures
        rh_millipercent(r1) < rh_millipercent(r2),
{
    let a = 125000 * (r1 as int);
    let b = 125000 * (r2 as int);
    assert(a + 125000 <= b) by (nonlinear_arith)
        requires
            r1 < r2,
            a == 125000 * (r1 as int),
            b == 125000 * (r2 as int),
    ;
    lemma_hoist_over_denominator(a, 1, 65536);
    lemma_div_is_ordered(a + 65536, b, 65536);
}

} // verus!
