//! CRC-8 used to validate measurement transfers.
//!
//! The variant is fixed by the sensor family: polynomial `0x31`, initial
//! value `0x00`, most-significant-bit first, no reflection, no final XOR.

use vstd::prelude::*;

verus! {

/// The CRC polynomial, `x^8 + x^5 + x^4 + 1`.
pub const CRC_POLY: u8 = 0x31;

/// One shift round: shift left, folding in the polynomial when the high bit
/// was set.
pub open spec fn crc8_shift(c: u8) -> u8 {
    if c & 0x80 == 0x80 {
        (c << 1) ^ CRC_POLY
    } else {
        c << 1
    }
}

/// `n` shift rounds applied to `c`.
pub open spec fn crc8_shift_n(c: u8, n: nat) -> u8
    decreases n,
{
    if n == 0 {
        c
    } else {
        crc8_shift(crc8_shift_n(c, (n - 1) as nat))
    }
}

/// Folding one input byte into the running value: XOR it in, then run the
/// eight shift rounds.
pub open spec fn crc8_feed(c: u8, b: u8) -> u8 {
    crc8_shift_n(c ^ b, 8)
}

/// The running value after feeding every byte of `data` into `c`, in order.
pub open spec fn crc8_from(c: u8, data: Seq<u8>) -> u8
    decreases data.len(),
{
    if data.len() == 0 {
        c
    } else {
        crc8_from(crc8_feed(c, data[0]), data.skip(1))
    }
}

/// The checksum of `data`: every byte folded into the initial value `0x00`.
pub open spec fn crc8(data: Seq<u8>) -> u8 {
    crc8_from(0, data)
}

/// Computes the checksum of `data`.
pub fn crc8_compute(data: &[u8]) -> (r: u8)
    ensures
        r == crc8(data@),
{
    let mut crc: u8 = 0;
    let mut i: usize = 0;
    proof {
        assert(data@.skip(0) =~= data@);
    }
    while i < data.len()
        invariant
            i <= data@.len(),
            crc8_from(crc, data@.skip(i as int)) == crc8(data@),
        decreases data@.len() - i,
    {
        let mut c: u8 = crc ^ data[i];
        let ghost start: u8 = c;
        let mut round: u8 = 0;
        while round < 8
            invariant
                round <= 8,
                c == crc8_shift_n(start, round as nat),
            decreases 8 - round,
        {
            if c & 0x80 == 0x80 {
                c = (c << 1) ^ CRC_POLY;
            } else {
                c = c << 1;
            }
            round = round + 1;
        }
        proof {
            assert(data@.skip(i as int)[0] == data@[i as int]);
            assert(data@.skip(i as int).skip(1) =~= data@.skip(i as int + 1));
            assert(c == crc8_feed(crc, data@[i as int]));
        }
        crc = c;
        i = i + 1;
    }
    proof {
        assert(data@.skip(data@.len() as int) =~= Seq::<u8>::empty());
    }
    crc
}

} // verus!
