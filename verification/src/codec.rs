//! Big-endian two's-complement decoding of the raw sample block.
//!
//! The sensor exposes fourteen contiguous output registers holding seven
//! big-endian signed 16-bit fields: accel X, accel Y, accel Z, temperature
//! (left undecoded), gyro X, gyro Y, gyro Z. This module states what those
//! fields are as integers and proves the executable decoder and encoder
//! against that statement. Scaling a raw count into physical units divides
//! it by a fixed full-scale divisor in floating point; that last step is the
//! application's, and the divisors are published here as integer constants.

use vstd::prelude::*;

verus! {

/// Divisor turning a raw accelerometer count into units of g at the
/// narrowest configured full-scale range.
pub const ACCEL_SCALE_DIVISOR: u16 = 16384;

/// Divisor turning a raw gyroscope count into degrees per second at the
/// narrowest configured full-scale range.
pub const GYRO_SCALE_DIVISOR: u16 = 131;

/// The unsigned 16-bit word formed by a big-endian byte pair.
pub open spec fn word_be_spec(hi: u8, lo: u8) -> int {
    (hi as int) * 256 + (lo as int)
}

/// The signed value of a big-endian byte pair, read as two's complement.
pub open spec fn signed16_spec(hi: u8, lo: u8) -> int {
    if word_be_spec(hi, lo) >= 32768 {
        word_be_spec(hi, lo) - 65536
    } else {
        word_be_spec(hi, lo)
    }
}

/// The signed 16-bit field stored big-endian at byte offset `off` of a
/// raw register block.
pub open spec fn field_at_spec(block: Seq<u8>, off: int) -> int
    recommends
        0 <= off,
        off + 1 < block.len(),
{
    signed16_spec(block[off], block[off + 1])
}

/// The unsigned 16-bit word whose two's-complement reading is `v`.
pub open spec fn unsigned_word_spec(v: i16) -> int {
    if v < 0 {
        v + 65536
    } else {
        v as int
    }
}

/// The big-endian byte pair encoding `v` as two's complement.
pub open spec fn be_pair_spec(v: i16) -> (u8, u8) {
    ((unsigned_word_spec(v) / 256) as u8, (unsigned_word_spec(v) % 256) as u8)
}

/// Combines a big-endian byte pair into the signed 16-bit value it encodes.
pub fn combine_be(hi: u8, lo: u8) -> (v: i16)
    ensures
        v as int == signed16_spec(hi, lo),
{
    let word: u16 = (hi as u16) * 256 + (lo as u16);
    if word >= 32768 {
        ((word as i32) - 65536) as i16
    } else {
        word as i16
    }
}

/// Encodes a signed 16-bit value as the big-endian byte pair that
/// [`combine_be`] decodes back to it.
pub fn encode_be(v: i16) -> (pair: (u8, u8))
    ensures
        pair == be_pair_spec(v),
        signed16_spec(pair.0, pair.1) == v as int,
{
    let word: u16 = if v >= 0 {
        v as u16
    } else {
        ((v as i32) + 65536) as u16
    };
    let hi: u8 = (word / 256) as u8;
    let lo: u8 = (word % 256) as u8;
    proof {
        lemma_round_trip(v);
    }
    (hi, lo)
}

/// The round trip. Decoding inverts encoding: for every signed 16-bit
/// value, the big-endian two's-complement pair of [`be_pair_spec`] reads
/// back, under [`signed16_spec`], as exactly that value.
pub proof fn lemma_round_trip(v: i16)
    ensures
        signed16_spec(be_pair_spec(v).0, be_pair_spec(v).1) == v as int,
{
    let word = unsigned_word_spec(v);
    assert(word == word / 256 * 256 + word % 256) by (nonlinear_arith);
    assert(0 <= word % 256 < 256 && 0 <= word / 256 < 256) by (nonlinear_arith)
        requires
            0 <= word < 65536,
    ;
}

/// Builds a 14-byte sample block holding the given raw counts at the
/// offsets the sensor uses: accelerometer fields big-endian at byte
/// offsets 0, 2 and 4, gyroscope fields at 8, 10 and 12. The temperature
/// bytes at offsets 6 and 7 are left zero; decoding never looks at them.
pub fn encode_sample_block(accel: &[i16; 3], gyro: &[i16; 3]) -> (block: [u8; 14])
    ensures
        field_at_spec(block@, 0) == accel@[0] as int,
        field_at_spec(block@, 2) == accel@[1] as int,
        field_at_spec(block@, 4) == accel@[2] as int,
        block@[6] == 0,
        block@[7] == 0,
        field_at_spec(block@, 8) == gyro@[0] as int,
        field_at_spec(block@, 10) == gyro@[1] as int,
        field_at_spec(block@, 12) == gyro@[2] as int,
{
    let mut block: [u8; 14] = [0; 14];
    let (hi, lo) = encode_be(accel[0]);
    block[0] = hi;
    block[1] = lo;
    let (hi, lo) = encode_be(accel[1]);
    block[2] = hi;
    block[3] = lo;
    let (hi, lo) = encode_be(accel[2]);
    block[4] = hi;
    block[5] = lo;
    let (hi, lo) = encode_be(gyro[0]);
    block[8] = hi;
    block[9] = lo;
    let (hi, lo) = encode_be(gyro[1]);
    block[10] = hi;
    block[11] = lo;
    let (hi, lo) = encode_be(gyro[2]);
    block[12] = hi;
    block[13] = lo;
    block
}

/// A big-endian byte pair determines its signed value uniquely: equal
/// decoded values can only come from equal byte pairs.
pub proof fn lemma_signed16_injective(hi1: u8, lo1: u8, hi2: u8, lo2: u8)
    requires
        signed16_spec(hi1, lo1) == signed16_spec(hi2, lo2),
    ensures
        hi1 == hi2,
        lo1 == lo2,
{
    assert(word_be_spec(hi1, lo1) == word_be_spec(hi2, lo2));
}

} // verus!
