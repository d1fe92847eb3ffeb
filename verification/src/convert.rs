//! Raw-to-physical unit conversion and fixed-point ASCII formatting.
//!
//! The sensor encodes humidity and temperature as 20-bit raw fields. The
//! physical values derived from them are exact rationals with denominator
//! 2^20, so the library holds them in [`Q20`], a signed fixed-point number
//! with 20 fractional bits, and never loses precision before formatting.

use vstd::prelude::*;

verus! {

/// Magnitude bound the formatters accept: it keeps the hundredths
/// computation well inside 64 bits, and every value the sensor can produce
/// lies far below it.
pub const Q20_FORMAT_BOUND: i64 = 0x1000_0000_0000;

/// A physical value held exactly in fixed point: the value is
/// `bits / 2^20`.
#[derive(Clone, Copy, PartialEq, Eq, Structural, Debug)]
pub struct Q20 {
    pub bits: i64,
}

/// The 20-bit raw humidity field of a 7-byte measurement frame: the second
/// byte, the third byte, and the high nibble of the fourth.
pub open spec fn raw_humidity_of(frame: Seq<u8>) -> u32
    recommends
        frame.len() == 7,
{
    ((frame[1] as u32) << 12) | ((frame[2] as u32) << 4) | ((frame[3] as u32) >> 4)
}

/// The 20-bit raw temperature field of a 7-byte measurement frame: the low
/// nibble of the fourth byte, the fifth byte and the sixth.
pub open spec fn raw_temperature_of(frame: Seq<u8>) -> u32
    recommends
        frame.len() == 7,
{
    (((frame[3] as u32) & 0x0F) << 16) | ((frame[4] as u32) << 8) | (frame[5] as u32)
}

/// Both raw fields fit in 20 bits, whatever the frame holds.
pub proof fn lemma_raw_fields_bounded(frame: Seq<u8>)
    ensures
        raw_humidity_of(frame) < 1048576,
        raw_temperature_of(frame) < 1048576,
{
    let b1 = frame[1];
    let b2 = frame[2];
    let b3 = frame[3];
    let b4 = frame[4];
    let b5 = frame[5];
    assert((((b1 as u32) << 12) | ((b2 as u32) << 4) | ((b3 as u32) >> 4)) < 1048576)
        by (bit_vector);
    assert(((((b3 as u32) & 0x0F) << 16) | ((b4 as u32) << 8) | (b5 as u32)) < 1048576)
        by (bit_vector);
}

/// Relative humidity in percent, as Q20 bits: `raw * 100 / 2^20` percent.
pub open spec fn humidity_bits(raw: int) -> int {
    raw * 100
}

/// Temperature in degrees Celsius, as Q20 bits:
/// `raw * 200 / 2^20 - 50` degrees.
pub open spec fn temp_c_bits(raw: int) -> int {
    raw * 200 - 50 * 1048576
}

/// Temperature in degrees Fahrenheit, as Q20 bits: the Celsius value taken
/// through `c * 9/5 + 32`, which simplifies to `raw * 360 / 2^20 - 58`.
pub open spec fn temp_f_bits(raw: int) -> int {
    raw * 360 - 58 * 1048576
}

/// Law: for every raw temperature field the Fahrenheit value is exactly the
/// Celsius value scaled and offset, `f == c * 9/5 + 32`; multiplied through
/// by 5 to stay in integers.
pub proof fn lemma_fahrenheit_identity(raw: int)
    ensures
        5 * temp_f_bits(raw) == 9 * temp_c_bits(raw) + 160 * 1048576,
{
}

/// The magnitude of a Q20 bit count.
pub open spec fn magnitude_bits(bits: int) -> int {
    if bits < 0 {
        -bits
    } else {
        bits
    }
}

/// The magnitude of a Q20 value in hundredths, rounded half up:
/// `round(|value| * 100)`.
pub open spec fn scaled_hundredths(bits: int) -> int {
    (magnitude_bits(bits) * 100 + 524288) / 1048576
}

/// The ASCII code of the decimal digit of `scaled` at the given place value.
pub open spec fn ascii_digit(scaled: int, place: int) -> u8 {
    (48 + (scaled / place) % 10) as u8
}

/// The five visible characters of a formatted value: two integer digits, a
/// point, two fractional digits. Digits beyond the tens place wrap away: the
/// formatter never clamps.
pub open spec fn fixed_point_digits(bits: int) -> Seq<u8> {
    let scaled = scaled_hundredths(bits);
    seq![
        ascii_digit(scaled, 1000),
        ascii_digit(scaled, 100),
        46u8,
        ascii_digit(scaled, 10),
        ascii_digit(scaled, 1),
    ]
}

/// The six output bytes of the formatter: a leading minus sign for negative
/// values, a trailing 0 pad byte otherwise.
pub open spec fn fixed_point_text(bits: int) -> Seq<u8> {
    if bits < 0 {
        seq![45u8] + fixed_point_digits(bits)
    } else {
        fixed_point_digits(bits) + seq![0u8]
    }
}

/// Formats a Q20 value as up to six ASCII bytes for serial transmission:
/// sign if negative, two integer digits, a point, two fractional digits,
/// and a 0 pad byte in place of the unused sign position.
pub fn float_to_uart(num: Q20) -> (text: [u8; 6])
    requires
        -Q20_FORMAT_BOUND < num.bits < Q20_FORMAT_BOUND,
    ensures
        text@ == fixed_point_text(num.bits as int),
{
    let is_negative = num.bits < 0;
    let magnitude: u64 = if is_negative {
        (-num.bits) as u64
    } else {
        num.bits as u64
    };
    let scaled: u64 = (magnitude * 100 + 524288) / 1048576;
    let tens: u8 = 48 + ((scaled / 1000) % 10) as u8;
    let ones: u8 = 48 + ((scaled / 100) % 10) as u8;
    let dec1: u8 = 48 + ((scaled / 10) % 10) as u8;
    let dec2: u8 = 48 + (scaled % 10) as u8;
    let text: [u8; 6] = if is_negative {
        [45, tens, ones, 46, dec1, dec2]
    } else {
        [tens, ones, 46, dec1, dec2, 0]
    };
    proof {
        assert(text@ =~= fixed_point_text(num.bits as int));
    }
    text
}

} // verus!
