//! Diagnostic text helpers: hexadecimal bytes and a four-digit decimal form
//! of a fixed-point value.

use vstd::prelude::*;
use crate::convert::{ascii_digit, Q20, Q20_FORMAT_BOUND};

verus! {

/// The ASCII code of the uppercase hexadecimal digit for a nibble.
pub open spec fn hex_digit(nibble: u8) -> u8
    recommends
        nibble < 16,
{
    if nibble < 10 {
        (48 + nibble) as u8
    } else {
        (55 + nibble) as u8
    }
}

/// Converts a byte to its two uppercase hexadecimal characters,
/// zero-padded (e.g., 0x08 becomes "08").
pub fn byte_to_hex(byte: u8) -> (text: [u8; 2])
    ensures
        text@ == seq![hex_digit(byte >> 4), hex_digit(byte & 0x0F)],
{
    let high_nibble = (byte >> 4) & 0x0F;
    let low_nibble = byte & 0x0F;
    proof {
        assert((byte >> 4) & 0x0F == byte >> 4 && byte >> 4 < 16 && byte & 0x0F < 16)
            by (bit_vector);
    }
    let high = if high_nibble < 10 {
        48 + high_nibble
    } else {
        55 + high_nibble
    };
    let low = if low_nibble < 10 {
        48 + low_nibble
    } else {
        55 + low_nibble
    };
    let text: [u8; 2] = [high, low];
    proof {
        assert(text@ =~= seq![hex_digit(byte >> 4), hex_digit(byte & 0x0F)]);
    }
    text
}

/// The hundredths of a Q20 value, truncated toward zero; negative values
/// come out negative.
pub open spec fn truncated_hundredths(bits: int) -> int {
    if bits < 0 {
        -((-bits * 100) / 1048576)
    } else {
        (bits * 100) / 1048576
    }
}

/// The four output digits of [`float_to_str`]: the value in hundredths as
/// four zero-padded decimal characters, with "0000" standing in for
/// anything negative or above 99.99.
pub open spec fn four_digit_text(bits: int) -> Seq<u8> {
    let scaled = truncated_hundredths(bits);
    if scaled < 0 || scaled > 9999 {
        seq![48u8, 48u8, 48u8, 48u8]
    } else {
        seq![
            ascii_digit(scaled, 1000),
            ascii_digit(scaled, 100),
            ascii_digit(scaled, 10),
            ascii_digit(scaled, 1),
        ]
    }
}

/// Formats a Q20 value as four decimal digits without a point (e.g., a
/// value of 12.13 becomes "1213", 8.00 becomes "0800"). Values outside
/// [0, 99.99] fall back to "0000". The caller owns the returned buffer:
/// nothing is shared or reused between calls.
pub fn float_to_str(num: Q20) -> (text: [u8; 4])
    requires
        -Q20_FORMAT_BOUND < num.bits < Q20_FORMAT_BOUND,
    ensures
        text@ == four_digit_text(num.bits as int),
{
    if num.bits < 0 {
        let text: [u8; 4] = [48, 48, 48, 48];
        proof {
            // a truncated negative value is at most zero, and zero prints as
            // "0000" through the digit branch as well
            assert(truncated_hundredths(num.bits as int) <= 0);
            assert(text@ =~= four_digit_text(num.bits as int));
        }
        return text;
    }
    let scaled: u64 = (num.bits as u64 * 100) / 1048576;
    if scaled > 9999 {
        let text: [u8; 4] = [48, 48, 48, 48];
        proof {
            assert(text@ =~= four_digit_text(num.bits as int));
        }
        return text;
    }
    let text: [u8; 4] = [
        48 + ((scaled / 1000) % 10) as u8,
        48 + ((scaled / 100) % 10) as u8,
        48 + ((scaled / 10) % 10) as u8,
        48 + (scaled % 10) as u8,
    ];
    proof {
        assert(text@ =~= four_digit_text(num.bits as int));
    }
    text
}

} // verus!
