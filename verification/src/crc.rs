//! The 8-bit checksum the sensor appends to each measurement frame:
//! polynomial 0x31, non-reflected, initial value 0xFF.

use vstd::prelude::*;

verus! {

/// One shift round: shift left, folding in the polynomial 0x31 when the
/// high bit falls out.
pub open spec fn crc_round(crc: u8) -> u8 {
    if crc & 0x80 != 0 {
        (crc << 1) ^ 0x31
    } else {
        crc << 1
    }
}

/// `crc_round` applied `n` times.
pub open spec fn crc_rounds(crc: u8, n: nat) -> u8
    decreases n,
{
    if n == 0 {
        crc
    } else {
        crc_round(crc_rounds(crc, (n - 1) as nat))
    }
}

/// Folds one payload byte into the running checksum: XOR it in, then run
/// eight shift rounds.
pub open spec fn crc_absorb(crc: u8, byte: u8) -> u8 {
    crc_rounds(crc ^ byte, 8)
}

/// The checksum of a byte sequence: seed 0xFF, absorb each byte in order.
pub open spec fn crc8(bytes: Seq<u8>) -> u8
    decreases bytes.len(),
{
    if bytes.len() == 0 {
        0xFF
    } else {
        crc_absorb(crc8(bytes.drop_last()), bytes.last())
    }
}

/// Computes the checksum over the six data bytes of a measurement payload.
pub fn compute(payload: &[u8; 6]) -> (crc: u8)
    ensures
        crc == crc8(payload@),
{
    let mut crc: u8 = 0xFF;
    let mut i: usize = 0;
    while i < 6
        invariant
            i <= 6,
            crc == crc8(payload@.take(i as int)),
        decreases 6 - i,
    {
        let ghost absorbed = payload@.take(i as int);
        crc = crc ^ payload[i];
        let ghost start = crc;
        let mut round: usize = 0;
        while round < 8
            invariant
                round <= 8,
                crc == crc_rounds(start, round as nat),
            decreases 8 - round,
        {
            if crc & 0x80 != 0 {
                crc = (crc << 1) ^ 0x31;
            } else {
                crc = crc << 1;
            }
            round += 1;
        }
        proof {
            assert(payload@.take(i + 1).drop_last() =~= absorbed);
            assert(payload@.take(i + 1).last() == payload@[i as int]);
        }
        i += 1;
    }
    proof {
        assert(payload@.take(6) =~= payload@);
    }
    crc
}

/// The checksum over the first six bytes of a received 7-byte frame; the
/// frame is trustworthy when it equals the seventh byte.
pub fn aht20_check_crc(frame: &[u8; 7]) -> (crc: u8)
    ensures
        crc == crc8(frame@.take(6)),
{
    let data: [u8; 6] = [frame[0], frame[1], frame[2], frame[3], frame[4], frame[5]];
    proof {
        assert(data@ =~= frame@.take(6));
    }
    compute(&data)
}

} // verus!
