//! CRC-16/CCITT checksum of loaded table data (polynomial 1021h, initial
//! value 1D0Fh, no reflection, no final XOR).

use vstd::prelude::*;

verus! {

/// One bit step of the shift register.
pub open spec fn crc_bit(c: u16) -> u16 {
    if c & 0x8000 != 0 {
        (c << 1u16) ^ 0x1021u16
    } else {
        c << 1u16
    }
}

/// The register after feeding one octet.
pub open spec fn crc_byte(c: u16, b: u8) -> u16 {
    let c0 = c ^ ((b as u16) << 8u16);
    crc_bit(crc_bit(crc_bit(crc_bit(crc_bit(crc_bit(crc_bit(crc_bit(c0))))))))
}

/// The register after feeding `data`, starting from `init`.
pub open spec fn crc_fold(init: u16, data: Seq<u8>) -> u16
    decreases data.len(),
{
    if data.len() == 0 {
        init
    } else {
        crc_byte(crc_fold(init, data.drop_last()), data.last())
    }
}

/// The checksum of `data`.
pub open spec fn crc16(data: Seq<u8>) -> u16 {
    crc_fold(0x1D0F, data)
}

fn step_bit(c: u16) -> (r: u16)
    ensures
        r == crc_bit(c),
{
    if c & 0x8000 != 0 {
        (c << 1u16) ^ 0x1021u16
    } else {
        c << 1u16
    }
}

fn step_byte(c: u16, b: u8) -> (r: u16)
    ensures
        r == crc_byte(c, b),
{
    let mut x = c ^ ((b as u16) << 8u16);
    x = step_bit(x);
    x = step_bit(x);
    x = step_bit(x);
    x = step_bit(x);
    x = step_bit(x);
    x = step_bit(x);
    x = step_bit(x);
    step_bit(x)
}

/// The CRC-16/CCITT checksum of `data`.
pub fn crc16_ccitt(data: &[u8]) -> (r: u16)
    ensures
        r == crc16(data@),
{
    let mut c: u16 = 0x1D0F;
    let mut i: usize = 0;
    while i < data.len()
        invariant
            i <= data@.len(),
            c == crc_fold(0x1D0F, data@.take(i as int)),
        decreases data@.len() - i,
    {
        assert(data@.take(i as int + 1).drop_last() =~= data@.take(i as int));
        c = step_byte(c, data[i]);
        i = i + 1;
    }
    assert(data@.take(i as int) =~= data@);
    c
}

} // verus!
