//! KNX group and individual addresses, both two octets on the wire.

use vstd::prelude::*;

verus! {

/// The big-endian value of two octets.
pub open spec fn be16(hi: u8, lo: u8) -> u16 {
    (hi as int * 256 + lo as int) as u16
}

/// Decode two octets as a big-endian `u16`.
pub fn be16_from(hi: u8, lo: u8) -> (r: u16)
    ensures
        r == be16(hi, lo),
        r as int == hi as int * 256 + lo as int,
{
    (hi as u16) * 256 + (lo as u16)
}

/// The high octet of a `u16`.
pub open spec fn hi_byte(v: u16) -> u8 {
    (v / 256) as u8
}

/// The low octet of a `u16`.
pub open spec fn lo_byte(v: u16) -> u8 {
    (v % 256) as u8
}

/// The two octets of a `u16` give it back.
pub proof fn lemma_be16_octets(v: u16)
    ensures
        be16(hi_byte(v), lo_byte(v)) == v,
{
}

/// Encode a `u16` as two big-endian octets.
pub fn be16_bytes(v: u16) -> (r: [u8; 2])
    ensures
        r@ == seq![hi_byte(v), lo_byte(v)],
        be16(r[0], r[1]) == v,
{
    let r = [(v / 256) as u8, (v % 256) as u8];
    assert(r@ =~= seq![hi_byte(v), lo_byte(v)]);
    r
}

/// A group address (`main/middle/sub`, 5/3/8 bits).
#[derive(Clone, Copy, Debug, PartialEq, Eq, Structural)]
pub struct GroupAddress {
    pub raw: u16,
}

/// An individual address (`area.line.device`, 4/4/8 bits).
#[derive(Clone, Copy, Debug, PartialEq, Eq, Structural)]
pub struct IndividualAddress {
    pub raw: u16,
}

impl GroupAddress {
    /// Read a group address from the first two octets of `bytes`, big-endian.
    pub fn from_bytes(bytes: &[u8]) -> (r: GroupAddress)
        requires
            bytes@.len() >= 2,
        ensures
            r.raw == be16(bytes@[0], bytes@[1]),
    {
        GroupAddress { raw: be16_from(bytes[0], bytes[1]) }
    }

    /// A group address from its raw 16-bit value.
    pub fn from_raw(raw: u16) -> (r: GroupAddress)
        ensures
            r.raw == raw,
    {
        GroupAddress { raw }
    }

    /// The three-level form `main/middle/sub`; each part is masked to its width.
    pub fn from_three_level(main: u8, middle: u8, sub: u8) -> (r: GroupAddress)
        ensures
            r.raw as int == (main % 32) as int * 2048 + (middle % 8) as int * 256 + sub as int,
    {
        let m: u16 = (main % 32) as u16;
        let n: u16 = (middle % 8) as u16;
        GroupAddress { raw: m * 2048 + n * 256 + sub as u16 }
    }

    /// The two octets of the address, big-endian.
    pub fn as_bytes(&self) -> (r: [u8; 2])
        ensures
            r@ == seq![hi_byte(self.raw), lo_byte(self.raw)],
    {
        be16_bytes(self.raw)
    }
}

impl IndividualAddress {
    /// Read an individual address from the first two octets of `bytes`, big-endian.
    pub fn from_bytes(bytes: &[u8]) -> (r: IndividualAddress)
        requires
            bytes@.len() >= 2,
        ensures
            r.raw == be16(bytes@[0], bytes@[1]),
    {
        IndividualAddress { raw: be16_from(bytes[0], bytes[1]) }
    }

    /// The address `area.line.device`; area and line are masked to four bits.
    pub fn new(area: u8, line: u8, device: u8) -> (r: IndividualAddress)
        ensures
            r.raw as int == (area % 16) as int * 4096 + (line % 16) as int * 256 + device as int,
    {
        let a: u16 = (area % 16) as u16;
        let l: u16 = (line % 16) as u16;
        IndividualAddress { raw: a * 4096 + l * 256 + device as u16 }
    }

    /// The two octets of the address, big-endian.
    pub fn as_bytes(&self) -> (r: [u8; 2])
        ensures
            r@ == seq![hi_byte(self.raw), lo_byte(self.raw)],
    {
        be16_bytes(self.raw)
    }
}

} // verus!
