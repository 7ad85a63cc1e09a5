//! Configuration flags of a communication object and its transmission priority.

use vstd::prelude::*;

verus! {

/// Transmission priority of a telegram, as coded in two bits.
#[derive(Debug, Clone, Copy, PartialEq, Eq, Structural)]
pub enum Priority {
    System,
    Normal,
    Urgent,
    Low,
}

impl Priority {
    /// The two-bit code of this priority.
    pub open spec fn code(self) -> u8 {
        match self {
            Priority::System => 0,
            Priority::Normal => 1,
            Priority::Urgent => 2,
            Priority::Low => 3,
        }
    }

    /// The priority whose code is the low two bits of `b`.
    pub open spec fn decode(b: u8) -> Priority {
        let p = b % 4;
        if p == 0 {
            Priority::System
        } else if p == 1 {
            Priority::Normal
        } else if p == 2 {
            Priority::Urgent
        } else {
            Priority::Low
        }
    }

    /// The two-bit code of this priority.
    pub fn to_byte(self) -> (r: u8)
        ensures
            r == self.code(),
    {
        match self {
            Priority::System => 0,
            Priority::Normal => 1,
            Priority::Urgent => 2,
            Priority::Low => 3,
        }
    }

    /// The priority whose code is the low two bits of `b`.
    pub fn from_bits(b: u8) -> (r: Priority)
        ensures
            r == Priority::decode(b),
    {
        let p = b % 4;
        if p == 0 {
            Priority::System
        } else if p == 1 {
            Priority::Normal
        } else if p == 2 {
            Priority::Urgent
        } else {
            Priority::Low
        }
    }
}

/// Whether every bit of `mask` is set in `flags`.
pub open spec fn has_bits(flags: u8, mask: u8) -> bool {
    flags & mask == mask
}

/// The configuration octet of a communication object.
#[derive(Copy, Clone, Debug, Eq, PartialEq, Structural)]
pub struct ComObjectFlags {
    pub bits: u8,
}

impl ComObjectFlags {
    pub const UE_FLAG_MASK: u8 = 0x80;
    pub const TE_FLAG_MASK: u8 = 0x40;
    pub const ROI_FLAG_MASK: u8 = 0x20;
    pub const WE_FLAG_MASK: u8 = 0x10;
    pub const RE_FLAG_MASK: u8 = 0x08;
    pub const CE_FLAG_MASK: u8 = 0x04;
    /// Transmit to the bus (T): communication and transmission enable.
    pub const CONFIG_T: u8 = 0x44;
    /// Transmit, answer reads (RT).
    pub const CONFIG_RT: u8 = 0x4C;
    /// Receive writes and updates (WU).
    pub const CONFIG_WU: u8 = 0x94;
    /// Transmit, answer reads, receive writes and updates (RTWU).
    pub const CONFIG_RTWU: u8 = 0xDC;

    /// Flags from their raw octet.
    pub fn from_byte(value: u8) -> (r: ComObjectFlags)
        ensures
            r.bits == value,
    {
        ComObjectFlags { bits: value }
    }

    /// The raw octet.
    pub fn to_byte(self) -> (r: u8)
        ensures
            r == self.bits,
    {
        self.bits
    }

    pub fn transmission_enable(&self) -> (r: bool)
        ensures
            r == (self.bits & 0x40 != 0),
    {
        self.bits & 0x40 != 0
    }

    pub fn read_on_init(&self) -> (r: bool)
        ensures
            r == (self.bits & 0x20 != 0),
    {
        self.bits & 0x20 != 0
    }

    pub fn write_enable(&self) -> (r: bool)
        ensures
            r == (self.bits & 0x10 != 0),
    {
        self.bits & 0x10 != 0
    }

    pub fn read_enable(&self) -> (r: bool)
        ensures
            r == (self.bits & 0x08 != 0),
    {
        self.bits & 0x08 != 0
    }

    pub fn update_enable(&self) -> (r: bool)
        ensures
            r == (self.bits & 0x80 != 0),
    {
        self.bits & 0x80 != 0
    }

    pub fn communication_enable(&self) -> (r: bool)
        ensures
            r == (self.bits & 0x04 != 0),
    {
        self.bits & 0x04 != 0
    }

    /// The transmission priority held in the two low bits.
    pub fn priority(&self) -> (r: Priority)
        ensures
            r == Priority::decode(self.bits),
    {
        let b = self.bits;
        let p = b & 0x03;
        assert(b & 0x03 == b % 4) by (bit_vector);
        assert(p % 4 == b % 4);
        Priority::from_bits(p)
    }

    /// Whether every bit of `flag` is set.
    pub fn contains(&self, flag: u8) -> (r: bool)
        ensures
            r == has_bits(self.bits, flag),
    {
        (self.bits & flag) == flag
    }
}

impl Default for ComObjectFlags {
    /// Full communication capability (RTWU) at low priority.
    fn default() -> (r: ComObjectFlags)
        ensures
            r.bits == 0xDF,
    {
        let p = Priority::Low.to_byte();
        assert(0xDCu8 | p == 0xDF) by (bit_vector)
            requires
                p == 3,
        ;
        ComObjectFlags { bits: 0xDC | p }
    }
}

} // verus!
