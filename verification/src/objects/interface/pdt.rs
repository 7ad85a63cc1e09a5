//! Property data type identifiers.

use vstd::prelude::*;

verus! {

pub const CONTROL: u8 = 0x00;

pub const UNSIGNED_CHAR: u8 = 0x02;

pub const UNSIGNED_INT: u8 = 0x04;

pub const UNSIGNED_LONG: u8 = 0x09;

pub const GENERIC_02: u8 = 0x12;

pub const GENERIC_04: u8 = 0x14;

pub const GENERIC_08: u8 = 0x18;

} // verus!
