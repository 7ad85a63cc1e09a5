//! Property identifiers of the standard interface objects.

use vstd::prelude::*;

verus! {

pub const OBJECT_TYPE: u16 = 1;

pub const LOAD_STATE_CONTROL: u16 = 5;

pub const RUN_STATE_CONTROL: u16 = 6;

pub const TABLE_REFERENCE: u16 = 7;

pub const PROGRAM_VERSION: u16 = 13;

pub const PEI_TYPE: u16 = 16;

pub const TABLE: u16 = 23;

pub const MCB_TABLE: u16 = 27;

pub const ERROR_CODE: u16 = 28;

} // verus!
