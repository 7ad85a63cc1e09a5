//! Memory maps for the memory read and write services.

use vstd::prelude::*;

verus! {

/// Why a memory access failed.
#[derive(Debug, Clone, Copy, PartialEq, Eq, Structural)]
pub enum MemoryError {
    /// The address is not mapped, or not accessible.
    NotAccessible,
}

/// How memory addresses map to the tables of a device.
pub trait MemoryMap<Tables> {
    /// Read from memory at `address`; the number of octets read.
    fn read(&self, tables: &Tables, address: u32, data: &mut [u8]) -> Result<usize, MemoryError>;

    /// Write to memory at `address`; the number of octets written.
    fn write(&self, tables: &Tables, address: u32, data: &[u8]) -> Result<usize, MemoryError>;

    /// Whether a successful write changes persistent configuration; by
    /// default every write does (a map with volatile regions says which).
    fn is_persistent_write(&self, address: u32, length: usize) -> (r: bool)
        default_ensures
            r,
    {
        true
    }
}

/// A memory map with no mapped regions: every access is refused.
#[derive(Debug, Default, Clone, Copy)]
pub struct NoMemoryMap;

impl<T> MemoryMap<T> for NoMemoryMap {
    fn read(&self, tables: &T, address: u32, data: &mut [u8]) -> (r: Result<usize, MemoryError>)
        ensures
            r == Err::<usize, MemoryError>(MemoryError::NotAccessible),
            final(data)@ == old(data)@,
    {
        Err(MemoryError::NotAccessible)
    }

    fn write(&self, tables: &T, address: u32, data: &[u8]) -> (r: Result<usize, MemoryError>)
        ensures
            r == Err::<usize, MemoryError>(MemoryError::NotAccessible),
    {
        Err(MemoryError::NotAccessible)
    }
}

} // verus!
