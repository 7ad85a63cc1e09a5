//! The application program object: a parameter block of `SIZE` octets with
//! both a load and a run state machine.
//!
//! Its load state machine acknowledges absolute segments of any length
//! (on System 7 it owns the group object table and the parameter block
//! together, each bounds-checked by its own memory window), and reads and
//! writes of its memory are clamped to the block.

use vstd::prelude::*;

use super::bytes::{fill_prefix_of, read_at, write_at, zeroed};
use super::{
    zeros, LoadControlPolicy, RelativeAlloc, RunnableApplication, RunnableView, Table,
    TableMemory,
};

verus! {

/// The memory of an application program: `SIZE` parameter octets.
#[derive(Debug, Clone)]
pub struct ApplicationImpl<const SIZE: usize> {
    data: Vec<u8>,
}

impl<const SIZE: usize> TableMemory for ApplicationImpl<SIZE> {
    closed spec fn bytes(&self) -> Seq<u8> {
        self.data@
    }

    open spec fn capacity() -> nat {
        SIZE as nat
    }

    open spec fn fits() -> bool {
        true
    }

    open spec fn accepts_any_segment() -> bool {
        true
    }

    open spec fn saturating_access() -> bool {
        true
    }

    open spec fn unload_result(bytes: Seq<u8>) -> Seq<u8> {
        zeros(bytes.len())
    }

    fn new_table() -> (r: Self) {
        ApplicationImpl { data: zeroed(SIZE) }
    }

    fn max_size() -> (r: usize) {
        SIZE
    }

    fn data_ref(&self) -> (r: &[u8]) {
        self.data.as_slice()
    }

    fn read(&self, offset: usize, data: &mut [u8]) {
        read_at(self.data.as_slice(), offset, data)
    }

    fn write(&mut self, offset: usize, data: &[u8]) {
        write_at(&mut self.data, offset, data)
    }

    fn accepts_segment(len: usize) -> (r: bool) {
        true
    }

    fn fill_prefix(&mut self, n: usize, v: u8) {
        fill_prefix_of(&mut self.data, n, v)
    }

    fn clear_on_unload(&mut self) {
        let n = self.data.len();
        fill_prefix_of(&mut self.data, n, 0);
        assert(self.data@ =~= zeros(n as nat));
    }
}

impl<const SIZE: usize> ApplicationImpl<SIZE> {
    /// The parameter octets.
    pub fn params(&self) -> (r: &[u8])
        ensures
            r@ == self.bytes(),
    {
        self.data.as_slice()
    }
}

/// An application program with `SIZE` parameter octets.
pub type Application<const SIZE: usize, P = RelativeAlloc> = RunnableApplication<
    Table<ApplicationImpl<SIZE>, P>,
>;

/// The PEI program object: loadable and runnable, with no data.
pub type PeiApplication = RunnableApplication<Table<ApplicationImpl<0>>>;

impl<const SIZE: usize, P: LoadControlPolicy> RunnableApplication<Table<ApplicationImpl<SIZE>, P>> {
    /// The parameter octets.
    pub fn params(&self) -> (r: &[u8])
        ensures
            r@ == self@.table@.bytes,
    {
        self.data_ref()
    }
}

} // verus!
