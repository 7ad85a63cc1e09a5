//! The group object table of the System 7 profile:
//! `[count:1][RAM flags table pointer:2]` followed by an entry per object,
//! `[data pointer:2][config:1][type:1]`. Objects are numbered from 0 and
//! the count covers numbers `0..count`; the pointers are kept verbatim.

use vstd::prelude::*;

use super::bytes::{fill_prefix_of, read_at, write_at, zeroed};
use super::{
    entry_at, zeros, AbsoluteAlloc, ComObjectFlags, ComObjectTableEntry, ComObjectType,
    CommunicationObjectTable, HasLoadStateMachine, Table, TableMemory, TableView,
};

verus! {

/// The memory of a System 7 group object table for objects `0..=M`.
#[derive(Debug, Clone)]
pub struct System7ComObjectTableImpl<const M: usize> {
    data: Vec<u8>,
}

impl<const M: usize> TableMemory for System7ComObjectTableImpl<M> {
    closed spec fn bytes(&self) -> Seq<u8> {
        self.data@
    }

    open spec fn capacity() -> nat {
        (3 + (M + 1) * 4) as nat
    }

    open spec fn fits() -> bool {
        3 + (M + 1) * 4 <= usize::MAX
    }

    open spec fn accepts_any_segment() -> bool {
        false
    }

    open spec fn saturating_access() -> bool {
        false
    }

    open spec fn unload_result(bytes: Seq<u8>) -> Seq<u8> {
        zeros(bytes.len())
    }

    fn new_table() -> (r: Self) {
        System7ComObjectTableImpl { data: zeroed(3 + (M + 1) * 4) }
    }

    fn max_size() -> (r: usize) {
        3 + (M + 1) * 4
    }

    fn data_ref(&self) -> (r: &[u8]) {
        self.data.as_slice()
    }

    fn read(&self, offset: usize, data: &mut [u8]) {
        read_at(self.data.as_slice(), offset, data)
    }

    fn write(&mut self, offset: usize, data: &[u8]) {
        write_at(&mut self.data, offset, data)
    }

    fn accepts_segment(len: usize) -> (r: bool) {
        match M.checked_add(1) {
            Some(m1) => match m1.checked_mul(4) {
                Some(m4) => match m4.checked_add(3) {
                    Some(cap) => len <= cap,
                    None => true,
                },
                None => true,
            },
            None => true,
        }
    }

    fn fill_prefix(&mut self, n: usize, v: u8) {
        fill_prefix_of(&mut self.data, n, v)
    }

    fn clear_on_unload(&mut self) {
        let n = self.data.len();
        fill_prefix_of(&mut self.data, n, 0);
        assert(self.data@ =~= zeros(n as nat));
    }
}

/// The number of objects a System 7 table holding `bytes` lists: the
/// count octet, clamped to `limit`.
pub open spec fn s7_count(bytes: Seq<u8>, limit: nat) -> nat {
    if bytes[0] as nat <= limit {
        bytes[0] as nat
    } else {
        limit
    }
}

/// The descriptors `(config, type)` of a System 7 table holding `bytes`.
pub open spec fn s7_descriptors(bytes: Seq<u8>, limit: nat) -> Seq<(u8, u8)> {
    Seq::new(s7_count(bytes, limit), |j: int| (bytes[5 + 4 * j], bytes[6 + 4 * j]))
}

impl<const M: usize> Table<System7ComObjectTableImpl<M>, AbsoluteAlloc> {
    fn count(&self) -> (r: u16)
        requires
            self.wf(),
        ensures
            r == s7_count(self@.bytes, (M + 1) as nat),
    {
        let c = self.table.data[0];
        if (c as usize) <= M {
            c as u16
        } else {
            (M + 1) as u16
        }
    }
}

impl<const M: usize> CommunicationObjectTable for Table<System7ComObjectTableImpl<M>, AbsoluteAlloc> {
    open spec fn descriptors(&self) -> Seq<(u8, u8)> {
        s7_descriptors(self.lsm_view().bytes, (M + 1) as nat)
    }

    open spec fn first_index() -> nat {
        0
    }

    open spec fn entry_limit() -> nat {
        (M + 1) as nat
    }

    open spec fn config_offset(idx: u16) -> int {
        5 + 4 * idx
    }

    fn max_entries(&self) -> (r: usize) {
        M + 1
    }

    fn entry_count(&self) -> (r: u16) {
        self.count()
    }

    fn object(&self, idx: u16) -> (r: Option<ComObjectTableEntry>) {
        let count = self.count();
        if idx >= count {
            return None;
        }
        let offset = 3 + (idx as usize) * 4;
        Some(
            ComObjectTableEntry {
                object_type: ComObjectType::from_byte(self.table.data[offset + 3]),
                flags: ComObjectFlags::from_byte(self.table.data[offset + 2]),
            },
        )
    }

    fn object_type(&self, idx: u16) -> (r: Option<ComObjectType>) {
        match self.object(idx) {
            Some(e) => Some(e.object_type),
            None => None,
        }
    }

    fn object_flags(&self, idx: u16) -> (r: Option<ComObjectFlags>) {
        match self.object(idx) {
            Some(e) => Some(e.flags),
            None => None,
        }
    }

    fn read_on_init(&self, idx: u16) -> (r: bool) {
        match self.object_flags(idx) {
            Some(f) => f.read_on_init(),
            None => false,
        }
    }

    fn set_object_flags(&mut self, idx: u16, flags: ComObjectFlags) -> (r: bool) {
        let count = self.count();
        if idx >= count {
            return false;
        }
        let offset = 3 + (idx as usize) * 4 + 2;
        self.table.data.set(offset, flags.to_byte());
        assert(s7_descriptors(self@.bytes, (M + 1) as nat) =~= s7_descriptors(
            old(self)@.bytes,
            (M + 1) as nat,
        ).update(idx as int, (flags.bits, s7_descriptors(old(self)@.bytes, (M + 1) as nat)[idx as int].1)));
        true
    }
}

/// The System 7 group object table for objects `0..=M`.
pub type System7ComObjectTable<const M: usize> = Table<System7ComObjectTableImpl<M>, AbsoluteAlloc>;

} // verus!
