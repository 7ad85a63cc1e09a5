//! Group object table, realisation type 7: a two-octet count followed by a
//! two-octet descriptor per object, `[flags][type]`. Objects are numbered
//! from 1.

use vstd::prelude::*;

use super::bytes::{fill_prefix_of, read_at, write_at, zeroed};
use super::{
    entry_at, entry_of, zeros, AbsoluteAlloc, ComObjectFlags, ComObjectTableEntry, ComObjectType,
    CommunicationObjectTable, HasLoadStateMachine, LoadControlPolicy, RelativeAlloc, Table,
    TableMemory, TableView,
};
use crate::address::{be16, be16_from};

verus! {

/// Type and flags of one object, as coded in a two-octet descriptor.
#[derive(Debug, Clone, Copy, PartialEq, Eq, Structural)]
pub struct ComObjectDescriptor {
    pub object_type: ComObjectType,
    pub flags: ComObjectFlags,
}

impl ComObjectDescriptor {
    /// Decode a descriptor: the high octet holds the flags, the low one the type.
    pub fn from_u16(raw: u16) -> (r: ComObjectDescriptor)
        ensures
            r.flags.bits == raw / 256,
            r.object_type == ComObjectType::decode((raw % 256) as u8),
    {
        ComObjectDescriptor {
            flags: ComObjectFlags::from_byte((raw / 256) as u8),
            object_type: ComObjectType::from_byte((raw % 256) as u8),
        }
    }

    /// Encode the descriptor as a 16-bit value.
    pub fn to_u16(&self) -> (r: u16)
        ensures
            r as int == self.flags.bits as int * 256 + self.object_type.code() as int,
    {
        (self.flags.to_byte() as u16) * 256 + (self.object_type.to_byte() as u16)
    }
}

/// The memory of a type 7 group object table for `M` objects.
#[derive(Debug, Clone)]
pub struct CoTab7Impl<const M: usize> {
    data: Vec<u8>,
}

impl<const M: usize> TableMemory for CoTab7Impl<M> {
    closed spec fn bytes(&self) -> Seq<u8> {
        self.data@
    }

    open spec fn capacity() -> nat {
        ((M + 1) * 2) as nat
    }

    open spec fn fits() -> bool {
        (M + 1) * 2 <= usize::MAX
    }

    open spec fn accepts_any_segment() -> bool {
        false
    }

    open spec fn saturating_access() -> bool {
        false
    }

    open spec fn unload_result(bytes: Seq<u8>) -> Seq<u8> {
        zeros(bytes.len())
    }

    fn new_table() -> (r: Self) {
        CoTab7Impl { data: zeroed((M + 1) * 2) }
    }

    fn max_size() -> (r: usize) {
        (M + 1) * 2
    }

    fn data_ref(&self) -> (r: &[u8]) {
        self.data.as_slice()
    }

    fn read(&self, offset: usize, data: &mut [u8]) {
        read_at(self.data.as_slice(), offset, data)
    }

    fn write(&mut self, offset: usize, data: &[u8]) {
        write_at(&mut self.data, offset, data)
    }

    fn accepts_segment(len: usize) -> (r: bool) {
        match M.checked_add(1) {
            Some(m1) => match m1.checked_mul(2) {
                Some(cap) => len <= cap,
                None => true,
            },
            None => true,
        }
    }

    fn fill_prefix(&mut self, n: usize, v: u8) {
        fill_prefix_of(&mut self.data, n, v)
    }

    fn clear_on_unload(&mut self) {
        let n = self.data.len();
        fill_prefix_of(&mut self.data, n, 0);
        assert(self.data@ =~= zeros(n as nat));
    }
}

/// The number of objects a type 7 table holding `bytes` lists: the stored
/// count, clamped to `limit`.
pub open spec fn co7_count(bytes: Seq<u8>, limit: nat) -> nat {
    let c = be16(bytes[0], bytes[1]) as nat;
    if c <= limit {
        c
    } else {
        limit
    }
}

/// The descriptors `(flags, type)` of a type 7 table holding `bytes`.
pub open spec fn co7_descriptors(bytes: Seq<u8>, limit: nat) -> Seq<(u8, u8)> {
    Seq::new(co7_count(bytes, limit), |j: int| (bytes[2 + 2 * j], bytes[3 + 2 * j]))
}

impl<const M: usize, P: LoadControlPolicy> Table<CoTab7Impl<M>, P> {
    /// The descriptor of object `idx` (from 1), if listed.
    pub fn com_object(&self, idx: u16) -> (r: Option<ComObjectDescriptor>)
        requires
            self.wf(),
        ensures
            r == match entry_at(co7_descriptors(self@.bytes, M as nat), 1, idx) {
                Some(e) => Some(ComObjectDescriptor { object_type: e.object_type, flags: e.flags }),
                None => None,
            },
    {
        let count = self.count();
        if idx == 0 || idx > count {
            return None;
        }
        let offset = 2 + ((idx - 1) as usize) * 2;
        Some(
            ComObjectDescriptor {
                flags: ComObjectFlags::from_byte(self.table.data[offset]),
                object_type: ComObjectType::from_byte(self.table.data[offset + 1]),
            },
        )
    }

    fn count(&self) -> (r: u16)
        requires
            self.wf(),
        ensures
            r == co7_count(self@.bytes, M as nat),
    {
        let c = be16_from(self.table.data[0], self.table.data[1]);
        if (c as usize) <= M {
            c
        } else {
            M as u16
        }
    }
}

impl<const M: usize, P: LoadControlPolicy> CommunicationObjectTable for Table<CoTab7Impl<M>, P> {
    open spec fn descriptors(&self) -> Seq<(u8, u8)> {
        co7_descriptors(self.lsm_view().bytes, M as nat)
    }

    open spec fn first_index() -> nat {
        1
    }

    open spec fn entry_limit() -> nat {
        M as nat
    }

    open spec fn config_offset(idx: u16) -> int {
        2 * idx
    }

    fn max_entries(&self) -> (r: usize) {
        M
    }

    fn entry_count(&self) -> (r: u16) {
        self.count()
    }

    fn object(&self, idx: u16) -> (r: Option<ComObjectTableEntry>) {
        match self.com_object(idx) {
            Some(d) => Some(ComObjectTableEntry { object_type: d.object_type, flags: d.flags }),
            None => None,
        }
    }

    fn object_type(&self, idx: u16) -> (r: Option<ComObjectType>) {
        match self.com_object(idx) {
            Some(d) => Some(d.object_type),
            None => None,
        }
    }

    fn object_flags(&self, idx: u16) -> (r: Option<ComObjectFlags>) {
        match self.com_object(idx) {
            Some(d) => Some(d.flags),
            None => None,
        }
    }

    fn read_on_init(&self, idx: u16) -> (r: bool) {
        match self.object_flags(idx) {
            Some(f) => f.read_on_init(),
            None => false,
        }
    }

    fn set_object_flags(&mut self, idx: u16, flags: ComObjectFlags) -> (r: bool) {
        let count = self.count();
        if idx == 0 || idx > count {
            return false;
        }
        let offset = 2 + ((idx - 1) as usize) * 2;
        self.table.data.set(offset, flags.to_byte());
        assert(co7_descriptors(self@.bytes, M as nat) =~= co7_descriptors(
            old(self)@.bytes,
            M as nat,
        ).update(
            idx - 1,
            (flags.bits, co7_descriptors(old(self)@.bytes, M as nat)[idx - 1].1),
        ));
        true
    }
}

/// A type 7 group object table for `M` objects.
pub type CoTab7<const M: usize> = Table<CoTab7Impl<M>>;

/// The type 7 group object table under the absolute-segment load policy.
pub type CoTab7Alloc<const M: usize> = Table<CoTab7Impl<M>, AbsoluteAlloc>;

} // verus!
