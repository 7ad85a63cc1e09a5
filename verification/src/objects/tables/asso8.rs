//! Group object association table, realisation type 8: a one-octet count
//! followed by entries of a one-octet TSAP and a one-octet ASAP. The count
//! is clamped to the capacity, and an empty table holds no association.

use vstd::prelude::*;

use super::bytes::{fill_prefix_of, read_at, write_at, zeroed};
use super::{
    asaps_of, sending_lookup, tsaps_of, zeros, AbsoluteAlloc, AssociationTable,
    HasLoadStateMachine, Table, TableMemory,
};

verus! {

/// The memory of a type 8 association table for `M` associations.
#[derive(Debug, Clone)]
pub struct AssoTab8Impl<const M: usize> {
    data: Vec<u8>,
}

impl<const M: usize> TableMemory for AssoTab8Impl<M> {
    closed spec fn bytes(&self) -> Seq<u8> {
        self.data@
    }

    open spec fn capacity() -> nat {
        (1 + M * 2) as nat
    }

    open spec fn fits() -> bool {
        1 + M * 2 <= usize::MAX
    }

    open spec fn accepts_any_segment() -> bool {
        false
    }

    open spec fn saturating_access() -> bool {
        false
    }

    open spec fn unload_result(bytes: Seq<u8>) -> Seq<u8> {
        zeros(bytes.len())
    }

    fn new_table() -> (r: Self) {
        AssoTab8Impl { data: zeroed(1 + M * 2) }
    }

    fn max_size() -> (r: usize) {
        1 + M * 2
    }

    fn data_ref(&self) -> (r: &[u8]) {
        self.data.as_slice()
    }

    fn read(&self, offset: usize, data: &mut [u8]) {
        read_at(self.data.as_slice(), offset, data)
    }

    fn write(&mut self, offset: usize, data: &[u8]) {
        write_at(&mut self.data, offset, data)
    }

    fn accepts_segment(len: usize) -> (r: bool) {
        match M.checked_mul(2) {
            Some(m2) => match m2.checked_add(1) {
                Some(cap) => len <= cap,
                None => true,
            },
            None => true,
        }
    }

    fn fill_prefix(&mut self, n: usize, v: u8) {
        fill_prefix_of(&mut self.data, n, v)
    }

    fn clear_on_unload(&mut self) {
        let n = self.data.len();
        fill_prefix_of(&mut self.data, n, 0);
        assert(self.data@ =~= zeros(n as nat));
    }
}

/// The number of associations a type 8 table holding `bytes` lists: the
/// count octet, clamped to `limit`.
pub open spec fn asso8_count(bytes: Seq<u8>, limit: nat) -> nat {
    if bytes[0] as nat <= limit {
        bytes[0] as nat
    } else {
        limit
    }
}

/// The associations of a type 8 table holding `bytes`.
pub open spec fn asso8_associations(bytes: Seq<u8>, limit: nat) -> Seq<(u16, u16)> {
    Seq::new(asso8_count(bytes, limit), |j: int| (bytes[1 + 2 * j] as u16, bytes[2 + 2 * j] as u16))
}

impl<const M: usize> Table<AssoTab8Impl<M>, AbsoluteAlloc> {
    fn raw_count(&self) -> (r: u16)
        requires
            self.wf(),
        ensures
            r == asso8_count(self@.bytes, M as nat),
    {
        let c = self.table.data[0];
        if (c as usize) <= M {
            c as u16
        } else {
            M as u16
        }
    }

    /// The TSAP of entry `idx` (1-based), if the table lists it.
    pub fn tsap(&self, idx: u16) -> (r: Option<u16>)
        requires
            self.wf(),
        ensures
            r == if 1 <= idx <= asso8_count(self@.bytes, M as nat) {
                Some(asso8_associations(self@.bytes, M as nat)[idx - 1].0)
            } else {
                None
            },
    {
        let count = self.raw_count();
        if idx == 0 || idx > count {
            return None;
        }
        Some(self.table.data[1 + 2 * ((idx - 1) as usize)] as u16)
    }

    /// The ASAP of entry `idx` (1-based), if the table lists it.
    pub fn asap(&self, idx: u16) -> (r: Option<u16>)
        requires
            self.wf(),
        ensures
            r == if 1 <= idx <= asso8_count(self@.bytes, M as nat) {
                Some(asso8_associations(self@.bytes, M as nat)[idx - 1].1)
            } else {
                None
            },
    {
        let count = self.raw_count();
        if idx == 0 || idx > count {
            return None;
        }
        Some(self.table.data[2 + 2 * ((idx - 1) as usize)] as u16)
    }
}

impl<const M: usize> AssociationTable for Table<AssoTab8Impl<M>, AbsoluteAlloc> {
    open spec fn associations(&self) -> Seq<(u16, u16)> {
        asso8_associations(self.lsm_view().bytes, M as nat)
    }

    open spec fn stored_count(&self) -> nat {
        asso8_count(self.lsm_view().bytes, M as nat)
    }

    open spec fn entry_limit() -> nat {
        M as nat
    }

    open spec fn identity_when_empty() -> bool {
        false
    }

    fn max_entries(&self) -> (r: usize) {
        M
    }

    fn entry_count(&self) -> (r: u16) {
        self.raw_count()
    }

    fn is_empty(&self) -> (r: bool) {
        self.raw_count() == 0
    }

    fn sending_tsap(&self, asap: u16) -> (r: Option<u16>) {
        let count = self.raw_count();
        let ghost s = self.associations();
        let mut i: u16 = 0;
        while i < count
            invariant
                self.wf(),
                s == self.associations(),
                count == s.len(),
                count <= M,
                i <= count,
                forall|k: int| 0 <= k < i ==> (#[trigger] s[k]).1 != asap,
            decreases count - i,
        {
            let a = self.table.data[2 + 2 * (i as usize)] as u16;
            if a == asap {
                let t = self.table.data[1 + 2 * (i as usize)] as u16;
                assert(s[i as int] == (t, asap));
                return Some(t);
            }
            i = i + 1;
        }
        None
    }

    fn tsaps_for_asap(&self, asap: u16) -> (r: Vec<u16>) {
        let count = self.raw_count();
        let ghost s = self.associations();
        let mut out: Vec<u16> = Vec::new();
        let mut i: u16 = 0;
        while i < count
            invariant
                self.wf(),
                s == self.associations(),
                count == s.len(),
                count <= M,
                i <= count,
                out@ == tsaps_of(s.take(i as int), asap),
            decreases count - i,
        {
            assert(s.take(i + 1).drop_last() =~= s.take(i as int));
            let a = self.table.data[2 + 2 * (i as usize)] as u16;
            if a == asap {
                out.push(self.table.data[1 + 2 * (i as usize)] as u16);
            }
            i = i + 1;
        }
        assert(s.take(count as int) =~= s);
        out
    }

    fn asaps_for_tsap(&self, tsap: u16) -> (r: Vec<u16>) {
        let count = self.raw_count();
        let ghost s = self.associations();
        let mut out: Vec<u16> = Vec::new();
        let mut i: u16 = 0;
        while i < count
            invariant
                self.wf(),
                s == self.associations(),
                count == s.len(),
                count <= M,
                i <= count,
                out@ == asaps_of(s.take(i as int), tsap),
            decreases count - i,
        {
            assert(s.take(i + 1).drop_last() =~= s.take(i as int));
            let t = self.table.data[1 + 2 * (i as usize)] as u16;
            if t == tsap {
                out.push(self.table.data[2 + 2 * (i as usize)] as u16);
            }
            i = i + 1;
        }
        assert(s.take(count as int) =~= s);
        out
    }
}

/// A type 8 association table for `M` associations.
pub type AssoTab8<const M: usize> = Table<AssoTab8Impl<M>, AbsoluteAlloc>;

} // verus!
