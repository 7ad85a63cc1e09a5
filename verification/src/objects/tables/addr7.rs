//! Group address table, realisation type 7: a two-octet count followed by
//! the group addresses in ascending order, two octets each.

use vstd::prelude::*;

use super::bytes::{fill_prefix_of, read_at, write_at, zeroed};
use super::{
    filled, read_into, spliced, strictly_ascending, tsap_lookup, zeros, AddressTable,
    HasLoadStateMachine, LoadControlPolicy, RelativeAlloc, Table, TableMemory,
};
use crate::address::{be16, be16_from, GroupAddress};

verus! {

/// The memory of a type 7 address table for `M` addresses.
#[derive(Debug, Clone)]
pub struct AddrTab7Impl<const M: usize> {
    data: Vec<u8>,
}

impl<const M: usize> TableMemory for AddrTab7Impl<M> {
    closed spec fn bytes(&self) -> Seq<u8> {
        self.data@
    }

    open spec fn capacity() -> nat {
        ((M + 1) * 2) as nat
    }

    open spec fn fits() -> bool {
        (M + 1) * 2 <= usize::MAX
    }

    open spec fn accepts_any_segment() -> bool {
        false
    }

    open spec fn saturating_access() -> bool {
        false
    }

    open spec fn unload_result(bytes: Seq<u8>) -> Seq<u8> {
        zeros(bytes.len())
    }

    fn new_table() -> (r: Self) {
        AddrTab7Impl { data: zeroed((M + 1) * 2) }
    }

    fn max_size() -> (r: usize) {
        (M + 1) * 2
    }

    fn data_ref(&self) -> (r: &[u8]) {
        self.data.as_slice()
    }

    fn read(&self, offset: usize, data: &mut [u8]) {
        read_at(self.data.as_slice(), offset, data)
    }

    fn write(&mut self, offset: usize, data: &[u8]) {
        write_at(&mut self.data, offset, data)
    }

    fn accepts_segment(len: usize) -> (r: bool) {
        match M.checked_add(1) {
            Some(m1) => match m1.checked_mul(2) {
                Some(cap) => len <= cap,
                None => true,
            },
            None => true,
        }
    }

    fn fill_prefix(&mut self, n: usize, v: u8) {
        fill_prefix_of(&mut self.data, n, v)
    }

    fn clear_on_unload(&mut self) {
        let n = self.data.len();
        fill_prefix_of(&mut self.data, n, 0);
        assert(self.data@ =~= zeros(n as nat));
    }
}

/// The number of addresses a type 7 table holding `bytes` lists: the
/// stored count, clamped to `limit`.
pub open spec fn addr7_count(bytes: Seq<u8>, limit: nat) -> nat {
    let c = be16(bytes[0], bytes[1]) as nat;
    if c <= limit {
        c
    } else {
        limit
    }
}

/// The addresses a type 7 table holding `bytes` lists.
pub open spec fn addr7_addresses(bytes: Seq<u8>, limit: nat) -> Seq<GroupAddress> {
    Seq::new(
        addr7_count(bytes, limit),
        |i: int| GroupAddress { raw: be16(bytes[2 + 2 * i], bytes[3 + 2 * i]) },
    )
}

impl<const M: usize> Table<AddrTab7Impl<M>> {
    fn addr(&self, idx: u16) -> (r: GroupAddress)
        requires
            self.wf(),
            1 <= idx <= M,
        ensures
            r.raw == be16(self@.bytes[2 * idx as int], self@.bytes[2 * idx as int + 1]),
    {
        let i = idx as usize;
        GroupAddress { raw: be16_from(self.table.data[i * 2], self.table.data[i * 2 + 1]) }
    }
}

impl<const M: usize> AddressTable for Table<AddrTab7Impl<M>> {
    open spec fn addresses(&self) -> Seq<GroupAddress> {
        addr7_addresses(self.lsm_view().bytes, M as nat)
    }

    open spec fn entry_limit() -> nat {
        M as nat
    }

    fn max_entries(&self) -> (r: usize) {
        M
    }

    fn entry_count(&self) -> (r: u16) {
        let c = be16_from(self.table.data[0], self.table.data[1]);
        if (c as usize) <= M {
            c
        } else {
            M as u16
        }
    }

    fn address(&self, tsap: u16) -> (r: Option<GroupAddress>) {
        let count = self.entry_count();
        if tsap == 0 || tsap > count {
            return None;
        }
        Some(self.addr(tsap))
    }

    fn tsap(&self, address: GroupAddress) -> (r: Option<u16>) {
        let count = self.entry_count();
        let ghost s = self.addresses();
        let mut low: u32 = 1;
        let mut high: u32 = count as u32;
        while low <= high
            invariant
                self.wf(),
                s == self.addresses(),
                count == s.len(),
                count <= M,
                1 <= low,
                high <= count,
                strictly_ascending(s) ==> forall|k: int|
                    1 <= k < low ==> #[trigger] s[k - 1].raw < address.raw,
                strictly_ascending(s) ==> forall|k: int|
                    high < k <= count ==> address.raw < #[trigger] s[k - 1].raw,
            decreases high + 1 - low,
        {
            let idx = (low + high) / 2;
            let at = self.addr(idx as u16);
            assert(at == s[idx - 1]);
            if address.raw == at.raw {
                return Some(idx as u16);
            }
            if address.raw < at.raw {
                high = idx - 1;
            } else {
                low = idx + 1;
            }
        }
        proof {
            if strictly_ascending(s) {
                assert forall|k: int| 0 <= k < s.len() implies s[k] != address by {
                    if k + 1 < low {
                        assert(s[(k + 1) - 1].raw < address.raw);
                    } else {
                        assert(address.raw < s[(k + 1) - 1].raw);
                    }
                }
            }
        }
        None
    }

    fn contains(&self, address: GroupAddress) -> (r: bool) {
        self.tsap(address).is_some()
    }
}

/// A type 7 group address table for `M` addresses.
pub type AddrTab7<const M: usize> = Table<AddrTab7Impl<M>>;

} // verus!
