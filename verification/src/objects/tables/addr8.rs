//! Group address table, realisation type 8: a one-octet count, the
//! device's individual address (TSAP 0), then the group addresses in
//! ascending order, two octets each.
//!
//! The individual address slot is the device's own address storage: the
//! download and the individual-address service write the same octets, and
//! an Unload spares them.

use vstd::prelude::*;

use super::bytes::{fill_range, read_at, write_at, zeroed};
use super::{
    filled, read_into, spliced, strictly_ascending, tsap_lookup, zeros, AbsoluteAlloc,
    AddressTable, HasLoadStateMachine, Table, TableMemory, TableView,
};
use crate::address::{be16, be16_from, hi_byte, lo_byte, GroupAddress, IndividualAddress};

verus! {

/// The memory of a type 8 address table for `M` group addresses.
#[derive(Debug, Clone)]
pub struct AddrTab8Impl<const M: usize> {
    data: Vec<u8>,
}

/// The octets a type 8 table keeps over an Unload: only the individual
/// address slot (offsets 1 and 2); the rest is zeroed.
pub open spec fn addr8_unloaded(bytes: Seq<u8>) -> Seq<u8> {
    Seq::new(bytes.len(), |i: int| if 1 <= i && i < 3 { bytes[i] } else { 0u8 })
}

impl<const M: usize> TableMemory for AddrTab8Impl<M> {
    closed spec fn bytes(&self) -> Seq<u8> {
        self.data@
    }

    open spec fn capacity() -> nat {
        (3 + M * 2) as nat
    }

    open spec fn fits() -> bool {
        3 + M * 2 <= usize::MAX
    }

    open spec fn accepts_any_segment() -> bool {
        false
    }

    open spec fn saturating_access() -> bool {
        false
    }

    open spec fn unload_result(bytes: Seq<u8>) -> Seq<u8> {
        addr8_unloaded(bytes)
    }

    fn new_table() -> (r: Self) {
        AddrTab8Impl { data: zeroed(3 + M * 2) }
    }

    fn max_size() -> (r: usize) {
        3 + M * 2
    }

    fn data_ref(&self) -> (r: &[u8]) {
        self.data.as_slice()
    }

    fn read(&self, offset: usize, data: &mut [u8]) {
        read_at(self.data.as_slice(), offset, data)
    }

    fn write(&mut self, offset: usize, data: &[u8]) {
        write_at(&mut self.data, offset, data)
    }

    fn accepts_segment(len: usize) -> (r: bool) {
        match M.checked_mul(2) {
            Some(m2) => match m2.checked_add(3) {
                Some(cap) => len <= cap,
                None => true,
            },
            None => true,
        }
    }

    fn fill_prefix(&mut self, n: usize, v: u8) {
        fill_range(&mut self.data, 0, n, v);
        assert(self.data@ =~= filled(old(self).data@, n as int, v));
    }

    fn clear_on_unload(&mut self) {
        let n = self.data.len();
        self.data.set(0, 0);
        fill_range(&mut self.data, 3, n, 0);
        assert(self.data@ =~= addr8_unloaded(old(self).data@));
    }
}

/// The number of group addresses a type 8 table holding `bytes` lists: the
/// count octet, clamped to `limit`.
pub open spec fn addr8_count(bytes: Seq<u8>, limit: nat) -> nat {
    if bytes[0] as nat <= limit {
        bytes[0] as nat
    } else {
        limit
    }
}

/// The group addresses a type 8 table holding `bytes` lists.
pub open spec fn addr8_addresses(bytes: Seq<u8>, limit: nat) -> Seq<GroupAddress> {
    Seq::new(
        addr8_count(bytes, limit),
        |i: int| GroupAddress { raw: be16(bytes[3 + 2 * i], bytes[4 + 2 * i]) },
    )
}

/// An Unload of a type 8 table keeps the individual address and lists no
/// group address.
pub proof fn lemma_unload_spares_individual_address(bytes: Seq<u8>, limit: nat)
    requires
        bytes.len() >= 3,
    ensures
        addr8_unloaded(bytes)[1] == bytes[1],
        addr8_unloaded(bytes)[2] == bytes[2],
        addr8_count(addr8_unloaded(bytes), limit) == 0,
        addr8_addresses(addr8_unloaded(bytes), limit).len() == 0,
{
}

impl<const M: usize> Table<AddrTab8Impl<M>, AbsoluteAlloc> {
    fn addr(&self, tsap: u16) -> (r: GroupAddress)
        requires
            self.wf(),
            1 <= tsap <= M,
        ensures
            r.raw == be16(self@.bytes[1 + 2 * tsap as int], self@.bytes[2 + 2 * tsap as int]),
    {
        let i = tsap as usize;
        GroupAddress { raw: be16_from(self.table.data[1 + i * 2], self.table.data[2 + i * 2]) }
    }

    /// The device's individual address, stored at offsets 1 and 2.
    pub fn individual_address(&self) -> (r: IndividualAddress)
        requires
            self.wf(),
        ensures
            r.raw == be16(self@.bytes[1], self@.bytes[2]),
    {
        IndividualAddress { raw: be16_from(self.table.data[1], self.table.data[2]) }
    }

    /// Write the device's individual address into its slot.
    pub fn set_individual_address(&mut self, address: IndividualAddress)
        requires
            old(self).wf(),
        ensures
            final(self).wf(),
            final(self)@ == (TableView {
                bytes: old(self)@.bytes.update(1, hi_byte(address.raw)).update(
                    2,
                    lo_byte(address.raw),
                ),
                ..old(self)@
            }),
    {
        let b = address.as_bytes();
        self.table.data.set(1, b[0]);
        self.table.data.set(2, b[1]);
    }
}

impl<const M: usize> AddressTable for Table<AddrTab8Impl<M>, AbsoluteAlloc> {
    open spec fn addresses(&self) -> Seq<GroupAddress> {
        addr8_addresses(self.lsm_view().bytes, M as nat)
    }

    open spec fn entry_limit() -> nat {
        M as nat
    }

    fn max_entries(&self) -> (r: usize) {
        M
    }

    fn entry_count(&self) -> (r: u16) {
        let c = self.table.data[0];
        if (c as usize) <= M {
            c as u16
        } else {
            M as u16
        }
    }

    fn address(&self, tsap: u16) -> (r: Option<GroupAddress>) {
        let count = self.entry_count();
        if tsap == 0 || tsap > count {
            return None;
        }
        Some(self.addr(tsap))
    }

    fn tsap(&self, address: GroupAddress) -> (r: Option<u16>) {
        let count = self.entry_count();
        let ghost s = self.addresses();
        let mut low: u32 = 1;
        let mut high: u32 = count as u32;
        while low <= high
            invariant
                self.wf(),
                s == self.addresses(),
                count == s.len(),
                count <= M,
                1 <= low,
                high <= count,
                strictly_ascending(s) ==> forall|k: int|
                    1 <= k < low ==> #[trigger] s[k - 1].raw < address.raw,
                strictly_ascending(s) ==> forall|k: int|
                    high < k <= count ==> address.raw < #[trigger] s[k - 1].raw,
            decreases high + 1 - low,
        {
            let idx = (low + high) / 2;
            let at = self.addr(idx as u16);
            assert(at == s[idx - 1]);
            if address.raw == at.raw {
                return Some(idx as u16);
            }
            if address.raw < at.raw {
                high = idx - 1;
            } else {
                low = idx + 1;
            }
        }
        proof {
            if strictly_ascending(s) {
                assert forall|k: int| 0 <= k < s.len() implies s[k] != address by {
                    if k + 1 < low {
                        assert(s[(k + 1) - 1].raw < address.raw);
                    } else {
                        assert(address.raw < s[(k + 1) - 1].raw);
                    }
                }
            }
        }
        None
    }

    fn contains(&self, address: GroupAddress) -> (r: bool) {
        self.tsap(address).is_some()
    }
}

/// A type 8 group address table for `M` group addresses.
pub type AddrTab8<const M: usize> = Table<AddrTab8Impl<M>, AbsoluteAlloc>;

} // verus!
