//! Group object association table, realisation type 6: a two-octet count
//! followed by entries of a two-octet TSAP and a two-octet ASAP. An empty
//! table stands for the identity association (ASAP = TSAP).

use vstd::prelude::*;

use super::bytes::{fill_prefix_of, read_at, write_at, zeroed};
use super::{
    asaps_of, sending_lookup, tsaps_of, zeros, AssociationTable, HasLoadStateMachine, Table,
    TableMemory,
};
use crate::address::{be16, be16_from};

verus! {

/// The memory of a type 6 association table for `M` associations.
#[derive(Debug, Clone)]
pub struct AssoTab6Impl<const M: usize> {
    data: Vec<u8>,
}

impl<const M: usize> TableMemory for AssoTab6Impl<M> {
    closed spec fn bytes(&self) -> Seq<u8> {
        self.data@
    }

    open spec fn capacity() -> nat {
        (2 + M * 4) as nat
    }

    open spec fn fits() -> bool {
        2 + M * 4 <= usize::MAX
    }

    open spec fn accepts_any_segment() -> bool {
        false
    }

    open spec fn saturating_access() -> bool {
        false
    }

    open spec fn unload_result(bytes: Seq<u8>) -> Seq<u8> {
        zeros(bytes.len())
    }

    fn new_table() -> (r: Self) {
        AssoTab6Impl { data: zeroed(2 + M * 4) }
    }

    fn max_size() -> (r: usize) {
        2 + M * 4
    }

    fn data_ref(&self) -> (r: &[u8]) {
        self.data.as_slice()
    }

    fn read(&self, offset: usize, data: &mut [u8]) {
        read_at(self.data.as_slice(), offset, data)
    }

    fn write(&mut self, offset: usize, data: &[u8]) {
        write_at(&mut self.data, offset, data)
    }

    fn accepts_segment(len: usize) -> (r: bool) {
        match M.checked_mul(4) {
            Some(m4) => match m4.checked_add(2) {
                Some(cap) => len <= cap,
                None => true,
            },
            None => true,
        }
    }

    fn fill_prefix(&mut self, n: usize, v: u8) {
        fill_prefix_of(&mut self.data, n, v)
    }

    fn clear_on_unload(&mut self) {
        let n = self.data.len();
        fill_prefix_of(&mut self.data, n, 0);
        assert(self.data@ =~= zeros(n as nat));
    }
}

/// The count a type 6 table holding `bytes` reports.
pub open spec fn asso6_count(bytes: Seq<u8>) -> nat {
    be16(bytes[0], bytes[1]) as nat
}

/// The associations of a type 6 table holding `bytes`, as far as `limit`
/// entries reach.
pub open spec fn asso6_associations(bytes: Seq<u8>, limit: nat) -> Seq<(u16, u16)> {
    let c = asso6_count(bytes);
    Seq::new(
        if c <= limit {
            c
        } else {
            limit
        },
        |j: int|
            (be16(bytes[2 + 4 * j], bytes[3 + 4 * j]), be16(bytes[4 + 4 * j], bytes[5 + 4 * j])),
    )
}

impl<const M: usize> Table<AssoTab6Impl<M>> {
    /// The TSAP of entry `idx` (1-based).
    pub fn tsap(&self, idx: u16) -> (r: u16)
        requires
            self.wf(),
            1 <= idx <= M,
        ensures
            r == be16(self@.bytes[4 * idx - 2], self@.bytes[4 * idx - 1]),
    {
        let start = 2 + ((idx as usize) - 1) * 4;
        be16_from(self.table.data[start], self.table.data[start + 1])
    }

    /// The ASAP of entry `idx` (1-based).
    pub fn asap(&self, idx: u16) -> (r: u16)
        requires
            self.wf(),
            1 <= idx <= M,
        ensures
            r == be16(self@.bytes[4 * idx as int], self@.bytes[4 * idx + 1]),
    {
        let start = 2 + ((idx as usize) - 1) * 4 + 2;
        be16_from(self.table.data[start], self.table.data[start + 1])
    }

    /// No association from entry `lo + 1` through `hi` (1-based) has TSAP
    /// `tsap`.
    pub open spec fn tsap_absent_between(s: Seq<(u16, u16)>, tsap: u16, lo: int, hi: int) -> bool {
        forall|k: int| lo < k <= hi ==> (#[trigger] s[k - 1]).0 != tsap
    }

    /// An association with TSAP `tsap` follows entry `lo`.
    pub open spec fn tsap_follows(s: Seq<(u16, u16)>, tsap: u16, lo: int) -> bool {
        exists|k: int| lo < k <= M && (#[trigger] s[k - 1]).0 == tsap
    }

    /// The entry `k` (1-based) of a range without `tsap` has another TSAP;
    /// for a caller that holds the range and not yet the entry.
    pub proof fn lemma_absent_at(s: Seq<(u16, u16)>, tsap: u16, lo: int, hi: int, k: int)
        requires
            Self::tsap_absent_between(s, tsap, lo, hi),
            lo < k <= hi,
        ensures
            s[k - 1].0 != tsap,
    {
    }

    /// The association `k` (1-based) with TSAP `tsap` after `lo` shows that
    /// one follows.
    pub proof fn lemma_follows_from(s: Seq<(u16, u16)>, tsap: u16, lo: int, k: int)
        requires
            lo < k <= M,
            s[k - 1].0 == tsap,
        ensures
            Self::tsap_follows(s, tsap, lo),
    {
    }

    /// The next association after entry `*start_idx` whose TSAP is `tsap`:
    /// `Some((asap, idx))`, leaving `*start_idx` at `idx`. On an empty table
    /// the identity association `(tsap, 1)` is found once, from index 0.
    pub fn find_next_asap(&self, tsap: u16, start_idx: &mut u16) -> (r: Option<(u16, u16)>)
        requires
            self.wf(),
            asso6_count(self@.bytes) <= M || Self::tsap_follows(
                self.associations(),
                tsap,
                *old(start_idx) as int,
            ),
        ensures
            ({
                let s = self.associations();
                let c = asso6_count(self@.bytes);
                let st = *old(start_idx);
                if c > 0 {
                    match r {
                        Some((a, j)) => {
                            &&& st < j <= c
                            &&& j <= s.len()
                            &&& s[j - 1] == (tsap, a)
                            &&& *final(start_idx) == j
                            &&& Self::tsap_absent_between(s, tsap, st as int, j - 1)
                        },
                        None => {
                            &&& *final(start_idx) == if st < c {
                                c
                            } else {
                                st as nat
                            }
                            &&& c <= s.len()
                            &&& Self::tsap_absent_between(s, tsap, st as int, c as int)
                        },
                    }
                } else if st == 0 {
                    r == Some((tsap, 1u16)) && *final(start_idx) == 1
                } else {
                    r is None && *final(start_idx) == st
                }
            }),
    {
        let ghost s = self.associations();
        let count = self.entry_count();
        if count > 0 {
            let mut i = *start_idx;
            while i < count
                invariant
                    self.wf(),
                    s == self.associations(),
                    count == asso6_count(self@.bytes),
                    s.len() == if count <= M {
                        count as nat
                    } else {
                        M as nat
                    },
                    *start_idx == *old(start_idx),
                    *old(start_idx) <= i,
                    i <= count || i == *old(start_idx),
                    count <= M || exists|k: int|
                        *old(start_idx) < k <= M && (#[trigger] s[k - 1]).0 == tsap,
                    forall|k: int| *old(start_idx) < k <= i ==> (#[trigger] s[k - 1]).0 != tsap,
                    i > *old(start_idx) ==> i <= s.len(),
                decreases count - i,
            {
                i = i + 1;
                let t = self.tsap(i);
                assert(t == s[i - 1].0);
                if t == tsap {
                    let a = self.asap(i);
                    *start_idx = i;
                    return Some((a, i));
                }
            }
            if *start_idx < i {
                *start_idx = i;
            }
            None
        } else {
            if *start_idx == 0 {
                *start_idx = 1;
                return Some((tsap, 1));
            }
            None
        }
    }

    /// The next association after entry `*start_idx` whose ASAP is `asap`:
    /// `Some((tsap, idx))`, leaving `*start_idx` at `idx`. On an empty table
    /// the identity association `(asap, 1)` is found once, from index 0.
    pub fn find_next_tsap(&self, asap: u16, start_idx: &mut u16) -> (r: Option<(u16, u16)>)
        requires
            self.wf(),
            asso6_count(self@.bytes) <= M || exists|k: int|
                *old(start_idx) < k <= M && (#[trigger] self.associations()[k - 1]).1 == asap,
        ensures
            ({
                let s = self.associations();
                let c = asso6_count(self@.bytes);
                let st = *old(start_idx);
                if c > 0 {
                    match r {
                        Some((t, j)) => {
                            &&& st < j <= c
                            &&& j <= s.len()
                            &&& s[j - 1] == (t, asap)
                            &&& *final(start_idx) == j
                            &&& forall|k: int| st < k < j ==> (#[trigger] s[k - 1]).1 != asap
                        },
                        None => {
                            &&& *final(start_idx) == if st < c {
                                c
                            } else {
                                st as nat
                            }
                            &&& forall|k: int|
                                st < k <= c ==> k <= s.len() && (#[trigger] s[k - 1]).1 != asap
                        },
                    }
                } else if st == 0 {
                    r == Some((asap, 1u16)) && *final(start_idx) == 1
                } else {
                    r is None && *final(start_idx) == st
                }
            }),
    {
        let ghost s = self.associations();
        let count = self.entry_count();
        if count > 0 {
            let mut i = *start_idx;
            while i < count
                invariant
                    self.wf(),
                    s == self.associations(),
                    count == asso6_count(self@.bytes),
                    s.len() == if count <= M {
                        count as nat
                    } else {
                        M as nat
                    },
                    *start_idx == *old(start_idx),
                    *old(start_idx) <= i,
                    i <= count || i == *old(start_idx),
                    count <= M || exists|k: int|
                        *old(start_idx) < k <= M && (#[trigger] s[k - 1]).1 == asap,
                    forall|k: int| *old(start_idx) < k <= i ==> (#[trigger] s[k - 1]).1 != asap,
                    i > *old(start_idx) ==> i <= s.len(),
                decreases count - i,
            {
                i = i + 1;
                let a = self.asap(i);
                assert(a == s[i - 1].1);
                if a == asap {
                    let t = self.tsap(i);
                    *start_idx = i;
                    return Some((t, i));
                }
            }
            if *start_idx < i {
                *start_idx = i;
            }
            None
        } else {
            if *start_idx == 0 {
                *start_idx = 1;
                return Some((asap, 1));
            }
            None
        }
    }
}

impl<const M: usize> AssociationTable for Table<AssoTab6Impl<M>> {
    open spec fn associations(&self) -> Seq<(u16, u16)> {
        asso6_associations(self.lsm_view().bytes, M as nat)
    }

    open spec fn stored_count(&self) -> nat {
        asso6_count(self.lsm_view().bytes)
    }

    open spec fn entry_limit() -> nat {
        M as nat
    }

    open spec fn identity_when_empty() -> bool {
        true
    }

    fn max_entries(&self) -> (r: usize) {
        M
    }

    fn entry_count(&self) -> (r: u16) {
        be16_from(self.table.data[0], self.table.data[1])
    }

    fn is_empty(&self) -> (r: bool) {
        self.entry_count() == 0
    }

    fn sending_tsap(&self, asap: u16) -> (r: Option<u16>) {
        let count = self.entry_count();
        if count == 0 {
            return Some(asap);
        }
        let ghost s = self.associations();
        let mut i: u16 = 0;
        while i < count
            invariant
                self.wf(),
                s == self.associations(),
                count == asso6_count(self@.bytes),
                count > 0,
                s.len() == if count <= M {
                    count as nat
                } else {
                    M as nat
                },
                count <= M || exists|k: int| 0 <= k < s.len() && (#[trigger] s[k]).1 == asap,
                i <= count,
                i <= s.len(),
                forall|k: int| 0 <= k < i ==> (#[trigger] s[k]).1 != asap,
            decreases count - i,
        {
            let a = self.asap(i + 1);
            assert(a == s[i as int].1);
            if a == asap {
                let t = self.tsap(i + 1);
                assert(s[i as int] == (t, asap));
                return Some(t);
            }
            i = i + 1;
        }
        None
    }

    fn tsaps_for_asap(&self, asap: u16) -> (r: Vec<u16>) {
        let count = self.entry_count();
        if count == 0 {
            let r = vec![asap];
            assert(r@ =~= seq![asap]);
            return r;
        }
        let ghost s = self.associations();
        let mut out: Vec<u16> = Vec::new();
        let mut i: u16 = 0;
        while i < count
            invariant
                self.wf(),
                s == self.associations(),
                count == asso6_count(self@.bytes),
                count <= M,
                s.len() == count,
                i <= count,
                out@ == tsaps_of(s.take(i as int), asap),
            decreases count - i,
        {
            assert(s.take(i + 1).drop_last() =~= s.take(i as int));
            let a = self.asap(i + 1);
            if a == asap {
                let t = self.tsap(i + 1);
                out.push(t);
            }
            i = i + 1;
        }
        assert(s.take(count as int) =~= s);
        out
    }

    fn asaps_for_tsap(&self, tsap: u16) -> (r: Vec<u16>) {
        let count = self.entry_count();
        if count == 0 {
            let r = vec![tsap];
            assert(r@ =~= seq![tsap]);
            return r;
        }
        let ghost s = self.associations();
        let mut out: Vec<u16> = Vec::new();
        let mut i: u16 = 0;
        while i < count
            invariant
                self.wf(),
                s == self.associations(),
                count == asso6_count(self@.bytes),
                count <= M,
                s.len() == count,
                i <= count,
                out@ == asaps_of(s.take(i as int), tsap),
            decreases count - i,
        {
            assert(s.take(i + 1).drop_last() =~= s.take(i as int));
            let t = self.tsap(i + 1);
            if t == tsap {
                let a = self.asap(i + 1);
                out.push(a);
            }
            i = i + 1;
        }
        assert(s.take(count as int) =~= s);
        out
    }
}

/// A type 6 association table for `M` associations.
pub type AssoTab6<const M: usize> = Table<AssoTab6Impl<M>>;

} // verus!
