//! Property descriptors and the access rules of property values: a
//! single-element property and an array property, with or without a
//! leading two-octet element count.

use vstd::prelude::*;

use super::traits::PropertyError;
use crate::address::be16;
use crate::objects::tables::spliced;

verus! {

/// Whether a property can be read, written or both.
#[derive(Debug, Clone, Copy, PartialEq, Eq, Structural)]
pub enum PropertyAccess {
    ReadOnly,
    ReadWrite,
    WriteOnly,
}

/// Which callers may read and write a property: a read mask and a write
/// mask over the access levels.
#[derive(Debug, Clone, Copy, PartialEq, Eq, Structural)]
pub struct AccessPolicy {
    pub read: u16,
    pub write: u16,
}

impl AccessPolicy {
    /// The policy of the standard objects: reads open to every level,
    /// writes to the commissioning tool (masks 3FFh / 0CCh).
    pub open spec fn read_open_write_tool_spec() -> AccessPolicy {
        AccessPolicy { read: 0x3FF, write: 0x0CC }
    }

    /// The policy of the standard objects: reads open to every level,
    /// writes to the commissioning tool (masks 3FFh / 0CCh).
    pub fn read_open_write_tool() -> (r: AccessPolicy)
        ensures
            r == Self::read_open_write_tool_spec(),
    {
        AccessPolicy { read: 0x3FF, write: 0x0CC }
    }
}

/// What a property description read reports of a property.
#[derive(Debug, Clone, Copy, PartialEq, Eq, Structural)]
pub struct PropertyDescriptor {
    pub pid: u16,
    /// Property data type.
    pub pdt: u8,
    pub max_elements: u16,
    pub access: PropertyAccess,
    pub read_level: u8,
    pub write_level: u8,
    pub policy: AccessPolicy,
}

impl PropertyDescriptor {
    pub fn new(
        pid: u16,
        pdt: u8,
        max_elements: u16,
        access: PropertyAccess,
        read_level: u8,
        write_level: u8,
        policy: AccessPolicy,
    ) -> (r: Self)
        ensures
            r == (PropertyDescriptor {
                pid,
                pdt,
                max_elements,
                access,
                read_level,
                write_level,
                policy,
            }),
    {
        PropertyDescriptor { pid, pdt, max_elements, access, read_level, write_level, policy }
    }
}

/// The answer to a property description read: the object, the property's
/// index within it, and its descriptor.
#[derive(Debug, Clone, Copy, PartialEq, Eq, Structural)]
pub struct PropertyDescriptionResponse {
    pub object_idx: u16,
    pub prop_idx: u16,
    pub descriptor: PropertyDescriptor,
}

impl PropertyDescriptionResponse {
    pub fn from_descriptor(object_idx: u16, prop_idx: u16, descriptor: &PropertyDescriptor) -> (r: Self)
        ensures
            r == (PropertyDescriptionResponse { object_idx, prop_idx, descriptor: *descriptor }),
    {
        PropertyDescriptionResponse { object_idx, prop_idx, descriptor: *descriptor }
    }
}

/// The index of the first descriptor of property `pid`.
pub open spec fn first_with_pid(ds: Seq<PropertyDescriptor>, pid: u16) -> Option<int>
    decreases ds.len(),
{
    if ds.len() == 0 {
        None
    } else if ds[0].pid == pid {
        Some(0)
    } else {
        match first_with_pid(ds.drop_first(), pid) {
            Some(i) => Some(i + 1),
            None => None,
        }
    }
}

/// What a read leaves in the caller's buffer and returns: the octets read
/// go to the front of the buffer and their number is returned; a failed
/// read leaves the buffer alone.
pub open spec fn read_outcome(
    r: Result<usize, PropertyError>,
    expected: Result<Seq<u8>, PropertyError>,
    old_buf: Seq<u8>,
    new_buf: Seq<u8>,
) -> bool {
    match expected {
        Ok(d) => r == Ok::<usize, PropertyError>(d.len() as usize) && new_buf == spliced(old_buf, 0, d),
        Err(e) => r == Err::<usize, PropertyError>(e) && new_buf == old_buf,
    }
}

/// A read of a single-element property holding `data`: start index 0 asks
/// for the element count (one, as two octets); otherwise only start 1 with
/// count 1 is valid.
pub open spec fn single_read(data: Seq<u8>, start: u16, count: u16, buf_len: nat) -> Result<
    Seq<u8>,
    PropertyError,
> {
    if start == 0 {
        if buf_len < 2 {
            Err(PropertyError::BufferTooSmall)
        } else {
            Ok(seq![0u8, 1u8])
        }
    } else if start != 1 || count != 1 {
        Err(PropertyError::InvalidStartIndex)
    } else if buf_len < data.len() {
        Err(PropertyError::BufferTooSmall)
    } else {
        Ok(data)
    }
}

/// Copy `n` octets of `src` from `from` on to the front of `buf`.
fn copy_to_front(buf: &mut [u8], src: &[u8], from: usize, n: usize)
    requires
        from + n <= src@.len(),
        n <= old(buf)@.len(),
    ensures
        final(buf)@ == spliced(old(buf)@, 0, src@.subrange(from as int, from + n)),
{
    let ghost orig = buf@;
    let src_len = src.len();
    let mut i: usize = 0;
    while i < n
        invariant
            i <= n,
            src_len == src@.len(),
            from + n <= src@.len(),
            n <= orig.len(),
            buf@.len() == orig.len(),
            forall|k: int| 0 <= k < i ==> buf@[k] == src@[from + k],
            forall|k: int| i <= k < orig.len() ==> buf@[k] == orig[k],
        decreases n - i,
    {
        buf[i] = src[from + i];
        i = i + 1;
    }
    assert(buf@ =~= spliced(orig, 0, src@.subrange(from as int, from + n)));
}

/// Read a single-element property holding `data` into `buf`.
pub fn read_single(data: &[u8], start: u16, count: u16, buf: &mut [u8]) -> (r: Result<
    usize,
    PropertyError,
>)
    ensures
        read_outcome(r, single_read(data@, start, count, old(buf)@.len()), old(buf)@, final(buf)@),
{
    if start == 0 {
        if buf.len() < 2 {
            return Err(PropertyError::BufferTooSmall);
        }
        let one = [0u8, 1u8];
        copy_to_front(buf, &one, 0, 2);
        assert(one@.subrange(0, 2) =~= seq![0u8, 1u8]);
        return Ok(2);
    }
    if start != 1 || count != 1 {
        return Err(PropertyError::InvalidStartIndex);
    }
    if buf.len() < data.len() {
        return Err(PropertyError::BufferTooSmall);
    }
    copy_to_front(buf, data, 0, data.len());
    assert(data@.subrange(0, data@.len() as int) =~= data@);
    Ok(data.len())
}

// ============================================================================
// Array properties
// ============================================================================

/// Where the entries of an array property start: after the count octets
/// when there are any.
pub open spec fn array_base(prefixed: bool) -> nat {
    if prefixed {
        2
    } else {
        0
    }
}

/// The entries of `entry` octets that fit in `bytes` after the base.
pub open spec fn entry_room(bytes: Seq<u8>, entry: nat, prefixed: bool) -> nat {
    if bytes.len() >= array_base(prefixed) {
        ((bytes.len() - array_base(prefixed)) as nat) / entry
    } else {
        0
    }
}

/// The element count an array property reports: the count octets of a
/// prefixed array (which the loaded table sets), or the entries that fit.
pub open spec fn array_count(bytes: Seq<u8>, entry: nat, prefixed: bool) -> nat {
    if prefixed {
        if bytes.len() >= 2 {
            be16(bytes[0], bytes[1]) as nat
        } else {
            0
        }
    } else {
        entry_room(bytes, entry, false)
    }
}

/// The entries a read can reach: those counted that the memory holds.
pub open spec fn readable_entries(bytes: Seq<u8>, entry: nat, prefixed: bool) -> nat {
    let c = array_count(bytes, entry, prefixed);
    let room = entry_room(bytes, entry, prefixed);
    if c < room {
        c
    } else {
        room
    }
}

/// The two octets of the element count.
pub open spec fn count_octets(bytes: Seq<u8>, entry: nat, prefixed: bool) -> Seq<u8> {
    let c = array_count(bytes, entry, prefixed) as u16;
    seq![(c / 256) as u8, (c % 256) as u8]
}

/// A read of an array property over `bytes`: start index 0 gives the
/// element count as two octets; otherwise `count` entries from the 1-based
/// `start`, cut at the last readable entry, and a start past it is
/// invalid.
pub open spec fn array_read(
    bytes: Seq<u8>,
    entry: nat,
    prefixed: bool,
    start: u16,
    count: u16,
    buf_len: nat,
) -> Result<Seq<u8>, PropertyError> {
    if start == 0 {
        if buf_len < 2 {
            Err(PropertyError::BufferTooSmall)
        } else {
            Ok(count_octets(bytes, entry, prefixed))
        }
    } else {
        let s = start - 1;
        let avail = readable_entries(bytes, entry, prefixed);
        if s >= avail {
            Err(PropertyError::InvalidStartIndex)
        } else {
            let end = if s + count < avail {
                s + count
            } else {
                avail as int
            };
            if buf_len < (end - s) * entry {
                Err(PropertyError::BufferTooSmall)
            } else {
                Ok(
                    bytes.subrange(
                        array_base(prefixed) + s * entry,
                        array_base(prefixed) + end * entry,
                    ),
                )
            }
        }
    }
}

proof fn lemma_entries_in_memory(len: nat, base: nat, entry: nat, s: int, end: int)
    requires
        entry > 0,
        len >= base,
        0 <= s <= end,
        end <= ((len - base) as nat) / entry,
    ensures
        0 <= s * entry <= end * entry,
        base + end * entry <= len,
        (end - s) * entry == end * entry - s * entry,
{
    let x = (len - base) as nat;
    let room = x / entry;
    vstd::arithmetic::div_mod::lemma_fundamental_div_mod(x as int, entry as int);
    assert(room * entry <= x) by (nonlinear_arith)
        requires
            x == entry * room + x % entry,
            x % entry >= 0,
    ;
    assert(end * entry <= room * entry) by (nonlinear_arith)
        requires
            end <= room,
            entry > 0,
    ;
    assert(0 <= s * entry <= end * entry) by (nonlinear_arith)
        requires
            0 <= s <= end,
            entry > 0,
    ;
    assert((end - s) * entry == end * entry - s * entry) by (nonlinear_arith);
}

/// Read an array property over `data` into `buf`.
pub fn read_array(
    data: &[u8],
    entry: usize,
    prefixed: bool,
    start: u16,
    count: u16,
    buf: &mut [u8],
) -> (r: Result<usize, PropertyError>)
    requires
        entry > 0,
    ensures
        read_outcome(
            r,
            array_read(data@, entry as nat, prefixed, start, count, old(buf)@.len()),
            old(buf)@,
            final(buf)@,
        ),
{
    let base: usize = if prefixed { 2 } else { 0 };
    let room: usize = if data.len() >= base { (data.len() - base) / entry } else { 0 };
    let counted: usize = if prefixed {
        if data.len() >= 2 {
            crate::address::be16_from(data[0], data[1]) as usize
        } else {
            0
        }
    } else {
        room
    };
    if start == 0 {
        if buf.len() < 2 {
            return Err(PropertyError::BufferTooSmall);
        }
        let c: u16 = #[verifier::truncate] (counted as u16);
        let octets = [(c / 256) as u8, (c % 256) as u8];
        copy_to_front(buf, &octets, 0, 2);
        assert(octets@.subrange(0, 2) =~= count_octets(data@, entry as nat, prefixed));
        return Ok(2);
    }
    let avail: usize = if counted < room { counted } else { room };
    let s: usize = (start - 1) as usize;
    if s >= avail {
        return Err(PropertyError::InvalidStartIndex);
    }
    let end: usize = if s + (count as usize) < avail { s + count as usize } else { avail };
    proof {
        lemma_entries_in_memory(data@.len(), base as nat, entry as nat, s as int, end as int);
    }
    let n: usize = (end - s) * entry;
    if buf.len() < n {
        return Err(PropertyError::BufferTooSmall);
    }
    let from: usize = base + s * entry;
    copy_to_front(buf, data, from, n);
    assert(data@.subrange(from as int, from + n) =~= data@.subrange(
        base + s * entry,
        base + end * entry,
    ));
    Ok(n)
}

/// A write to an array property over `bytes`, giving the new octets. Start
/// index 0 sets the element count of a prefixed array from the first two
/// octets of `data`; otherwise `data` goes to the entries from the 1-based
/// `start`, cut at the end of the memory, and a write of which nothing
/// fits is invalid.
pub open spec fn array_write(bytes: Seq<u8>, entry: nat, prefixed: bool, start: u16, data: Seq<u8>) -> Result<
    Seq<u8>,
    PropertyError,
> {
    if start == 0 {
        if !prefixed || bytes.len() < 2 {
            Err(PropertyError::InvalidStartIndex)
        } else if data.len() < 2 {
            Err(PropertyError::BufferTooSmall)
        } else {
            Ok(spliced(bytes, 0, data.take(2)))
        }
    } else {
        let off = array_base(prefixed) + (start - 1) * entry;
        if off >= bytes.len() || data.len() == 0 {
            Err(PropertyError::InvalidStartIndex)
        } else {
            let n = if data.len() < bytes.len() - off {
                data.len() as int
            } else {
                bytes.len() - off
            };
            Ok(spliced(bytes, off, data.take(n)))
        }
    }
}

/// Where a write to an array property over `bytes` goes: the offset and
/// the number of octets of `data` to copy there.
pub fn plan_array_write(bytes: &[u8], entry: usize, prefixed: bool, start: u16, data: &[u8]) -> (r: Result<
    (usize, usize),
    PropertyError,
>)
    ensures
        match r {
            Ok((off, n)) => {
                &&& off + n <= bytes@.len()
                &&& n <= data@.len()
                &&& array_write(bytes@, entry as nat, prefixed, start, data@) == Ok::<
                    Seq<u8>,
                    PropertyError,
                >(spliced(bytes@, off as int, data@.take(n as int)))
            },
            Err(e) => array_write(bytes@, entry as nat, prefixed, start, data@) == Err::<
                Seq<u8>,
                PropertyError,
            >(e),
        },
{
    if start == 0 {
        if !prefixed || bytes.len() < 2 {
            return Err(PropertyError::InvalidStartIndex);
        }
        if data.len() < 2 {
            return Err(PropertyError::BufferTooSmall);
        }
        return Ok((0, 2));
    }
    let base: usize = if prefixed { 2 } else { 0 };
    let len = bytes.len();
    let off = match ((start - 1) as usize).checked_mul(entry) {
        Some(k) => match k.checked_add(base) {
            Some(o) => o,
            None => return Err(PropertyError::InvalidStartIndex),
        },
        None => return Err(PropertyError::InvalidStartIndex),
    };
    if off >= bytes.len() || data.len() == 0 {
        return Err(PropertyError::InvalidStartIndex);
    }
    let n: usize = if data.len() < bytes.len() - off { data.len() } else { bytes.len() - off };
    Ok((off, n))
}

// ============================================================================
// Laws of array properties
// ============================================================================

/// Writing the element count of a prefixed array property and reading
/// element 0 back gives the two octets written.
pub proof fn lemma_count_write_then_read(bytes: Seq<u8>, entry: nat, data: Seq<u8>, buf_len: nat)
    requires
        entry > 0,
        bytes.len() >= 2,
        data.len() >= 2,
        buf_len >= 2,
    ensures
        array_write(bytes, entry, true, 0, data) matches Ok(written) && array_read(
            written,
            entry,
            true,
            0,
            1,
            buf_len,
        ) == Ok::<Seq<u8>, PropertyError>(data.take(2)),
{
    let written = spliced(bytes, 0, data.take(2));
    let c = be16(written[0], written[1]);
    assert(written[0] == data[0] && written[1] == data[1]);
    assert((c / 256) as u8 == data[0] && (c % 256) as u8 == data[1]);
    assert(count_octets(written, entry, true) =~= data.take(2));
}

/// Writing whole entries to a prefixed array property within its counted
/// entries and reading the same entries back gives the octets written; the
/// element count is left as it was.
pub proof fn lemma_entries_write_then_read(
    bytes: Seq<u8>,
    entry: nat,
    start: u16,
    k: nat,
    data: Seq<u8>,
    buf_len: nat,
)
    requires
        entry > 0,
        bytes.len() >= 2,
        start >= 1,
        k >= 1,
        start - 1 + k <= readable_entries(bytes, entry, true),
        k <= u16::MAX,
        data.len() == k * entry,
        buf_len >= data.len(),
    ensures
        array_write(bytes, entry, true, start, data) matches Ok(written) && array_count(
            written,
            entry,
            true,
        ) == array_count(bytes, entry, true) && array_read(
            written,
            entry,
            true,
            start,
            k as u16,
            buf_len,
        ) == Ok::<Seq<u8>, PropertyError>(data),
{
    let s = (start - 1) as int;
    let off = 2 + s * entry;
    let room = entry_room(bytes, entry, true);
    lemma_entries_in_memory(bytes.len(), 2, entry, s, s + k);
    assert((s + k) * entry == s * entry + k * entry) by (nonlinear_arith);
    assert(off + data.len() <= bytes.len());
    assert(k * entry >= 1) by (nonlinear_arith)
        requires
            k >= 1,
            entry > 0,
    ;
    let written = spliced(bytes, off, data.take(data.len() as int));
    assert(data.take(data.len() as int) =~= data);
    assert(written[0] == bytes[0] && written[1] == bytes[1]);
    assert(written.len() == bytes.len());
    assert(array_count(written, entry, true) == array_count(bytes, entry, true));
    assert(entry_room(written, entry, true) == room);
    assert(written.subrange(off, off + data.len()) =~= data);
}

} // verus!
