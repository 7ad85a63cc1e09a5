//! Communication objects: their transmission status, value storage and
//! typed access.

use core::marker::PhantomData;
use vstd::prelude::*;

use super::tables::spliced;

verus! {

/// Status of a communication object.
#[derive(Debug, Clone, Copy, PartialEq, Eq, Structural)]
pub enum ComObjectStatus {
    /// Updated remotely (48h).
    Updated,
    /// Read request pending (44h).
    ReadRequest,
    /// Read request failed (45h).
    ReadRequestError,
    /// Write request issued (02h).
    WriteRequest,
    /// Write request failed (41h).
    WriteRequestError,
    /// A read or write request is being handled (02h).
    Busy,
    /// Idle (40h).
    IdleOk,
    /// Idle after an error in the last requested bus transaction (41h).
    IdleError,
    /// Not initialized yet.
    Uninitialized,
}

/// The BCU1-style flags octet of a status: bit 6 idle, bit 3 updated, bit 2
/// read request, bit 1 transmit request, bit 0 error.
pub open spec fn status_flags(s: ComObjectStatus) -> u8 {
    match s {
        ComObjectStatus::IdleOk => 0x40,
        ComObjectStatus::IdleError => 0x41,
        ComObjectStatus::Busy => 0x02,
        ComObjectStatus::WriteRequest => 0x02,
        ComObjectStatus::WriteRequestError => 0x41,
        ComObjectStatus::ReadRequest => 0x44,
        ComObjectStatus::ReadRequestError => 0x45,
        ComObjectStatus::Updated => 0x48,
        ComObjectStatus::Uninitialized => 0x40,
    }
}

/// The status a flags octet stands for; a read request (with its error bit)
/// and then an update take priority over a transmit request and an error.
pub open spec fn status_of_flags(flags: u8) -> ComObjectStatus {
    if flags & 0x04 != 0 {
        if flags & 0x01 != 0 {
            ComObjectStatus::ReadRequestError
        } else {
            ComObjectStatus::ReadRequest
        }
    } else if flags & 0x08 != 0 {
        ComObjectStatus::Updated
    } else if flags & 0x02 != 0 {
        ComObjectStatus::WriteRequest
    } else if flags & 0x01 != 0 {
        ComObjectStatus::IdleError
    } else {
        ComObjectStatus::IdleOk
    }
}

impl ComObjectStatus {
    /// The BCU1-style flags octet of this status.
    pub fn to_flags_byte(&self) -> (r: u8)
        ensures
            r == status_flags(*self),
    {
        match self {
            ComObjectStatus::IdleOk => 0x40,
            ComObjectStatus::IdleError => 0x41,
            ComObjectStatus::Busy => 0x02,
            ComObjectStatus::WriteRequest => 0x02,
            ComObjectStatus::WriteRequestError => 0x41,
            ComObjectStatus::ReadRequest => 0x44,
            ComObjectStatus::ReadRequestError => 0x45,
            ComObjectStatus::Updated => 0x48,
            ComObjectStatus::Uninitialized => 0x40,
        }
    }

    /// The status a BCU1-style flags octet stands for.
    pub fn from_flags_byte(flags: u8) -> (r: ComObjectStatus)
        ensures
            r == status_of_flags(flags),
    {
        if flags & 0x04 != 0 {
            if flags & 0x01 != 0 {
                ComObjectStatus::ReadRequestError
            } else {
                ComObjectStatus::ReadRequest
            }
        } else if flags & 0x08 != 0 {
            ComObjectStatus::Updated
        } else if flags & 0x02 != 0 {
            ComObjectStatus::WriteRequest
        } else if flags & 0x01 != 0 {
            ComObjectStatus::IdleError
        } else {
            ComObjectStatus::IdleOk
        }
    }

    /// Whether the object is idle (can accept a new request): bit 6 of its
    /// flags octet.
    pub fn is_idle(&self) -> (r: bool)
        ensures
            r == (status_flags(*self) & 0x40 != 0),
    {
        self.to_flags_byte() & 0x40 != 0
    }
}

impl Default for ComObjectStatus {
    fn default() -> (r: ComObjectStatus)
        ensures
            r == ComObjectStatus::Uninitialized,
    {
        ComObjectStatus::Uninitialized
    }
}

/// Decoding the flags octet of a status gives the status back, for every
/// octet: the statuses with an octet of their own (read request, read
/// request with error, updated) and, of the pairs that share one, the one
/// the octet stands for (idle rather than uninitialized, idle with error
/// rather than a failed write request, write request rather than busy).
pub proof fn lemma_status_flags_round_trip(s: ComObjectStatus)
    requires
        s == ComObjectStatus::IdleOk || s == ComObjectStatus::IdleError || s
            == ComObjectStatus::WriteRequest || s == ComObjectStatus::ReadRequest || s
            == ComObjectStatus::ReadRequestError || s == ComObjectStatus::Updated,
    ensures
        status_of_flags(status_flags(s)) == s,
{
    assert(0x40u8 & 0x04 == 0 && 0x40u8 & 0x08 == 0 && 0x40u8 & 0x02 == 0 && 0x40u8 & 0x01 == 0)
        by (bit_vector);
    assert(0x41u8 & 0x04 == 0 && 0x41u8 & 0x08 == 0 && 0x41u8 & 0x02 == 0 && 0x41u8 & 0x01 != 0)
        by (bit_vector);
    assert(0x02u8 & 0x04 == 0 && 0x02u8 & 0x08 == 0 && 0x02u8 & 0x02 != 0) by (bit_vector);
    assert(0x44u8 & 0x04 != 0 && 0x44u8 & 0x01 == 0) by (bit_vector);
    assert(0x45u8 & 0x04 != 0 && 0x45u8 & 0x01 != 0) by (bit_vector);
    assert(0x48u8 & 0x04 == 0 && 0x48u8 & 0x08 != 0) by (bit_vector);
}

/// Only the transmitting statuses (a write request or a busy object) are
/// not idle.
pub proof fn lemma_idle_unless_transmitting(s: ComObjectStatus)
    ensures
        (status_flags(s) & 0x40 != 0) <==> !(s == ComObjectStatus::Busy || s
            == ComObjectStatus::WriteRequest),
{
    assert(0x40u8 & 0x40 != 0 && 0x41u8 & 0x40 != 0 && 0x44u8 & 0x40 != 0 && 0x45u8 & 0x40 != 0
        && 0x48u8 & 0x40 != 0 && 0x02u8 & 0x40 == 0) by (bit_vector);
}

/// A value type a communication object can hold: it is read and written as
/// octets.
pub trait ComObjectValueType: Sized {
    /// The octets of the value.
    spec fn value_bytes(&self) -> Seq<u8>;

    /// The octets of the value.
    fn as_bytes(&self) -> (r: &[u8])
        ensures
            r@ == self.value_bytes(),
    ;
}

/// A communication object holding a value of type `T`.
pub struct ComObject<T: ComObjectValueType> {
    /// The value.
    pub value: T,
    /// Transmission state.
    pub status: ComObjectStatus,
}

impl<T: ComObjectValueType> ComObject<T> {
    /// A new, uninitialized object holding `value`.
    pub fn new(value: T) -> (r: Self)
        ensures
            r.value == value,
            r.status == ComObjectStatus::Uninitialized,
    {
        ComObject { value, status: ComObjectStatus::Uninitialized }
    }
}

/// Status and value octets of a communication object.
pub struct ComObjectInfo<'a> {
    pub status: &'a ComObjectStatus,
    pub value: &'a [u8],
}

/// Status and value octets of a communication object, writable.
pub struct ComObjectInfoMut<'a> {
    pub status: &'a mut ComObjectStatus,
    pub value: &'a mut [u8],
}

/// Raw octet storage for a communication object whose value can be read
/// under several datapoint types; `SIZE` is the largest of them.
#[derive(Clone, Copy)]
pub struct ComObjectStorage<const SIZE: usize> {
    data: [u8; SIZE],
}

impl<const SIZE: usize> ComObjectStorage<SIZE> {
    /// The stored octets.
    pub closed spec fn octets(&self) -> Seq<u8> {
        self.data@
    }

    /// Zeroed storage.
    pub fn new() -> (r: Self)
        ensures
            r.octets() == Seq::new(SIZE as nat, |i: int| 0u8),
    {
        ComObjectStorage { data: [0u8; SIZE] }
    }

    /// The stored octets.
    pub fn data(&self) -> (r: &[u8; SIZE])
        ensures
            r@ == self.octets(),
    {
        &self.data
    }

    /// The stored octets, writable.
    pub fn data_mut(&mut self) -> (r: &mut [u8; SIZE])
        ensures
            r@ == old(self).octets(),
            final(self).octets() == final(r)@,
    {
        &mut self.data
    }

    /// Store `value`'s octets at the start of the storage.
    pub fn write_typed<T: ComObjectValueType>(&mut self, value: &T)
        requires
            value.value_bytes().len() <= SIZE,
        ensures
            final(self).octets() == spliced(old(self).octets(), 0, value.value_bytes()),
    {
        copy_prefix(&mut self.data, value.as_bytes());
    }
}

impl<const SIZE: usize> Default for ComObjectStorage<SIZE> {
    fn default() -> (r: Self)
        ensures
            r.octets() == Seq::new(SIZE as nat, |i: int| 0u8),
    {
        ComObjectStorage::new()
    }
}

impl<const SIZE: usize> ComObjectValueType for ComObjectStorage<SIZE> {
    closed spec fn value_bytes(&self) -> Seq<u8> {
        self.data@
    }

    fn as_bytes(&self) -> (r: &[u8]) {
        self.data.as_slice()
    }
}

/// Copy `src` over the start of `dst`.
fn copy_prefix(dst: &mut [u8], src: &[u8])
    requires
        src@.len() <= old(dst)@.len(),
    ensures
        final(dst)@ == spliced(old(dst)@, 0, src@),
{
    let n = src.len();
    let mut i: usize = 0;
    while i < n
        invariant
            i <= n,
            n == src@.len(),
            n <= dst@.len(),
            dst@.len() == old(dst)@.len(),
            forall|k: int| 0 <= k < i ==> dst@[k] == src@[k],
            forall|k: int| i <= k < dst@.len() ==> dst@[k] == old(dst)@[k],
        decreases n - i,
    {
        dst[i] = src[i];
        i = i + 1;
    }
    assert(dst@ =~= spliced(old(dst)@, 0, src@));
}

/// Typed access to a communication object's storage and status; `INDEX` is
/// the object's ASAP.
pub struct TypedComObj<'a, T: ComObjectValueType, const INDEX: u16> {
    /// The object's value octets.
    pub storage: &'a mut [u8],
    /// The object's status.
    pub status: &'a mut ComObjectStatus,
    /// The type the octets hold.
    pub value_type: PhantomData<T>,
}

impl<'a, T: ComObjectValueType, const INDEX: u16> TypedComObj<'a, T, INDEX> {
    /// The storage octets.
    pub open spec fn storage_octets(&self) -> Seq<u8> {
        self.storage@
    }

    /// The status.
    pub open spec fn current_status(&self) -> ComObjectStatus {
        *self.status
    }

    /// Wrap an object's storage and status.
    pub fn new(storage: &'a mut [u8], status: &'a mut ComObjectStatus) -> (r: Self)
        ensures
            r.storage_octets() == old(storage)@,
            r.current_status() == *old(status),
            final(storage)@ == final(r.storage)@,
            *final(status) == *final(r.status),
    {
        TypedComObj { storage, status, value_type: PhantomData }
    }

    /// Store `value`'s octets at the start of the storage.
    pub fn set(&mut self, value: T)
        requires
            value.value_bytes().len() <= old(self).storage_octets().len(),
        ensures
            final(self).storage_octets() == spliced(
                old(self).storage_octets(),
                0,
                value.value_bytes(),
            ),
            final(self).current_status() == old(self).current_status(),
            *final(final(self).status) == *final(old(self).status),
            final(final(self).storage)@ == final(old(self).storage)@,
    {
        copy_prefix(self.storage, value.as_bytes());
    }

    /// The object's ASAP.
    pub fn index() -> (r: u16)
        ensures
            r == INDEX,
    {
        INDEX
    }

    /// The current status.
    pub fn status(&self) -> (r: ComObjectStatus)
        ensures
            r == self.current_status(),
    {
        *self.status
    }

    /// Set the status.
    pub fn set_status(&mut self, status: ComObjectStatus)
        ensures
            final(self).current_status() == status,
            final(self).storage_octets() == old(self).storage_octets(),
            *final(final(self).status) == *final(old(self).status),
            final(final(self).storage)@ == final(old(self).storage)@,
    {
        *self.status = status;
    }
}

/// The communication objects of an application, addressed by ASAP.
pub trait ComObjects: Sized {
    /// The number of objects; the ASAPs are `0..count()`.
    spec fn count() -> u16;

    /// The status of object `idx`.
    spec fn status_of(&self, idx: u16) -> ComObjectStatus;

    /// All objects uninitialized, with their initial values.
    fn new() -> (r: Self)
        ensures
            forall|idx: u16| idx < Self::count() ==> #[trigger] r.status_of(idx) == ComObjectStatus::Uninitialized,
    ;

    /// The status of object `idx`.
    fn status(&self, idx: u16) -> (r: ComObjectStatus)
        requires
            idx < Self::count(),
        ensures
            r == self.status_of(idx),
    ;

    /// Set the status of object `idx`; nothing else changes.
    fn set_status(&mut self, idx: u16, status: ComObjectStatus)
        requires
            idx < Self::count(),
        ensures
            final(self).status_of(idx) == status,
            forall|j: u16| j < Self::count() && j != idx ==> #[trigger] final(self).status_of(j) == old(
                self,
            ).status_of(j),
    ;

    /// The value octets of object `idx`.
    fn value(&self, idx: u16) -> &[u8]
        requires
            idx < Self::count(),
    ;

    /// Acknowledge that an update of object `idx` has been processed: an
    /// Updated object becomes IdleOk; any other status is left alone.
    fn acknowledge_update(&mut self, idx: u16)
        requires
            idx < Self::count(),
        ensures
            final(self).status_of(idx) == if old(self).status_of(idx) == ComObjectStatus::Updated {
                ComObjectStatus::IdleOk
            } else {
                old(self).status_of(idx)
            },
            forall|j: u16| j < Self::count() && j != idx ==> #[trigger] final(self).status_of(j) == old(
                self,
            ).status_of(j),
    {
        if self.status(idx) == ComObjectStatus::Updated {
            self.set_status(idx, ComObjectStatus::IdleOk);
        }
    }

    /// Reset every object to its initial state (uninitialized).
    fn reset(&mut self)
        ensures
            forall|idx: u16| idx < Self::count() ==> #[trigger] final(self).status_of(idx) == ComObjectStatus::Uninitialized,
    {
        *self = Self::new();
    }
}

/// What happened to a communication object.
#[derive(Debug, Clone, Copy, PartialEq, Eq, Structural)]
pub enum ComObjectEvent {
    /// Updated remotely by a group value write.
    Updated,
    /// Updated locally.
    LocallyUpdated,
    /// A remote device asked to read the value.
    Read,
    /// A response to a read request arrived.
    ReadResponse,
}

} // verus!
