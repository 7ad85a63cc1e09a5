//! Property buffers, write responses, request and result types, and the
//! traits for typed property access.

use vstd::prelude::*;

use super::properties::{first_with_pid, PropertyDescriptionResponse, PropertyDescriptor};
use crate::objects::tables::{spliced, LoadState};

verus! {

/// Why a property access failed.
#[derive(Debug, Clone, Copy, PartialEq, Eq, Structural)]
pub enum PropertyError {
    InvalidObjectIndex,
    InvalidPropertyId,
    InvalidPropertyIndex,
    InvalidStartIndex,
    WriteNotAllowed,
    BufferTooSmall,
}

/// Largest transformed write response.
pub const MAX_WRITE_RESPONSE_DATA: usize = 4;

/// Largest function property response.
pub const MAX_FUNCTION_PROPERTY_RESPONSE: usize = 64;

/// Fixed-capacity inline buffer for small property data.
#[derive(Clone, Copy, Debug, PartialEq, Eq)]
pub struct PropertyBuf<const N: usize> {
    buf: [u8; N],
    len: u8,
}

impl<const N: usize> PropertyBuf<N> {
    #[verifier::type_invariant]
    spec fn inv(&self) -> bool {
        self.len as nat <= N
    }

    /// The stored octets.
    pub closed spec fn contents(&self) -> Seq<u8> {
        self.buf@.take(self.len as int)
    }

    /// The whole buffer: the stored octets, then what follows them.
    pub closed spec fn padded(&self) -> Seq<u8> {
        self.buf@
    }

    /// The number of stored octets as recorded.
    pub closed spec fn stored_len(&self) -> u8 {
        self.len
    }

    /// A buffer of `N` zero octets.
    fn zeroed() -> (r: [u8; N])
        ensures
            r@ == Seq::new(N as nat, |i: int| 0u8),
    {
        let mut buf = [0u8; N];
        let mut j: usize = 0;
        while j < N
            invariant
                j <= N,
                buf@.len() == N,
                forall|k: int| 0 <= k < j ==> buf@[k] == 0u8,
            decreases N - j,
        {
            buf[j] = 0;
            j = j + 1;
        }
        assert(buf@ =~= Seq::new(N as nat, |i: int| 0u8));
        buf
    }

    /// Two buffers with the same octets throughout and the same length are
    /// equal.
    pub proof fn lemma_padded_determines(a: Self, b: Self)
        requires
            a.padded() == b.padded(),
            a.stored_len() == b.stored_len(),
        ensures
            a == b,
    {
        assert(a.buf =~= b.buf) by {
            assert forall|i: int| 0 <= i < N implies a.buf[i] == b.buf[i] by {
                assert(a.buf@[i] == b.buf@[i]);
            }
        }
    }

    /// A buffer holding `src` (its length is kept in one octet).
    pub fn new(src: &[u8]) -> (r: Self)
        requires
            src@.len() <= N,
        ensures
            r.contents() == src@.take((src@.len() as u8) as int),
            src@.len() <= 255 ==> r.contents() == src@,
            r.stored_len() == src@.len() as u8,
            r.padded() == src@ + Seq::new((N - src@.len()) as nat, |i: int| 0u8),
    {
        let mut buf = Self::zeroed();
        let n = src.len();
        let mut i: usize = 0;
        while i < n
            invariant
                i <= n,
                n == src@.len(),
                n <= N,
                buf@.len() == N,
                forall|k: int| 0 <= k < i ==> buf@[k] == src@[k],
                forall|k: int| i <= k < N ==> buf@[k] == 0u8,
            decreases n - i,
        {
            buf[i] = src[i];
            i = i + 1;
        }
        let len: u8 = #[verifier::truncate] (n as u8);
        assert(len as usize <= n) by (bit_vector)
            requires
                len == n as u8,
        ;
        let r = PropertyBuf { buf, len };
        assert(r.buf@.take(len as int) =~= src@.take(len as int));
        assert(n <= 255 ==> src@.take(len as int) =~= src@);
        assert(r.buf@ =~= src@ + Seq::new((N - src@.len()) as nat, |i: int| 0u8));
        r
    }

    /// A buffer holding the single octet `b`.
    pub fn from_byte(b: u8) -> (r: Self)
        requires
            N >= 1,
        ensures
            r.contents() == seq![b],
            r.stored_len() == 1,
            r.padded() == seq![b] + Seq::new((N - 1) as nat, |i: int| 0u8),
    {
        let mut buf = Self::zeroed();
        buf[0] = b;
        let r = PropertyBuf { buf, len: 1 };
        assert(r.buf@.take(1) =~= seq![b]);
        assert(r.buf@ =~= seq![b] + Seq::new((N - 1) as nat, |i: int| 0u8));
        r
    }

    /// The stored octets.
    pub fn as_slice(&self) -> (r: &[u8])
        ensures
            r@ == self.contents(),
    {
        proof {
            use_type_invariant(self);
        }
        let (head, _) = self.buf.as_slice().split_at(self.len as usize);
        head
    }

    /// The number of stored octets.
    pub fn len(&self) -> (r: usize)
        ensures
            r == self.contents().len(),
    {
        proof {
            use_type_invariant(self);
        }
        self.len as usize
    }

    /// Whether nothing is stored.
    pub fn is_empty(&self) -> (r: bool)
        ensures
            r == (self.contents().len() == 0),
    {
        proof {
            use_type_invariant(self);
        }
        self.len == 0
    }
}

/// Response to a property write: echo the written data, or return data
/// the property transformed it into (such as the resulting state of a
/// state machine).
#[derive(Debug, Clone, Copy, PartialEq, Eq)]
pub enum WriteResponse {
    /// Echo the input data back.
    Echo,
    /// Return this data.
    Data(PropertyBuf<MAX_WRITE_RESPONSE_DATA>),
}

impl WriteResponse {
    /// A response returning `slice`.
    pub fn data(slice: &[u8]) -> (r: Self)
        requires
            slice@.len() <= MAX_WRITE_RESPONSE_DATA,
        ensures
            r matches WriteResponse::Data(b) && b.contents() == slice@ && b.stored_len()
                == slice@.len() && b.padded() == slice@ + Seq::new(
                (MAX_WRITE_RESPONSE_DATA - slice@.len()) as nat,
                |i: int| 0u8,
            ),
    {
        WriteResponse::Data(PropertyBuf::new(slice))
    }

    /// A response returning the single octet `b`.
    pub fn byte(b: u8) -> (r: Self)
        ensures
            r matches WriteResponse::Data(buf) && buf.contents() == seq![b] && buf.stored_len() == 1
                && buf.padded() == seq![b] + Seq::new(
                (MAX_WRITE_RESPONSE_DATA - 1) as nat,
                |i: int| 0u8,
            ),
    {
        WriteResponse::Data(PropertyBuf::from_byte(b))
    }

    /// The returned data; `None` for an echo.
    pub fn as_slice(&self) -> (r: Option<&[u8]>)
        ensures
            match self {
                WriteResponse::Echo => r is None,
                WriteResponse::Data(b) => r matches Some(s) && s@ == b.contents(),
            },
    {
        match self {
            WriteResponse::Echo => None,
            WriteResponse::Data(buf) => Some(buf.as_slice()),
        }
    }
}

/// Parameters of a property read.
#[derive(Debug, Clone, Copy)]
pub struct PropertyReadRequest {
    /// Property ID.
    pub pid: u16,
    /// 1-based start index (0 asks for the element count).
    pub start_idx: u16,
    /// Number of elements.
    pub count: u16,
}

/// Parameters of a property write.
#[derive(Debug, Clone, Copy)]
pub struct PropertyWriteRequest<'a> {
    /// Property ID.
    pub pid: u16,
    /// 1-based start index.
    pub start_idx: u16,
    /// The data to write.
    pub data: &'a [u8],
}

/// A property read addressed to an interface object by its 0-based index.
#[derive(Debug, Clone, Copy)]
pub struct FullPropertyReadRequest {
    /// Object index (0-based).
    pub object_idx: u16,
    /// Property ID.
    pub pid: u16,
    /// 1-based start index (0 asks for the element count).
    pub start_idx: u16,
    /// Number of elements.
    pub count: u16,
}

impl FullPropertyReadRequest {
    /// The read without the object index.
    pub fn property_request(&self) -> (r: PropertyReadRequest)
        ensures
            r.pid == self.pid,
            r.start_idx == self.start_idx,
            r.count == self.count,
    {
        PropertyReadRequest { pid: self.pid, start_idx: self.start_idx, count: self.count }
    }

    /// The same read addressed to `object_idx`.
    pub fn with_object_idx(&self, object_idx: u16) -> (r: Self)
        ensures
            r == (FullPropertyReadRequest { object_idx, ..*self }),
    {
        FullPropertyReadRequest { object_idx, pid: self.pid, start_idx: self.start_idx, count: self.count }
    }
}

/// A property write addressed to an interface object by its 0-based index.
#[derive(Debug, Clone, Copy)]
pub struct FullPropertyWriteRequest<'a> {
    /// Object index (0-based).
    pub object_idx: u16,
    /// Property ID.
    pub pid: u16,
    /// Number of elements (from the request header).
    pub count: u16,
    /// 1-based start index.
    pub start_idx: u16,
    /// The data to write.
    pub data: &'a [u8],
}

impl<'a> FullPropertyWriteRequest<'a> {
    /// The write without the object index.
    pub fn property_request(&self) -> (r: PropertyWriteRequest<'a>)
        ensures
            r.pid == self.pid,
            r.start_idx == self.start_idx,
            r.data@ == self.data@,
    {
        PropertyWriteRequest { pid: self.pid, start_idx: self.start_idx, data: self.data }
    }

    /// The same write addressed to `object_idx`.
    pub fn with_object_idx(&self, object_idx: u16) -> (r: Self)
        ensures
            r == (FullPropertyWriteRequest { object_idx, ..*self }),
    {
        FullPropertyWriteRequest {
            object_idx,
            pid: self.pid,
            count: self.count,
            start_idx: self.start_idx,
            data: self.data,
        }
    }
}

/// A function property command or state read addressed to an interface
/// object by its 0-based index; the service data is the function's own.
#[derive(Debug, Clone, Copy)]
pub struct FunctionPropertyRequest<'a> {
    /// Object index (0-based).
    pub object_idx: u16,
    /// Property ID of the function property.
    pub prop_id: u16,
    /// The service data of the request.
    pub service_data: &'a [u8],
}

impl<'a> FunctionPropertyRequest<'a> {
    /// The same request addressed to `object_idx`.
    pub fn with_object_idx(&self, object_idx: u16) -> (r: Self)
        ensures
            r == (FunctionPropertyRequest { object_idx, ..*self }),
    {
        FunctionPropertyRequest { object_idx, prop_id: self.prop_id, service_data: self.service_data }
    }
}

/// Result of a function property command or state read.
#[derive(Clone, Copy)]
pub struct FunctionPropertyResult {
    /// Return code (00h is success).
    pub return_code: u8,
    /// Response data.
    pub data: PropertyBuf<MAX_FUNCTION_PROPERTY_RESPONSE>,
}

impl FunctionPropertyResult {
    /// Success with no data.
    pub fn success() -> (r: Self)
        ensures
            r.return_code == 0x00,
            r.data.contents() == Seq::<u8>::empty(),
    {
        FunctionPropertyResult { return_code: 0x00, data: PropertyBuf::new(&[]) }
    }

    /// Success with response data.
    pub fn success_with_data(data: &[u8]) -> (r: Self)
        requires
            data@.len() <= MAX_FUNCTION_PROPERTY_RESPONSE,
        ensures
            r.return_code == 0x00,
            r.data.contents() == data@,
    {
        FunctionPropertyResult { return_code: 0x00, data: PropertyBuf::new(data) }
    }

    /// The function property is not supported.
    pub fn not_supported() -> (r: Self)
        ensures
            r.return_code == 0x02,
            r.data.contents() == Seq::<u8>::empty(),
    {
        FunctionPropertyResult { return_code: 0x02, data: PropertyBuf::new(&[]) }
    }

    /// Access was denied.
    pub fn access_denied() -> (r: Self)
        ensures
            r.return_code == 0xFC,
            r.data.contents() == Seq::<u8>::empty(),
    {
        FunctionPropertyResult { return_code: 0xFC, data: PropertyBuf::new(&[]) }
    }

    /// The object index is invalid.
    pub fn invalid_object_index() -> (r: Self)
        ensures
            r.return_code == 0x05,
            r.data.contents() == Seq::<u8>::empty(),
    {
        FunctionPropertyResult { return_code: 0x05, data: PropertyBuf::new(&[]) }
    }
}

/// How a property is looked up: by its ID or by a 0-based index.
#[derive(Debug, Clone, Copy, PartialEq, Eq, Structural)]
pub enum PropertyLookup {
    ByPid(u16),
    ByIndex(u16),
}

// ============================================================================
// State property values
// ============================================================================

/// Conversion between the native value of a state property and its
/// big-endian octets on the wire.
pub trait StatePropertyValue {
    /// The native value type.
    type Value;

    /// The octets of `v`.
    spec fn encoded(v: Self::Value) -> Seq<u8>;

    /// The value `data` starts with, or why there is none.
    spec fn decoded(data: Seq<u8>) -> Result<Self::Value, PropertyError>;

    /// The octets of `value`.
    fn to_bytes(value: &Self::Value) -> (r: Vec<u8>)
        ensures
            r@ == Self::encoded(*value),
    ;

    /// The value `data` starts with.
    fn from_bytes(data: &[u8]) -> (r: Result<Self::Value, PropertyError>)
        ensures
            r == Self::decoded(data@),
    ;
}

/// The value of the first `n` octets of `data`, big-endian.
pub open spec fn be_value(data: Seq<u8>, n: nat) -> int
    decreases n,
{
    if n == 0 {
        0
    } else {
        be_value(data, (n - 1) as nat) * 256 + data[n - 1] as int
    }
}

/// One octet, unsigned.
pub struct PdtUnsignedChar;

/// Two octets, unsigned, big-endian.
pub struct PdtUnsignedInt;

/// Four octets, unsigned, big-endian.
pub struct PdtUnsignedLong;

/// Six raw octets (a MAC address, a serial number).
pub struct PdtGeneric06;

/// An IPv4 address carried as four octets, in network order.
pub struct Ipv4Property;

impl StatePropertyValue for PdtUnsignedChar {
    type Value = u8;

    open spec fn encoded(v: u8) -> Seq<u8> {
        seq![v]
    }

    open spec fn decoded(data: Seq<u8>) -> Result<u8, PropertyError> {
        if data.len() < 1 {
            Err(PropertyError::BufferTooSmall)
        } else {
            Ok(data[0])
        }
    }

    fn to_bytes(value: &u8) -> (r: Vec<u8>) {
        let r = vec![*value];
        assert(r@ =~= seq![*value]);
        r
    }

    fn from_bytes(data: &[u8]) -> (r: Result<u8, PropertyError>) {
        if data.len() < 1 {
            return Err(PropertyError::BufferTooSmall);
        }
        Ok(data[0])
    }
}

impl StatePropertyValue for PdtUnsignedInt {
    type Value = u16;

    open spec fn encoded(v: u16) -> Seq<u8> {
        seq![(v / 256) as u8, (v % 256) as u8]
    }

    open spec fn decoded(data: Seq<u8>) -> Result<u16, PropertyError> {
        if data.len() < 2 {
            Err(PropertyError::BufferTooSmall)
        } else {
            Ok(be_value(data, 2) as u16)
        }
    }

    fn to_bytes(value: &u16) -> (r: Vec<u8>) {
        let r = vec![(*value / 256) as u8, (*value % 256) as u8];
        assert(r@ =~= seq![(*value / 256) as u8, (*value % 256) as u8]);
        r
    }

    fn from_bytes(data: &[u8]) -> (r: Result<u16, PropertyError>) {
        if data.len() < 2 {
            return Err(PropertyError::BufferTooSmall);
        }
        proof {
            reveal_with_fuel(be_value, 3);
        }
        Ok((data[0] as u16) * 256 + (data[1] as u16))
    }
}

impl StatePropertyValue for PdtUnsignedLong {
    type Value = u32;

    open spec fn encoded(v: u32) -> Seq<u8> {
        seq![
            (v / 16777216) as u8,
            ((v / 65536) % 256) as u8,
            ((v / 256) % 256) as u8,
            (v % 256) as u8,
        ]
    }

    open spec fn decoded(data: Seq<u8>) -> Result<u32, PropertyError> {
        if data.len() < 4 {
            Err(PropertyError::BufferTooSmall)
        } else {
            Ok(be_value(data, 4) as u32)
        }
    }

    fn to_bytes(value: &u32) -> (r: Vec<u8>) {
        let v = *value;
        let r = vec![
            (v / 16777216) as u8,
            ((v / 65536) % 256) as u8,
            ((v / 256) % 256) as u8,
            (v % 256) as u8,
        ];
        assert(r@ =~= Self::encoded(v));
        r
    }

    fn from_bytes(data: &[u8]) -> (r: Result<u32, PropertyError>) {
        if data.len() < 4 {
            return Err(PropertyError::BufferTooSmall);
        }
        proof {
            reveal_with_fuel(be_value, 5);
        }
        Ok((data[0] as u32) * 16777216 + (data[1] as u32) * 65536 + (data[2] as u32) * 256 + (
        data[3] as u32))
    }
}

impl StatePropertyValue for PdtGeneric06 {
    type Value = [u8; 6];

    open spec fn encoded(v: [u8; 6]) -> Seq<u8> {
        v@
    }

    open spec fn decoded(data: Seq<u8>) -> Result<[u8; 6], PropertyError> {
        if data.len() < 6 {
            Err(PropertyError::BufferTooSmall)
        } else {
            Ok(array6_of(data.take(6)))
        }
    }

    fn to_bytes(value: &[u8; 6]) -> (r: Vec<u8>) {
        let r = vec![value[0], value[1], value[2], value[3], value[4], value[5]];
        assert(r@ =~= value@);
        r
    }

    fn from_bytes(data: &[u8]) -> (r: Result<[u8; 6], PropertyError>) {
        if data.len() < 6 {
            return Err(PropertyError::BufferTooSmall);
        }
        let a = [data[0], data[1], data[2], data[3], data[4], data[5]];
        assert(a@ =~= data@.take(6));
        proof {
            lemma_array6_unique(a, data@.take(6));
        }
        Ok(a)
    }
}

impl StatePropertyValue for Ipv4Property {
    type Value = [u8; 4];

    open spec fn encoded(v: [u8; 4]) -> Seq<u8> {
        v@
    }

    open spec fn decoded(data: Seq<u8>) -> Result<[u8; 4], PropertyError> {
        if data.len() < 4 {
            Err(PropertyError::BufferTooSmall)
        } else {
            Ok(array4_of(data.take(4)))
        }
    }

    fn to_bytes(value: &[u8; 4]) -> (r: Vec<u8>) {
        let r = vec![value[0], value[1], value[2], value[3]];
        assert(r@ =~= value@);
        r
    }

    fn from_bytes(data: &[u8]) -> (r: Result<[u8; 4], PropertyError>) {
        if data.len() < 4 {
            return Err(PropertyError::BufferTooSmall);
        }
        let a = [data[0], data[1], data[2], data[3]];
        assert(a@ =~= data@.take(4));
        proof {
            lemma_array4_unique(a, data@.take(4));
        }
        Ok(a)
    }
}

/// The six-octet array holding `s`.
pub open spec fn array6_of(s: Seq<u8>) -> [u8; 6] {
    choose|b: [u8; 6]| b@ == s
}

/// The four-octet array holding `s`.
pub open spec fn array4_of(s: Seq<u8>) -> [u8; 4] {
    choose|b: [u8; 4]| b@ == s
}

proof fn lemma_array6_unique(a: [u8; 6], s: Seq<u8>)
    requires
        a@ == s,
    ensures
        array6_of(s) == a,
{
    let b = array6_of(s);
    assert(b@ == s);
    assert(a =~= b);
}

proof fn lemma_array4_unique(a: [u8; 4], s: Seq<u8>)
    requires
        a@ == s,
    ensures
        array4_of(s) == a,
{
    let b = array4_of(s);
    assert(b@ == s);
    assert(a =~= b);
}

/// Decoding the octets of a two-octet value gives it back.
pub proof fn lemma_unsigned_int_round_trip(v: u16)
    ensures
        PdtUnsignedInt::decoded(PdtUnsignedInt::encoded(v)) == Ok::<u16, PropertyError>(v),
{
    reveal_with_fuel(be_value, 3);
    let e = PdtUnsignedInt::encoded(v);
    assert(e[0] as int * 256 + e[1] as int == v);
}

/// Decoding the octets of a four-octet value gives it back.
pub proof fn lemma_unsigned_long_round_trip(v: u32)
    ensures
        PdtUnsignedLong::decoded(PdtUnsignedLong::encoded(v)) == Ok::<u32, PropertyError>(v),
{
    reveal_with_fuel(be_value, 5);
    let e = PdtUnsignedLong::encoded(v);
    assert(((e[0] as int * 256 + e[1] as int) * 256 + e[2] as int) * 256 + e[3] as int == v);
}

// ============================================================================
// Interface objects
// ============================================================================

/// The answer to a property description read of an object with
/// descriptors `ds`: by ID when `prop_id` is not 0, else by index.
pub open spec fn description_of(ds: Seq<PropertyDescriptor>, object_idx: u16, prop_id: u16, prop_idx: u16) -> Result<
    PropertyDescriptionResponse,
    PropertyError,
> {
    if prop_id != 0 {
        match first_with_pid(ds, prop_id) {
            Some(i) => Ok(
                PropertyDescriptionResponse { object_idx, prop_idx: i as u16, descriptor: ds[i] },
            ),
            None => Err(PropertyError::InvalidPropertyId),
        }
    } else if (prop_idx as nat) < ds.len() {
        Ok(PropertyDescriptionResponse { object_idx, prop_idx, descriptor: ds[prop_idx as int] })
    } else {
        Err(PropertyError::InvalidPropertyIndex)
    }
}

/// An interface object: a type and a list of properties.
pub trait InterfaceObject {
    /// The descriptors of the properties, in index order.
    spec fn descriptors(&self) -> Seq<PropertyDescriptor>;

    /// The object type identifier.
    fn object_type(&self) -> u16;

    /// The number of properties.
    fn property_count(&self) -> (r: u16)
        ensures
            r as nat == self.descriptors().len(),
    ;

    /// The descriptor of the property at 0-based `prop_idx`.
    fn property_descriptor_by_index(&self, prop_idx: u16) -> (r: Option<PropertyDescriptor>)
        ensures
            r == if (prop_idx as nat) < self.descriptors().len() {
                Some(self.descriptors()[prop_idx as int])
            } else {
                None
            },
    ;

    /// The index and descriptor of property `pid`.
    fn property_descriptor_by_id(&self, pid: u16) -> (r: Option<(u16, PropertyDescriptor)>)
        ensures
            r == match first_with_pid(self.descriptors(), pid) {
                Some(i) => Some((i as u16, self.descriptors()[i])),
                None => None,
            },
    ;

    /// Read a property into `buf`.
    fn read_property(&self, req: PropertyReadRequest, buf: &mut [u8]) -> Result<usize, PropertyError>;

    /// Whether the object can carry out `req`.
    open spec fn accepts_write(&self, req: PropertyWriteRequest) -> bool {
        true
    }

    /// Write a property.
    fn write_property(&mut self, req: PropertyWriteRequest) -> Result<WriteResponse, PropertyError>
        requires
            old(self).accepts_write(req),
    ;

    /// The current element count of a property.
    fn property_element_count(&self, pid: u16) -> Result<u16, PropertyError>;

    /// A property description read: by ID when `prop_id` is not 0, else
    /// by index.
    fn property_description(&self, object_idx: u16, prop_id: u16, prop_idx: u16) -> (r: Result<
        PropertyDescriptionResponse,
        PropertyError,
    >)
        ensures
            r == description_of(self.descriptors(), object_idx, prop_id, prop_idx),
    {
        if prop_id != 0 {
            match self.property_descriptor_by_id(prop_id) {
                Some((idx, desc)) => Ok(PropertyDescriptionResponse::from_descriptor(object_idx, idx, &desc)),
                None => Err(PropertyError::InvalidPropertyId),
            }
        } else {
            match self.property_descriptor_by_index(prop_idx) {
                Some(desc) => Ok(PropertyDescriptionResponse::from_descriptor(object_idx, prop_idx, &desc)),
                None => Err(PropertyError::InvalidPropertyIndex),
            }
        }
    }
}

// ============================================================================
// Interface object containers
// ============================================================================

/// The index of the `instance`-th (counting from 1) object of type `t`
/// among `types`.
pub open spec fn nth_of_type(types: Seq<u16>, t: u16, instance: nat) -> Option<int>
    decreases types.len(),
{
    if instance == 0 || types.len() == 0 {
        None
    } else if types[0] == t && instance == 1 {
        Some(0)
    } else {
        let rest = if types[0] == t {
            (instance - 1) as nat
        } else {
            instance
        };
        match nth_of_type(types.drop_first(), t, rest) {
            Some(i) => Some(i + 1),
            None => None,
        }
    }
}

/// The number of objects of type `t` among `types`.
pub open spec fn type_count(types: Seq<u16>, t: u16) -> nat
    decreases types.len(),
{
    if types.len() == 0 {
        0
    } else {
        (if types[0] == t {
            1nat
        } else {
            0nat
        }) + type_count(types.drop_first(), t)
    }
}

/// In two containers side by side, the `k`-th object of a type is the
/// first container's `k`-th when it holds that many, and otherwise the
/// second's next one, at an index past the first container's objects.
pub proof fn lemma_nth_of_type_side_by_side(a: Seq<u16>, b: Seq<u16>, t: u16, k: nat)
    ensures
        nth_of_type(a + b, t, k) == if k <= type_count(a, t) {
            nth_of_type(a, t, k)
        } else {
            match nth_of_type(b, t, (k - type_count(a, t)) as nat) {
                Some(i) => Some(i + a.len()),
                None => None::<int>,
            }
        },
    decreases a.len(),
{
    if a.len() == 0 {
        assert(a + b =~= b);
        assert(k > 0 ==> nth_of_type(b, t, k) == match nth_of_type(b, t, k) {
            Some(i) => Some(i + 0),
            None => None::<int>,
        });
    } else {
        assert((a + b).drop_first() =~= a.drop_first() + b);
        let rest = if a[0] == t {
            (k - 1) as nat
        } else {
            k
        };
        if k > 0 {
            lemma_nth_of_type_side_by_side(a.drop_first(), b, t, rest);
        }
    }
}

/// The container of a device's interface objects, addressed by a 0-based
/// object index, as the property services reach it.
pub trait PropertyServiceHandler {
    /// The object types of the objects, by index.
    spec fn object_types(&self) -> Seq<u16>;

    /// The objects can be counted in a `u16`.
    open spec fn handler_wf(&self) -> bool {
        self.object_types().len() <= u16::MAX
    }

    /// The number of interface objects.
    fn object_count(&self) -> (r: u16)
        requires
            self.handler_wf(),
        ensures
            r as nat == self.object_types().len(),
    ;

    /// The object type at `object_idx`, if there is an object there.
    fn object_type_at(&self, object_idx: u16) -> (r: Option<u16>)
        requires
            self.handler_wf(),
        ensures
            r == if (object_idx as nat) < self.object_types().len() {
                Some(self.object_types()[object_idx as int])
            } else {
                None
            },
    ;

    /// The index of the `object_instance`-th (counting from 1) object of
    /// type `object_type`; instance 0 names no object.
    fn resolve_object_index(&self, object_type: u16, object_instance: u16) -> (r: Option<u16>)
        requires
            self.handler_wf(),
        ensures
            match nth_of_type(self.object_types(), object_type, object_instance as nat) {
                Some(i) => r == Some(i as u16),
                None => r is None,
            },
    {
        if object_instance == 0 {
            return None;
        }
        let n = self.object_count();
        let ghost types = self.object_types();
        let mut idx: u16 = 0;
        let mut remaining: u16 = object_instance;
        assert(types.subrange(0, types.len() as int) =~= types);
        while idx < n
            invariant
                n as nat == types.len(),
                types == self.object_types(),
                self.handler_wf(),
                idx <= n,
                1 <= remaining <= object_instance,
                nth_of_type(types, object_type, object_instance as nat) == match nth_of_type(
                    types.subrange(idx as int, types.len() as int),
                    object_type,
                    remaining as nat,
                ) {
                    Some(i) => Some(i + idx),
                    None => None::<int>,
                },
            decreases n - idx,
        {
            let ghost sub = types.subrange(idx as int, types.len() as int);
            assert(sub.drop_first() =~= types.subrange(idx + 1, types.len() as int));
            if self.object_type_at(idx) == Some(object_type) {
                if remaining == 1 {
                    return Some(idx);
                }
                remaining = remaining - 1;
            }
            idx = idx + 1;
        }
        None
    }

    /// As `resolve_object_index`, for the extended property services.
    fn resolve_ext_object_index(&self, object_type: u16, object_instance: u16) -> (r: Option<u16>)
        requires
            self.handler_wf(),
        ensures
            match nth_of_type(self.object_types(), object_type, object_instance as nat) {
                Some(i) => r == Some(i as u16),
                None => r is None,
            },
    {
        self.resolve_object_index(object_type, object_instance)
    }

    /// What a description read of the object at `object_idx` may answer.
    spec fn description_outcome(
        &self,
        object_idx: u16,
        prop_id: u16,
        prop_idx: u16,
        r: Result<PropertyDescriptionResponse, PropertyError>,
    ) -> bool;

    /// What a value read may answer and leave in the buffer.
    spec fn value_read_outcome(
        &self,
        req: FullPropertyReadRequest,
        old_buf: Seq<u8>,
        r: Result<usize, PropertyError>,
        new_buf: Seq<u8>,
    ) -> bool;

    /// What a value write may answer.
    spec fn value_write_outcome(
        &self,
        req: FullPropertyWriteRequest<'_>,
        r: Result<WriteResponse, PropertyError>,
    ) -> bool;

    /// A property description read of the object at `object_idx`: by ID
    /// when `prop_id` is not 0, else by index.
    fn property_description_read(&self, object_idx: u16, prop_id: u16, prop_idx: u16) -> (r: Result<
        PropertyDescriptionResponse,
        PropertyError,
    >)
        requires
            self.handler_wf(),
        ensures
            self.description_outcome(object_idx, prop_id, prop_idx, r),
    ;

    /// Read a property of the object at `req.object_idx` into `buf`.
    fn property_value_read(&self, req: &FullPropertyReadRequest, buf: &mut [u8]) -> (r: Result<
        usize,
        PropertyError,
    >)
        requires
            self.handler_wf(),
        ensures
            self.value_read_outcome(*req, old(buf)@, r, final(buf)@),
    ;

    /// Write a property of the object at `req.object_idx`.
    fn property_value_write(&self, req: &FullPropertyWriteRequest) -> (r: Result<WriteResponse, PropertyError>)
        requires
            self.handler_wf(),
        ensures
            self.value_write_outcome(*req, r),
    ;

    /// A function property command; by default not supported.
    fn function_property_command(&self, req: &FunctionPropertyRequest) -> (r: FunctionPropertyResult)
        requires
            self.handler_wf(),
        default_ensures
            r.return_code == 0x02 && r.data.contents() == Seq::<u8>::empty(),
    {
        FunctionPropertyResult::not_supported()
    }

    /// A function property state read; by default not supported.
    fn function_property_state_read(&self, req: &FunctionPropertyRequest) -> (r: FunctionPropertyResult)
        requires
            self.handler_wf(),
        default_ensures
            r.return_code == 0x02 && r.data.contents() == Seq::<u8>::empty(),
    {
        FunctionPropertyResult::not_supported()
    }
}

/// No interface objects: every access names a missing object.
impl PropertyServiceHandler for () {
    open spec fn object_types(&self) -> Seq<u16> {
        Seq::empty()
    }

    open spec fn description_outcome(
        &self,
        object_idx: u16,
        prop_id: u16,
        prop_idx: u16,
        r: Result<PropertyDescriptionResponse, PropertyError>,
    ) -> bool {
        r == Err::<PropertyDescriptionResponse, PropertyError>(PropertyError::InvalidObjectIndex)
    }

    open spec fn value_read_outcome(
        &self,
        req: FullPropertyReadRequest,
        old_buf: Seq<u8>,
        r: Result<usize, PropertyError>,
        new_buf: Seq<u8>,
    ) -> bool {
        r == Err::<usize, PropertyError>(PropertyError::InvalidObjectIndex) && new_buf == old_buf
    }

    open spec fn value_write_outcome(
        &self,
        req: FullPropertyWriteRequest<'_>,
        r: Result<WriteResponse, PropertyError>,
    ) -> bool {
        r == Err::<WriteResponse, PropertyError>(PropertyError::InvalidObjectIndex)
    }

    fn object_count(&self) -> (r: u16) {
        0
    }

    fn object_type_at(&self, object_idx: u16) -> (r: Option<u16>) {
        None
    }

    fn property_description_read(&self, object_idx: u16, prop_id: u16, prop_idx: u16) -> (r: Result<
        PropertyDescriptionResponse,
        PropertyError,
    >)
        ensures
            r == Err::<PropertyDescriptionResponse, PropertyError>(PropertyError::InvalidObjectIndex),
    {
        Err(PropertyError::InvalidObjectIndex)
    }

    fn property_value_read(&self, req: &FullPropertyReadRequest, buf: &mut [u8]) -> (r: Result<
        usize,
        PropertyError,
    >)
        ensures
            r == Err::<usize, PropertyError>(PropertyError::InvalidObjectIndex),
            final(buf)@ == old(buf)@,
    {
        Err(PropertyError::InvalidObjectIndex)
    }

    fn property_value_write(&self, req: &FullPropertyWriteRequest) -> (r: Result<WriteResponse, PropertyError>)
        ensures
            r == Err::<WriteResponse, PropertyError>(PropertyError::InvalidObjectIndex),
    {
        Err(PropertyError::InvalidObjectIndex)
    }

    fn function_property_command(&self, req: &FunctionPropertyRequest) -> (r: FunctionPropertyResult)
        ensures
            r.return_code == 0x05 && r.data.contents() == Seq::<u8>::empty(),
    {
        FunctionPropertyResult::invalid_object_index()
    }

    fn function_property_state_read(&self, req: &FunctionPropertyRequest) -> (r: FunctionPropertyResult)
        ensures
            r.return_code == 0x05 && r.data.contents() == Seq::<u8>::empty(),
    {
        FunctionPropertyResult::invalid_object_index()
    }
}

/// Two containers side by side: the first's objects, then the second's,
/// whose indices are offset by the first's count.
impl<A: PropertyServiceHandler, B: PropertyServiceHandler> PropertyServiceHandler for (A, B) {
    open spec fn object_types(&self) -> Seq<u16> {
        self.0.object_types() + self.1.object_types()
    }

    open spec fn handler_wf(&self) -> bool {
        &&& self.0.handler_wf()
        &&& self.1.handler_wf()
        &&& self.0.object_types().len() + self.1.object_types().len() <= u16::MAX
    }

    /// The first container answers for its own objects; the second for the
    /// rest, addressed by its own index, which its answer gets back as the
    /// index in the pair.
    open spec fn description_outcome(
        &self,
        object_idx: u16,
        prop_id: u16,
        prop_idx: u16,
        r: Result<PropertyDescriptionResponse, PropertyError>,
    ) -> bool {
        let base = self.0.object_types().len();
        if (object_idx as nat) < base {
            self.0.description_outcome(object_idx, prop_id, prop_idx, r)
        } else {
            exists|inner: Result<PropertyDescriptionResponse, PropertyError>|
                #[trigger] self.1.description_outcome(
                    (object_idx - base) as u16,
                    prop_id,
                    prop_idx,
                    inner,
                ) && r == match inner {
                    Ok(response) => Ok(PropertyDescriptionResponse { object_idx, ..response }),
                    Err(e) => Err(e),
                }
        }
    }

    /// The container holding the object reads it, the second one under its
    /// own index.
    open spec fn value_read_outcome(
        &self,
        req: FullPropertyReadRequest,
        old_buf: Seq<u8>,
        r: Result<usize, PropertyError>,
        new_buf: Seq<u8>,
    ) -> bool {
        let base = self.0.object_types().len();
        if (req.object_idx as nat) < base {
            self.0.value_read_outcome(req, old_buf, r, new_buf)
        } else {
            self.1.value_read_outcome(
                FullPropertyReadRequest { object_idx: (req.object_idx - base) as u16, ..req },
                old_buf,
                r,
                new_buf,
            )
        }
    }

    /// The container holding the object takes the write, the second one
    /// under its own index.
    open spec fn value_write_outcome(
        &self,
        req: FullPropertyWriteRequest<'_>,
        r: Result<WriteResponse, PropertyError>,
    ) -> bool {
        let base = self.0.object_types().len();
        if (req.object_idx as nat) < base {
            self.0.value_write_outcome(req, r)
        } else {
            self.1.value_write_outcome(
                FullPropertyWriteRequest { object_idx: (req.object_idx - base) as u16, ..req },
                r,
            )
        }
    }

    fn object_count(&self) -> (r: u16) {
        self.0.object_count() + self.1.object_count()
    }

    fn object_type_at(&self, object_idx: u16) -> (r: Option<u16>) {
        let base = self.0.object_count();
        if object_idx < base {
            self.0.object_type_at(object_idx)
        } else {
            self.1.object_type_at(object_idx - base)
        }
    }

    /// The second container answers with its own index, which is put
    /// back to the index in the pair.
    fn property_description_read(&self, object_idx: u16, prop_id: u16, prop_idx: u16) -> (r: Result<
        PropertyDescriptionResponse,
        PropertyError,
    >) {
        let base = self.0.object_count();
        if object_idx < base {
            self.0.property_description_read(object_idx, prop_id, prop_idx)
        } else {
            match self.1.property_description_read(object_idx - base, prop_id, prop_idx) {
                Ok(response) => Ok(PropertyDescriptionResponse { object_idx, ..response }),
                Err(e) => Err(e),
            }
        }
    }

    fn property_value_read(&self, req: &FullPropertyReadRequest, buf: &mut [u8]) -> (r: Result<
        usize,
        PropertyError,
    >) {
        let base = self.0.object_count();
        if req.object_idx < base {
            self.0.property_value_read(req, buf)
        } else {
            self.1.property_value_read(&req.with_object_idx(req.object_idx - base), buf)
        }
    }

    fn property_value_write(&self, req: &FullPropertyWriteRequest) -> (r: Result<WriteResponse, PropertyError>) {
        let base = self.0.object_count();
        if req.object_idx < base {
            self.0.property_value_write(req)
        } else {
            self.1.property_value_write(&req.with_object_idx(req.object_idx - base))
        }
    }

    fn function_property_command(&self, req: &FunctionPropertyRequest) -> (r: FunctionPropertyResult) {
        let base = self.0.object_count();
        if req.object_idx < base {
            self.0.function_property_command(req)
        } else {
            self.1.function_property_command(&req.with_object_idx(req.object_idx - base))
        }
    }

    fn function_property_state_read(&self, req: &FunctionPropertyRequest) -> (r: FunctionPropertyResult) {
        let base = self.0.object_count();
        if req.object_idx < base {
            self.0.function_property_state_read(req)
        } else {
            self.1.function_property_state_read(&req.with_object_idx(req.object_idx - base))
        }
    }
}

// ============================================================================
// Typed property access
// ============================================================================

/// Something that can be loaded and unloaded through its load state control
/// property.
pub trait LoadableInterfaceObject: InterfaceObject {
    /// The current load state.
    fn load_state(&self) -> LoadState;

    /// Process a load state control command.
    fn process_load_control(&mut self, data: &[u8]) -> Result<(), PropertyError>;
}

/// Access to the interface objects container from inside the stack.
pub trait InterfaceObjectsContext {
    /// The container type.
    type Objects;

    /// The container.
    fn interface_objects(&self) -> &Self::Objects;
}

/// Something with a routing (hop) count.
pub trait HasRoutingCount {
    fn routing_count(&self) -> u8;

    fn set_routing_count(&self, value: u8);
}

/// Something with a maximum retry count octet (busy retries in bits 6..4,
/// NAK retries in bits 2..0).
pub trait HasMaxRetryCount {
    fn max_retry_count(&self) -> u8;

    fn set_max_retry_count(&self, value: u8);
}

/// Something that stores a medium-specific domain address.
pub trait HasDomainAddress {
    /// The domain address length in octets.
    fn domain_address_length() -> usize;

    /// Copy the domain address into `buf`.
    fn domain_address(&self, buf: &mut [u8]);

    /// Set the domain address.
    fn set_domain_address(&self, addr: &[u8]);
}

/// Typed access to a property of type `T`.
pub trait HasProperty<T> {
    fn get(&self) -> &T;

    fn get_mut(&mut self) -> &mut T;
}

} // verus!
