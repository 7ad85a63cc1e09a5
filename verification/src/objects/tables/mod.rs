//! Loadable tables: their memory, the load state machine that governs a
//! download, the allocation records it accepts, and the run state machine
//! of an executable program.

pub mod addr7;
pub mod addr8;
pub mod app;
pub mod asso6;
pub mod asso8;
pub mod bytes;
pub mod co7;
pub mod co_system7;
pub mod com_object_type;
pub mod crc;
pub mod flags;
pub mod laws;
pub mod states;

pub use addr7::{AddrTab7, AddrTab7Impl};
pub use addr8::{AddrTab8, AddrTab8Impl};
pub use app::{Application, ApplicationImpl, PeiApplication};
pub use asso6::{AssoTab6, AssoTab6Impl};
pub use asso8::{AssoTab8, AssoTab8Impl};
pub use co7::{CoTab7, CoTab7Alloc, CoTab7Impl, ComObjectDescriptor};
pub use co_system7::{System7ComObjectTable, System7ComObjectTableImpl};
pub use com_object_type::ComObjectType;
pub use flags::{ComObjectFlags, Priority};
pub use states::{LoadEvent, LoadSegment, LoadState, RunEvent, RunState};

use core::marker::PhantomData;
use vstd::prelude::*;

use self::crc::{crc16, crc16_ccitt};
use crate::address::{be16, be16_from, GroupAddress};

verus! {

// ============================================================================
// Byte sequences
// ============================================================================

/// `n` zero octets.
pub open spec fn zeros(n: nat) -> Seq<u8> {
    Seq::new(n, |i: int| 0u8)
}

/// `bytes` with its first `n` octets set to `v`.
pub open spec fn filled(bytes: Seq<u8>, n: int, v: u8) -> Seq<u8> {
    Seq::new(bytes.len(), |i: int| if i < n { v } else { bytes[i] })
}

/// `bytes` with `data` copied in at `offset`; what would fall past the end
/// is dropped.
pub open spec fn spliced(bytes: Seq<u8>, offset: int, data: Seq<u8>) -> Seq<u8> {
    Seq::new(
        bytes.len(),
        |i: int| if offset <= i && i < offset + data.len() { data[i - offset] } else { bytes[i] },
    )
}

/// `out` with the octets of `bytes` from `offset` on copied over it, as far
/// as `bytes` reaches.
pub open spec fn read_into(bytes: Seq<u8>, offset: int, out: Seq<u8>) -> Seq<u8> {
    Seq::new(out.len(), |i: int| if offset + i < bytes.len() { bytes[offset + i] } else { out[i] })
}

/// The big-endian value of four octets.
pub open spec fn be32(b0: u8, b1: u8, b2: u8, b3: u8) -> u32 {
    (b0 as int * 16777216 + b1 as int * 65536 + b2 as int * 256 + b3 as int) as u32
}

fn be32_from(b0: u8, b1: u8, b2: u8, b3: u8) -> (r: u32)
    ensures
        r == be32(b0, b1, b2, b3),
{
    (b0 as u32) * 16777216 + (b1 as u32) * 65536 + (b2 as u32) * 256 + (b3 as u32)
}

// ============================================================================
// Table memory
// ============================================================================

/// The memory of a loadable table: a fixed number of octets.
pub trait TableMemory: Sized {
    /// The octets of the table.
    spec fn bytes(&self) -> Seq<u8>;

    /// The table's capacity in octets.
    spec fn capacity() -> nat;

    /// Whether the capacity is representable on this machine.
    spec fn fits() -> bool;

    /// Whether an absolute-segment allocation of any length is acceptable
    /// (otherwise one is acceptable up to the capacity).
    spec fn accepts_any_segment() -> bool;

    /// Whether reads and writes are clamped to the table (otherwise they
    /// must lie inside it).
    spec fn saturating_access() -> bool;

    /// The octets after an Unload of a table holding `bytes`.
    spec fn unload_result(bytes: Seq<u8>) -> Seq<u8>;

    /// A zeroed table.
    fn new_table() -> (r: Self)
        requires
            Self::fits(),
        ensures
            r.bytes().len() == Self::capacity(),
            r.bytes() == zeros(Self::capacity()),
    ;

    /// The capacity in octets.
    fn max_size() -> (r: usize)
        requires
            Self::fits(),
        ensures
            r == Self::capacity(),
    ;

    /// The octets of the table.
    fn data_ref(&self) -> (r: &[u8])
        ensures
            r@ == self.bytes(),
    ;

    /// Copy `data.len()` octets starting at `offset` out of the table.
    fn read(&self, offset: usize, data: &mut [u8])
        requires
            self.bytes().len() == Self::capacity(),
            if Self::saturating_access() {
                offset + old(data)@.len() <= usize::MAX
            } else {
                offset + old(data)@.len() <= Self::capacity()
            },
        ensures
            final(data)@ == read_into(self.bytes(), offset as int, old(data)@),
    ;

    /// Copy `data` into the table starting at `offset`.
    fn write(&mut self, offset: usize, data: &[u8])
        requires
            old(self).bytes().len() == Self::capacity(),
            if Self::saturating_access() {
                offset + data@.len() <= usize::MAX
            } else {
                offset + data@.len() <= Self::capacity()
            },
        ensures
            final(self).bytes().len() == Self::capacity(),
            final(self).bytes() == spliced(old(self).bytes(), offset as int, data@),
    ;

    /// Whether an absolute-segment allocation of `len` octets is acceptable.
    fn accepts_segment(len: usize) -> (r: bool)
        ensures
            r == (Self::accepts_any_segment() || len <= Self::capacity()),
    ;

    /// Set the first `n` octets to `v`.
    fn fill_prefix(&mut self, n: usize, v: u8)
        requires
            old(self).bytes().len() == Self::capacity(),
            n <= old(self).bytes().len(),
        ensures
            final(self).bytes().len() == Self::capacity(),
            final(self).bytes() == filled(old(self).bytes(), n as int, v),
    ;

    /// Clear the table's payload for an Unload.
    fn clear_on_unload(&mut self)
        requires
            old(self).bytes().len() == Self::capacity(),
        ensures
            final(self).bytes().len() == Self::capacity(),
            final(self).bytes() == Self::unload_result(old(self).bytes()),
    ;
}

/// A table memory holds exactly its capacity.
pub open spec fn table_wf<T: TableMemory>(t: &T) -> bool {
    t.bytes().len() == T::capacity() && T::fits()
}

/// Whether a read or write of `len` octets at `offset` is in order.
pub open spec fn access_ok<T: TableMemory>(offset: int, len: int) -> bool {
    if T::saturating_access() {
        offset + len <= usize::MAX
    } else {
        offset + len <= T::capacity()
    }
}

/// Whether an absolute segment of `len` octets is acceptable.
pub open spec fn segment_accepted<T: TableMemory>(len: nat) -> bool {
    T::accepts_any_segment() || len <= T::capacity()
}

// ============================================================================
// Load state machine types
// ============================================================================

/// Load state machine failure codes (DPT_ErrorClass_System).
#[derive(Debug, Clone, Copy, Eq, PartialEq, Structural)]
pub enum LoadError {
    /// No fault.
    NoFault,
    /// The allocation exceeded the table capacity (13).
    MaxTableLengthExceeded,
    /// Unknown segment type or malformed load command (14).
    UndefinedLoadCommand,
}

impl LoadError {
    pub open spec fn code(self) -> u8 {
        match self {
            LoadError::NoFault => 0,
            LoadError::MaxTableLengthExceeded => 13,
            LoadError::UndefinedLoadCommand => 14,
        }
    }

    /// The error class code.
    pub fn to_byte(self) -> (r: u8)
        ensures
            r == self.code(),
    {
        match self {
            LoadError::NoFault => 0,
            LoadError::MaxTableLengthExceeded => 13,
            LoadError::UndefinedLoadCommand => 14,
        }
    }
}

/// Action produced by a load state machine transition.
#[derive(Debug, Eq, PartialEq, Copy, Clone, Structural)]
pub enum LoadAction {
    NoAction,
    LoadStart,
    LoadEnd,
    Unload,
    Alloc,
}

/// Action produced when a run state machine crosses the running boundary.
#[derive(Debug, Clone, Copy, PartialEq, Eq, Structural)]
pub enum RunAction {
    /// The program transitioned to RUNNING.
    Started,
    /// The program transitioned out of RUNNING.
    Stopped,
}

/// The memory control block: `[requested_memory_size:4][mode:1][fill:1][crc:2]`.
#[derive(Debug, Clone, Copy, PartialEq, Eq, Structural)]
pub struct McbData {
    pub requested_memory_size: u32,
    pub mode: u8,
    pub fill: u8,
    pub crc: u16,
}

/// The control block recorded by an allocation of `size` octets.
pub open spec fn allocated_mcb(size: u32) -> McbData {
    McbData { requested_memory_size: size, mode: 0, fill: 0xFF, crc: 0xFFFF }
}

/// The all-zero control block.
pub open spec fn zero_mcb() -> McbData {
    McbData { requested_memory_size: 0, mode: 0, fill: 0, crc: 0 }
}

/// The eight octets of a control block, big-endian.
pub open spec fn mcb_encode(m: McbData) -> Seq<u8> {
    seq![
        (m.requested_memory_size / 16777216) as u8,
        ((m.requested_memory_size / 65536) % 256) as u8,
        ((m.requested_memory_size / 256) % 256) as u8,
        (m.requested_memory_size % 256) as u8,
        m.mode,
        m.fill,
        (m.crc / 256) as u8,
        (m.crc % 256) as u8,
    ]
}

/// The control block eight octets encode.
pub open spec fn mcb_decode(b: Seq<u8>) -> McbData {
    McbData {
        requested_memory_size: be32(b[0], b[1], b[2], b[3]),
        mode: b[4],
        fill: b[5],
        crc: be16(b[6], b[7]),
    }
}

impl McbData {
    /// The eight octets of the block, big-endian.
    pub fn to_bytes(&self) -> (r: [u8; 8])
        ensures
            r@ == mcb_encode(*self),
    {
        let s = self.requested_memory_size;
        let r = [
            (s / 16777216) as u8,
            ((s / 65536) % 256) as u8,
            ((s / 256) % 256) as u8,
            (s % 256) as u8,
            self.mode,
            self.fill,
            (self.crc / 256) as u8,
            (self.crc % 256) as u8,
        ];
        assert(r@ =~= mcb_encode(*self));
        r
    }

    /// The block eight octets encode.
    pub fn from_bytes(b: &[u8; 8]) -> (r: McbData)
        ensures
            r == mcb_decode(b@),
    {
        McbData {
            requested_memory_size: be32_from(b[0], b[1], b[2], b[3]),
            mode: b[4],
            fill: b[5],
            crc: be16_from(b[6], b[7]),
        }
    }
}

// ============================================================================
// Load-control policies
// ============================================================================

/// What an `AdditionalLoadControls` record does to a table.
pub struct AllocOutcome {
    pub result: Result<(), LoadError>,
    pub bytes: Seq<u8>,
    pub mcb: McbData,
    pub table_reference: u32,
}

/// An outcome that leaves the table as it was.
pub open spec fn alloc_unchanged(
    result: Result<(), LoadError>,
    bytes: Seq<u8>,
    mcb: McbData,
    table_reference: u32,
) -> AllocOutcome {
    AllocOutcome { result, bytes, mcb, table_reference }
}

/// How a table answers the `AdditionalLoadControls` load event.
pub trait LoadControlPolicy {
    /// The outcome of the record `record` (segment type first) on a table of
    /// `capacity` octets holding `bytes`.
    spec fn alloc_spec(
        capacity: nat,
        accepts_any: bool,
        bytes: Seq<u8>,
        mcb: McbData,
        table_reference: u32,
        record: Seq<u8>,
        alloc_address: Option<u32>,
    ) -> AllocOutcome;

    /// A refused record names a fault: its error code is not 0.
    proof fn lemma_refusal_is_a_fault(
        capacity: nat,
        accepts_any: bool,
        bytes: Seq<u8>,
        mcb: McbData,
        table_reference: u32,
        record: Seq<u8>,
        alloc_address: Option<u32>,
    )
        ensures
            Self::alloc_spec(
                capacity,
                accepts_any,
                bytes,
                mcb,
                table_reference,
                record,
                alloc_address,
            ).result matches Err(e) ==> e != LoadError::NoFault,
    ;

    /// Handle the payload that follows the event octet.
    fn handle_alloc<T: TableMemory>(
        table: &mut T,
        mcb_table: &mut McbData,
        table_reference: &mut u32,
        additional_data: &[u8],
        alloc_address: Option<u32>,
    ) -> (r: Result<(), LoadError>)
        requires
            table_wf(old(table)),
        ensures
            table_wf(final(table)),
            (AllocOutcome {
                result: r,
                bytes: final(table).bytes(),
                mcb: *final(mcb_table),
                table_reference: *final(table_reference),
            }) == Self::alloc_spec(
                T::capacity(),
                T::accepts_any_segment(),
                old(table).bytes(),
                *old(mcb_table),
                *old(table_reference),
                additional_data@,
                alloc_address,
            ),
    ;
}

/// Data Relative Allocation (segment type 0Bh): the record is a control
/// block; the device assigns the address itself.
#[derive(Debug, Clone, Copy, PartialEq, Eq, Structural)]
pub struct RelativeAlloc;

/// The outcome of a relative allocation record.
pub open spec fn relative_alloc_spec(
    capacity: nat,
    bytes: Seq<u8>,
    mcb: McbData,
    table_reference: u32,
    record: Seq<u8>,
    alloc_address: Option<u32>,
) -> AllocOutcome {
    if record.len() < 9 || LoadSegment::decode(record[0]) != LoadSegment::RelativeData {
        alloc_unchanged(Err(LoadError::UndefinedLoadCommand), bytes, mcb, table_reference)
    } else {
        let size = be32(record[1], record[2], record[3], record[4]);
        if size > capacity {
            alloc_unchanged(Err(LoadError::MaxTableLengthExceeded), bytes, mcb, table_reference)
        } else {
            AllocOutcome {
                result: Ok(()),
                bytes: if record[5] & 1 != 0 { filled(bytes, size as int, record[6]) } else { bytes },
                mcb: allocated_mcb(size),
                table_reference: match alloc_address {
                    Some(a) => a,
                    None => table_reference,
                },
            }
        }
    }
}

impl LoadControlPolicy for RelativeAlloc {
    open spec fn alloc_spec(
        capacity: nat,
        accepts_any: bool,
        bytes: Seq<u8>,
        mcb: McbData,
        table_reference: u32,
        record: Seq<u8>,
        alloc_address: Option<u32>,
    ) -> AllocOutcome {
        relative_alloc_spec(capacity, bytes, mcb, table_reference, record, alloc_address)
    }

    proof fn lemma_refusal_is_a_fault(
        capacity: nat,
        accepts_any: bool,
        bytes: Seq<u8>,
        mcb: McbData,
        table_reference: u32,
        record: Seq<u8>,
        alloc_address: Option<u32>,
    ) {
    }

    fn handle_alloc<T: TableMemory>(
        table: &mut T,
        mcb_table: &mut McbData,
        table_reference: &mut u32,
        additional_data: &[u8],
        alloc_address: Option<u32>,
    ) -> (r: Result<(), LoadError>) {
        if additional_data.len() < 9 {
            return Err(LoadError::UndefinedLoadCommand);
        }
        match LoadSegment::from_byte(additional_data[0]) {
            LoadSegment::RelativeData => {},
            _ => {
                return Err(LoadError::UndefinedLoadCommand);
            },
        }
        let size = be32_from(additional_data[1], additional_data[2], additional_data[3], additional_data[4]);
        let max = T::max_size();
        if size as usize > max {
            return Err(LoadError::MaxTableLengthExceeded);
        }
        if additional_data[5] & 1 != 0 {
            table.fill_prefix(size as usize, additional_data[6]);
        }
        *mcb_table = McbData { requested_memory_size: size, mode: 0x00, fill: 0xFF, crc: 0xFFFF };
        match alloc_address {
            Some(a) => {
                *table_reference = a;
            },
            None => {},
        }
        Ok(())
    }
}

/// Absolute-segment allocation: `AllocAbsDataSeg` (type 00h) carries
/// `[start_address:2][length:2][access:1][memory type:1][memory attributes:1][reserved:1]`;
/// the start address becomes the table reference. Task and pointer records
/// (01h..05h) are accepted without effect; anything else is refused.
#[derive(Debug, Clone, Copy, PartialEq, Eq, Structural)]
pub struct AbsoluteAlloc;

/// The outcome of an absolute allocation record.
pub open spec fn absolute_alloc_spec(
    capacity: nat,
    accepts_any: bool,
    bytes: Seq<u8>,
    mcb: McbData,
    table_reference: u32,
    record: Seq<u8>,
) -> AllocOutcome {
    if record.len() == 0 {
        alloc_unchanged(Err(LoadError::UndefinedLoadCommand), bytes, mcb, table_reference)
    } else {
        let seg = LoadSegment::decode(record[0]);
        if seg == LoadSegment::AbsoluteData {
            if record.len() < 5 {
                alloc_unchanged(Err(LoadError::UndefinedLoadCommand), bytes, mcb, table_reference)
            } else {
                let start = be16(record[1], record[2]);
                let length = be16(record[3], record[4]);
                if !(accepts_any || length <= capacity) {
                    alloc_unchanged(Err(LoadError::MaxTableLengthExceeded), bytes, mcb, table_reference)
                } else {
                    AllocOutcome {
                        result: Ok(()),
                        bytes,
                        mcb: allocated_mcb(length as u32),
                        table_reference: start as u32,
                    }
                }
            }
        } else if seg == LoadSegment::AbsoluteStack || seg == LoadSegment::AbsoluteTask
            || seg == LoadSegment::AbsolutePointer || seg == LoadSegment::TaskCtrl1
            || seg == LoadSegment::TaskCtrl2 {
            alloc_unchanged(Ok(()), bytes, mcb, table_reference)
        } else {
            alloc_unchanged(Err(LoadError::UndefinedLoadCommand), bytes, mcb, table_reference)
        }
    }
}

impl LoadControlPolicy for AbsoluteAlloc {
    open spec fn alloc_spec(
        capacity: nat,
        accepts_any: bool,
        bytes: Seq<u8>,
        mcb: McbData,
        table_reference: u32,
        record: Seq<u8>,
        alloc_address: Option<u32>,
    ) -> AllocOutcome {
        absolute_alloc_spec(capacity, accepts_any, bytes, mcb, table_reference, record)
    }

    proof fn lemma_refusal_is_a_fault(
        capacity: nat,
        accepts_any: bool,
        bytes: Seq<u8>,
        mcb: McbData,
        table_reference: u32,
        record: Seq<u8>,
        alloc_address: Option<u32>,
    ) {
    }

    fn handle_alloc<T: TableMemory>(
        table: &mut T,
        mcb_table: &mut McbData,
        table_reference: &mut u32,
        additional_data: &[u8],
        alloc_address: Option<u32>,
    ) -> (r: Result<(), LoadError>) {
        if additional_data.len() == 0 {
            return Err(LoadError::UndefinedLoadCommand);
        }
        match LoadSegment::from_byte(additional_data[0]) {
            LoadSegment::AbsoluteData => {
                if additional_data.len() < 5 {
                    return Err(LoadError::UndefinedLoadCommand);
                }
                let start = be16_from(additional_data[1], additional_data[2]);
                let length = be16_from(additional_data[3], additional_data[4]);
                if !T::accepts_segment(length as usize) {
                    return Err(LoadError::MaxTableLengthExceeded);
                }
                *mcb_table = McbData {
                    requested_memory_size: length as u32,
                    mode: 0x00,
                    fill: 0xFF,
                    crc: 0xFFFF,
                };
                *table_reference = start as u32;
                Ok(())
            },
            LoadSegment::AbsoluteStack | LoadSegment::AbsoluteTask | LoadSegment::AbsolutePointer
            | LoadSegment::TaskCtrl1 | LoadSegment::TaskCtrl2 => Ok(()),
            _ => Err(LoadError::UndefinedLoadCommand),
        }
    }
}

// ============================================================================
// Load state machine
// ============================================================================

/// The abstract state of a loadable table.
pub struct TableView {
    pub bytes: Seq<u8>,
    pub state: LoadState,
    pub mcb: McbData,
    pub table_reference: u32,
    pub error_code: u8,
}

/// The transition table of the load state machine: the next state and the
/// action for `event` in state `cur`. Unknown events change nothing.
pub open spec fn lsm_transition(event: LoadEvent, cur: LoadState) -> (LoadState, LoadAction) {
    match event {
        LoadEvent::NoOp => (cur, LoadAction::NoAction),
        LoadEvent::StartLoading => match cur {
            LoadState::Unloaded => (LoadState::Loading, LoadAction::LoadStart),
            LoadState::Loaded => (LoadState::Loading, LoadAction::LoadStart),
            _ => (cur, LoadAction::NoAction),
        },
        LoadEvent::LoadCompleted => match cur {
            LoadState::Loading => (LoadState::Loaded, LoadAction::LoadEnd),
            _ => (cur, LoadAction::NoAction),
        },
        LoadEvent::AdditionalLoadControls => match cur {
            LoadState::Loaded => (LoadState::Error, LoadAction::NoAction),
            LoadState::Loading => (LoadState::Loading, LoadAction::Alloc),
            _ => (cur, LoadAction::NoAction),
        },
        LoadEvent::Unload => (LoadState::Unloaded, LoadAction::Unload),
        LoadEvent::Other(_) => (cur, LoadAction::NoAction),
    }
}

/// The next state and action of the load state machine.
pub fn next_load_state(event: LoadEvent, cur_state: LoadState) -> (r: (LoadState, LoadAction))
    ensures
        r == lsm_transition(event, cur_state),
{
    match event {
        LoadEvent::NoOp => (cur_state, LoadAction::NoAction),
        LoadEvent::StartLoading => match cur_state {
            LoadState::Unloaded => (LoadState::Loading, LoadAction::LoadStart),
            LoadState::Loaded => (LoadState::Loading, LoadAction::LoadStart),
            LoadState::Loading => (LoadState::Loading, LoadAction::NoAction),
            LoadState::Error => (LoadState::Error, LoadAction::NoAction),
        },
        LoadEvent::LoadCompleted => match cur_state {
            LoadState::Unloaded => (LoadState::Unloaded, LoadAction::NoAction),
            LoadState::Loaded => (LoadState::Loaded, LoadAction::NoAction),
            LoadState::Loading => (LoadState::Loaded, LoadAction::LoadEnd),
            LoadState::Error => (LoadState::Error, LoadAction::NoAction),
        },
        LoadEvent::AdditionalLoadControls => match cur_state {
            LoadState::Unloaded => (LoadState::Unloaded, LoadAction::NoAction),
            LoadState::Loaded => (LoadState::Error, LoadAction::NoAction),
            LoadState::Loading => (LoadState::Loading, LoadAction::Alloc),
            LoadState::Error => (LoadState::Error, LoadAction::NoAction),
        },
        LoadEvent::Unload => (LoadState::Unloaded, LoadAction::Unload),
        LoadEvent::Other(_) => (cur_state, LoadAction::NoAction),
    }
}

/// The table after the effect of `action`, and the state it ends in.
pub open spec fn lsm_effect<T: TableMemory, P: LoadControlPolicy>(
    pre: TableView,
    action: LoadAction,
    next: LoadState,
    record: Seq<u8>,
    alloc_address: Option<u32>,
) -> (TableView, LoadState) {
    match action {
        LoadAction::Alloc => {
            let out = P::alloc_spec(
                T::capacity(),
                T::accepts_any_segment(),
                pre.bytes,
                pre.mcb,
                pre.table_reference,
                record,
                alloc_address,
            );
            let post = TableView {
                bytes: out.bytes,
                state: pre.state,
                mcb: out.mcb,
                table_reference: out.table_reference,
                error_code: pre.error_code,
            };
            match out.result {
                Ok(_) => (post, next),
                Err(e) => (TableView { error_code: e.code(), ..post }, LoadState::Error),
            }
        },
        LoadAction::LoadEnd => (
            TableView {
                mcb: McbData {
                    crc: crc16(pre.bytes.take(pre.mcb.requested_memory_size as int)),
                    ..pre.mcb
                },
                ..pre
            },
            next,
        ),
        LoadAction::Unload => (
            TableView {
                bytes: T::unload_result(pre.bytes),
                mcb: zero_mcb(),
                table_reference: 0,
                ..pre
            },
            next,
        ),
        _ => (pre, next),
    }
}

/// One write to the load state machine's control property: the first octet
/// is the event, the rest the record an allocation reads. An empty write
/// changes nothing. The error code is cleared whenever the machine leaves
/// the error state, and set whenever it enters it: a refused allocation
/// records its own code, a load control in the Loaded state records an
/// undefined load command.
pub open spec fn lsm_step<T: TableMemory, P: LoadControlPolicy>(
    pre: TableView,
    buf: Seq<u8>,
    alloc_address: Option<u32>,
) -> (TableView, LoadAction) {
    if buf.len() == 0 {
        (pre, LoadAction::NoAction)
    } else {
        let (next, action) = lsm_transition(LoadEvent::decode(buf[0]), pre.state);
        let (mid, next2) = lsm_effect::<T, P>(pre, action, next, buf.skip(1), alloc_address);
        let code = if pre.state == LoadState::Error && next2 != LoadState::Error {
            0
        } else if pre.state == LoadState::Loaded && next2 == LoadState::Error {
            LoadError::UndefinedLoadCommand.code()
        } else {
            mid.error_code
        };
        (TableView { state: next2, error_code: code, ..mid }, action)
    }
}

/// Whether a write of `buf` can be carried out: completing a load checks
/// the requested size against the table.
pub open spec fn lsm_write_ok(pre: TableView, buf: Seq<u8>) -> bool {
    (buf.len() > 0 && LoadEvent::decode(buf[0]) == LoadEvent::LoadCompleted && pre.state
        == LoadState::Loading) ==> pre.mcb.requested_memory_size <= pre.bytes.len()
}

/// The error code the state machine reports: the stored code while in the
/// error state, 0 otherwise.
pub open spec fn reported_error(v: TableView) -> u8 {
    if v.state == LoadState::Error {
        v.error_code
    } else {
        0
    }
}

/// Something with a load state machine.
pub trait HasLoadStateMachine {
    /// The abstract state of the loadable resource.
    spec fn lsm_view(&self) -> TableView;

    /// The representation invariant.
    spec fn lsm_inv(&self) -> bool;

    /// The state and action after writing `buf` in state `pre`.
    spec fn lsm_next(pre: TableView, buf: Seq<u8>, alloc_address: Option<u32>) -> (
        TableView,
        LoadAction,
    );

    /// Process a load state machine command: the event octet followed by
    /// the record an allocation reads. `alloc_address` is the address a
    /// relative allocation assigns.
    fn write_lsm(&mut self, buf: &[u8], alloc_address: Option<u32>) -> (r: LoadAction)
        requires
            old(self).lsm_inv(),
            lsm_write_ok(old(self).lsm_view(), buf@),
        ensures
            final(self).lsm_inv(),
            (final(self).lsm_view(), r) == Self::lsm_next(old(self).lsm_view(), buf@, alloc_address),
    ;

    /// The current state as one octet.
    fn read_lsm(&self) -> (r: [u8; 1])
        ensures
            r@ == seq![self.lsm_view().state.code()],
    ;

    /// Whether the state is Loaded.
    fn is_loaded(&self) -> (r: bool)
        ensures
            r == (self.lsm_view().state == LoadState::Loaded),
    ;

    /// The eight octets of the memory control block.
    fn mcb_bytes(&self) -> (r: [u8; 8])
        ensures
            r@ == mcb_encode(self.lsm_view().mcb),
    ;

    /// The base address of the table in the management address space.
    fn table_reference(&self) -> (r: u32)
        ensures
            r == self.lsm_view().table_reference,
    ;

    /// The last load error code while in the error state, 0 otherwise.
    fn last_error_code(&self) -> (r: u8)
        ensures
            r == reported_error(self.lsm_view()),
    ;
}

/// A table memory with a load state machine. `P` decides which allocation
/// records the machine accepts.
#[derive(Debug)]
pub struct Table<T: TableMemory, P: LoadControlPolicy = RelativeAlloc> {
    pub(crate) table: T,
    pub(crate) state: LoadState,
    pub(crate) mcb_table: McbData,
    pub(crate) table_reference: u32,
    pub(crate) last_error_code: u8,
    pub(crate) policy: PhantomData<P>,
}

impl<T: TableMemory + Clone, P: LoadControlPolicy> Clone for Table<T, P> {
    fn clone(&self) -> (r: Self) {
        Table {
            table: self.table.clone(),
            state: self.state,
            mcb_table: self.mcb_table,
            table_reference: self.table_reference,
            last_error_code: self.last_error_code,
            policy: PhantomData,
        }
    }
}

impl<T: TableMemory, P: LoadControlPolicy> View for Table<T, P> {
    type V = TableView;

    closed spec fn view(&self) -> TableView {
        TableView {
            bytes: self.table.bytes(),
            state: self.state,
            mcb: self.mcb_table,
            table_reference: self.table_reference,
            error_code: self.last_error_code,
        }
    }
}

/// The state of a new table: zeroed and unloaded.
pub open spec fn initial_view(capacity: nat) -> TableView {
    TableView {
        bytes: zeros(capacity),
        state: LoadState::Unloaded,
        mcb: zero_mcb(),
        table_reference: 0,
        error_code: 0,
    }
}

impl<T: TableMemory, P: LoadControlPolicy> Table<T, P> {
    /// The table holds exactly its capacity.
    pub open spec fn wf(&self) -> bool {
        self@.bytes.len() == T::capacity() && T::fits()
    }

    /// An unloaded, zeroed table.
    pub fn new() -> (r: Self)
        requires
            T::fits(),
        ensures
            r.wf(),
            r@ == initial_view(T::capacity()),
    {
        Table {
            table: T::new_table(),
            state: LoadState::Unloaded,
            mcb_table: McbData { requested_memory_size: 0, mode: 0, fill: 0, crc: 0 },
            table_reference: 0,
            last_error_code: 0,
            policy: PhantomData,
        }
    }

    /// A table preloaded with `data`, bypassing the load state machine: it
    /// is Loaded, and its control block records the size and checksum.
    pub fn with_data(data: &[u8], table_reference: u32) -> (r: Self)
        requires
            T::fits(),
            data@.len() <= T::capacity(),
        ensures
            r.wf(),
            r@ == (TableView {
                bytes: spliced(zeros(T::capacity()), 0, data@),
                state: LoadState::Loaded,
                mcb: McbData {
                    requested_memory_size: data@.len() as u32,
                    mode: 0,
                    fill: 0xFF,
                    crc: crc16(data@),
                },
                table_reference,
                error_code: 0,
            }),
    {
        let mut table = Self::new();
        let n = data.len();
        assert(data@.len() == n);
        table.table.write(0, data);
        table.state = LoadState::Loaded;
        table.table_reference = table_reference;
        table.mcb_table = McbData {
            requested_memory_size: #[verifier::truncate] (n as u32),
            mode: 0x00,
            fill: 0xFF,
            crc: crc16_ccitt(data),
        };
        table
    }

    /// The current load state.
    pub fn load_state(&self) -> (r: LoadState)
        ensures
            r == self@.state,
    {
        self.state
    }

    /// Set the load state directly (restoring persisted state).
    pub fn set_load_state(&mut self, state: LoadState)
        ensures
            final(self)@ == (TableView { state, ..old(self)@ }),
    {
        self.state = state;
    }

    /// Replace the memory control block with the one eight octets encode.
    pub fn set_mcb_bytes(&mut self, bytes: &[u8; 8])
        ensures
            final(self)@ == (TableView { mcb: mcb_decode(bytes@), ..old(self)@ }),
    {
        self.mcb_table = McbData::from_bytes(bytes);
    }

    /// Set the table reference (restoring persisted state).
    pub fn set_table_reference(&mut self, reference: u32)
        ensures
            final(self)@ == (TableView { table_reference: reference, ..old(self)@ }),
    {
        self.table_reference = reference;
    }

    /// The octets of the table.
    pub fn data_ref(&self) -> (r: &[u8])
        ensures
            r@ == self@.bytes,
    {
        self.table.data_ref()
    }

    /// Copy `data.len()` octets starting at `offset` out of the table.
    pub fn read(&self, offset: usize, data: &mut [u8])
        requires
            self.wf(),
            access_ok::<T>(offset as int, old(data)@.len() as int),
        ensures
            final(data)@ == read_into(self@.bytes, offset as int, old(data)@),
    {
        self.table.read(offset, data)
    }

    /// Copy `data` into the table starting at `offset`.
    pub fn write(&mut self, offset: usize, data: &[u8])
        requires
            old(self).wf(),
            access_ok::<T>(offset as int, data@.len() as int),
        ensures
            final(self).wf(),
            final(self)@ == (TableView {
                bytes: spliced(old(self)@.bytes, offset as int, data@),
                ..old(self)@
            }),
    {
        self.table.write(offset, data)
    }

    /// The capacity in octets.
    pub fn max_size() -> (r: usize)
        requires
            T::fits(),
        ensures
            r == T::capacity(),
    {
        T::max_size()
    }
}

impl<T: TableMemory, P: LoadControlPolicy> HasLoadStateMachine for Table<T, P> {
    open spec fn lsm_view(&self) -> TableView {
        self@
    }

    open spec fn lsm_inv(&self) -> bool {
        self.wf()
    }

    open spec fn lsm_next(pre: TableView, buf: Seq<u8>, alloc_address: Option<u32>) -> (
        TableView,
        LoadAction,
    ) {
        lsm_step::<T, P>(pre, buf, alloc_address)
    }

    fn write_lsm(&mut self, buf: &[u8], alloc_address: Option<u32>) -> (r: LoadAction) {
        if buf.len() == 0 {
            return LoadAction::NoAction;
        }
        let ghost pre = self@;
        let event = LoadEvent::from_byte(buf[0]);
        let (next, action) = next_load_state(event, self.state);
        let mut new_state = next;
        match action {
            LoadAction::Alloc => {
                let (_, rest) = buf.split_at(1);
                let result = P::handle_alloc(
                    &mut self.table,
                    &mut self.mcb_table,
                    &mut self.table_reference,
                    rest,
                    alloc_address,
                );
                match result {
                    Ok(_) => {},
                    Err(code) => {
                        new_state = LoadState::Error;
                        self.last_error_code = code.to_byte();
                    },
                }
            },
            LoadAction::LoadEnd => {
                let n = self.mcb_table.requested_memory_size as usize;
                let data = self.table.data_ref();
                let (head, _) = data.split_at(n);
                self.mcb_table.crc = crc16_ccitt(head);
            },
            LoadAction::Unload => {
                self.mcb_table = McbData { requested_memory_size: 0, mode: 0, fill: 0, crc: 0 };
                self.table.clear_on_unload();
                self.table_reference = 0;
            },
            _ => {},
        }
        if self.state == LoadState::Error && new_state != LoadState::Error {
            self.last_error_code = 0;
        } else if self.state == LoadState::Loaded && new_state == LoadState::Error {
            self.last_error_code = LoadError::UndefinedLoadCommand.to_byte();
        }
        self.state = new_state;
        action
    }

    fn read_lsm(&self) -> (r: [u8; 1]) {
        let r = [self.state.to_byte()];
        assert(r@ =~= seq![self@.state.code()]);
        r
    }

    fn is_loaded(&self) -> (r: bool) {
        self.state == LoadState::Loaded
    }

    fn mcb_bytes(&self) -> (r: [u8; 8]) {
        self.mcb_table.to_bytes()
    }

    fn table_reference(&self) -> (r: u32) {
        self.table_reference
    }

    fn last_error_code(&self) -> (r: u8) {
        if self.state == LoadState::Error {
            self.last_error_code
        } else {
            0
        }
    }
}

// ============================================================================
// Run state machine
// ============================================================================

/// The run state machine's transition table. `loaded` is whether the load
/// state machine of the program is Loaded: Restart and Stop only reach
/// RUNNING or TERMINATED then, and answer HALTED otherwise. TERMINATED is
/// left only by Restart (loaded) or Unloaded; unknown events are ignored.
pub open spec fn run_transition(state: RunState, event: RunEvent, loaded: bool) -> RunState {
    match event {
        RunEvent::Ready => state,
        RunEvent::Restart => if loaded {
            RunState::Running
        } else {
            RunState::Halted
        },
        RunEvent::Stop => if loaded {
            RunState::Terminated
        } else {
            RunState::Halted
        },
        RunEvent::Loaded => match state {
            RunState::Halted => RunState::Ready,
            _ => state,
        },
        RunEvent::Unloaded => RunState::Halted,
        RunEvent::ReadyToRun => match state {
            RunState::Ready => RunState::Running,
            _ => state,
        },
        RunEvent::Other(_) => state,
    }
}

/// The action reported for a transition from `before` to `after` by
/// `event`: entering RUNNING is Started, leaving it Stopped, and a Restart
/// of a running program is Started too (it did stop and start again).
pub open spec fn run_action(before: RunState, after: RunState, event: RunEvent) -> Option<
    RunAction,
> {
    let was = before == RunState::Running;
    let now = after == RunState::Running;
    if !was && now {
        Some(RunAction::Started)
    } else if was && !now {
        Some(RunAction::Stopped)
    } else if was && now && event == RunEvent::Restart {
        Some(RunAction::Started)
    } else {
        None
    }
}

/// The event a write of octet `b` to the run control property stands for:
/// only NOP, Restart and Stop can be written; every other octet is an
/// unknown event.
pub open spec fn written_run_event(b: u8) -> RunEvent {
    if b <= 2 {
        RunEvent::decode(b)
    } else {
        RunEvent::Other(b)
    }
}

/// The abstract state of a runnable program.
pub struct RunnableView<T> {
    pub table: T,
    pub run_state: RunState,
}

/// The run state after a reset: the run state is volatile, and a program
/// only runs again once its run events say so.
fn run_state_at_reset() -> (r: RunState)
    ensures
        r == RunState::Halted,
{
    RunState::Halted
}

/// A loadable resource with a run state machine beside its load state
/// machine. The run state is volatile: every instance starts HALTED.
pub struct RunnableApplication<T: HasLoadStateMachine> {
    table: T,
    run_state: RunState,
}

impl<T: HasLoadStateMachine> View for RunnableApplication<T> {
    type V = RunnableView<T>;

    closed spec fn view(&self) -> RunnableView<T> {
        RunnableView { table: self.table, run_state: self.run_state }
    }
}

impl<T: TableMemory, P: LoadControlPolicy> RunnableApplication<Table<T, P>> {
    /// A new program: unloaded, zeroed and halted.
    pub fn new() -> (r: Self)
        requires
            T::fits(),
        ensures
            r@.run_state == RunState::Halted,
            r@.table.wf(),
            r@.table@ == initial_view(T::capacity()),
    {
        RunnableApplication { table: Table::new(), run_state: run_state_at_reset() }
    }

    /// The octets of the program's memory.
    pub fn data_ref(&self) -> (r: &[u8])
        ensures
            r@ == self@.table@.bytes,
    {
        self.table.data_ref()
    }

    /// Copy `data.len()` octets starting at `offset` out of the memory.
    pub fn read(&self, offset: usize, data: &mut [u8])
        requires
            self@.table.wf(),
            access_ok::<T>(offset as int, old(data)@.len() as int),
        ensures
            final(data)@ == read_into(self@.table@.bytes, offset as int, old(data)@),
    {
        self.table.read(offset, data)
    }

    /// Copy `data` into the memory starting at `offset`.
    pub fn write(&mut self, offset: usize, data: &[u8])
        requires
            old(self)@.table.wf(),
            access_ok::<T>(offset as int, data@.len() as int),
        ensures
            final(self)@.table.wf(),
            final(self)@.run_state == old(self)@.run_state,
            final(self)@.table@ == (TableView {
                bytes: spliced(old(self)@.table@.bytes, offset as int, data@),
                ..old(self)@.table@
            }),
    {
        self.table.write(offset, data)
    }
}

impl<T: HasLoadStateMachine> RunnableApplication<T> {
    /// A program around an existing loadable table, HALTED.
    pub fn from_table(table: T) -> (r: Self)
        ensures
            r@.table == table,
            r@.run_state == RunState::Halted,
    {
        RunnableApplication { table, run_state: run_state_at_reset() }
    }

    /// The underlying loadable table.
    pub fn inner(&self) -> (r: &T)
        ensures
            *r == self@.table,
    {
        &self.table
    }

    /// The underlying loadable table, for changing it; the run state stays.
    pub fn inner_mut(&mut self) -> (r: &mut T)
        ensures
            *r == old(self)@.table,
            final(self)@ == (RunnableView { table: *final(r), run_state: old(self)@.run_state }),
    {
        &mut self.table
    }

    /// The run state `event` leads to.
    pub fn next_run_state(&self, event: RunEvent) -> (r: RunState)
        ensures
            r == run_transition(
                self@.run_state,
                event,
                self@.table.lsm_view().state == LoadState::Loaded,
            ),
    {
        let loaded = self.table.is_loaded();
        match event {
            RunEvent::Ready => self.run_state,
            RunEvent::Restart => if loaded {
                RunState::Running
            } else {
                RunState::Halted
            },
            RunEvent::Stop => if loaded {
                RunState::Terminated
            } else {
                RunState::Halted
            },
            RunEvent::Loaded => match self.run_state {
                RunState::Halted => RunState::Ready,
                RunState::Running => RunState::Running,
                RunState::Ready => RunState::Ready,
                RunState::Terminated => RunState::Terminated,
            },
            RunEvent::Unloaded => RunState::Halted,
            RunEvent::ReadyToRun => match self.run_state {
                RunState::Halted => RunState::Halted,
                RunState::Running => RunState::Running,
                RunState::Ready => RunState::Running,
                RunState::Terminated => RunState::Terminated,
            },
            RunEvent::Other(_) => self.run_state,
        }
    }

    fn apply_event(&mut self, event: RunEvent) -> (r: Option<RunAction>)
        ensures
            final(self)@.table == old(self)@.table,
            final(self)@.run_state == run_transition(
                old(self)@.run_state,
                event,
                old(self)@.table.lsm_view().state == LoadState::Loaded,
            ),
            r == run_action(old(self)@.run_state, final(self)@.run_state, event),
    {
        let was_running = self.is_running();
        self.run_state = self.next_run_state(event);
        let now_running = self.is_running();
        if !was_running && now_running {
            Some(RunAction::Started)
        } else if was_running && !now_running {
            Some(RunAction::Stopped)
        } else if was_running && now_running && event == RunEvent::Restart {
            Some(RunAction::Started)
        } else {
            None
        }
    }
}

/// Something with a run state machine beside its load state machine.
pub trait HasRunStateMachine {
    /// The run state.
    spec fn rsm_state(&self) -> RunState;

    /// Whether the program the run state machine governs is loaded.
    spec fn rsm_loaded(&self) -> bool;

    /// The current run state.
    fn run_state(&self) -> (r: RunState)
        ensures
            r == self.rsm_state(),
    ;

    /// Process a write to the run control property: its first octet is the
    /// event, of which only NOP, Restart and Stop are defined; an empty
    /// write changes nothing. The run action reports a crossing of the
    /// RUNNING boundary.
    fn write_rsm(&mut self, data: &[u8]) -> (r: Option<RunAction>)
        ensures
            data@.len() == 0 ==> final(self).rsm_state() == old(self).rsm_state() && r is None,
            data@.len() > 0 ==> {
                let event = written_run_event(data@[0]);
                &&& final(self).rsm_state() == run_transition(
                    old(self).rsm_state(),
                    event,
                    old(self).rsm_loaded(),
                )
                &&& r == run_action(old(self).rsm_state(), final(self).rsm_state(), event)
            },
    ;

    /// Handle a run event raised inside the device.
    fn handle_run_event(&mut self, event: RunEvent) -> (r: Option<RunAction>)
        ensures
            final(self).rsm_state() == run_transition(old(self).rsm_state(), event, old(self).rsm_loaded()),
            r == run_action(old(self).rsm_state(), final(self).rsm_state(), event),
    ;

    /// The current run state as one octet.
    fn read_rsm(&self) -> (r: [u8; 1])
        ensures
            r@ == seq![self.rsm_state().code()],
    {
        let r = [self.run_state().to_byte()];
        assert(r@ =~= seq![self.rsm_state().code()]);
        r
    }

    /// Whether the program is RUNNING.
    fn is_running(&self) -> (r: bool)
        ensures
            r == (self.rsm_state() == RunState::Running),
    {
        self.run_state() == RunState::Running
    }
}

impl<T: HasLoadStateMachine> HasRunStateMachine for RunnableApplication<T> {
    open spec fn rsm_state(&self) -> RunState {
        self@.run_state
    }

    open spec fn rsm_loaded(&self) -> bool {
        self@.table.lsm_view().state == LoadState::Loaded
    }

    fn run_state(&self) -> (r: RunState) {
        self.run_state
    }

    /// Process a write to the run control property: its first octet is the
    /// event, of which only NOP, Restart and Stop are defined. An empty
    /// write changes nothing.
    fn write_rsm(&mut self, data: &[u8]) -> (r: Option<RunAction>)
        ensures
            final(self)@.table == old(self)@.table,
            data@.len() == 0 ==> final(self)@ == old(self)@ && r is None,
            data@.len() > 0 ==> {
                let event = written_run_event(data@[0]);
                &&& final(self)@.run_state == run_transition(
                    old(self)@.run_state,
                    event,
                    old(self)@.table.lsm_view().state == LoadState::Loaded,
                )
                &&& r == run_action(old(self)@.run_state, final(self)@.run_state, event)
            },
    {
        if data.len() == 0 {
            return None;
        }
        let b = data[0];
        let event = if b <= 2 {
            RunEvent::from_byte(b)
        } else {
            RunEvent::Other(b)
        };
        self.apply_event(event)
    }

    /// Handle a run event raised inside the device (Loaded, Unloaded,
    /// ReadyToRun, or any other).
    fn handle_run_event(&mut self, event: RunEvent) -> (r: Option<RunAction>)
        ensures
            final(self)@.table == old(self)@.table,
            final(self)@.run_state == run_transition(
                old(self)@.run_state,
                event,
                old(self)@.table.lsm_view().state == LoadState::Loaded,
            ),
            r == run_action(old(self)@.run_state, final(self)@.run_state, event),
    {
        self.apply_event(event)
    }
}

/// The run event a load action raises: a completed load is Loaded, an
/// Unload is Unloaded.
pub open spec fn cascaded_event(action: LoadAction) -> Option<RunEvent> {
    match action {
        LoadAction::LoadEnd => Some(RunEvent::Loaded),
        LoadAction::Unload => Some(RunEvent::Unloaded),
        _ => None,
    }
}

impl<T: HasLoadStateMachine> RunnableApplication<T> {
    /// A write to the program object's load state control property: the
    /// load state machine processes `data`, a completed load or an Unload
    /// is passed on to the run state machine, and the answer is the new load
    /// state octet with the run action to report, if any.
    pub fn write_load_state_control(&mut self, data: &[u8], alloc_address: u32) -> (r: (
        u8,
        Option<RunAction>,
    ))
        requires
            old(self)@.table.lsm_inv(),
            lsm_write_ok(old(self)@.table.lsm_view(), data@),
        ensures
            ({
                let (t, action) = T::lsm_next(
                    old(self)@.table.lsm_view(),
                    data@,
                    Some(alloc_address),
                );
                &&& final(self)@.table.lsm_inv()
                &&& final(self)@.table.lsm_view() == t
                &&& r.0 == t.state.code()
                &&& match cascaded_event(action) {
                    Some(e) => {
                        &&& final(self)@.run_state == run_transition(
                            old(self)@.run_state,
                            e,
                            t.state == LoadState::Loaded,
                        )
                        &&& r.1 == run_action(old(self)@.run_state, final(self)@.run_state, e)
                    },
                    None => final(self)@.run_state == old(self)@.run_state && r.1 is None,
                }
            }),
    {
        let action = self.table.write_lsm(data, Some(alloc_address));
        let run_action = match action {
            LoadAction::LoadEnd => self.apply_event(RunEvent::Loaded),
            LoadAction::Unload => self.apply_event(RunEvent::Unloaded),
            _ => None,
        };
        let state = self.table.read_lsm();
        (state[0], run_action)
    }

    /// A write to the program object's run state control property: the run
    /// state machine processes `data`, and the answer is the new run state
    /// octet with the run action to report, if any.
    pub fn write_run_state_control(&mut self, data: &[u8]) -> (r: (u8, Option<RunAction>))
        ensures
            final(self)@.table == old(self)@.table,
            r.0 == final(self)@.run_state.code(),
            data@.len() == 0 ==> final(self)@ == old(self)@ && r.1 is None,
            data@.len() > 0 ==> {
                let event = written_run_event(data@[0]);
                &&& final(self)@.run_state == run_transition(
                    old(self)@.run_state,
                    event,
                    old(self)@.table.lsm_view().state == LoadState::Loaded,
                )
                &&& r.1 == run_action(old(self)@.run_state, final(self)@.run_state, event)
            },
    {
        let run_action = self.write_rsm(data);
        let state = self.read_rsm();
        (state[0], run_action)
    }
}

impl<T: HasLoadStateMachine> HasLoadStateMachine for RunnableApplication<T> {
    open spec fn lsm_view(&self) -> TableView {
        self@.table.lsm_view()
    }

    open spec fn lsm_inv(&self) -> bool {
        self@.table.lsm_inv()
    }

    open spec fn lsm_next(pre: TableView, buf: Seq<u8>, alloc_address: Option<u32>) -> (
        TableView,
        LoadAction,
    ) {
        T::lsm_next(pre, buf, alloc_address)
    }

    /// Delegates to the table; the run state is left alone (the caller
    /// raises the run events a load implies).
    fn write_lsm(&mut self, buf: &[u8], alloc_address: Option<u32>) -> (r: LoadAction)
        ensures
            final(self)@.run_state == old(self)@.run_state,
    {
        self.table.write_lsm(buf, alloc_address)
    }

    fn read_lsm(&self) -> (r: [u8; 1]) {
        self.table.read_lsm()
    }

    fn is_loaded(&self) -> (r: bool) {
        self.table.is_loaded()
    }

    fn mcb_bytes(&self) -> (r: [u8; 8]) {
        self.table.mcb_bytes()
    }

    fn table_reference(&self) -> (r: u32) {
        self.table.table_reference()
    }

    fn last_error_code(&self) -> (r: u8) {
        self.table.last_error_code()
    }
}

// ============================================================================
// Group address tables
// ============================================================================

/// Whether the addresses ascend strictly.
pub open spec fn strictly_ascending(s: Seq<GroupAddress>) -> bool {
    forall|i: int, j: int| 0 <= i < j < s.len() ==> s[i].raw < s[j].raw
}

/// The address of `tsap` (1-based) among `s`.
pub open spec fn address_at(s: Seq<GroupAddress>, tsap: u16) -> Option<GroupAddress> {
    if 1 <= tsap && tsap <= s.len() {
        Some(s[tsap - 1])
    } else {
        None
    }
}

/// What a lookup of `a` among `s` may answer: a found TSAP holds `a`; on an
/// ascending table (the format the tables are loaded in) `a` is found
/// exactly when it is present.
pub open spec fn tsap_lookup(s: Seq<GroupAddress>, a: GroupAddress, r: Option<u16>) -> bool {
    &&& (r matches Some(i) ==> 1 <= i && i <= s.len() && s[i - 1] == a)
    &&& (strictly_ascending(s) ==> (r is None <==> !s.contains(a)))
}

/// A group address table: TSAP `i` (from 1) names the `i`-th loaded address.
pub trait AddressTable: HasLoadStateMachine {
    /// The loaded addresses, TSAP 1 first.
    spec fn addresses(&self) -> Seq<GroupAddress>;

    /// The number of addresses the table can hold.
    spec fn entry_limit() -> nat;

    fn max_entries(&self) -> (r: usize)
        requires
            self.lsm_inv(),
        ensures
            r == Self::entry_limit(),
    ;

    /// The number of loaded addresses (the stored count, clamped to the
    /// capacity).
    fn entry_count(&self) -> (r: u16)
        requires
            self.lsm_inv(),
        ensures
            r == self.addresses().len(),
            r <= Self::entry_limit(),
    ;

    /// The address of `tsap`.
    fn address(&self, tsap: u16) -> (r: Option<GroupAddress>)
        requires
            self.lsm_inv(),
        ensures
            r == address_at(self.addresses(), tsap),
    ;

    /// The TSAP of `address`, by binary search.
    fn tsap(&self, address: GroupAddress) -> (r: Option<u16>)
        requires
            self.lsm_inv(),
        ensures
            tsap_lookup(self.addresses(), address, r),
    ;

    /// Whether the binary search finds `address`.
    fn contains(&self, address: GroupAddress) -> (r: bool)
        requires
            self.lsm_inv(),
        ensures
            r ==> self.addresses().contains(address),
            strictly_ascending(self.addresses()) ==> (r <==> self.addresses().contains(address)),
    ;
}

// ============================================================================
// Group object association tables
// ============================================================================

/// The TSAPs associated with `asap` among `assocs` (pairs `(tsap, asap)`),
/// in table order.
pub open spec fn tsaps_of(assocs: Seq<(u16, u16)>, asap: u16) -> Seq<u16>
    decreases assocs.len(),
{
    if assocs.len() == 0 {
        seq![]
    } else {
        let rest = tsaps_of(assocs.drop_last(), asap);
        if assocs.last().1 == asap {
            rest.push(assocs.last().0)
        } else {
            rest
        }
    }
}

/// The ASAPs associated with `tsap` among `assocs`, in table order.
pub open spec fn asaps_of(assocs: Seq<(u16, u16)>, tsap: u16) -> Seq<u16>
    decreases assocs.len(),
{
    if assocs.len() == 0 {
        seq![]
    } else {
        let rest = asaps_of(assocs.drop_last(), tsap);
        if assocs.last().0 == tsap {
            rest.push(assocs.last().1)
        } else {
            rest
        }
    }
}

/// What the sending TSAP of `asap` is: with `identity` (an empty table
/// standing for the identity association) `asap` itself; otherwise the TSAP
/// of the first association naming `asap`, if any.
pub open spec fn sending_lookup(
    assocs: Seq<(u16, u16)>,
    identity: bool,
    asap: u16,
    r: Option<u16>,
) -> bool {
    if identity {
        r == Some(asap)
    } else {
        match r {
            Some(t) => exists|j: int|
                0 <= j < assocs.len() && assocs[j] == (t, asap) && forall|k: int|
                    0 <= k < j ==> (#[trigger] assocs[k]).1 != asap,
            None => forall|j: int| 0 <= j < assocs.len() ==> (#[trigger] assocs[j]).1 != asap,
        }
    }
}

/// A group object association table: pairs of a TSAP (a group address) and
/// an ASAP (a communication object).
pub trait AssociationTable: HasLoadStateMachine {
    /// The associations `(tsap, asap)` held, in table order: the first
    /// `stored_count()` entries, as far as the table reaches.
    spec fn associations(&self) -> Seq<(u16, u16)>;

    /// The count the table reports.
    spec fn stored_count(&self) -> nat;

    /// The number of associations the table can hold.
    spec fn entry_limit() -> nat;

    /// Whether an empty table stands for the identity association.
    spec fn identity_when_empty() -> bool;

    fn max_entries(&self) -> (r: usize)
        requires
            self.lsm_inv(),
        ensures
            r == Self::entry_limit(),
    ;

    fn entry_count(&self) -> (r: u16)
        requires
            self.lsm_inv(),
        ensures
            r == self.stored_count(),
            self.associations().len() == if r <= Self::entry_limit() {
                r as nat
            } else {
                Self::entry_limit()
            },
    ;

    /// Whether the table holds no association.
    fn is_empty(&self) -> (r: bool)
        requires
            self.lsm_inv(),
        ensures
            r == (self.stored_count() == 0),
    ;

    /// The TSAP a telegram from `asap` is sent on.
    fn sending_tsap(&self, asap: u16) -> (r: Option<u16>)
        requires
            self.lsm_inv(),
            self.stored_count() <= Self::entry_limit() || exists|j: int|
                0 <= j < self.associations().len() && (#[trigger] self.associations()[j]).1
                    == asap,
        ensures
            sending_lookup(
                self.associations(),
                Self::identity_when_empty() && self.stored_count() == 0,
                asap,
                r,
            ),
    ;

    /// All TSAPs associated with `asap`, in table order.
    fn tsaps_for_asap(&self, asap: u16) -> (r: Vec<u16>)
        requires
            self.lsm_inv(),
            self.stored_count() <= Self::entry_limit(),
        ensures
            r@ == if Self::identity_when_empty() && self.stored_count() == 0 {
                seq![asap]
            } else {
                tsaps_of(self.associations(), asap)
            },
    ;

    /// All ASAPs associated with `tsap`, in table order.
    fn asaps_for_tsap(&self, tsap: u16) -> (r: Vec<u16>)
        requires
            self.lsm_inv(),
            self.stored_count() <= Self::entry_limit(),
        ensures
            r@ == if Self::identity_when_empty() && self.stored_count() == 0 {
                seq![tsap]
            } else {
                asaps_of(self.associations(), tsap)
            },
    ;
}

// ============================================================================
// Group object tables
// ============================================================================

/// Type and configuration flags of one communication object.
#[derive(Debug, Clone, Copy, PartialEq, Eq, Structural)]
pub struct ComObjectTableEntry {
    pub object_type: ComObjectType,
    pub flags: ComObjectFlags,
}

/// The entry a descriptor `(config, type)` stands for.
pub open spec fn entry_of(d: (u8, u8)) -> ComObjectTableEntry {
    ComObjectTableEntry { object_type: ComObjectType::decode(d.1), flags: ComObjectFlags { bits: d.0 } }
}

/// The entry of object `idx` among descriptors numbered from `base`.
pub open spec fn entry_at(d: Seq<(u8, u8)>, base: nat, idx: u16) -> Option<ComObjectTableEntry> {
    if base <= idx && idx < base + d.len() {
        Some(entry_of(d[idx - base]))
    } else {
        None
    }
}

/// A group object table: a descriptor (configuration octet, type octet)
/// per communication object.
pub trait CommunicationObjectTable: HasLoadStateMachine {
    /// The descriptors `(config, type)` of the listed objects, in order.
    spec fn descriptors(&self) -> Seq<(u8, u8)>;

    /// The number of the first object (0 or 1).
    spec fn first_index() -> nat;

    /// The number of objects the table can hold.
    spec fn entry_limit() -> nat;

    /// Where the configuration octet of object `idx` lies.
    spec fn config_offset(idx: u16) -> int;

    fn max_entries(&self) -> (r: usize)
        requires
            self.lsm_inv(),
        ensures
            r == Self::entry_limit(),
    ;

    /// The number of listed objects (the stored count, clamped to the
    /// capacity).
    fn entry_count(&self) -> (r: u16)
        requires
            self.lsm_inv(),
        ensures
            r == self.descriptors().len(),
            r <= Self::entry_limit(),
    ;

    /// Type and flags of object `idx`, if listed.
    fn object(&self, idx: u16) -> (r: Option<ComObjectTableEntry>)
        requires
            self.lsm_inv(),
        ensures
            r == entry_at(self.descriptors(), Self::first_index(), idx),
    ;

    /// The type of object `idx`, if listed.
    fn object_type(&self, idx: u16) -> (r: Option<ComObjectType>)
        requires
            self.lsm_inv(),
        ensures
            r == match entry_at(self.descriptors(), Self::first_index(), idx) {
                Some(e) => Some(e.object_type),
                None => None,
            },
    ;

    /// The configuration flags of object `idx`, if listed.
    fn object_flags(&self, idx: u16) -> (r: Option<ComObjectFlags>)
        requires
            self.lsm_inv(),
        ensures
            r == match entry_at(self.descriptors(), Self::first_index(), idx) {
                Some(e) => Some(e.flags),
                None => None,
            },
    ;

    /// Whether object `idx` is listed with its read-on-init flag set.
    fn read_on_init(&self, idx: u16) -> (r: bool)
        requires
            self.lsm_inv(),
        ensures
            r == match entry_at(self.descriptors(), Self::first_index(), idx) {
                Some(e) => e.flags.bits & 0x20 != 0,
                None => false,
            },
    ;

    /// Replace the configuration flags of object `idx`; false (and no
    /// change) if it is not listed. Its type octet is left alone.
    fn set_object_flags(&mut self, idx: u16, flags: ComObjectFlags) -> (r: bool)
        requires
            old(self).lsm_inv(),
        ensures
            final(self).lsm_inv(),
            r == (Self::first_index() <= idx && idx < Self::first_index()
                + old(self).descriptors().len()),
            r ==> final(self).lsm_view() == (TableView {
                bytes: old(self).lsm_view().bytes.update(Self::config_offset(idx), flags.bits),
                ..old(self).lsm_view()
            }),
            r ==> final(self).descriptors() == old(self).descriptors().update(
                idx - Self::first_index(),
                (flags.bits, old(self).descriptors()[idx - Self::first_index()].1),
            ),
            !r ==> final(self).lsm_view() == old(self).lsm_view(),
    ;
}

} // verus!
