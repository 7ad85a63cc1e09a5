//! Properties of the load and run state machines and of the table lookups
//! that hold for every input.

use vstd::prelude::*;

use super::{
    absolute_alloc_spec, address_at, entry_at, initial_view, relative_alloc_spec, ComObjectFlags,
    ComObjectTableEntry, ComObjectType, McbData, lsm_step, lsm_transition, reported_error, run_action,
    run_transition, strictly_ascending, tsap_lookup, written_run_event, zero_mcb, zeros,
    LoadAction, LoadControlPolicy, LoadEvent, LoadState, RunAction, RunEvent, RunState,
    TableMemory, TableView,
};
use crate::address::GroupAddress;

verus! {

/// Whether the stored error code agrees with the state: outside the error
/// state it is 0.
pub open spec fn error_code_consistent(v: TableView) -> bool {
    v.state != LoadState::Error ==> v.error_code == 0
}

/// A new table's error code agrees with its state.
pub proof fn lemma_initial_consistent(capacity: nat)
    ensures
        error_code_consistent(initial_view(capacity)),
{
}

/// Every write to the load state machine keeps the error code in agreement
/// with the state: it is set on entering the error state and cleared on
/// every transition out of it.
pub proof fn lemma_error_code_mirrors_state<T: TableMemory, P: LoadControlPolicy>(
    pre: TableView,
    buf: Seq<u8>,
    alloc_address: Option<u32>,
)
    requires
        error_code_consistent(pre),
    ensures
        error_code_consistent(lsm_step::<T, P>(pre, buf, alloc_address).0),
{
}

/// Entering the error state records a nonzero error code, which is then
/// reported.
pub proof fn lemma_entering_error_sets_code<T: TableMemory, P: LoadControlPolicy>(
    pre: TableView,
    buf: Seq<u8>,
    alloc_address: Option<u32>,
)
    requires
        pre.state != LoadState::Error,
        lsm_step::<T, P>(pre, buf, alloc_address).0.state == LoadState::Error,
    ensures
        lsm_step::<T, P>(pre, buf, alloc_address).0.error_code != 0,
        reported_error(lsm_step::<T, P>(pre, buf, alloc_address).0) != 0,
{
    if buf.len() > 0 {
        let (next, action) = lsm_transition(LoadEvent::decode(buf[0]), pre.state);
        if action == LoadAction::Alloc {
            P::lemma_refusal_is_a_fault(
                T::capacity(),
                T::accepts_any_segment(),
                pre.bytes,
                pre.mcb,
                pre.table_reference,
                buf.skip(1),
                alloc_address,
            );
        }
    }
}

/// Leaving the error state clears the reported error code.
pub proof fn lemma_leaving_error_clears_code<T: TableMemory, P: LoadControlPolicy>(
    pre: TableView,
    buf: Seq<u8>,
    alloc_address: Option<u32>,
)
    requires
        pre.state == LoadState::Error,
        lsm_step::<T, P>(pre, buf, alloc_address).0.state != LoadState::Error,
    ensures
        reported_error(lsm_step::<T, P>(pre, buf, alloc_address).0) == 0,
        lsm_step::<T, P>(pre, buf, alloc_address).0.error_code == 0,
{
}

/// An empty write changes nothing.
pub proof fn lemma_empty_write_is_noop<T: TableMemory, P: LoadControlPolicy>(
    pre: TableView,
    alloc_address: Option<u32>,
)
    ensures
        lsm_step::<T, P>(pre, seq![], alloc_address) == (pre, LoadAction::NoAction),
{
}

/// The no-operation event and unknown events change nothing.
pub proof fn lemma_noop_and_unknown_events_change_nothing<T: TableMemory, P: LoadControlPolicy>(
    pre: TableView,
    buf: Seq<u8>,
    alloc_address: Option<u32>,
)
    requires
        buf.len() > 0,
        buf[0] == 0 || buf[0] > 4,
    ensures
        lsm_step::<T, P>(pre, buf, alloc_address) == (pre, LoadAction::NoAction),
{
}

/// Unload, from every state, leaves the table Unloaded with a zero control
/// block and reference, its memory cleared as the table type clears it.
pub proof fn lemma_unload_resets<T: TableMemory, P: LoadControlPolicy>(
    pre: TableView,
    buf: Seq<u8>,
    alloc_address: Option<u32>,
)
    requires
        buf.len() > 0,
        buf[0] == LoadEvent::Unload.code(),
    ensures
        ({
            let (post, action) = lsm_step::<T, P>(pre, buf, alloc_address);
            &&& action == LoadAction::Unload
            &&& post.state == LoadState::Unloaded
            &&& post.mcb == zero_mcb()
            &&& post.table_reference == 0
            &&& post.bytes == T::unload_result(pre.bytes)
            &&& reported_error(post) == 0
        }),
{
}

/// A refused allocation record changes nothing, under either policy.
pub proof fn lemma_refused_record_changes_nothing(
    capacity: nat,
    accepts_any: bool,
    bytes: Seq<u8>,
    mcb: McbData,
    table_reference: u32,
    record: Seq<u8>,
    alloc_address: Option<u32>,
)
    ensures
        ({
            let out = relative_alloc_spec(capacity, bytes, mcb, table_reference, record, alloc_address);
            out.result is Err ==> out.bytes == bytes && out.mcb == mcb && out.table_reference
                == table_reference
        }),
        ({
            let out = absolute_alloc_spec(capacity, accepts_any, bytes, mcb, table_reference, record);
            out.result is Err ==> out.bytes == bytes && out.mcb == mcb && out.table_reference
                == table_reference
        }),
{
}

/// A refused allocation record moves the load state machine to the error
/// state, which then reports the refusal's code.
pub proof fn lemma_refused_record_enters_error<T: TableMemory, P: LoadControlPolicy>(
    pre: TableView,
    buf: Seq<u8>,
    alloc_address: Option<u32>,
)
    requires
        buf.len() > 0,
        buf[0] == LoadEvent::AdditionalLoadControls.code(),
        pre.state == LoadState::Loading,
    ensures
        ({
            let out = P::alloc_spec(
                T::capacity(),
                T::accepts_any_segment(),
                pre.bytes,
                pre.mcb,
                pre.table_reference,
                buf.skip(1),
                alloc_address,
            );
            let (post, action) = lsm_step::<T, P>(pre, buf, alloc_address);
            &&& action == LoadAction::Alloc
            &&& post.bytes == out.bytes
            &&& post.mcb == out.mcb
            &&& post.table_reference == out.table_reference
            &&& match out.result {
                Ok(_) => post.state == LoadState::Loading,
                Err(e) => post.state == LoadState::Error && reported_error(post) == e.code(),
            }
        }),
{
}

/// Only an allocation (which may fill) and an Unload (which clears) change
/// the memory of a table; every other write leaves it as it was.
pub proof fn lemma_only_alloc_and_unload_touch_memory<T: TableMemory, P: LoadControlPolicy>(
    pre: TableView,
    buf: Seq<u8>,
    alloc_address: Option<u32>,
)
    ensures
        ({
            let (post, action) = lsm_step::<T, P>(pre, buf, alloc_address);
            action != LoadAction::Alloc && action != LoadAction::Unload ==> post.bytes == pre.bytes
        }),
{
}

/// Completing a load in the loading state ends in Loaded with the checksum
/// of the requested number of loaded octets in the control block; the rest
/// of the block and the memory are unchanged.
pub proof fn lemma_load_completed_records_checksum<T: TableMemory, P: LoadControlPolicy>(
    pre: TableView,
    buf: Seq<u8>,
    alloc_address: Option<u32>,
)
    requires
        buf.len() > 0,
        buf[0] == LoadEvent::LoadCompleted.code(),
        pre.state == LoadState::Loading,
    ensures
        ({
            let (post, action) = lsm_step::<T, P>(pre, buf, alloc_address);
            &&& action == LoadAction::LoadEnd
            &&& post.state == LoadState::Loaded
            &&& post.bytes == pre.bytes
            &&& post.mcb.crc == super::crc::crc16(
                pre.bytes.take(pre.mcb.requested_memory_size as int),
            )
            &&& post.mcb.requested_memory_size == pre.mcb.requested_memory_size
            &&& post.mcb.mode == pre.mcb.mode
            &&& post.mcb.fill == pre.mcb.fill
            &&& post.table_reference == pre.table_reference
        }),
{
}

/// Loading can only start from Unloaded or Loaded, and only a load in
/// progress can be completed.
pub proof fn lemma_loading_paths(event: LoadEvent, cur: LoadState)
    ensures
        lsm_transition(event, cur).0 == LoadState::Loading ==> (cur == LoadState::Loading
            || event == LoadEvent::StartLoading),
        lsm_transition(event, cur).0 == LoadState::Loaded ==> (cur == LoadState::Loaded
            || event == LoadEvent::LoadCompleted),
        lsm_transition(event, cur).1 == LoadAction::LoadEnd ==> cur == LoadState::Loading,
        lsm_transition(event, cur).1 == LoadAction::Alloc ==> cur == LoadState::Loading,
{
}

/// Restart ends in RUNNING from every state when the program is loaded, and
/// in HALTED otherwise; Stop ends in TERMINATED when loaded, HALTED otherwise.
pub proof fn lemma_restart_and_stop(state: RunState, loaded: bool)
    ensures
        run_transition(state, RunEvent::Restart, loaded) == if loaded {
            RunState::Running
        } else {
            RunState::Halted
        },
        run_transition(state, RunEvent::Stop, loaded) == if loaded {
            RunState::Terminated
        } else {
            RunState::Halted
        },
{
}

/// RUNNING is only ever reached while the program is loaded, or by staying
/// there.
pub proof fn lemma_running_needs_loaded(state: RunState, event: RunEvent, loaded: bool)
    ensures
        run_transition(state, event, loaded) == RunState::Running ==> (loaded || state
            == RunState::Running || state == RunState::Ready),
{
}

/// TERMINATED is left only by Restart (while loaded, to RUNNING; otherwise
/// to HALTED) or by Unloaded (to HALTED).
pub proof fn lemma_terminated_is_sticky(event: RunEvent, loaded: bool)
    ensures
        run_transition(RunState::Terminated, event, loaded) != RunState::Terminated ==> (event
            == RunEvent::Restart || event == RunEvent::Unloaded || (event == RunEvent::Stop
            && !loaded)),
{
}

/// The Loaded event (one per downloaded segment) never starts a program
/// that is not running: HALTED only moves on to READY.
pub proof fn lemma_loaded_event_does_not_start(state: RunState, loaded: bool)
    ensures
        run_transition(state, RunEvent::Loaded, loaded) == RunState::Running ==> state
            == RunState::Running,
        state == RunState::Halted ==> run_transition(state, RunEvent::Loaded, loaded)
            == RunState::Ready,
{
}

/// Unloaded halts the program from every state.
pub proof fn lemma_unloaded_halts(state: RunState, loaded: bool)
    ensures
        run_transition(state, RunEvent::Unloaded, loaded) == RunState::Halted,
{
}

/// Only NOP, Restart and Stop can be written to the run control property:
/// any other octet leaves the run state as it is.
pub proof fn lemma_written_events_beyond_stop_are_ignored(state: RunState, b: u8, loaded: bool)
    requires
        b > 2,
    ensures
        run_transition(state, written_run_event(b), loaded) == state,
{
}

/// A transition reports Started exactly when it enters RUNNING or restarts
/// a running program, and Stopped exactly when it leaves RUNNING.
pub proof fn lemma_run_action_marks_the_running_boundary(
    before: RunState,
    after: RunState,
    event: RunEvent,
)
    ensures
        run_action(before, after, event) == Some(RunAction::Started) <==> (after
            == RunState::Running && (before != RunState::Running || event == RunEvent::Restart)),
        run_action(before, after, event) == Some(RunAction::Stopped) <==> (before
            == RunState::Running && after != RunState::Running),
{
}

/// On an ascending address table, looking up the address of a TSAP gives
/// that TSAP back.
pub proof fn lemma_tsap_of_address(s: Seq<GroupAddress>, tsap: u16, r: Option<u16>)
    requires
        strictly_ascending(s),
        address_at(s, tsap) is Some,
        tsap_lookup(s, address_at(s, tsap).unwrap(), r),
    ensures
        r == Some(tsap),
{
    let a = address_at(s, tsap).unwrap();
    assert(s[tsap - 1] == a);
    assert(s.contains(a));
    let i = r.unwrap();
    if i != tsap {
        if i < tsap {
            assert(s[i - 1].raw < s[tsap - 1].raw);
        } else {
            assert(s[tsap - 1].raw < s[i - 1].raw);
        }
    }
}

/// Setting the flags of a listed object gives them back on the next read,
/// and leaves its type and every other object as they were.
pub proof fn lemma_set_flags_round_trip(
    d: Seq<(u8, u8)>,
    base: nat,
    idx: u16,
    bits: u8,
    other: u16,
)
    requires
        base <= idx < base + d.len(),
    ensures
        ({
            let after = d.update(idx - base, (bits, d[idx - base].1));
            &&& entry_at(after, base, idx) == Some(
                ComObjectTableEntry {
                    object_type: ComObjectType::decode(d[idx - base].1),
                    flags: ComObjectFlags { bits },
                },
            )
            &&& other != idx ==> entry_at(after, base, other) == entry_at(d, base, other)
        }),
{
}

/// TSAP 0 never names a group address.
pub proof fn lemma_tsap_zero_is_no_group(s: Seq<GroupAddress>)
    ensures
        address_at(s, 0) is None,
{
}

/// A start-loading event (octet 0x01) begins a new load from every state
/// that is not already loading or in error: an unloaded or a loaded table
/// moves to Loading and reports LoadStart, and the start itself leaves the
/// contents and the control block alone. In Loading and Error the event
/// changes nothing and starts nothing.
pub proof fn lemma_start_loading_begins_a_load<T: TableMemory, P: LoadControlPolicy>(
    pre: TableView,
    buf: Seq<u8>,
    alloc_address: Option<u32>,
)
    requires
        buf.len() > 0,
        buf[0] == 0x01u8,
    ensures
        LoadEvent::decode(buf[0]) == LoadEvent::StartLoading,
        pre.state == LoadState::Unloaded || pre.state == LoadState::Loaded ==> {
            let post = lsm_step::<T, P>(pre, buf, alloc_address);
            &&& post.1 == LoadAction::LoadStart
            &&& post.0.state == LoadState::Loading
            &&& post.0.bytes == pre.bytes
            &&& post.0.mcb == pre.mcb
            &&& reported_error(post.0) == 0
        },
        pre.state == LoadState::Loading || pre.state == LoadState::Error ==> {
            let post = lsm_step::<T, P>(pre, buf, alloc_address);
            &&& post.1 == LoadAction::NoAction
            &&& post.0.state == pre.state
            &&& post.0.bytes == pre.bytes
        },
{
}

/// The load events, in every state: completing a load is only possible
/// while loading and ends it; an allocation record is only taken while
/// loading and is an error once loaded; unloading always unloads; a no-op
/// or unknown event changes nothing.
pub proof fn lemma_load_events(cur: LoadState, other: u8)
    ensures
        lsm_transition(LoadEvent::LoadCompleted, cur) == if cur == LoadState::Loading {
            (LoadState::Loaded, LoadAction::LoadEnd)
        } else {
            (cur, LoadAction::NoAction)
        },
        lsm_transition(LoadEvent::AdditionalLoadControls, cur) == if cur == LoadState::Loading {
            (LoadState::Loading, LoadAction::Alloc)
        } else if cur == LoadState::Loaded {
            (LoadState::Error, LoadAction::NoAction)
        } else {
            (cur, LoadAction::NoAction)
        },
        lsm_transition(LoadEvent::Unload, cur) == (LoadState::Unloaded, LoadAction::Unload),
        lsm_transition(LoadEvent::NoOp, cur) == (cur, LoadAction::NoAction),
        lsm_transition(LoadEvent::Other(other), cur) == (cur, LoadAction::NoAction),
        lsm_transition(LoadEvent::StartLoading, cur) == if cur == LoadState::Unloaded || cur
            == LoadState::Loaded {
            (LoadState::Loading, LoadAction::LoadStart)
        } else {
            (cur, LoadAction::NoAction)
        },
{
}

} // verus!
