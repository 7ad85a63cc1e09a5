//! The decisions of the secure application layer: on a received frame,
//! which frames pass unchanged, which are dropped and with which security
//! failure, which key verifies a secure data frame, and what a verified
//! frame is delivered with; on synchronisation, which requests are
//! answered and with which sequence numbers, what a response does to the
//! counters, and what a request the device starts holds; on sending, which
//! key secures a spontaneous frame. The cryptography (MAC checks,
//! encryption) happens between the steps; its outcomes are handed in.

use vstd::prelude::*;

use crate::security::{
    SeqVerdict, SequenceNumberStorage, SequenceStateError, load_receiving_sequence,
    persist_incoming_sequence, persist_outcome, save_receiving_sequence, sender_key, seq6_octets,
    seq6_to_u64, seq6_value, u64_to_seq6,
};

verus! {

/// The transport services a frame reaches the secure application layer
/// with.
#[derive(Debug, Clone, Copy, PartialEq, Eq, Structural)]
pub enum RxService {
    ConnectInd,
    DisconnectInd,
    GroupDataInd,
    BroadcastInd,
    SystemBroadcastInd,
    DataInd,
    DataUnackInd,
    DataCon,
    DataUnackCon,
    GroupDataCon,
    BroadcastCon,
    SystemBroadcastCon,
}

/// Whether `s` is a confirmation (the echo of an own frame).
pub open spec fn is_confirmation(s: RxService) -> bool {
    s == RxService::DataCon || s == RxService::DataUnackCon || s == RxService::GroupDataCon || s
        == RxService::BroadcastCon || s == RxService::SystemBroadcastCon
}

/// The secure service a security control field names.
#[derive(Debug, Clone, Copy, PartialEq, Eq, Structural)]
pub enum SecureService {
    Data,
    SyncRequest,
    SyncResponse,
}

/// A valid security control field.
#[derive(Debug, Clone, Copy, PartialEq, Eq, Structural)]
pub struct Scf {
    pub service: SecureService,
    pub tool_access: bool,
    pub confidentiality: bool,
}

/// The kinds of failure the security failures log counts.
#[derive(Debug, Clone, Copy, PartialEq, Eq, Structural)]
pub enum SecurityFailure {
    CryptoError,
    ScfError,
    SeqNrError,
    RoleError,
}

/// What the receive path reads of an incoming frame.
#[derive(Debug, Clone, Copy)]
pub struct SecureRxFrame {
    pub service: RxService,
    /// Whether the APDU is a secure service.
    pub secure: bool,
    /// For a plain group frame: whether the group objects behind its TSAP
    /// accept plain frames.
    pub plain_group_allowed: bool,
    /// Whether the frame is long enough to hold a secure header.
    pub header_ok: bool,
    /// The security control field; `None` when it is not a valid one.
    pub scf: Option<Scf>,
    pub seq_nr: [u8; 6],
    /// Whether the frame is group addressed.
    pub group_addressed: bool,
    pub src: u16,
}

/// What the receive path reads of the device's security state for one
/// frame.
#[derive(Debug, Clone, Copy)]
pub struct SecurityView {
    /// Whether the security tables are loaded.
    pub tables_loaded: bool,
    pub tool_key: [u8; 16],
    /// The factory default setup key, used while no tool key is set.
    pub fdsk: [u8; 16],
    /// The sender's row in the security individual address table.
    pub sender_ia_index: Option<u16>,
    /// The group key for the frame's TSAP.
    pub group_key: Option<[u8; 16]>,
    /// The P2P key and roles at the sender's row.
    pub p2p_key: Option<([u8; 16], u16)>,
}

/// The first step on a received frame.
#[derive(Debug, Clone, Copy, PartialEq, Eq)]
pub enum SecureRxPlan {
    /// Not secure data: pass the frame on unchanged.
    Forward,
    /// Drop the frame, logging the failure if there is one.
    Drop(Option<SecurityFailure>),
    /// A synchronisation request, for its own handler.
    SyncRequest,
    /// A synchronisation response, for its own handler.
    SyncResponse,
    /// Verify the MAC (and decrypt) with `key`; `roles` are the sender's
    /// P2P roles.
    Verify { key: [u8; 16], roles: u16 },
}

/// The key of tool access: the tool key, or the factory key while the tool
/// key is all zero.
pub open spec fn tool_key_of(sec: SecurityView) -> [u8; 16] {
    if sec.tool_key@ == Seq::new(16, |i: int| 0u8) {
        sec.fdsk
    } else {
        sec.tool_key
    }
}

/// The first step on `frame`.
pub open spec fn secure_rx_plan_spec(frame: SecureRxFrame, sec: SecurityView) -> SecureRxPlan {
    if frame.service == RxService::ConnectInd || frame.service == RxService::DisconnectInd {
        SecureRxPlan::Forward
    } else if !frame.secure {
        if frame.service == RxService::GroupDataInd && !frame.plain_group_allowed {
            SecureRxPlan::Drop(Some(SecurityFailure::CryptoError))
        } else {
            SecureRxPlan::Forward
        }
    } else if is_confirmation(frame.service) {
        SecureRxPlan::Forward
    } else if !frame.header_ok {
        SecureRxPlan::Drop(None)
    } else {
        match frame.scf {
            None => SecureRxPlan::Drop(Some(SecurityFailure::ScfError)),
            Some(scf) => if scf.service == SecureService::SyncRequest {
                SecureRxPlan::SyncRequest
            } else if scf.service == SecureService::SyncResponse {
                SecureRxPlan::SyncResponse
            } else if frame.seq_nr@ == Seq::new(6, |i: int| 0u8) {
                SecureRxPlan::Drop(Some(SecurityFailure::SeqNrError))
            } else if !scf.tool_access && !sec.tables_loaded {
                SecureRxPlan::Drop(None)
            } else if scf.tool_access && frame.service == RxService::GroupDataInd {
                SecureRxPlan::Drop(Some(SecurityFailure::CryptoError))
            } else if !scf.tool_access && sec.sender_ia_index is None {
                SecureRxPlan::Drop(None)
            } else if scf.tool_access {
                SecureRxPlan::Verify { key: tool_key_of(sec), roles: 0 }
            } else if frame.group_addressed {
                match sec.group_key {
                    Some(k) => SecureRxPlan::Verify { key: k, roles: 0 },
                    None => SecureRxPlan::Drop(Some(SecurityFailure::CryptoError)),
                }
            } else {
                match sec.p2p_key {
                    Some((k, roles)) => SecureRxPlan::Verify { key: k, roles },
                    None => SecureRxPlan::Drop(Some(SecurityFailure::CryptoError)),
                }
            },
        }
    }
}

fn all_zero(bytes: &[u8]) -> (r: bool)
    ensures
        r == (bytes@ == Seq::new(bytes@.len(), |i: int| 0u8)),
{
    let mut i: usize = 0;
    while i < bytes.len()
        invariant
            i <= bytes@.len(),
            forall|k: int| 0 <= k < i ==> bytes@[k] == 0u8,
        decreases bytes@.len() - i,
    {
        if bytes[i] != 0 {
            assert(bytes@[i as int] != Seq::new(bytes@.len(), |i: int| 0u8)[i as int]);
            return false;
        }
        i = i + 1;
    }
    assert(bytes@ =~= Seq::new(bytes@.len(), |i: int| 0u8));
    true
}

fn same_octets(a: &[u8], b: &[u8]) -> (r: bool)
    ensures
        r == (a@ == b@),
{
    if a.len() != b.len() {
        return false;
    }
    let mut i: usize = 0;
    while i < a.len()
        invariant
            i <= a@.len(),
            a@.len() == b@.len(),
            forall|k: int| 0 <= k < i ==> a@[k] == b@[k],
        decreases a@.len() - i,
    {
        if a[i] != b[i] {
            return false;
        }
        i = i + 1;
    }
    assert(a@ =~= b@);
    true
}

proof fn lemma_array_view_injective(a: [u8; 6], b: [u8; 6])
    requires
        a@ == b@,
    ensures
        a == b,
{
    assert(a =~= b) by {
        assert forall|i: int| 0 <= i < 6 implies a[i] == b[i] by {
            assert(a@[i] == b@[i]);
        }
    }
}

/// The first step on a received frame: pass it on, drop it, hand it to
/// the synchronisation handlers, or name the key that verifies it.
pub fn secure_rx_plan(frame: &SecureRxFrame, sec: &SecurityView) -> (r: SecureRxPlan)
    ensures
        r == secure_rx_plan_spec(*frame, *sec),
{
    if frame.service == RxService::ConnectInd || frame.service == RxService::DisconnectInd {
        return SecureRxPlan::Forward;
    }
    if !frame.secure {
        if frame.service == RxService::GroupDataInd && !frame.plain_group_allowed {
            return SecureRxPlan::Drop(Some(SecurityFailure::CryptoError));
        }
        return SecureRxPlan::Forward;
    }
    if frame.service == RxService::DataCon || frame.service == RxService::DataUnackCon
        || frame.service == RxService::GroupDataCon || frame.service == RxService::BroadcastCon
        || frame.service == RxService::SystemBroadcastCon {
        return SecureRxPlan::Forward;
    }
    if !frame.header_ok {
        return SecureRxPlan::Drop(None);
    }
    let scf = match frame.scf {
        None => return SecureRxPlan::Drop(Some(SecurityFailure::ScfError)),
        Some(scf) => scf,
    };
    if scf.service == SecureService::SyncRequest {
        return SecureRxPlan::SyncRequest;
    }
    if scf.service == SecureService::SyncResponse {
        return SecureRxPlan::SyncResponse;
    }
    if all_zero(&frame.seq_nr) {
        return SecureRxPlan::Drop(Some(SecurityFailure::SeqNrError));
    }
    if !scf.tool_access && !sec.tables_loaded {
        return SecureRxPlan::Drop(None);
    }
    if scf.tool_access && frame.service == RxService::GroupDataInd {
        return SecureRxPlan::Drop(Some(SecurityFailure::CryptoError));
    }
    if !scf.tool_access && sec.sender_ia_index.is_none() {
        return SecureRxPlan::Drop(None);
    }
    if scf.tool_access {
        let key = if all_zero(&sec.tool_key) { sec.fdsk } else { sec.tool_key };
        return SecureRxPlan::Verify { key, roles: 0 };
    }
    if frame.group_addressed {
        match sec.group_key {
            Some(k) => SecureRxPlan::Verify { key: k, roles: 0 },
            None => SecureRxPlan::Drop(Some(SecurityFailure::CryptoError)),
        }
    } else {
        match sec.p2p_key {
            Some((k, roles)) => SecureRxPlan::Verify { key: k, roles },
            None => SecureRxPlan::Drop(Some(SecurityFailure::CryptoError)),
        }
    }
}

/// The role a verified frame's sender acts in.
#[derive(Debug, Clone, Copy, PartialEq, Eq, Structural)]
pub enum ClientRole {
    Tool,
    Roles(u16),
    Unlisted,
}

/// What is done with a secure data frame once its MAC was checked.
#[derive(Debug, Clone, Copy, PartialEq, Eq, Structural)]
pub enum SecureRxOutcome {
    /// Dropped, logging the failure if there is one.
    Dropped(Option<SecurityFailure>),
    /// Delivered as plaintext, with the security it arrived with.
    Forward { confidentiality: bool, tool_access: bool, role: ClientRole },
}

/// The security bits a verified frame provides, as the group object
/// security flags name them: authentication, with confidentiality or not.
pub open spec fn received_security_bits_spec(confidentiality: bool) -> u8 {
    if confidentiality {
        0x03
    } else {
        0x01
    }
}

/// The security bits a verified frame provides.
pub fn received_security_bits(confidentiality: bool) -> (r: u8)
    ensures
        r == received_security_bits_spec(confidentiality),
{
    if confidentiality {
        0x03
    } else {
        0x01
    }
}

/// The second step on a secure data frame that `scf` describes: after the
/// MAC check (`mac_ok`), the durable sequence number advance
/// (`persisted`), and, for group frames, whether the group objects accept
/// the security it came with (`go_flags_ok`).
pub open spec fn secure_rx_finish_spec(
    scf: Scf,
    group_addressed: bool,
    roles: u16,
    mac_ok: bool,
    persisted: Result<(SeqVerdict, Option<[u8; 6]>), SequenceStateError>,
    go_flags_ok: bool,
) -> SecureRxOutcome {
    if !mac_ok {
        SecureRxOutcome::Dropped(Some(SecurityFailure::CryptoError))
    } else {
        match persisted {
            Err(_) => SecureRxOutcome::Dropped(None),
            Ok((verdict, _)) => if verdict == SeqVerdict::Retransmission {
                SecureRxOutcome::Dropped(None)
            } else if verdict != SeqVerdict::Accept {
                SecureRxOutcome::Dropped(Some(SecurityFailure::SeqNrError))
            } else if !scf.tool_access && group_addressed && !go_flags_ok {
                SecureRxOutcome::Dropped(Some(SecurityFailure::CryptoError))
            } else {
                SecureRxOutcome::Forward {
                    confidentiality: scf.confidentiality,
                    tool_access: scf.tool_access,
                    role: if scf.tool_access {
                        ClientRole::Tool
                    } else if !group_addressed && roles != 0 {
                        ClientRole::Roles(roles)
                    } else {
                        ClientRole::Unlisted
                    },
                }
            },
        }
    }
}

/// The second step on a secure data frame.
pub fn secure_rx_finish(
    scf: Scf,
    group_addressed: bool,
    roles: u16,
    mac_ok: bool,
    persisted: Result<(SeqVerdict, Option<[u8; 6]>), SequenceStateError>,
    go_flags_ok: bool,
) -> (r: SecureRxOutcome)
    ensures
        r == secure_rx_finish_spec(scf, group_addressed, roles, mac_ok, persisted, go_flags_ok),
{
    if !mac_ok {
        return SecureRxOutcome::Dropped(Some(SecurityFailure::CryptoError));
    }
    let verdict = match persisted {
        Err(_) => return SecureRxOutcome::Dropped(None),
        Ok((verdict, _)) => verdict,
    };
    match verdict {
        SeqVerdict::Accept => {},
        SeqVerdict::Retransmission => return SecureRxOutcome::Dropped(None),
        _ => return SecureRxOutcome::Dropped(Some(SecurityFailure::SeqNrError)),
    }
    if !scf.tool_access && group_addressed && !go_flags_ok {
        return SecureRxOutcome::Dropped(Some(SecurityFailure::CryptoError));
    }
    let role = if scf.tool_access {
        ClientRole::Tool
    } else if !group_addressed && roles != 0 {
        ClientRole::Roles(roles)
    } else {
        ClientRole::Unlisted
    };
    SecureRxOutcome::Forward { confidentiality: scf.confidentiality, tool_access: scf.tool_access, role }
}

/// A secure data frame is delivered only once its MAC verified and its
/// sequence number was accepted and durably saved: a failed load or save,
/// a retransmission, a replay or an invalid number drops it.
pub proof fn lemma_delivered_only_after_durable_accept(
    scf: Scf,
    group_addressed: bool,
    roles: u16,
    mac_ok: bool,
    persisted: Result<(SeqVerdict, Option<[u8; 6]>), SequenceStateError>,
    go_flags_ok: bool,
)
    ensures
        secure_rx_finish_spec(scf, group_addressed, roles, mac_ok, persisted, go_flags_ok) is Forward
            ==> mac_ok && persisted matches Ok((SeqVerdict::Accept, _)),
{
}

/// Tool access never verifies a group frame, and a zero sequence number
/// never reaches verification (of the indications the layer checks).
pub proof fn lemma_tool_group_and_zero_sequence_are_dropped(frame: SecureRxFrame, sec: SecurityView)
    requires
        frame.service != RxService::ConnectInd && frame.service != RxService::DisconnectInd,
        !is_confirmation(frame.service),
        frame.secure,
        frame.header_ok,
        frame.scf matches Some(scf) && scf.service == SecureService::Data,
        frame.service == RxService::GroupDataInd && frame.scf->0.tool_access || frame.seq_nr@ == Seq::new(
            6,
            |i: int| 0u8,
        ),
    ensures
        secure_rx_plan_spec(frame, sec) is Drop,
{
}

/// The transport services a secure frame is sent with.
#[derive(Debug, Clone, Copy, PartialEq, Eq, Structural)]
pub enum TxService {
    DataReq,
    DataUnackReq,
    GroupDataReq,
    BroadcastReq,
    SystemBroadcastReq,
}

/// What the layer reads of a received synchronisation request.
#[derive(Debug, Clone, Copy)]
pub struct SyncRequest {
    pub service: RxService,
    pub src: u16,
    pub tool_access: bool,
    pub system_broadcast: bool,
    /// The address type octet of the frame (nonzero: group addressed).
    pub addr_type: u8,
    /// Whether the frame is long enough to hold a synchronisation request.
    pub long_enough: bool,
    pub serial: [u8; 6],
    /// The requester's local sequence number.
    pub seq_local: [u8; 6],
}

/// Whether a synchronisation request was sent to all devices.
pub open spec fn sync_is_broadcast(req: SyncRequest) -> bool {
    req.addr_type != 0 || req.service == RxService::BroadcastInd || req.service
        == RxService::SystemBroadcastInd
}

/// The serial number rule: a broadcast request names this device by a
/// nonzero serial number; a point-to-point one names it or none.
pub open spec fn sync_serial_accepted(req: SyncRequest, device_serial: [u8; 6]) -> bool {
    if sync_is_broadcast(req) {
        req.serial@ != Seq::new(6, |i: int| 0u8) && req.serial == device_serial
    } else {
        req.serial@ == Seq::new(6, |i: int| 0u8) || req.serial == device_serial
    }
}

/// The service a synchronisation response goes out with: the request's own
/// communication mode, and none for the others.
pub open spec fn sync_response_service(s: RxService) -> Option<TxService> {
    match s {
        RxService::DataInd => Some(TxService::DataReq),
        RxService::DataUnackInd => Some(TxService::DataUnackReq),
        RxService::BroadcastInd => Some(TxService::BroadcastReq),
        RxService::SystemBroadcastInd => Some(TxService::SystemBroadcastReq),
        _ => None,
    }
}

/// The first step on a synchronisation request.
#[derive(Debug, Clone, Copy, PartialEq, Eq)]
pub enum SyncRequestPlan {
    /// Drop the request, logging the failure if there is one.
    Drop(Option<SecurityFailure>),
    /// Verify the request with `key` and answer with `service`.
    Verify { key: [u8; 16], service: TxService },
}

/// The first step on `req`; `rate_limited` says whether a response went
/// out within the rate-limit window, and `p2p_enabled` whether the device
/// keeps P2P keys at all (without them a request that is not tool access
/// is dropped).
pub open spec fn sync_request_plan_spec(
    req: SyncRequest,
    sec: SecurityView,
    device_serial: [u8; 6],
    rate_limited: bool,
    p2p_enabled: bool,
) -> SyncRequestPlan {
    if rate_limited || !req.long_enough || !sync_serial_accepted(req, device_serial) || (
    !req.tool_access && !p2p_enabled) {
        SyncRequestPlan::Drop(None)
    } else {
        let key: Option<[u8; 16]> = if req.tool_access {
            Some(tool_key_of(sec))
        } else if !sec.tables_loaded || sec.sender_ia_index is None {
            None
        } else {
            match sec.p2p_key {
                Some((k, _)) => Some(k),
                None => None,
            }
        };
        match key {
            None => if !req.tool_access && sec.tables_loaded && sec.sender_ia_index is None {
                SyncRequestPlan::Drop(Some(SecurityFailure::RoleError))
            } else {
                SyncRequestPlan::Drop(None)
            },
            Some(k) => match sync_response_service(req.service) {
                None => SyncRequestPlan::Drop(None),
                Some(service) => SyncRequestPlan::Verify { key: k, service },
            },
        }
    }
}

/// The first step on a synchronisation request: drop it, or name the key
/// that verifies it and the service that answers it.
pub fn sync_request_step(
    req: &SyncRequest,
    sec: &SecurityView,
    device_serial: &[u8; 6],
    rate_limited: bool,
    p2p_enabled: bool,
) -> (r: SyncRequestPlan)
    ensures
        r == sync_request_plan_spec(*req, *sec, *device_serial, rate_limited, p2p_enabled),
{
    if rate_limited || !req.long_enough {
        return SyncRequestPlan::Drop(None);
    }
    let broadcast = req.addr_type != 0 || req.service == RxService::BroadcastInd || req.service
        == RxService::SystemBroadcastInd;
    let zero = all_zero(&req.serial);
    let same = same_octets(&req.serial, device_serial);
    proof {
        if req.serial@ == device_serial@ {
            assert(req.serial == *device_serial) by {
                lemma_array_view_injective(req.serial, *device_serial);
            }
        }
    }
    if broadcast {
        if zero || !same {
            return SyncRequestPlan::Drop(None);
        }
    } else if !zero && !same {
        return SyncRequestPlan::Drop(None);
    }
    let key = if req.tool_access {
        if all_zero(&sec.tool_key) {
            sec.fdsk
        } else {
            sec.tool_key
        }
    } else {
        if !p2p_enabled || !sec.tables_loaded {
            return SyncRequestPlan::Drop(None);
        }
        if sec.sender_ia_index.is_none() {
            return SyncRequestPlan::Drop(Some(SecurityFailure::RoleError));
        }
        match sec.p2p_key {
            Some((k, _)) => k,
            None => return SyncRequestPlan::Drop(None),
        }
    };
    match req.service {
        RxService::DataInd => SyncRequestPlan::Verify { key, service: TxService::DataReq },
        RxService::DataUnackInd => SyncRequestPlan::Verify { key, service: TxService::DataUnackReq },
        RxService::BroadcastInd => SyncRequestPlan::Verify { key, service: TxService::BroadcastReq },
        RxService::SystemBroadcastInd => SyncRequestPlan::Verify {
            key,
            service: TxService::SystemBroadcastReq,
        },
        _ => SyncRequestPlan::Drop(None),
    }
}

/// A synchronisation response, before encryption.
#[derive(Debug, Clone, Copy, PartialEq, Eq)]
pub struct SyncResponse {
    pub service: TxService,
    pub scf: Scf,
    pub system_broadcast: bool,
    pub src: u16,
    pub dst: u16,
    /// The device's own sending sequence number, unchanged.
    pub seq_remote: [u8; 6],
    /// The next sequence number the device accepts from the requester.
    pub seq_local: [u8; 6],
}

/// What is done with a synchronisation request once its MAC was checked.
#[derive(Debug, Clone, Copy, PartialEq, Eq)]
pub enum SyncResponseOutcome {
    Dropped(Option<SecurityFailure>),
    Respond(SyncResponse),
}

/// The last valid receiving counter as a number: a failed load or an empty
/// record count as zero.
pub open spec fn loaded_counter(stored: Option<Option<[u8; 6]>>) -> u64 {
    match stored {
        Some(Some(s)) => seq6_value(s@),
        _ => 0,
    }
}

/// Whether a request with local number `received` advances the stored
/// counter `stored`: to `received - 1`.
pub open spec fn sync_advances(received: u64, stored: u64) -> bool {
    received > 0 && received - 1 > stored
}

/// The response's local number: one past the larger of `received - 1` and
/// the (advanced) stored counter.
pub open spec fn sync_response_local(received: u64, stored: u64) -> int {
    let new_stored: int = if sync_advances(received, stored) {
        received - 1
    } else {
        stored as int
    };
    let below: int = if received > 0 {
        received - 1
    } else {
        0
    };
    (if below > new_stored {
        below
    } else {
        new_stored
    }) + 1
}

/// The response to `req`, answered with `service`, given the stored
/// counter, the device's sending number and its individual address.
pub open spec fn is_sync_response(
    resp: SyncResponse,
    req: SyncRequest,
    service: TxService,
    stored: u64,
    sending: [u8; 6],
    own_ia: u16,
) -> bool {
    &&& resp.service == service
    &&& resp.scf == Scf {
        service: SecureService::SyncResponse,
        tool_access: req.tool_access,
        confidentiality: true,
    }
    &&& resp.system_broadcast == req.system_broadcast
    &&& resp.src == (if req.src == 0 {
        0
    } else {
        own_ia
    })
    &&& resp.dst == (if sync_is_broadcast(req) {
        0
    } else {
        req.src
    })
    &&& resp.seq_remote == sending
    &&& resp.seq_local@ == seq6_octets(sync_response_local(seq6_value(req.seq_local@), stored) as u64)
}

proof fn lemma_seq6_value_bound(s: [u8; 6])
    ensures
        seq6_value(s@) < 0x1_0000_0000_0000,
{
    let (a, b, c, d, e, f) = (s@[0], s@[1], s@[2], s@[3], s@[4], s@[5]);
    assert(((a as u64) << 40u64) | ((b as u64) << 32u64) | ((c as u64) << 24u64) | ((d as u64)
        << 16u64) | ((e as u64) << 8u64) | (f as u64) < 0x1_0000_0000_0000u64) by (bit_vector);
}

/// The device's sending counter as loaded from `storage`, or `default`
/// when the load fails.
pub open spec fn loaded_sending<S: SequenceNumberStorage>(storage: S, default: [u8; 6]) -> [u8; 6] {
    match storage.stored_sending() {
        Some(v) => v,
        None => default,
    }
}

/// Answer a synchronisation request whose MAC check gave `mac_ok`: on
/// success, advance the requester's stored counter when the request is
/// ahead of it (a failed save is ignored) and build the response, which
/// names the device's sending counter unchanged (`default_sending` when it
/// cannot be loaded).
pub fn build_sync_response_for<S: SequenceNumberStorage>(
    storage: &mut S,
    req: &SyncRequest,
    service: TxService,
    mac_ok: bool,
    default_sending: [u8; 6],
    own_ia: u16,
) -> (r: SyncResponseOutcome)
    ensures
        !mac_ok ==> r == SyncResponseOutcome::Dropped(Some(SecurityFailure::CryptoError))
            && *final(storage) == *old(storage),
        mac_ok ==> {
            let key = sender_key(req.tool_access, req.src);
            let stored = loaded_counter(old(storage).stored_receiving(req.tool_access, key));
            let received = seq6_value(req.seq_local@);
            &&& r matches SyncResponseOutcome::Respond(resp) && is_sync_response(
                resp,
                *req,
                service,
                stored,
                loaded_sending(*old(storage), default_sending),
                own_ia,
            )
            &&& final(storage).stored_sending() == old(storage).stored_sending()
            &&& !sync_advances(received, stored) ==> *final(storage) == *old(storage)
            &&& forall|a: [u8; 6]|
                #![trigger old(storage).save_fails(req.tool_access, key, a)]
                sync_advances(received, stored) && a@ == seq6_octets((received - 1) as u64)
                    ==> final(storage).stored_receiving(req.tool_access, key) == (if old(
                    storage,
                ).save_fails(req.tool_access, key, a) {
                    old(storage).stored_receiving(req.tool_access, key)
                } else {
                    Some(Some(a))
                })
        },
{
    if !mac_ok {
        return SyncResponseOutcome::Dropped(Some(SecurityFailure::CryptoError));
    }
    let ghost key = sender_key(req.tool_access, req.src);
    let ghost old_storage = *storage;
    let stored: u64 = match load_receiving_sequence(storage, req.tool_access, req.src) {
        Ok(Some(s)) => {
            proof {
                lemma_seq6_value_bound(s);
            }
            seq6_to_u64(&s)
        },
        _ => 0,
    };
    let received = seq6_to_u64(&req.seq_local);
    proof {
        lemma_seq6_value_bound(req.seq_local);
    }
    let new_stored = if received > 0 && received - 1 > stored {
        let advanced = u64_to_seq6(received - 1);
        let _ = save_receiving_sequence(storage, req.tool_access, req.src, &advanced);
        proof {
            assert forall|a: [u8; 6]|
                #![trigger old_storage.save_fails(req.tool_access, key, a)]
                a@ == seq6_octets((received - 1) as u64) implies a == advanced by {
                lemma_array_view_injective(a, advanced);
            }
        }
        received - 1
    } else {
        stored
    };
    let sending = match storage.load_sending_seq() {
        Ok(v) => v,
        Err(_) => default_sending,
    };
    let below = if received > 0 {
        received - 1
    } else {
        0
    };
    let local = if below > new_stored {
        below
    } else {
        new_stored
    } + 1;
    let broadcast = req.addr_type != 0 || req.service == RxService::BroadcastInd || req.service
        == RxService::SystemBroadcastInd;
    SyncResponseOutcome::Respond(
        SyncResponse {
            service,
            scf: Scf {
                service: SecureService::SyncResponse,
                tool_access: req.tool_access,
                confidentiality: true,
            },
            system_broadcast: req.system_broadcast,
            src: if req.src == 0 {
                0
            } else {
                own_ia
            },
            dst: if broadcast {
                0
            } else {
                req.src
            },
            seq_remote: sending,
            seq_local: u64_to_seq6(local),
        },
    )
}

/// A synchronisation the device started and waits to see answered.
#[derive(Debug, Clone, Copy, PartialEq, Eq)]
pub struct PendingSync {
    pub peer_ia: u16,
    pub tool_access: bool,
    pub challenge: [u8; 6],
    pub key: [u8; 16],
    pub is_broadcast: bool,
}

/// What the layer reads of a received synchronisation response.
#[derive(Debug, Clone, Copy)]
pub struct SyncResponseFrame {
    pub src: u16,
    pub tool_access: bool,
    pub system_broadcast: bool,
    /// Whether the frame is long enough to hold a synchronisation response.
    pub long_enough: bool,
}

/// The decision on a synchronisation response. The frame itself is always
/// consumed.
#[derive(Debug, Clone, Copy, PartialEq, Eq)]
pub struct SyncResponseStep {
    /// The pending synchronisation afterwards.
    pub pending: Option<PendingSync>,
    /// The failure to log, if any.
    pub failure: Option<SecurityFailure>,
    /// The sender's new last valid receiving counter, to be saved.
    pub save_receiving: Option<[u8; 6]>,
    /// The device's new sending counter, to be saved.
    pub save_sending: Option<[u8; 6]>,
}

/// Whether a response from `frame` belongs to `pending`, before the
/// deadline is looked at.
pub open spec fn sync_response_matches(pending: PendingSync, frame: SyncResponseFrame) -> bool {
    frame.src == pending.peer_ia && frame.tool_access == pending.tool_access
}

/// The decision on a synchronisation response `frame` while `pending`
/// waits; `expired` says the deadline passed, `mac_ok` how the MAC check
/// went, and `remote`, `local` are the decrypted numbers; `sending` is the
/// device's current sending counter.
pub open spec fn sync_response_step_spec(
    pending: Option<PendingSync>,
    frame: SyncResponseFrame,
    expired: bool,
    mac_ok: bool,
    remote: [u8; 6],
    local: [u8; 6],
    sending: [u8; 6],
) -> SyncResponseStep {
    let unchanged = SyncResponseStep {
        pending,
        failure: None,
        save_receiving: None,
        save_sending: None,
    };
    let cleared = SyncResponseStep {
        pending: None,
        failure: None,
        save_receiving: None,
        save_sending: None,
    };
    match pending {
        None => unchanged,
        Some(p) => if !sync_response_matches(p, frame) {
            unchanged
        } else if expired {
            cleared
        } else if frame.system_broadcast != p.is_broadcast || !frame.long_enough {
            unchanged
        } else if !mac_ok {
            SyncResponseStep { failure: Some(SecurityFailure::CryptoError), ..cleared }
        } else {
            SyncResponseStep {
                save_receiving: if seq6_value(remote@) > 0 {
                    Some(remote)
                } else {
                    None
                },
                save_sending: if seq6_value(local@) > 0 && seq6_value(local@) > seq6_value(
                    sending@,
                ) {
                    Some(local)
                } else {
                    None
                },
                ..cleared
            }
        },
    }
}

/// The decision on a synchronisation response.
pub fn sync_response_step(
    pending: Option<PendingSync>,
    frame: &SyncResponseFrame,
    expired: bool,
    mac_ok: bool,
    remote: [u8; 6],
    local: [u8; 6],
    sending: [u8; 6],
) -> (r: SyncResponseStep)
    ensures
        r == sync_response_step_spec(pending, *frame, expired, mac_ok, remote, local, sending),
{
    let unchanged = SyncResponseStep {
        pending,
        failure: None,
        save_receiving: None,
        save_sending: None,
    };
    let cleared = SyncResponseStep {
        pending: None,
        failure: None,
        save_receiving: None,
        save_sending: None,
    };
    let p = match pending {
        None => return unchanged,
        Some(p) => p,
    };
    if frame.src != p.peer_ia || frame.tool_access != p.tool_access {
        return unchanged;
    }
    if expired {
        return cleared;
    }
    if frame.system_broadcast != p.is_broadcast || !frame.long_enough {
        return unchanged;
    }
    if !mac_ok {
        return SyncResponseStep { failure: Some(SecurityFailure::CryptoError), ..cleared };
    }
    let remote_val = seq6_to_u64(&remote);
    let local_val = seq6_to_u64(&local);
    let sending_val = seq6_to_u64(&sending);
    SyncResponseStep {
        save_receiving: if remote_val > 0 {
            Some(remote)
        } else {
            None
        },
        save_sending: if local_val > 0 && local_val > sending_val {
            Some(local)
        } else {
            None
        },
        ..cleared
    }
}

/// A synchronisation request the device sends, before encryption.
#[derive(Debug, Clone, Copy, PartialEq, Eq)]
pub struct SyncRequestFrame {
    pub service: TxService,
    pub scf: Scf,
    pub system_broadcast: bool,
    pub ctrl: u8,
    pub npdu: u8,
    pub src: u16,
    pub dst: u16,
    pub serial: [u8; 6],
    pub seq_local: [u8; 6],
    pub challenge: [u8; 6],
}

/// The key for a synchronisation the device starts: the tool key (or the
/// factory key while it is all zero), or the P2P key of the peer's row.
pub open spec fn initiate_sync_key(tool_access: bool, sec: SecurityView) -> Option<[u8; 16]> {
    if tool_access {
        Some(tool_key_of(sec))
    } else {
        match (sec.sender_ia_index, sec.p2p_key) {
            (Some(_), Some((k, _))) => Some(k),
            _ => None,
        }
    }
}

/// The synchronisation request to `peer_ia` and the state that waits for
/// its answer; `sec` is read for the peer's row.
pub open spec fn initiate_sync_spec(
    peer_ia: u16,
    tool_access: bool,
    is_broadcast: bool,
    sec: SecurityView,
    device_serial: [u8; 6],
    own_ia: u16,
    sending: [u8; 6],
    challenge: [u8; 6],
) -> Option<(PendingSync, SyncRequestFrame)> {
    match initiate_sync_key(tool_access, sec) {
        None => None,
        Some(key) => Some(
            (
                PendingSync { peer_ia, tool_access, challenge, key, is_broadcast },
                SyncRequestFrame {
                    service: if is_broadcast {
                        TxService::BroadcastReq
                    } else {
                        TxService::DataUnackReq
                    },
                    scf: Scf {
                        service: SecureService::SyncRequest,
                        tool_access,
                        confidentiality: true,
                    },
                    system_broadcast: is_broadcast,
                    ctrl: if is_broadcast {
                        0xBC
                    } else {
                        0xB0
                    },
                    npdu: if is_broadcast {
                        0xE1
                    } else {
                        0x60
                    },
                    src: own_ia,
                    dst: if is_broadcast {
                        0
                    } else {
                        peer_ia
                    },
                    serial: if is_broadcast {
                        device_serial
                    } else {
                        [0u8, 0, 0, 0, 0, 0]
                    },
                    seq_local: sending,
                    challenge,
                },
            ),
        ),
    }
}

/// Start a synchronisation with `peer_ia` (or with all devices): the
/// request to send and the pending state, or `None` when no key is known
/// for the peer. `challenge` is the fresh random challenge.
pub fn initiate_sync_step(
    peer_ia: u16,
    tool_access: bool,
    is_broadcast: bool,
    sec: &SecurityView,
    device_serial: [u8; 6],
    own_ia: u16,
    sending: [u8; 6],
    challenge: [u8; 6],
) -> (r: Option<(PendingSync, SyncRequestFrame)>)
    ensures
        r == initiate_sync_spec(
            peer_ia,
            tool_access,
            is_broadcast,
            *sec,
            device_serial,
            own_ia,
            sending,
            challenge,
        ),
{
    let key = if tool_access {
        if all_zero(&sec.tool_key) {
            sec.fdsk
        } else {
            sec.tool_key
        }
    } else {
        match (sec.sender_ia_index, sec.p2p_key) {
            (Some(_), Some((k, _))) => k,
            _ => return None,
        }
    };
    Some(
        (
            PendingSync { peer_ia, tool_access, challenge, key, is_broadcast },
            SyncRequestFrame {
                service: if is_broadcast {
                    TxService::BroadcastReq
                } else {
                    TxService::DataUnackReq
                },
                scf: Scf { service: SecureService::SyncRequest, tool_access, confidentiality: true },
                system_broadcast: is_broadcast,
                ctrl: if is_broadcast {
                    0xBC
                } else {
                    0xB0
                },
                npdu: if is_broadcast {
                    0xE1
                } else {
                    0x60
                },
                src: own_ia,
                dst: if is_broadcast {
                    0
                } else {
                    peer_ia
                },
                serial: if is_broadcast {
                    device_serial
                } else {
                    [0u8, 0, 0, 0, 0, 0]
                },
                seq_local: sending,
                challenge,
            },
        ),
    )
}

/// A synchronisation response is always consumed and never lowers the
/// device's sending counter; one that does not belong to the pending
/// synchronisation writes nothing and leaves it waiting.
pub proof fn lemma_sync_response_never_lowers_sending(
    pending: Option<PendingSync>,
    frame: SyncResponseFrame,
    expired: bool,
    mac_ok: bool,
    remote: [u8; 6],
    local: [u8; 6],
    sending: [u8; 6],
)
    ensures
        ({
            let step = sync_response_step_spec(
                pending,
                frame,
                expired,
                mac_ok,
                remote,
                local,
                sending,
            );
            &&& step.save_sending matches Some(n) ==> seq6_value(n@) > seq6_value(sending@)
            &&& (pending matches Some(p) && !sync_response_matches(p, frame)) || pending is None
                ==> step.pending == pending && step.save_receiving is None && step.save_sending
                is None
        }),
{
}

/// The keys a spontaneous secure frame may be sent with.
#[derive(Debug, Clone, Copy)]
pub struct OutgoingKeys {
    pub tool_key: [u8; 16],
    /// The group key for the frame's TSAP.
    pub group_key: Option<[u8; 16]>,
    /// The P2P key of the destination's row in the security individual
    /// address table.
    pub p2p_key: Option<[u8; 16]>,
}

/// How a spontaneous frame is secured: the key, the security control
/// field, and the source address the MAC covers.
#[derive(Debug, Clone, Copy, PartialEq, Eq)]
pub struct SpontaneousPlan {
    pub key: [u8; 16],
    pub scf: Scf,
    pub system_broadcast: bool,
    pub src: u16,
}

/// Whether `service` addresses one device.
pub open spec fn individually_addressed(service: Option<TxService>) -> bool {
    service == Some(TxService::DataReq) || service == Some(TxService::DataUnackReq)
}

/// How a spontaneous frame with `service` (`None`: any other service) to
/// `dst` is secured, with confidentiality when `auth_conf`, or `None` when
/// it is refused: a frame answering tool access uses the tool key; a group
/// frame its TSAP's group key; an individual frame the peer's P2P key;
/// broadcasts and the other services are refused.
pub open spec fn spontaneous_plan_spec(
    service: Option<TxService>,
    auth_conf: bool,
    tool_access_required: bool,
    dst: u16,
    keys: OutgoingKeys,
    own_ia: u16,
) -> Option<SpontaneousPlan> {
    let key: Option<[u8; 16]> = if tool_access_required {
        Some(keys.tool_key)
    } else if service == Some(TxService::GroupDataReq) {
        keys.group_key
    } else if individually_addressed(service) {
        keys.p2p_key
    } else {
        None
    };
    match key {
        None => None,
        Some(k) => Some(
            SpontaneousPlan {
                key: k,
                scf: Scf {
                    service: SecureService::Data,
                    tool_access: tool_access_required,
                    confidentiality: auth_conf,
                },
                system_broadcast: service == Some(TxService::SystemBroadcastReq),
                src: if individually_addressed(service) && dst == 0 {
                    0
                } else {
                    own_ia
                },
            },
        ),
    }
}

/// How a spontaneous secure frame is secured, or `None` when it must be
/// refused rather than sent in plain.
pub fn spontaneous_plan(
    service: Option<TxService>,
    auth_conf: bool,
    tool_access_required: bool,
    dst: u16,
    keys: &OutgoingKeys,
    own_ia: u16,
) -> (r: Option<SpontaneousPlan>)
    ensures
        r == spontaneous_plan_spec(service, auth_conf, tool_access_required, dst, *keys, own_ia),
{
    let individual = match service {
        Some(TxService::DataReq) | Some(TxService::DataUnackReq) => true,
        _ => false,
    };
    let key = if tool_access_required {
        keys.tool_key
    } else {
        match service {
            Some(TxService::GroupDataReq) => match keys.group_key {
                Some(k) => k,
                None => return None,
            },
            Some(TxService::DataReq) | Some(TxService::DataUnackReq) => match keys.p2p_key {
                Some(k) => k,
                None => return None,
            },
            _ => return None,
        }
    };
    let system_broadcast = match service {
        Some(TxService::SystemBroadcastReq) => true,
        _ => false,
    };
    Some(
        SpontaneousPlan {
            key,
            scf: Scf {
                service: SecureService::Data,
                tool_access: tool_access_required,
                confidentiality: auth_conf,
            },
            system_broadcast,
            src: if individual && dst == 0 {
                0
            } else {
                own_ia
            },
        },
    )
}

/// A spontaneous secure frame is never sent without a key: a broadcast that
/// answers no tool access, and a group or individual frame without its key,
/// are refused.
pub proof fn lemma_spontaneous_never_downgrades(
    service: Option<TxService>,
    auth_conf: bool,
    dst: u16,
    keys: OutgoingKeys,
    own_ia: u16,
)
    requires
        service == Some(TxService::BroadcastReq) || service == Some(TxService::SystemBroadcastReq)
            || (service == Some(TxService::GroupDataReq) && keys.group_key is None) || (
        individually_addressed(service) && keys.p2p_key is None),
    ensures
        spontaneous_plan_spec(service, auth_conf, false, dst, keys, own_ia) is None,
{
}

/// The second step on a secure data frame from `src` with sequence number
/// `seq_nr`, driving the storage: after a failed MAC check the storage is
/// left alone; otherwise the number is validated and durably advanced, and
/// the outcome follows from what that gave.
pub fn secure_rx_complete<S: SequenceNumberStorage>(
    storage: &mut S,
    scf: Scf,
    src: u16,
    seq_nr: &[u8; 6],
    group_addressed: bool,
    roles: u16,
    mac_ok: bool,
    go_flags_ok: bool,
) -> (r: SecureRxOutcome)
    ensures
        !mac_ok ==> r == SecureRxOutcome::Dropped(Some(SecurityFailure::CryptoError))
            && *final(storage) == *old(storage),
        mac_ok ==> r == secure_rx_finish_spec(
            scf,
            group_addressed,
            roles,
            mac_ok,
            persist_outcome(*old(storage), scf.tool_access, src, *seq_nr),
            go_flags_ok,
        ),
        r is Forward ==> final(storage).stored_receiving(
            scf.tool_access,
            sender_key(scf.tool_access, src),
        ) == Some(Some(*seq_nr)),
        mac_ok ==> final(storage).stored_receiving(scf.tool_access, sender_key(scf.tool_access, src))
            == match persist_outcome(*old(storage), scf.tool_access, src, *seq_nr) {
            Ok((SeqVerdict::Accept, _)) => Some(Some(*seq_nr)),
            _ => old(storage).stored_receiving(scf.tool_access, sender_key(scf.tool_access, src)),
        },
{
    if !mac_ok {
        return SecureRxOutcome::Dropped(Some(SecurityFailure::CryptoError));
    }
    let persisted = persist_incoming_sequence(storage, scf.tool_access, src, seq_nr);
    secure_rx_finish(scf, group_addressed, roles, mac_ok, persisted, go_flags_ok)
}

/// The local number a synchronisation response names is past both the
/// stored counter and the requester's own number less one, so a frame the
/// device already accepted can never be replayed under it.
pub proof fn lemma_sync_response_local_is_fresh(received: u64, stored: u64)
    ensures
        sync_response_local(received, stored) > stored,
        sync_response_local(received, stored) >= received,
        sync_advances(received, stored) ==> sync_response_local(received, stored) == received,
{
}

/// Carry out the decision on a synchronisation response on the storage:
/// the device's sending counter is loaded (`default_sending` when that
/// fails), the sender's receiving counter and the sending counter are saved
/// as the decision says (a failed save is ignored), and the pending
/// synchronisation afterwards and the failure to log are returned.
pub fn process_sync_response<S: SequenceNumberStorage>(
    storage: &mut S,
    pending: Option<PendingSync>,
    frame: &SyncResponseFrame,
    expired: bool,
    mac_ok: bool,
    remote: [u8; 6],
    local: [u8; 6],
    default_sending: [u8; 6],
) -> (r: (Option<PendingSync>, Option<SecurityFailure>))
    ensures
        ({
            let sending = loaded_sending(*old(storage), default_sending);
            let step = sync_response_step_spec(
                pending,
                *frame,
                expired,
                mac_ok,
                remote,
                local,
                sending,
            );
            &&& r == (step.pending, step.failure)
            &&& match step.save_receiving {
                Some(v) => {
                    let t = pending->0.tool_access;
                    let key = sender_key(t, frame.src);
                    final(storage).stored_receiving(t, key) == if old(storage).save_fails(t, key, v) {
                        old(storage).stored_receiving(t, key)
                    } else {
                        Some(Some(v))
                    }
                },
                None => step.save_sending is None ==> *final(storage) == *old(storage),
            }
            &&& match step.save_sending {
                Some(v) => final(storage).stored_sending() == if old(storage).sending_save_fails(
                    v,
                ) {
                    old(storage).stored_sending()
                } else {
                    Some(v)
                },
                None => final(storage).stored_sending() == old(storage).stored_sending(),
            }
        }),
{
    let sending = match storage.load_sending_seq() {
        Ok(v) => v,
        Err(_) => default_sending,
    };
    let step = sync_response_step(pending, frame, expired, mac_ok, remote, local, sending);
    if let Some(v) = step.save_receiving {
        let t = match pending {
            Some(p) => p.tool_access,
            None => false,
        };
        let _ = save_receiving_sequence(storage, t, frame.src, &v);
    }
    let ghost mid = *storage;
    if let Some(v) = step.save_sending {
        let ghost t = pending->0.tool_access;
        let ghost key = sender_key(t, frame.src);
        let _ = storage.save_sending_seq(&v);
        assert(storage.stored_receiving(t, key) == mid.stored_receiving(t, key));
    }
    (step.pending, step.failure)
}

/// The key that verifies a secure data frame: for tool access, the tool
/// key, or the factory key while the tool key is all zero; otherwise the
/// group key of a group addressed frame, or the P2P key (with its roles) of
/// the sender. Whenever the plan names a key, it is that one.
pub proof fn lemma_verification_key(frame: SecureRxFrame, sec: SecurityView, key: [u8; 16], roles: u16)
    requires
        secure_rx_plan_spec(frame, sec) == (SecureRxPlan::Verify { key, roles }),
    ensures
        frame.scf matches Some(scf) && scf.service == SecureService::Data,
        frame.scf->0.tool_access ==> roles == 0 && key == (if sec.tool_key@ == Seq::new(
            16,
            |i: int| 0u8,
        ) {
            sec.fdsk
        } else {
            sec.tool_key
        }),
        !frame.scf->0.tool_access && frame.group_addressed ==> roles == 0 && sec.group_key
            == Some(key),
        !frame.scf->0.tool_access && !frame.group_addressed ==> sec.p2p_key == Some((key, roles)),
        frame.secure && frame.header_ok && frame.seq_nr@ != Seq::new(6, |i: int| 0u8),
{
}

} // verus!
