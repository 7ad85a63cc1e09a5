use zweidraehte_device::layers::secure_application::{
    build_sync_response_for, initiate_sync_step, process_sync_response, received_security_bits, secure_rx_complete,
    secure_rx_finish, secure_rx_plan, spontaneous_plan, sync_request_step, sync_response_step,
    ClientRole, OutgoingKeys, PendingSync, RxService, Scf, SecureRxFrame, SecureRxOutcome,
    SecureRxPlan, SecureService, SecurityFailure, SecurityView, SyncRequest, SyncRequestPlan,
    SyncResponseFrame, SyncResponseOutcome, TxService,
};
use zweidraehte_device::security::{
    seq6_to_u64, u64_to_seq6, SeqVerdict, SequenceNumberStorage, SequenceStateError,
};

#[derive(Default)]
struct FaultySequenceStore {
    sending: [u8; 6],
    receiving: Option<[u8; 6]>,
    tool_receiving: Option<[u8; 6]>,
    fail_sending_load: bool,
    fail_receiving_load: bool,
    fail_save: bool,
    save_count: usize,
}

impl SequenceNumberStorage for FaultySequenceStore {
    type Error = ();

    fn stored_receiving(&self, tool_access: bool, _peer_ia: u16) -> Option<Option<[u8; 6]>> {
        if self.fail_receiving_load {
            None
        } else if tool_access {
            Some(self.tool_receiving)
        } else {
            Some(self.receiving)
        }
    }

    fn save_fails(&self, _tool_access: bool, _peer_ia: u16, _seq: [u8; 6]) -> bool {
        self.fail_save
    }

    fn stored_sending(&self) -> Option<[u8; 6]> {
        if self.fail_sending_load { None } else { Some(self.sending) }
    }

    fn sending_save_fails(&self, _seq: [u8; 6]) -> bool {
        self.fail_save
    }

    fn load_sending_seq(&self) -> Result<[u8; 6], Self::Error> {
        if self.fail_sending_load { Err(()) } else { Ok(self.sending) }
    }

    fn save_sending_seq(&mut self, seq: &[u8; 6]) -> Result<(), Self::Error> {
        if self.fail_save {
            return Err(());
        }
        self.sending = *seq;
        self.save_count += 1;
        Ok(())
    }

    fn load_receiving_seq(&self, _peer_ia: u16) -> Result<Option<[u8; 6]>, Self::Error> {
        if self.fail_receiving_load { Err(()) } else { Ok(self.receiving) }
    }

    fn save_receiving_seq(&mut self, _peer_ia: u16, seq: &[u8; 6]) -> Result<(), Self::Error> {
        if self.fail_save {
            return Err(());
        }
        self.receiving = Some(*seq);
        self.save_count += 1;
        Ok(())
    }

    fn load_tool_receiving_seq(&self) -> Result<Option<[u8; 6]>, Self::Error> {
        if self.fail_receiving_load { Err(()) } else { Ok(self.tool_receiving) }
    }

    fn save_tool_receiving_seq(&mut self, seq: &[u8; 6]) -> Result<(), Self::Error> {
        if self.fail_save {
            return Err(());
        }
        self.tool_receiving = Some(*seq);
        self.save_count += 1;
        Ok(())
    }
}


const TOOL: [u8; 16] = [0x11; 16];
const FDSK: [u8; 16] = [0xFD; 16];
const GROUP: [u8; 16] = [0x22; 16];
const P2P: [u8; 16] = [0x33; 16];
const SERIAL: [u8; 6] = [0x00, 0xFA, 0x12, 0x34, 0x56, 0x78];

fn sec() -> SecurityView {
    SecurityView {
        tables_loaded: true,
        tool_key: TOOL,
        fdsk: FDSK,
        sender_ia_index: Some(2),
        group_key: Some(GROUP),
        p2p_key: Some((P2P, 0x0003)),
    }
}

fn data_scf(tool_access: bool) -> Option<Scf> {
    Some(Scf { service: SecureService::Data, tool_access, confidentiality: true })
}

fn frame(service: RxService) -> SecureRxFrame {
    SecureRxFrame {
        service,
        secure: true,
        plain_group_allowed: false,
        header_ok: true,
        scf: data_scf(false),
        seq_nr: u64_to_seq6(7),
        group_addressed: false,
        src: 0x1101,
    }
}

#[test]
fn plain_frames_pass_and_unsecured_group_frames_are_refused() {
    let mut f = frame(RxService::DataInd);
    f.secure = false;
    assert_eq!(secure_rx_plan(&f, &sec()), SecureRxPlan::Forward);
    f.service = RxService::GroupDataInd;
    assert_eq!(secure_rx_plan(&f, &sec()), SecureRxPlan::Drop(Some(SecurityFailure::CryptoError)));
    f.plain_group_allowed = true;
    assert_eq!(secure_rx_plan(&f, &sec()), SecureRxPlan::Forward);
    assert_eq!(secure_rx_plan(&frame(RxService::ConnectInd), &sec()), SecureRxPlan::Forward);
    assert_eq!(secure_rx_plan(&frame(RxService::DataCon), &sec()), SecureRxPlan::Forward);
}

#[test]
fn secure_frames_pick_their_key() {
    assert_eq!(
        secure_rx_plan(&frame(RxService::DataInd), &sec()),
        SecureRxPlan::Verify { key: P2P, roles: 0x0003 }
    );
    let mut g = frame(RxService::GroupDataInd);
    g.group_addressed = true;
    assert_eq!(secure_rx_plan(&g, &sec()), SecureRxPlan::Verify { key: GROUP, roles: 0 });
    let mut t = frame(RxService::DataInd);
    t.scf = data_scf(true);
    assert_eq!(secure_rx_plan(&t, &sec()), SecureRxPlan::Verify { key: TOOL, roles: 0 });
    let mut s = sec();
    s.tool_key = [0; 16];
    assert_eq!(secure_rx_plan(&t, &s), SecureRxPlan::Verify { key: FDSK, roles: 0 });
}

#[test]
fn secure_frames_are_dropped_for_each_reason() {
    let mut f = frame(RxService::DataInd);
    f.header_ok = false;
    assert_eq!(secure_rx_plan(&f, &sec()), SecureRxPlan::Drop(None));
    let mut f = frame(RxService::DataInd);
    f.scf = None;
    assert_eq!(secure_rx_plan(&f, &sec()), SecureRxPlan::Drop(Some(SecurityFailure::ScfError)));
    let mut f = frame(RxService::DataInd);
    f.seq_nr = [0; 6];
    assert_eq!(secure_rx_plan(&f, &sec()), SecureRxPlan::Drop(Some(SecurityFailure::SeqNrError)));
    let mut f = frame(RxService::GroupDataInd);
    f.scf = data_scf(true);
    assert_eq!(secure_rx_plan(&f, &sec()), SecureRxPlan::Drop(Some(SecurityFailure::CryptoError)));
    let mut s = sec();
    s.tables_loaded = false;
    assert_eq!(secure_rx_plan(&frame(RxService::DataInd), &s), SecureRxPlan::Drop(None));
    let mut s = sec();
    s.sender_ia_index = None;
    assert_eq!(secure_rx_plan(&frame(RxService::DataInd), &s), SecureRxPlan::Drop(None));
    let mut s = sec();
    s.p2p_key = None;
    assert_eq!(
        secure_rx_plan(&frame(RxService::DataInd), &s),
        SecureRxPlan::Drop(Some(SecurityFailure::CryptoError))
    );
    let mut f = frame(RxService::DataInd);
    f.scf = Some(Scf { service: SecureService::SyncRequest, tool_access: true, confidentiality: true });
    assert_eq!(secure_rx_plan(&f, &sec()), SecureRxPlan::SyncRequest);
}

#[test]
fn verified_frames_are_delivered_only_after_an_accepted_save() {
    let scf = Scf { service: SecureService::Data, tool_access: false, confidentiality: true };
    let ok = Ok((SeqVerdict::Accept, None));
    assert_eq!(
        secure_rx_finish(scf, false, 0x0003, true, ok, true),
        SecureRxOutcome::Forward { confidentiality: true, tool_access: false, role: ClientRole::Roles(3) }
    );
    assert_eq!(
        secure_rx_finish(scf, false, 0x0003, false, ok, true),
        SecureRxOutcome::Dropped(Some(SecurityFailure::CryptoError))
    );
    assert_eq!(
        secure_rx_finish(scf, false, 0, true, Err(SequenceStateError::Save), true),
        SecureRxOutcome::Dropped(None)
    );
    assert_eq!(
        secure_rx_finish(scf, false, 0, true, Ok((SeqVerdict::Retransmission, None)), true),
        SecureRxOutcome::Dropped(None)
    );
    assert_eq!(
        secure_rx_finish(scf, false, 0, true, Ok((SeqVerdict::Replay, None)), true),
        SecureRxOutcome::Dropped(Some(SecurityFailure::SeqNrError))
    );
    assert_eq!(
        secure_rx_finish(scf, true, 0, true, ok, false),
        SecureRxOutcome::Dropped(Some(SecurityFailure::CryptoError))
    );
    assert_eq!(received_security_bits(true), 0x03);
    assert_eq!(received_security_bits(false), 0x01);
}

#[test]
fn completing_a_secure_frame_saves_its_number_first() {
    let scf = Scf { service: SecureService::Data, tool_access: false, confidentiality: false };
    let seq = u64_to_seq6(9);
    let mut store = FaultySequenceStore { fail_save: true, ..Default::default() };
    assert_eq!(secure_rx_complete(&mut store, scf, 0x1101, &seq, false, 0, true, true), SecureRxOutcome::Dropped(None));
    assert_eq!(store.receiving, None);
    store.fail_save = false;
    assert_eq!(
        secure_rx_complete(&mut store, scf, 0x1101, &seq, false, 0, true, true),
        SecureRxOutcome::Forward { confidentiality: false, tool_access: false, role: ClientRole::Unlisted }
    );
    assert_eq!(store.receiving, Some(seq));
    let mut fresh = FaultySequenceStore::default();
    assert_eq!(
        secure_rx_complete(&mut fresh, scf, 0x1101, &seq, false, 0, false, true),
        SecureRxOutcome::Dropped(Some(SecurityFailure::CryptoError))
    );
    assert_eq!(fresh.save_count, 0);
}

fn sync_req(service: RxService, tool_access: bool) -> SyncRequest {
    SyncRequest {
        service,
        src: 0x1101,
        tool_access,
        system_broadcast: false,
        addr_type: 0,
        long_enough: true,
        serial: [0; 6],
        seq_local: u64_to_seq6(10),
    }
}

#[test]
fn sync_requests_are_checked_before_they_are_answered() {
    assert_eq!(
        sync_request_step(&sync_req(RxService::DataInd, true), &sec(), &SERIAL, false, true),
        SyncRequestPlan::Verify { key: TOOL, service: TxService::DataReq }
    );
    assert_eq!(
        sync_request_step(&sync_req(RxService::DataUnackInd, false), &sec(), &SERIAL, false, true),
        SyncRequestPlan::Verify { key: P2P, service: TxService::DataUnackReq }
    );
    assert_eq!(sync_request_step(&sync_req(RxService::DataInd, true), &sec(), &SERIAL, true, true), SyncRequestPlan::Drop(None));
    let mut wrong = sync_req(RxService::DataInd, true);
    wrong.serial = [9; 6];
    assert_eq!(sync_request_step(&wrong, &sec(), &SERIAL, false, true), SyncRequestPlan::Drop(None));
    let mut bc = sync_req(RxService::BroadcastInd, true);
    assert_eq!(sync_request_step(&bc, &sec(), &SERIAL, false, true), SyncRequestPlan::Drop(None));
    bc.serial = SERIAL;
    assert_eq!(
        sync_request_step(&bc, &sec(), &SERIAL, false, true),
        SyncRequestPlan::Verify { key: TOOL, service: TxService::BroadcastReq }
    );
    let mut s = sec();
    s.sender_ia_index = None;
    assert_eq!(
        sync_request_step(&sync_req(RxService::DataInd, false), &s, &SERIAL, false, true),
        SyncRequestPlan::Drop(Some(SecurityFailure::RoleError))
    );
    assert_eq!(
        sync_request_step(&sync_req(RxService::GroupDataInd, true), &sec(), &SERIAL, false, true),
        SyncRequestPlan::Drop(None)
    );
    // Without P2P keys only tool access is answered.
    assert_eq!(
        sync_request_step(&sync_req(RxService::DataInd, false), &sec(), &SERIAL, false, false),
        SyncRequestPlan::Drop(None)
    );
    assert_eq!(
        sync_request_step(&sync_req(RxService::DataInd, true), &sec(), &SERIAL, false, false),
        SyncRequestPlan::Verify { key: TOOL, service: TxService::DataReq }
    );
}

#[test]
fn sync_response_advances_the_requesters_counter() {
    let sending = u64_to_seq6(500);
    let mut store = FaultySequenceStore { receiving: Some(u64_to_seq6(3)), sending, ..Default::default() };
    let req = sync_req(RxService::DataInd, false);
    match build_sync_response_for(&mut store, &req, TxService::DataReq, true, u64_to_seq6(1), 0x1105) {
        SyncResponseOutcome::Respond(resp) => {
            assert_eq!(seq6_to_u64(&resp.seq_local), 10);
            assert_eq!(resp.seq_remote, sending);
            assert_eq!(resp.src, 0x1105);
            assert_eq!(resp.dst, 0x1101);
            assert_eq!(resp.scf.service, SecureService::SyncResponse);
            assert!(resp.scf.confidentiality);
        }
        other => panic!("unexpected {:?}", other),
    }
    assert_eq!(store.receiving, Some(u64_to_seq6(9)));

    // A request behind the stored counter is answered one past it.
    let mut store = FaultySequenceStore { receiving: Some(u64_to_seq6(40)), fail_sending_load: true, ..Default::default() };
    match build_sync_response_for(&mut store, &req, TxService::DataReq, true, sending, 0x1105) {
        SyncResponseOutcome::Respond(resp) => {
            assert_eq!(seq6_to_u64(&resp.seq_local), 41);
            // The sending counter cannot be loaded: the default is named.
            assert_eq!(resp.seq_remote, sending);
        }
        other => panic!("unexpected {:?}", other),
    }
    assert_eq!(store.save_count, 0);

    let mut store = FaultySequenceStore::default();
    assert_eq!(
        build_sync_response_for(&mut store, &req, TxService::DataReq, false, sending, 0x1105),
        SyncResponseOutcome::Dropped(Some(SecurityFailure::CryptoError))
    );
    assert_eq!(store.save_count, 0);
}

fn pending() -> PendingSync {
    PendingSync { peer_ia: 0x1101, tool_access: false, challenge: [1; 6], key: P2P, is_broadcast: false }
}

fn resp_frame() -> SyncResponseFrame {
    SyncResponseFrame { src: 0x1101, tool_access: false, system_broadcast: false, long_enough: true }
}

#[test]
fn sync_responses_update_counters_and_clear_the_pending_sync() {
    let step = sync_response_step(Some(pending()), &resp_frame(), false, true, u64_to_seq6(20), u64_to_seq6(30), u64_to_seq6(25));
    assert_eq!(step.pending, None);
    assert_eq!(step.failure, None);
    assert_eq!(step.save_receiving, Some(u64_to_seq6(20)));
    assert_eq!(step.save_sending, Some(u64_to_seq6(30)));

    let step = sync_response_step(Some(pending()), &resp_frame(), false, true, u64_to_seq6(20), u64_to_seq6(5), u64_to_seq6(25));
    assert_eq!(step.save_sending, None);

    let mut other = resp_frame();
    other.src = 0x1102;
    let step = sync_response_step(Some(pending()), &other, false, true, u64_to_seq6(20), u64_to_seq6(30), u64_to_seq6(25));
    assert_eq!(step.pending, Some(pending()));
    assert_eq!(step.save_receiving, None);

    let step = sync_response_step(Some(pending()), &resp_frame(), true, true, u64_to_seq6(20), u64_to_seq6(30), u64_to_seq6(25));
    assert_eq!(step.pending, None);
    assert_eq!(step.save_receiving, None);

    let step = sync_response_step(Some(pending()), &resp_frame(), false, false, u64_to_seq6(20), u64_to_seq6(30), u64_to_seq6(25));
    assert_eq!(step.failure, Some(SecurityFailure::CryptoError));
    assert_eq!(step.pending, None);
}

#[test]
fn initiating_a_sync_builds_the_request_and_the_pending_state() {
    let (p, req) = initiate_sync_step(0x1101, false, false, &sec(), SERIAL, 0x1105, u64_to_seq6(77), [5; 6]).unwrap();
    assert_eq!(p, PendingSync { peer_ia: 0x1101, tool_access: false, challenge: [5; 6], key: P2P, is_broadcast: false });
    assert_eq!(req.service, TxService::DataUnackReq);
    assert_eq!(req.dst, 0x1101);
    assert_eq!(req.serial, [0; 6]);
    assert_eq!((req.ctrl, req.npdu), (0xB0, 0x60));
    let (_, bc) = initiate_sync_step(0x1101, true, true, &sec(), SERIAL, 0x1105, u64_to_seq6(77), [5; 6]).unwrap();
    assert_eq!(bc.service, TxService::BroadcastReq);
    assert_eq!(bc.dst, 0);
    assert_eq!(bc.serial, SERIAL);
    assert_eq!((bc.ctrl, bc.npdu), (0xBC, 0xE1));
    let mut s = sec();
    s.p2p_key = None;
    assert_eq!(initiate_sync_step(0x1101, false, false, &s, SERIAL, 0x1105, u64_to_seq6(77), [5; 6]), None);
}

#[test]
fn spontaneous_frames_are_secured_or_refused() {
    let keys = OutgoingKeys { tool_key: TOOL, group_key: Some(GROUP), p2p_key: None };
    let g = spontaneous_plan(Some(TxService::GroupDataReq), false, false, 3, &keys, 0x1105).unwrap();
    assert_eq!(g.key, GROUP);
    assert!(!g.scf.confidentiality);
    assert_eq!(g.src, 0x1105);
    assert_eq!(spontaneous_plan(Some(TxService::DataReq), true, false, 0x1101, &keys, 0x1105), None);
    assert_eq!(spontaneous_plan(Some(TxService::BroadcastReq), true, false, 0, &keys, 0x1105), None);
    let t = spontaneous_plan(Some(TxService::DataReq), true, true, 0, &keys, 0x1105).unwrap();
    assert_eq!(t.key, TOOL);
    assert!(t.scf.tool_access);
    assert_eq!(t.src, 0);
    let sb = spontaneous_plan(Some(TxService::SystemBroadcastReq), true, true, 0, &keys, 0x1105).unwrap();
    assert!(sb.system_broadcast);
}

#[test]
fn processing_a_sync_response_saves_both_counters() {
    let mut store = FaultySequenceStore { sending: u64_to_seq6(25), ..Default::default() };
    let r = process_sync_response(&mut store, Some(pending()), &resp_frame(), false, true, u64_to_seq6(20), u64_to_seq6(30), [0; 6]);
    assert_eq!(r, (None, None));
    assert_eq!(store.receiving, Some(u64_to_seq6(20)));
    assert_eq!(store.sending, u64_to_seq6(30));

    // A response from another device changes nothing.
    let mut store = FaultySequenceStore { sending: u64_to_seq6(25), ..Default::default() };
    let mut other = resp_frame();
    other.src = 0x1102;
    let r = process_sync_response(&mut store, Some(pending()), &other, false, true, u64_to_seq6(20), u64_to_seq6(30), [0; 6]);
    assert_eq!(r, (Some(pending()), None));
    assert_eq!(store.save_count, 0);
}
