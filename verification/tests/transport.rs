use zweidraehte_device::layers::transport::{
    connection_indication_step, data_request_step, tl_actions_effect, ConnState, DataTag,
    IndicationPlan, TlAction, TlConn, TlEvent, TlOut, TlTpci, CONTROL_PACKET_LEN,
};

fn conn(state: ConnState) -> TlConn {
    TlConn {
        remote: 0x1101,
        state,
        slot: 0,
        seq_no_send: 3,
        rep_count: 2,
        has_pending: false,
        queued_incoming: false,
        queued_outgoing: false,
        ack_timer: false,
        conn_timer: false,
    }
}

#[test]
fn control_frames_of_the_wrong_length_are_ignored() {
    assert_eq!(
        connection_indication_step(Some(TlTpci::Connect), CONTROL_PACKET_LEN, true),
        IndicationPlan::Process(TlEvent::ReceivedConnect)
    );
    assert_eq!(connection_indication_step(Some(TlTpci::Connect), 8, true), IndicationPlan::Ignore);
    assert_eq!(connection_indication_step(Some(TlTpci::Ack(4)), 9, true), IndicationPlan::Ignore);
    assert_eq!(
        connection_indication_step(Some(TlTpci::DataConnected(1)), 12, true),
        IndicationPlan::Process(TlEvent::ReceivedData(1))
    );
    assert_eq!(connection_indication_step(Some(TlTpci::DataIndividual), 12, false), IndicationPlan::DeliverUnack);
    assert_eq!(connection_indication_step(None, 7, true), IndicationPlan::Ignore);
    assert_eq!(connection_indication_step(Some(TlTpci::Other), 7, true), IndicationPlan::Ignore);
}

#[test]
fn a_connect_without_a_free_slot_is_refused_and_other_frames_ignored() {
    assert_eq!(connection_indication_step(Some(TlTpci::Connect), 7, false), IndicationPlan::RejectConnect);
    assert_eq!(connection_indication_step(Some(TlTpci::Disconnect), 7, false), IndicationPlan::Ignore);
    assert_eq!(connection_indication_step(Some(TlTpci::DataConnected(0)), 10, false), IndicationPlan::Ignore);
}

#[test]
fn received_data_is_acknowledged_and_delivered_with_its_tag() {
    let actions = [
        TlAction::SendAck { dest: 0x1101, seq_no: 0 },
        TlAction::IndicateData,
        TlAction::IndicateData,
        TlAction::StartConnTimer,
    ];
    let mut c = conn(ConnState::OpenIdle);
    c.has_pending = true;
    let (after, out) = tl_actions_effect(Some(c), 0x1101, &actions, None, true, true);
    assert_eq!(
        out,
        vec![
            TlOut::Ack { dest: 0x1101, seq_no: 0 },
            TlOut::DataInd { tag: Some(DataTag { slot: 0, seq_no: 4 }) },
        ]
    );
    assert!(after.unwrap().conn_timer);
}

#[test]
fn connect_opens_and_indicates() {
    let actions = [TlAction::IndicateConnected { source: 0x1101 }, TlAction::StartConnTimer];
    let (after, out) = tl_actions_effect(Some(conn(ConnState::Closed)), 0x1101, &actions, Some(ConnState::OpenIdle), false, true);
    assert_eq!(out, vec![TlOut::ConnectInd { source: 0x1101 }]);
    assert_eq!(after.unwrap().state, ConnState::OpenIdle);
    // Without buffers nothing goes out.
    let (_, out) = tl_actions_effect(Some(conn(ConnState::Closed)), 0x1101, &actions, Some(ConnState::OpenIdle), false, false);
    assert!(out.is_empty());
}

#[test]
fn an_acknowledgement_releases_the_queued_request() {
    let mut c = conn(ConnState::OpenWait);
    c.has_pending = true;
    c.queued_outgoing = true;
    let actions = [TlAction::StopAckTimer, TlAction::ClearPendingMessage];
    let (after, out) = tl_actions_effect(Some(c), 0x1101, &actions, Some(ConnState::OpenIdle), false, true);
    assert_eq!(out, vec![TlOut::QueuedData { dest: 0x1101, seq_no: 3 }]);
    let after = after.unwrap();
    assert_eq!(after.state, ConnState::OpenWait);
    assert!(after.has_pending && after.ack_timer && after.conn_timer && !after.queued_outgoing);
    assert_eq!(after.rep_count, 0);
}

#[test]
fn queued_incoming_data_is_delivered_later() {
    let mut c = conn(ConnState::OpenWait);
    let (after, out) = tl_actions_effect(Some(c), 0x1101, &[TlAction::QueueEvent], None, true, true);
    assert!(out.is_empty());
    c = after.unwrap();
    assert!(c.queued_incoming);
    let (after, out) = tl_actions_effect(Some(c), 0x1101, &[TlAction::DeliverQueuedData], None, false, true);
    assert_eq!(out, vec![TlOut::QueuedDataInd { slot: 0, seq_no: 3 }]);
    assert!(!after.unwrap().queued_incoming);
}

#[test]
fn retransmission_resends_the_pending_frame() {
    let mut c = conn(ConnState::OpenWait);
    c.has_pending = true;
    let (_, out) = tl_actions_effect(Some(c), 0x1101, &[TlAction::Retransmit { dest: 0x1101 }], None, false, true);
    assert_eq!(out, vec![TlOut::Retransmit { dest: 0x1101 }]);
    let (_, out) = tl_actions_effect(Some(conn(ConnState::OpenWait)), 0x1101, &[TlAction::Retransmit { dest: 0x1101 }], None, false, true);
    assert!(out.is_empty());
}

#[test]
fn data_requests_are_sent_queued_or_refused() {
    let actions = [TlAction::StorePendingMessage, TlAction::SendData, TlAction::StartAckTimer];
    let (after, out) = data_request_step(Some(conn(ConnState::OpenIdle)), Some(0x1101), &actions, Some(ConnState::OpenWait), true);
    assert_eq!(out, vec![TlOut::Data { dest: 0x1101, seq_no: 3 }]);
    let after = after.unwrap();
    assert!(after.has_pending && after.ack_timer);
    assert_eq!(after.state, ConnState::OpenWait);

    let (after, out) = data_request_step(Some(conn(ConnState::OpenWait)), Some(0x1101), &[TlAction::QueueEvent], None, true);
    assert_eq!(out, vec![TlOut::DataCon { ok: true }]);
    assert!(after.unwrap().queued_outgoing);

    let (after, out) = data_request_step(None, Some(0x1101), &actions, None, true);
    assert_eq!(out, vec![TlOut::DataCon { ok: false }]);
    assert_eq!(after, None);
    let (_, out) = data_request_step(Some(conn(ConnState::OpenIdle)), None, &actions, None, true);
    assert_eq!(out, vec![TlOut::DataCon { ok: false }]);
}
