//! The decisions of the transport layer around its connection state
//! machine: which indications reach the machine, what its actions do to the
//! connection and what they send, and how a connected data request is sent
//! or queued. The machine's transition function itself is handed in by its
//! result (the actions and the next state).

use vstd::prelude::*;

verus! {

/// The states of a transport connection.
#[derive(Debug, Clone, Copy, PartialEq, Eq, Structural)]
pub enum ConnState {
    Closed,
    OpenIdle,
    OpenWait,
}

/// What the layer keeps of one connection.
#[derive(Debug, Clone, Copy, PartialEq, Eq, Structural)]
pub struct TlConn {
    pub remote: u16,
    pub state: ConnState,
    /// The slot of the connection in the connection table.
    pub slot: u8,
    pub seq_no_send: u8,
    pub rep_count: u8,
    /// Whether a sent data frame waits for its acknowledgement.
    pub has_pending: bool,
    /// Whether received data waits to be delivered.
    pub queued_incoming: bool,
    /// Whether a data request waits to be sent.
    pub queued_outgoing: bool,
    pub ack_timer: bool,
    pub conn_timer: bool,
}

/// The actions of the connection state machine.
#[derive(Debug, Clone, Copy, PartialEq, Eq, Structural)]
pub enum TlAction {
    SendConnect { dest: u16 },
    SendDisconnect { dest: u16 },
    SendAck { dest: u16, seq_no: u8 },
    SendNack { dest: u16, seq_no: u8 },
    IndicateConnected { source: u16 },
    IndicateDisconnected { source: u16 },
    IndicateData,
    QueueEvent,
    DeliverQueuedData,
    ConfirmData,
    ConfirmConnect,
    ConfirmDisconnect,
    StartAckTimer,
    StopAckTimer,
    StartConnTimer,
    StopConnTimer,
    Retransmit { dest: u16 },
    StorePendingMessage,
    SendData,
    ClearPendingMessage,
}

/// The connection slot received data came on, and the sequence number the
/// response will carry.
#[derive(Debug, Clone, Copy, PartialEq, Eq, Structural)]
pub struct DataTag {
    pub slot: u8,
    pub seq_no: u8,
}

/// What the layer sends: control and data frames to the network layer, and
/// indications and confirmations to the application layer.
#[derive(Debug, Clone, Copy, PartialEq, Eq, Structural)]
pub enum TlOut {
    Connect { dest: u16 },
    Disconnect { dest: u16 },
    Ack { dest: u16, seq_no: u8 },
    Nack { dest: u16, seq_no: u8 },
    /// The pending data frame again.
    Retransmit { dest: u16 },
    /// A queued data request, sent with `seq_no`.
    QueuedData { dest: u16, seq_no: u8 },
    /// A data request, sent with `seq_no`; its confirmation goes on to the
    /// application layer.
    Data { dest: u16, seq_no: u8 },
    ConnectInd { source: u16 },
    DisconnectInd { source: u16 },
    /// Received data, tagged with the connection's slot and the sequence
    /// number the response will carry, when the connection is known.
    DataInd { tag: Option<DataTag> },
    /// Queued received data, with the connection's slot and sending number.
    QueuedDataInd { slot: u8, seq_no: u8 },
    /// The local confirmation of a data request (`false`: refused).
    DataCon { ok: bool },
}

/// Whether `o` goes to the network layer (and so has a confirmation to
/// wait for).
pub open spec fn to_network(o: TlOut) -> bool {
    o is Connect || o is Disconnect || o is Ack || o is Nack || o is Retransmit || o is QueuedData
        || o is Data
}

/// The sequence number a response to data received on `c` will carry: one
/// further while an earlier response waits for its acknowledgement.
pub open spec fn response_seq(c: TlConn) -> u8 {
    ((c.seq_no_send + (if c.has_pending {
        1int
    } else {
        0int
    })) % 16) as u8
}

/// The run of the actions: the connection with address `remote` (if the
/// table has it), whether the received data is still held, and what was
/// sent.
pub type TlRun = (Option<TlConn>, bool, Seq<TlOut>);

/// What one action does; `buffers` says whether frame buffers can be had.
/// The connection is looked up by `remote`: an action naming another
/// address finds none.
pub open spec fn action_effect(run: TlRun, remote: u16, a: TlAction, buffers: bool) -> TlRun {
    let (conn, data, out) = run;
    match a {
        TlAction::SendConnect { dest } => if buffers {
            (conn, data, out.push(TlOut::Connect { dest }))
        } else {
            run
        },
        TlAction::SendDisconnect { dest } => if buffers {
            (conn, data, out.push(TlOut::Disconnect { dest }))
        } else {
            run
        },
        TlAction::SendAck { dest, seq_no } => if buffers {
            (conn, data, out.push(TlOut::Ack { dest, seq_no }))
        } else {
            run
        },
        TlAction::SendNack { dest, seq_no } => if buffers {
            (conn, data, out.push(TlOut::Nack { dest, seq_no }))
        } else {
            run
        },
        TlAction::IndicateConnected { source } => if buffers {
            (conn, data, out.push(TlOut::ConnectInd { source }))
        } else {
            run
        },
        TlAction::IndicateDisconnected { source } => if buffers {
            (conn, data, out.push(TlOut::DisconnectInd { source }))
        } else {
            run
        },
        TlAction::IndicateData => if data {
            let tag = match conn {
                Some(c) => Some(DataTag { slot: c.slot, seq_no: response_seq(c) }),
                None => None,
            };
            (conn, false, out.push(TlOut::DataInd { tag }))
        } else {
            run
        },
        TlAction::QueueEvent => if data {
            match conn {
                Some(c) => if buffers {
                    (Some(TlConn { queued_incoming: true, ..c }), false, out)
                } else {
                    (conn, false, out)
                },
                None => (conn, false, out),
            }
        } else {
            run
        },
        TlAction::DeliverQueuedData => match conn {
            Some(c) => if c.queued_incoming {
                (
                    Some(TlConn { queued_incoming: false, ..c }),
                    data,
                    out.push(TlOut::QueuedDataInd { slot: c.slot, seq_no: c.seq_no_send }),
                )
            } else {
                run
            },
            None => run,
        },
        TlAction::StartAckTimer => match conn {
            Some(c) => (Some(TlConn { ack_timer: true, ..c }), data, out),
            None => run,
        },
        TlAction::StopAckTimer => match conn {
            Some(c) => (Some(TlConn { ack_timer: false, ..c }), data, out),
            None => run,
        },
        TlAction::StartConnTimer => match conn {
            Some(c) => (Some(TlConn { conn_timer: true, ..c }), data, out),
            None => run,
        },
        TlAction::StopConnTimer => match conn {
            Some(c) => (Some(TlConn { conn_timer: false, ..c }), data, out),
            None => run,
        },
        TlAction::Retransmit { dest } => match conn {
            Some(c) => if dest == remote && c.has_pending && buffers {
                (conn, data, out.push(TlOut::Retransmit { dest }))
            } else {
                run
            },
            None => run,
        },
        TlAction::ClearPendingMessage => match conn {
            Some(c) => (Some(TlConn { has_pending: false, ..c }), data, out),
            None => run,
        },
        _ => run,
    }
}

/// The run of `acts`, in order.
pub open spec fn actions_effect(run: TlRun, remote: u16, acts: Seq<TlAction>, buffers: bool) -> TlRun
    decreases acts.len(),
{
    if acts.len() == 0 {
        run
    } else {
        action_effect(
            actions_effect(run, remote, acts.drop_last(), buffers),
            remote,
            acts.last(),
            buffers,
        )
    }
}

/// After the actions: the state transition, then a data request queued
/// while the connection waited is sent once it is open and idle again.
pub open spec fn finish_actions(
    conn: Option<TlConn>,
    out: Seq<TlOut>,
    next_state: Option<ConnState>,
    buffers: bool,
) -> (Option<TlConn>, Seq<TlOut>) {
    let conn2 = match (conn, next_state) {
        (Some(c), Some(s)) => Some(TlConn { state: s, ..c }),
        _ => conn,
    };
    match conn2 {
        Some(c) => if c.state == ConnState::OpenIdle && c.queued_outgoing {
            (
                Some(
                    TlConn {
                        queued_outgoing: false,
                        rep_count: 0,
                        has_pending: true,
                        ack_timer: true,
                        conn_timer: true,
                        state: ConnState::OpenWait,
                        ..c
                    },
                ),
                if buffers {
                    out.push(TlOut::QueuedData { dest: c.remote, seq_no: c.seq_no_send })
                } else {
                    out
                },
            )
        } else {
            (conn2, out)
        },
        None => (conn2, out),
    }
}

/// The whole effect of a state machine result on `conn`.
pub open spec fn tl_actions_effect_spec(
    conn: Option<TlConn>,
    remote: u16,
    acts: Seq<TlAction>,
    next_state: Option<ConnState>,
    data: bool,
    buffers: bool,
) -> (Option<TlConn>, Seq<TlOut>) {
    let (c, _, out) = actions_effect((conn, data, Seq::empty()), remote, acts, buffers);
    finish_actions(c, out, next_state, buffers)
}

fn apply_action(
    conn: &mut Option<TlConn>,
    data: &mut bool,
    out: &mut Vec<TlOut>,
    remote: u16,
    a: TlAction,
    buffers: bool,
)
    ensures
        (*final(conn), *final(data), final(out)@) == action_effect(
            (*old(conn), *old(data), old(out)@),
            remote,
            a,
            buffers,
        ),
{
    match a {
        TlAction::SendConnect { dest } => if buffers {
            out.push(TlOut::Connect { dest });
        },
        TlAction::SendDisconnect { dest } => if buffers {
            out.push(TlOut::Disconnect { dest });
        },
        TlAction::SendAck { dest, seq_no } => if buffers {
            out.push(TlOut::Ack { dest, seq_no });
        },
        TlAction::SendNack { dest, seq_no } => if buffers {
            out.push(TlOut::Nack { dest, seq_no });
        },
        TlAction::IndicateConnected { source } => if buffers {
            out.push(TlOut::ConnectInd { source });
        },
        TlAction::IndicateDisconnected { source } => if buffers {
            out.push(TlOut::DisconnectInd { source });
        },
        TlAction::IndicateData => if *data {
            *data = false;
            let tag = match *conn {
                Some(c) => {
                    let p: u8 = if c.has_pending {
                        1
                    } else {
                        0
                    };
                    Some(DataTag { slot: c.slot, seq_no: (c.seq_no_send % 16 + p) % 16 })
                },
                None => None,
            };
            out.push(TlOut::DataInd { tag });
        },
        TlAction::QueueEvent => if *data {
            *data = false;
            if let Some(c) = *conn {
                if buffers {
                    *conn = Some(TlConn { queued_incoming: true, ..c });
                }
            }
        },
        TlAction::DeliverQueuedData => if let Some(c) = *conn {
            if c.queued_incoming {
                *conn = Some(TlConn { queued_incoming: false, ..c });
                out.push(TlOut::QueuedDataInd { slot: c.slot, seq_no: c.seq_no_send });
            }
        },
        TlAction::StartAckTimer => if let Some(c) = *conn {
            *conn = Some(TlConn { ack_timer: true, ..c });
        },
        TlAction::StopAckTimer => if let Some(c) = *conn {
            *conn = Some(TlConn { ack_timer: false, ..c });
        },
        TlAction::StartConnTimer => if let Some(c) = *conn {
            *conn = Some(TlConn { conn_timer: true, ..c });
        },
        TlAction::StopConnTimer => if let Some(c) = *conn {
            *conn = Some(TlConn { conn_timer: false, ..c });
        },
        TlAction::Retransmit { dest } => if let Some(c) = *conn {
            if dest == remote && c.has_pending && buffers {
                out.push(TlOut::Retransmit { dest });
            }
        },
        TlAction::ClearPendingMessage => if let Some(c) = *conn {
            *conn = Some(TlConn { has_pending: false, ..c });
        },
        _ => {},
    }
}

/// Carry out a state machine result on the connection `conn` with address
/// `remote`: the actions in order (`data` says whether received data comes
/// with them), the state transition, and the release of a queued data
/// request. Returns the connection afterwards and what was sent, in order.
pub fn tl_actions_effect(
    conn: Option<TlConn>,
    remote: u16,
    actions: &[TlAction],
    next_state: Option<ConnState>,
    data: bool,
    buffers: bool,
) -> (r: (Option<TlConn>, Vec<TlOut>))
    ensures
        (r.0, r.1@) == tl_actions_effect_spec(conn, remote, actions@, next_state, data, buffers),
{
    let mut c = conn;
    let mut held = data;
    let mut out: Vec<TlOut> = Vec::new();
    let mut i: usize = 0;
    while i < actions.len()
        invariant
            i <= actions@.len(),
            (c, held, out@) == actions_effect(
                (conn, data, Seq::empty()),
                remote,
                actions@.take(i as int),
                buffers,
            ),
        decreases actions@.len() - i,
    {
        assert(actions@.take(i as int + 1).drop_last() =~= actions@.take(i as int));
        apply_action(&mut c, &mut held, &mut out, remote, actions[i], buffers);
        i = i + 1;
    }
    assert(actions@.take(actions@.len() as int) =~= actions@);
    if let (Some(x), Some(s)) = (c, next_state) {
        c = Some(TlConn { state: s, ..x });
    }
    if let Some(x) = c {
        if x.state == ConnState::OpenIdle && x.queued_outgoing {
            c = Some(
                TlConn {
                    queued_outgoing: false,
                    rep_count: 0,
                    has_pending: true,
                    ack_timer: true,
                    conn_timer: true,
                    state: ConnState::OpenWait,
                    ..x
                },
            );
            if buffers {
                out.push(TlOut::QueuedData { dest: x.remote, seq_no: x.seq_no_send });
            }
        }
    }
    (c, out)
}

/// The transport control field of a received point-to-point frame.
#[derive(Debug, Clone, Copy, PartialEq, Eq, Structural)]
pub enum TlTpci {
    Connect,
    Disconnect,
    Ack(u8),
    Nack(u8),
    DataConnected(u8),
    DataIndividual,
    /// Any other control field.
    Other,
}

/// The events a received frame gives the connection state machine.
#[derive(Debug, Clone, Copy, PartialEq, Eq, Structural)]
pub enum TlEvent {
    ReceivedConnect,
    ReceivedDisconnect,
    ReceivedAck(u8),
    ReceivedNack(u8),
    ReceivedData(u8),
}

/// What is done with a received point-to-point frame.
#[derive(Debug, Clone, Copy, PartialEq, Eq, Structural)]
pub enum IndicationPlan {
    Ignore,
    /// Unnumbered data: deliver it as connectionless data.
    DeliverUnack,
    /// A connect while no slot is free: answer with a disconnect.
    RejectConnect,
    /// Run the connection state machine on the event.
    Process(TlEvent),
}

/// The length of a control frame: header up to and including the TPCI.
pub const CONTROL_PACKET_LEN: usize = 7;

/// The plan for a received point-to-point frame with control field `tpci`
/// (`None`: not a valid one) and length `len`; `slot_found` says whether
/// the connection table gave the source a connection (allocating one for a
/// connect). Control frames of any other length are ignored.
pub open spec fn connection_indication_spec(tpci: Option<TlTpci>, len: usize, slot_found: bool) -> IndicationPlan {
    match tpci {
        None => IndicationPlan::Ignore,
        Some(t) => {
            let event: Option<TlEvent> = match t {
                TlTpci::Connect => if len == CONTROL_PACKET_LEN {
                    Some(TlEvent::ReceivedConnect)
                } else {
                    None
                },
                TlTpci::Disconnect => if len == CONTROL_PACKET_LEN {
                    Some(TlEvent::ReceivedDisconnect)
                } else {
                    None
                },
                TlTpci::Ack(n) => if len == CONTROL_PACKET_LEN {
                    Some(TlEvent::ReceivedAck(n))
                } else {
                    None
                },
                TlTpci::Nack(n) => if len == CONTROL_PACKET_LEN {
                    Some(TlEvent::ReceivedNack(n))
                } else {
                    None
                },
                TlTpci::DataConnected(n) => Some(TlEvent::ReceivedData(n)),
                _ => None,
            };
            if t == TlTpci::DataIndividual {
                IndicationPlan::DeliverUnack
            } else {
                match event {
                    None => IndicationPlan::Ignore,
                    Some(e) => if slot_found {
                        IndicationPlan::Process(e)
                    } else if e == TlEvent::ReceivedConnect {
                        IndicationPlan::RejectConnect
                    } else {
                        IndicationPlan::Ignore
                    },
                }
            }
        },
    }
}

/// The plan for a received point-to-point frame.
pub fn connection_indication_step(tpci: Option<TlTpci>, len: usize, slot_found: bool) -> (r:
    IndicationPlan)
    ensures
        r == connection_indication_spec(tpci, len, slot_found),
{
    let t = match tpci {
        None => return IndicationPlan::Ignore,
        Some(t) => t,
    };
    let control = len == CONTROL_PACKET_LEN;
    let event = match t {
        TlTpci::Connect => if control {
            TlEvent::ReceivedConnect
        } else {
            return IndicationPlan::Ignore;
        },
        TlTpci::Disconnect => if control {
            TlEvent::ReceivedDisconnect
        } else {
            return IndicationPlan::Ignore;
        },
        TlTpci::Ack(n) => if control {
            TlEvent::ReceivedAck(n)
        } else {
            return IndicationPlan::Ignore;
        },
        TlTpci::Nack(n) => if control {
            TlEvent::ReceivedNack(n)
        } else {
            return IndicationPlan::Ignore;
        },
        TlTpci::DataConnected(n) => TlEvent::ReceivedData(n),
        TlTpci::DataIndividual => return IndicationPlan::DeliverUnack,
        TlTpci::Other => return IndicationPlan::Ignore,
    };
    if slot_found {
        IndicationPlan::Process(event)
    } else if event == TlEvent::ReceivedConnect {
        IndicationPlan::RejectConnect
    } else {
        IndicationPlan::Ignore
    }
}

/// Whether the state machine deferred a data request.
pub open spec fn defers(acts: Seq<TlAction>) -> bool {
    exists|i: int| 0 <= i < acts.len() && acts[i] == TlAction::QueueEvent
}

/// What a connected data request to `dest` (`None`: not an individual
/// address) does, on the connection `conn` the table has for it, given the
/// state machine's result: refused without a connection; queued while the
/// connection waits (and confirmed locally); else sent with the
/// connection's sending number and kept for retransmission.
pub open spec fn data_request_spec(
    conn: Option<TlConn>,
    dest: Option<u16>,
    acts: Seq<TlAction>,
    next_state: Option<ConnState>,
    buffers: bool,
) -> (Option<TlConn>, Seq<TlOut>) {
    match (dest, conn) {
        (Some(d), Some(c)) => if defers(acts) {
            let (c2, out) = tl_actions_effect_spec(
                Some(TlConn { queued_outgoing: true, ..c }),
                d,
                acts,
                next_state,
                false,
                buffers,
            );
            (c2, if buffers {
                out.push(TlOut::DataCon { ok: true })
            } else {
                out
            })
        } else {
            let (c2, out) = tl_actions_effect_spec(
                Some(TlConn { has_pending: true, ..c }),
                d,
                acts,
                next_state,
                false,
                buffers,
            );
            (c2, if buffers {
                out.push(TlOut::Data { dest: d, seq_no: c.seq_no_send })
            } else {
                out
            })
        },
        _ => (conn, seq![TlOut::DataCon { ok: false }]),
    }
}

/// A connected data request.
pub fn data_request_step(
    conn: Option<TlConn>,
    dest: Option<u16>,
    actions: &[TlAction],
    next_state: Option<ConnState>,
    buffers: bool,
) -> (r: (Option<TlConn>, Vec<TlOut>))
    ensures
        (r.0, r.1@) == data_request_spec(conn, dest, actions@, next_state, buffers),
{
    let (d, c) = match (dest, conn) {
        (Some(d), Some(c)) => (d, c),
        _ => {
            let mut out: Vec<TlOut> = Vec::new();
            out.push(TlOut::DataCon { ok: false });
            assert(out@ =~= seq![TlOut::DataCon { ok: false }]);
            return (conn, out);
        },
    };
    let mut queue = false;
    let mut i: usize = 0;
    while i < actions.len()
        invariant
            i <= actions@.len(),
            queue <==> exists|k: int| 0 <= k < i && actions@[k] == TlAction::QueueEvent,
        decreases actions@.len() - i,
    {
        if actions[i] == TlAction::QueueEvent {
            queue = true;
        }
        i = i + 1;
    }
    if queue {
        let (c2, mut out) = tl_actions_effect(
            Some(TlConn { queued_outgoing: true, ..c }),
            d,
            actions,
            next_state,
            false,
            buffers,
        );
        if buffers {
            out.push(TlOut::DataCon { ok: true });
        }
        (c2, out)
    } else {
        let (c2, mut out) = tl_actions_effect(
            Some(TlConn { has_pending: true, ..c }),
            d,
            actions,
            next_state,
            false,
            buffers,
        );
        if buffers {
            out.push(TlOut::Data { dest: d, seq_no: c.seq_no_send });
        }
        (c2, out)
    }
}

/// How many indications of received data `out` holds.
pub open spec fn data_inds(out: Seq<TlOut>) -> nat
    decreases out.len(),
{
    if out.len() == 0 {
        0
    } else {
        data_inds(out.drop_last()) + if out.last() is DataInd {
            1nat
        } else {
            0nat
        }
    }
}

proof fn lemma_data_inds_push(out: Seq<TlOut>, o: TlOut)
    ensures
        data_inds(out.push(o)) == data_inds(out) + if o is DataInd {
            1nat
        } else {
            0nat
        },
{
    assert(out.push(o).drop_last() =~= out);
}

proof fn lemma_actions_hand_on_data_once(run: TlRun, remote: u16, acts: Seq<TlAction>, buffers: bool)
    ensures
        ({
            let after = actions_effect(run, remote, acts, buffers);
            &&& data_inds(after.2) + (if after.1 {
                1nat
            } else {
                0nat
            }) <= data_inds(run.2) + (if run.1 {
                1nat
            } else {
                0nat
            })
            &&& run.2.len() <= after.2.len()
            &&& after.2.subrange(0, run.2.len() as int) == run.2
        }),
    decreases acts.len(),
{
    if acts.len() > 0 {
        lemma_actions_hand_on_data_once(run, remote, acts.drop_last(), buffers);
        let mid = actions_effect(run, remote, acts.drop_last(), buffers);
        let a = acts.last();
        let (conn, data, out) = mid;
        match a {
            TlAction::SendConnect { dest } => lemma_data_inds_push(out, TlOut::Connect { dest }),
            TlAction::SendDisconnect { dest } => lemma_data_inds_push(out, TlOut::Disconnect { dest }),
            TlAction::SendAck { dest, seq_no } => lemma_data_inds_push(out, TlOut::Ack { dest, seq_no }),
            TlAction::SendNack { dest, seq_no } => lemma_data_inds_push(
                out,
                TlOut::Nack { dest, seq_no },
            ),
            TlAction::IndicateConnected { source } => lemma_data_inds_push(
                out,
                TlOut::ConnectInd { source },
            ),
            TlAction::IndicateDisconnected { source } => lemma_data_inds_push(
                out,
                TlOut::DisconnectInd { source },
            ),
            TlAction::IndicateData => {
                let tag = match conn {
                    Some(c) => Some(DataTag { slot: c.slot, seq_no: response_seq(c) }),
                    None => None,
                };
                lemma_data_inds_push(out, TlOut::DataInd { tag });
            },
            TlAction::DeliverQueuedData => match conn {
                Some(c) => lemma_data_inds_push(
                    out,
                    TlOut::QueuedDataInd { slot: c.slot, seq_no: c.seq_no_send },
                ),
                None => {},
            },
            TlAction::Retransmit { dest } => lemma_data_inds_push(out, TlOut::Retransmit { dest }),
            _ => {},
        }
        let after = actions_effect(run, remote, acts, buffers);
        assert(after.2.subrange(0, run.2.len() as int) =~= run.2) by {
            assert(after.2.subrange(0, mid.2.len() as int) =~= mid.2);
        }
    } else {
        assert(run.2.subrange(0, run.2.len() as int) =~= run.2);
    }
}

/// Received connected data is handed to the application layer at most
/// once, whatever the state machine's actions; without data, never.
pub proof fn lemma_received_data_delivered_at_most_once(
    conn: Option<TlConn>,
    remote: u16,
    acts: Seq<TlAction>,
    next_state: Option<ConnState>,
    data: bool,
    buffers: bool,
)
    ensures
        data_inds(tl_actions_effect_spec(conn, remote, acts, next_state, data, buffers).1) <= (if data {
            1nat
        } else {
            0nat
        }),
{
    let run: TlRun = (conn, data, Seq::empty());
    lemma_actions_hand_on_data_once(run, remote, acts, buffers);
    let after = actions_effect(run, remote, acts, buffers);
    let c = after.0;
    let out = after.2;
    let c2 = match (c, next_state) {
        (Some(x), Some(s)) => Some(TlConn { state: s, ..x }),
        _ => c,
    };
    match c2 {
        Some(x) => if x.state == ConnState::OpenIdle && x.queued_outgoing && buffers {
            lemma_data_inds_push(out, TlOut::QueuedData { dest: x.remote, seq_no: x.seq_no_send });
        },
        None => {},
    }
}

/// With frame buffers, every action that sends or indicates something
/// appends exactly that frame or indication, to the peer or source it
/// names, and changes neither the connection nor the held data; without
/// buffers those actions send nothing.
pub proof fn lemma_send_and_indicate_actions_emit_their_frame(
    run: TlRun,
    remote: u16,
    peer: u16,
    seq_no: u8,
    buffers: bool,
)
    ensures
        ({
            let emits = |a: TlAction, o: TlOut|
                action_effect(run, remote, a, buffers) == if buffers {
                    (run.0, run.1, run.2.push(o))
                } else {
                    run
                };
            &&& emits(TlAction::SendConnect { dest: peer }, TlOut::Connect { dest: peer })
            &&& emits(TlAction::SendDisconnect { dest: peer }, TlOut::Disconnect { dest: peer })
            &&& emits(TlAction::SendAck { dest: peer, seq_no }, TlOut::Ack { dest: peer, seq_no })
            &&& emits(TlAction::SendNack { dest: peer, seq_no }, TlOut::Nack { dest: peer, seq_no })
            &&& emits(
                TlAction::IndicateConnected { source: peer },
                TlOut::ConnectInd { source: peer },
            )
            &&& emits(
                TlAction::IndicateDisconnected { source: peer },
                TlOut::DisconnectInd { source: peer },
            )
        }),
{
}

/// A remote disconnect is reported: when the actions carry an
/// IndicateDisconnected for a source and buffers are available, the
/// outputs hold a disconnect indication for that source, whatever the
/// other actions and the state transition.
pub proof fn lemma_disconnect_is_indicated(
    conn: Option<TlConn>,
    remote: u16,
    acts: Seq<TlAction>,
    next_state: Option<ConnState>,
    data: bool,
    i: int,
    source: u16,
)
    requires
        0 <= i < acts.len(),
        acts[i] == (TlAction::IndicateDisconnected { source }),
    ensures
        tl_actions_effect_spec(conn, remote, acts, next_state, data, true).1.contains(
            TlOut::DisconnectInd { source },
        ),
{
    let run: TlRun = (conn, data, Seq::empty());
    let k = i + 1;
    let pre = actions_effect(run, remote, acts.take(i), true);
    assert(acts.take(k).drop_last() =~= acts.take(i));
    let mid = actions_effect(run, remote, acts.take(k), true);
    assert(mid.2 == pre.2.push(TlOut::DisconnectInd { source }));
    assert(mid.2[pre.2.len() as int] == TlOut::DisconnectInd { source });
    lemma_outputs_only_grow(mid, remote, acts.skip(k), true);
    lemma_effect_split(run, remote, acts, k, true);
    let after = actions_effect(run, remote, acts, true);
    assert(after.2[pre.2.len() as int] == TlOut::DisconnectInd { source });
    let c = after.0;
    let out = after.2;
    let c2 = match (c, next_state) {
        (Some(x), Some(s)) => Some(TlConn { state: s, ..x }),
        _ => c,
    };
    let fin = tl_actions_effect_spec(conn, remote, acts, next_state, data, true).1;
    assert(fin.len() >= out.len() && fin[pre.2.len() as int] == out[pre.2.len() as int]) by {
        match c2 {
            Some(x) => if x.state == ConnState::OpenIdle && x.queued_outgoing {
                assert(fin == out.push(TlOut::QueuedData { dest: x.remote, seq_no: x.seq_no_send }));
            },
            None => {},
        }
    }
    assert(fin[pre.2.len() as int] == TlOut::DisconnectInd { source });
}

proof fn lemma_outputs_only_grow(run: TlRun, remote: u16, acts: Seq<TlAction>, buffers: bool)
    ensures
        ({
            let after = actions_effect(run, remote, acts, buffers);
            &&& run.2.len() <= after.2.len()
            &&& forall|j: int| 0 <= j < run.2.len() ==> after.2[j] == run.2[j]
        }),
    decreases acts.len(),
{
    if acts.len() > 0 {
        lemma_outputs_only_grow(run, remote, acts.drop_last(), buffers);
    }
}

proof fn lemma_effect_split(run: TlRun, remote: u16, acts: Seq<TlAction>, k: int, buffers: bool)
    requires
        0 <= k <= acts.len(),
    ensures
        actions_effect(run, remote, acts, buffers) == actions_effect(
            actions_effect(run, remote, acts.take(k), buffers),
            remote,
            acts.skip(k),
            buffers,
        ),
    decreases acts.len(),
{
    if acts.len() == k {
        assert(acts.take(k) =~= acts);
        assert(acts.skip(k) =~= Seq::<TlAction>::empty());
    } else {
        lemma_effect_split(run, remote, acts.drop_last(), k, buffers);
        assert(acts.drop_last().take(k) =~= acts.take(k));
        assert(acts.skip(k).drop_last() =~= acts.drop_last().skip(k));
        assert(acts.skip(k).last() == acts.last());
    }
}

/// The actions on the connection itself, for a known connection `c`:
/// timers start and stop; clearing the pending frame clears it; a
/// retransmission resends exactly when a frame is pending for that
/// connection and buffers are available; received data is delivered at
/// most once and tagged with the number one past the sending number while
/// a response is pending; queued data is delivered once and cleared.
pub proof fn lemma_connection_actions(c: TlConn, data: bool, out: Seq<TlOut>, buffers: bool)
    ensures
        ({
            let run: TlRun = (Some(c), data, out);
            let step = |a: TlAction| action_effect(run, c.remote, a, buffers);
            &&& step(TlAction::StartAckTimer) == (Some(TlConn { ack_timer: true, ..c }), data, out)
            &&& step(TlAction::StopAckTimer) == (Some(TlConn { ack_timer: false, ..c }), data, out)
            &&& step(TlAction::StartConnTimer) == (
                Some(TlConn { conn_timer: true, ..c }),
                data,
                out,
            )
            &&& step(TlAction::StopConnTimer) == (
                Some(TlConn { conn_timer: false, ..c }),
                data,
                out,
            )
            &&& step(TlAction::ClearPendingMessage) == (
                Some(TlConn { has_pending: false, ..c }),
                data,
                out,
            )
            &&& step(TlAction::Retransmit { dest: c.remote }).2 == if c.has_pending && buffers {
                out.push(TlOut::Retransmit { dest: c.remote })
            } else {
                out
            }
            &&& step(TlAction::IndicateData) == if data {
                (
                    Some(c),
                    false,
                    out.push(
                        TlOut::DataInd {
                            tag: Some(
                                DataTag {
                                    slot: c.slot,
                                    seq_no: ((c.seq_no_send as int + if c.has_pending {
                                        1int
                                    } else {
                                        0int
                                    }) % 16) as u8,
                                },
                            ),
                        },
                    ),
                )
            } else {
                run
            }
            &&& step(TlAction::DeliverQueuedData) == if c.queued_incoming {
                (
                    Some(TlConn { queued_incoming: false, ..c }),
                    data,
                    out.push(TlOut::QueuedDataInd { slot: c.slot, seq_no: c.seq_no_send }),
                )
            } else {
                run
            }
        }),
{
}

} // verus!
