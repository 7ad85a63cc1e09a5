//! The network layer: it turns link layer indications and confirmations
//! into network layer ones and network layer requests into link layer
//! requests, converts between hop count and hop count type, stamps the
//! device's own address on what it sends, and detects another device using
//! the same individual address.
//!
//! Requests are sent without waiting for their confirmation; confirmations
//! come back in request order, so the address types of the outstanding
//! requests are kept in a FIFO of four.

use heapless::Deque;
use vstd::prelude::*;

use crate::address::IndividualAddress;

verus! {

// ============================================================================
// The FIFO of outstanding requests (heapless::Deque)
// ============================================================================

/// `heapless::Deque`, a fixed-capacity ring buffer.
#[verifier::external_type_specification]
#[verifier::external_body]
#[verifier::reject_recursive_types(T)]
pub struct ExDeque<T, const N: usize>(Deque<T, N>);

/// The items of a deque of capacity four, front first.
pub uninterp spec fn deque_items(d: Deque<u8, 4>) -> Seq<u8>;

/// `Deque::new`: an empty deque.
#[verifier::external_body]
fn deque_new() -> (r: Deque<u8, 4>)
    ensures
        deque_items(r) == Seq::<u8>::empty(),
{
    Deque::new()
}

/// `Deque::push_back`: appends `item` unless the deque is full, in which
/// case it hands `item` back and changes nothing.
#[verifier::external_body]
fn deque_push_back(d: &mut Deque<u8, 4>, item: u8) -> (r: Result<(), u8>)
    ensures
        r == if deque_items(*old(d)).len() < 4 {
            Ok::<(), u8>(())
        } else {
            Err::<(), u8>(item)
        },
        deque_items(*final(d)) == if deque_items(*old(d)).len() < 4 {
            deque_items(*old(d)).push(item)
        } else {
            deque_items(*old(d))
        },
{
    d.push_back(item)
}

/// `Deque::pop_front`: removes and returns the front item, or `None` when
/// the deque is empty (which it then stays).
#[verifier::external_body]
fn deque_pop_front(d: &mut Deque<u8, 4>) -> (r: Option<u8>)
    ensures
        r == if deque_items(*old(d)).len() == 0 {
            None
        } else {
            Some(deque_items(*old(d))[0])
        },
        deque_items(*final(d)) == if deque_items(*old(d)).len() == 0 {
            deque_items(*old(d))
        } else {
            deque_items(*old(d)).drop_first()
        },
{
    d.pop_front()
}

// ============================================================================
// Messages
// ============================================================================

/// Addressing of a frame.
#[derive(Debug, Clone, Copy, PartialEq, Eq, Structural)]
pub enum AddressType {
    Individual,
    Group,
    Broadcast,
    SystemBroadcast,
}

impl AddressType {
    pub open spec fn code(self) -> u8 {
        match self {
            AddressType::Individual => 0,
            AddressType::Group => 1,
            AddressType::Broadcast => 2,
            AddressType::SystemBroadcast => 3,
        }
    }

    pub open spec fn decode(c: u8) -> AddressType {
        if c == 0 {
            AddressType::Individual
        } else if c == 1 {
            AddressType::Group
        } else if c == 2 {
            AddressType::Broadcast
        } else {
            AddressType::SystemBroadcast
        }
    }

    fn to_code(self) -> (r: u8)
        ensures
            r == self.code(),
    {
        match self {
            AddressType::Individual => 0,
            AddressType::Group => 1,
            AddressType::Broadcast => 2,
            AddressType::SystemBroadcast => 3,
        }
    }

    fn from_code(c: u8) -> (r: AddressType)
        ensures
            r == AddressType::decode(c),
    {
        if c == 0 {
            AddressType::Individual
        } else if c == 1 {
            AddressType::Group
        } else if c == 2 {
            AddressType::Broadcast
        } else {
            AddressType::SystemBroadcast
        }
    }
}

/// The services the network layer converts between.
#[derive(Debug, Clone, Copy, PartialEq, Eq, Structural)]
pub enum ServiceType {
    LDataInd,
    LDataCon,
    LDataReq,
    NDataReq,
    NGroupDataReq,
    NBroadcastReq,
    NSystemBroadcastReq,
    NDataInd,
    NGroupDataInd,
    NBroadcastInd,
    NSystemBroadcastInd,
    NDataCon,
    NGroupDataCon,
    NBroadcastCon,
    NSystemBroadcastCon,
}

/// The services the network layer is handed: link layer indications and
/// confirmations, and network layer requests.
pub open spec fn handled(s: ServiceType) -> bool {
    s == ServiceType::LDataInd || s == ServiceType::LDataCon || s == ServiceType::NDataReq || s
        == ServiceType::NGroupDataReq || s == ServiceType::NBroadcastReq || s
        == ServiceType::NSystemBroadcastReq
}

/// The network layer indication for a frame of address type `t`.
pub open spec fn indication_for(t: AddressType) -> ServiceType {
    match t {
        AddressType::Group => ServiceType::NGroupDataInd,
        AddressType::Broadcast => ServiceType::NBroadcastInd,
        AddressType::Individual => ServiceType::NDataInd,
        AddressType::SystemBroadcast => ServiceType::NSystemBroadcastInd,
    }
}

/// The network layer confirmation for a request of address type `t`.
pub open spec fn confirmation_for(t: AddressType) -> ServiceType {
    match t {
        AddressType::Group => ServiceType::NGroupDataCon,
        AddressType::Broadcast => ServiceType::NBroadcastCon,
        AddressType::Individual => ServiceType::NDataCon,
        AddressType::SystemBroadcast => ServiceType::NSystemBroadcastCon,
    }
}

/// The address type a network layer request sends with.
pub open spec fn request_address_type(s: ServiceType) -> AddressType {
    match s {
        ServiceType::NGroupDataReq => AddressType::Group,
        ServiceType::NBroadcastReq => AddressType::Broadcast,
        ServiceType::NSystemBroadcastReq => AddressType::SystemBroadcast,
        _ => AddressType::Individual,
    }
}

/// Which way the hop count field is converted.
#[derive(Debug, Clone, Copy, PartialEq, Eq, Structural)]
pub enum HopCountConversion {
    /// Upward: from the frame's hop count to the hop count type.
    ToHopCountType,
    /// Downward: from the hop count type to a hop count, using the routing
    /// count.
    FromHopCountType(u8),
}

/// A broadcast destination.
#[derive(Debug, Clone, Copy, PartialEq, Eq, Structural)]
pub enum BroadcastDestination {
    Broadcast,
    SystemBroadcast,
}

/// What the network layer does to one message.
#[derive(Debug, Clone, Copy, PartialEq, Eq, Structural)]
pub struct NlOutcome {
    /// The service the message carries on.
    pub service_type: ServiceType,
    /// The hop count conversion to apply, if any.
    pub hop_count: Option<HopCountConversion>,
    /// The source address to stamp, if any.
    pub source: Option<IndividualAddress>,
    /// The address type to set, if any.
    pub address_type: Option<AddressType>,
    /// The broadcast destination to set, if any.
    pub destination: Option<BroadcastDestination>,
    /// Whether the control field is rebuilt as a standard frame that allows
    /// repetition, with acknowledgement don't-care and no error (only the
    /// priority is kept).
    pub standard_control_field: bool,
    /// Whether to raise the sticky address duplication flag.
    pub address_duplication: bool,
    /// Whether the FIFO of outstanding requests was full, so this request's
    /// confirmation will not be matched.
    pub pending_overflow: bool,
}

/// An outcome that only changes the service type and hop count.
pub open spec fn plain_outcome(s: ServiceType, hop: Option<HopCountConversion>) -> NlOutcome {
    NlOutcome {
        service_type: s,
        hop_count: hop,
        source: None,
        address_type: None,
        destination: None,
        standard_control_field: false,
        address_duplication: false,
        pending_overflow: false,
    }
}

/// One message through the network layer: the outstanding requests after
/// it and what is done to it. `own` is the device's individual address,
/// `duplication` the current duplication flag, `routing_count` the hop
/// count given to outgoing frames.
pub open spec fn nl_step(
    pending: Seq<AddressType>,
    service_type: ServiceType,
    source: IndividualAddress,
    address_type: AddressType,
    own: IndividualAddress,
    duplication: bool,
    routing_count: u8,
) -> (Seq<AddressType>, NlOutcome) {
    if service_type == ServiceType::LDataInd {
        (
            pending,
            NlOutcome {
                address_duplication: source == own && !duplication,
                ..plain_outcome(
                    indication_for(address_type),
                    Some(HopCountConversion::ToHopCountType),
                )
            },
        )
    } else if service_type == ServiceType::LDataCon {
        if pending.len() == 0 {
            (pending, plain_outcome(ServiceType::LDataCon, None))
        } else {
            (
                pending.drop_first(),
                plain_outcome(
                    confirmation_for(pending[0]),
                    Some(HopCountConversion::ToHopCountType),
                ),
            )
        }
    } else {
        let t = request_address_type(service_type);
        let full = pending.len() >= 4;
        (
            if full {
                pending
            } else {
                pending.push(t)
            },
            NlOutcome {
                service_type: ServiceType::LDataReq,
                hop_count: Some(HopCountConversion::FromHopCountType(routing_count)),
                source: Some(own),
                address_type: if t == AddressType::Individual || t == AddressType::Group {
                    Some(t)
                } else {
                    None
                },
                destination: if t == AddressType::Broadcast {
                    Some(BroadcastDestination::Broadcast)
                } else if t == AddressType::SystemBroadcast {
                    Some(BroadcastDestination::SystemBroadcast)
                } else {
                    None
                },
                standard_control_field: true,
                address_duplication: false,
                pending_overflow: full,
            },
        )
    }
}

// ============================================================================
// The layer
// ============================================================================

/// The network layer's own state: the address types of the requests whose
/// link layer confirmation is outstanding.
pub struct NetworkLayer {
    pending_addr_types: Deque<u8, 4>,
}

impl NetworkLayer {
    /// The address types of the outstanding requests, oldest first.
    pub closed spec fn pending(&self) -> Seq<AddressType> {
        deque_items(self.pending_addr_types).map_values(|c: u8| AddressType::decode(c))
    }

    /// At most four requests are outstanding.
    pub closed spec fn wf(&self) -> bool {
        &&& deque_items(self.pending_addr_types).len() <= 4
        &&& forall|i: int|
            0 <= i < deque_items(self.pending_addr_types).len() ==> #[trigger] deque_items(
                self.pending_addr_types,
            )[i] < 4
    }

    /// A network layer with nothing outstanding.
    pub fn new() -> (r: Self)
        ensures
            r.wf(),
            r.pending() == Seq::<AddressType>::empty(),
    {
        let r = NetworkLayer { pending_addr_types: deque_new() };
        assert(r.pending() =~= Seq::<AddressType>::empty());
        r
    }

    /// Process one message of service `service_type`, from `source`, of
    /// address type `address_type` (the last two are read for indications
    /// only).
    pub fn process(
        &mut self,
        service_type: ServiceType,
        source: IndividualAddress,
        address_type: AddressType,
        own: IndividualAddress,
        duplication: bool,
        routing_count: u8,
    ) -> (r: NlOutcome)
        requires
            old(self).wf(),
            handled(service_type),
        ensures
            final(self).wf(),
            (final(self).pending(), r) == nl_step(
                old(self).pending(),
                service_type,
                source,
                address_type,
                own,
                duplication,
                routing_count,
            ),
    {
        let ghost items = deque_items(self.pending_addr_types);
        match service_type {
            ServiceType::LDataInd => {
                let service = match address_type {
                    AddressType::Group => ServiceType::NGroupDataInd,
                    AddressType::Broadcast => ServiceType::NBroadcastInd,
                    AddressType::Individual => ServiceType::NDataInd,
                    AddressType::SystemBroadcast => ServiceType::NSystemBroadcastInd,
                };
                NlOutcome {
                    service_type: service,
                    hop_count: Some(HopCountConversion::ToHopCountType),
                    source: None,
                    address_type: None,
                    destination: None,
                    standard_control_field: false,
                    address_duplication: source == own && !duplication,
                    pending_overflow: false,
                }
            },
            ServiceType::LDataCon => {
                match deque_pop_front(&mut self.pending_addr_types) {
                    Some(code) => {
                        let t = AddressType::from_code(code);
                        let service = match t {
                            AddressType::Group => ServiceType::NGroupDataCon,
                            AddressType::Broadcast => ServiceType::NBroadcastCon,
                            AddressType::Individual => ServiceType::NDataCon,
                            AddressType::SystemBroadcast => ServiceType::NSystemBroadcastCon,
                        };
                        assert(self.pending() =~= old(self).pending().drop_first());
                        NlOutcome {
                            service_type: service,
                            hop_count: Some(HopCountConversion::ToHopCountType),
                            source: None,
                            address_type: None,
                            destination: None,
                            standard_control_field: false,
                            address_duplication: false,
                            pending_overflow: false,
                        }
                    },
                    None => NlOutcome {
                        service_type: ServiceType::LDataCon,
                        hop_count: None,
                        source: None,
                        address_type: None,
                        destination: None,
                        standard_control_field: false,
                        address_duplication: false,
                        pending_overflow: false,
                    },
                }
            },
            _ => {
                let t = match service_type {
                    ServiceType::NGroupDataReq => AddressType::Group,
                    ServiceType::NBroadcastReq => AddressType::Broadcast,
                    ServiceType::NSystemBroadcastReq => AddressType::SystemBroadcast,
                    _ => AddressType::Individual,
                };
                let (set_type, destination) = match t {
                    AddressType::Individual => (Some(AddressType::Individual), None),
                    AddressType::Group => (Some(AddressType::Group), None),
                    AddressType::Broadcast => (None, Some(BroadcastDestination::Broadcast)),
                    AddressType::SystemBroadcast => (
                        None,
                        Some(BroadcastDestination::SystemBroadcast),
                    ),
                };
                let pushed = deque_push_back(&mut self.pending_addr_types, t.to_code());
                let overflow = pushed.is_err();
                proof {
                    if !overflow {
                        assert(self.pending() =~= old(self).pending().push(t));
                    }
                }
                NlOutcome {
                    service_type: ServiceType::LDataReq,
                    hop_count: Some(HopCountConversion::FromHopCountType(routing_count)),
                    source: Some(own),
                    address_type: set_type,
                    destination,
                    standard_control_field: true,
                    address_duplication: false,
                    pending_overflow: overflow,
                }
            },
        }
    }
}

/// Whether `s` is a network layer request.
pub open spec fn is_request(s: ServiceType) -> bool {
    handled(s) && s != ServiceType::LDataInd && s != ServiceType::LDataCon
}

/// The outstanding requests after the requests `reqs`, in order, from
/// `pending` (the arguments a request does not read are fixed).
pub open spec fn pending_after_requests(
    pending: Seq<AddressType>,
    reqs: Seq<ServiceType>,
    own: IndividualAddress,
    routing_count: u8,
) -> Seq<AddressType>
    decreases reqs.len(),
{
    if reqs.len() == 0 {
        pending
    } else {
        pending_after_requests(
            nl_step(pending, reqs[0], own, AddressType::Individual, own, false, routing_count).0,
            reqs.drop_first(),
            own,
            routing_count,
        )
    }
}

/// The services of `j` successive link layer confirmations from `pending`.
pub open spec fn confirmation_services(
    pending: Seq<AddressType>,
    j: nat,
    own: IndividualAddress,
    routing_count: u8,
) -> Seq<ServiceType>
    decreases j,
{
    if j == 0 {
        Seq::empty()
    } else {
        let (next, out) = nl_step(
            pending,
            ServiceType::LDataCon,
            own,
            AddressType::Individual,
            own,
            false,
            routing_count,
        );
        seq![out.service_type] + confirmation_services(next, (j - 1) as nat, own, routing_count)
    }
}

proof fn lemma_requests_queue_up(
    pending: Seq<AddressType>,
    reqs: Seq<ServiceType>,
    own: IndividualAddress,
    routing_count: u8,
)
    requires
        pending.len() + reqs.len() <= 4,
        forall|i: int| 0 <= i < reqs.len() ==> is_request(#[trigger] reqs[i]),
    ensures
        pending_after_requests(pending, reqs, own, routing_count) == pending + reqs.map_values(
            |s: ServiceType| request_address_type(s),
        ),
    decreases reqs.len(),
{
    if reqs.len() == 0 {
        assert(pending + reqs.map_values(|s: ServiceType| request_address_type(s)) =~= pending);
    } else {
        let next = pending.push(request_address_type(reqs[0]));
        assert(is_request(reqs[0]));
        let rest = reqs.drop_first();
        assert forall|i: int| 0 <= i < rest.len() implies is_request(#[trigger] rest[i]) by {
            assert(rest[i] == reqs[i + 1]);
        }
        lemma_requests_queue_up(next, rest, own, routing_count);
        assert(next + rest.map_values(|s: ServiceType| request_address_type(s)) =~= pending
            + reqs.map_values(|s: ServiceType| request_address_type(s)));
    }
}

proof fn lemma_confirmations_drain(
    pending: Seq<AddressType>,
    j: nat,
    own: IndividualAddress,
    routing_count: u8,
)
    ensures
        confirmation_services(pending, j, own, routing_count).len() == j,
        forall|i: int|
            0 <= i < j ==> #[trigger] confirmation_services(pending, j, own, routing_count)[i] == if i
                < pending.len() {
                confirmation_for(pending[i])
            } else {
                ServiceType::LDataCon
            },
    decreases j,
{
    if j > 0 {
        let next = if pending.len() == 0 {
            pending
        } else {
            pending.drop_first()
        };
        lemma_confirmations_drain(next, (j - 1) as nat, own, routing_count);
        let all = confirmation_services(pending, j, own, routing_count);
        let tail = confirmation_services(next, (j - 1) as nat, own, routing_count);
        assert forall|i: int| 0 <= i < j implies #[trigger] all[i] == if i < pending.len() {
            confirmation_for(pending[i])
        } else {
            ServiceType::LDataCon
        } by {
            if i > 0 {
                assert(all[i] == tail[i - 1]);
                if pending.len() > 0 && i < pending.len() {
                    assert(next[i - 1] == pending[i]);
                }
            }
        }
    }
}

/// Confirmations are matched to requests in order: after up to four
/// requests from an idle layer, the `i`-th link layer confirmation becomes
/// the network layer confirmation of the `i`-th request's address type,
/// and a confirmation with no request outstanding keeps its type.
pub proof fn lemma_confirmations_follow_request_order(
    reqs: Seq<ServiceType>,
    j: nat,
    own: IndividualAddress,
    routing_count: u8,
)
    requires
        reqs.len() <= 4,
        forall|i: int| 0 <= i < reqs.len() ==> is_request(#[trigger] reqs[i]),
    ensures
        ({
            let pending = pending_after_requests(Seq::empty(), reqs, own, routing_count);
            let confs = confirmation_services(pending, j, own, routing_count);
            &&& pending.len() == reqs.len()
            &&& confs.len() == j
            &&& forall|i: int|
                0 <= i < j ==> #[trigger] confs[i] == if i < reqs.len() {
                    confirmation_for(request_address_type(reqs[i]))
                } else {
                    ServiceType::LDataCon
                }
        }),
{
    lemma_requests_queue_up(Seq::empty(), reqs, own, routing_count);
    let pending = pending_after_requests(Seq::empty(), reqs, own, routing_count);
    assert(pending =~= reqs.map_values(|s: ServiceType| request_address_type(s)));
    lemma_confirmations_drain(pending, j, own, routing_count);
}

/// The duplication flag is raised exactly for an indication carrying the
/// device's own address as source, while the flag is down.
pub proof fn lemma_duplication_detection(
    pending: Seq<AddressType>,
    service_type: ServiceType,
    source: IndividualAddress,
    address_type: AddressType,
    own: IndividualAddress,
    duplication: bool,
    routing_count: u8,
)
    ensures
        nl_step(pending, service_type, source, address_type, own, duplication, routing_count).1.address_duplication
            <==> (service_type == ServiceType::LDataInd && source == own && !duplication),
{
}

/// Every request leaves as a link layer request from the device's own
/// address; no indication or confirmation changes the source.
pub proof fn lemma_requests_carry_own_source(
    pending: Seq<AddressType>,
    service_type: ServiceType,
    source: IndividualAddress,
    address_type: AddressType,
    own: IndividualAddress,
    duplication: bool,
    routing_count: u8,
)
    requires
        handled(service_type),
    ensures
        ({
            let r = nl_step(pending, service_type, source, address_type, own, duplication, routing_count).1;
            if service_type == ServiceType::LDataInd || service_type == ServiceType::LDataCon {
                r.source is None && r.service_type != ServiceType::LDataReq
            } else {
                r.source == Some(own) && r.service_type == ServiceType::LDataReq
            }
        }),
{
}

/// The addressing of a request follows its service: a data request goes
/// out individually addressed and a group data request group addressed,
/// neither with a broadcast destination; a broadcast request goes to the
/// Broadcast destination and a system broadcast request to the
/// SystemBroadcast destination, neither with an address type set.
pub proof fn lemma_request_addressing(
    pending: Seq<AddressType>,
    source: IndividualAddress,
    address_type: AddressType,
    own: IndividualAddress,
    duplication: bool,
    routing_count: u8,
)
    ensures
        ({
            let out = |s: ServiceType|
                nl_step(pending, s, source, address_type, own, duplication, routing_count).1;
            &&& out(ServiceType::NDataReq).address_type == Some(AddressType::Individual)
            &&& out(ServiceType::NDataReq).destination is None
            &&& out(ServiceType::NGroupDataReq).address_type == Some(AddressType::Group)
            &&& out(ServiceType::NGroupDataReq).destination is None
            &&& out(ServiceType::NBroadcastReq).destination == Some(
                BroadcastDestination::Broadcast,
            )
            &&& out(ServiceType::NBroadcastReq).address_type is None
            &&& out(ServiceType::NSystemBroadcastReq).destination == Some(
                BroadcastDestination::SystemBroadcast,
            )
            &&& out(ServiceType::NSystemBroadcastReq).address_type is None
        }),
{
}

/// A request's confirmation names the request's own service: after one
/// request from an idle layer, the next link layer confirmation becomes the
/// data, group data, broadcast or system broadcast confirmation of that
/// request; and an indication becomes the indication of the frame's
/// address type.
pub proof fn lemma_services_map_one_to_one(
    req: ServiceType,
    source: IndividualAddress,
    address_type: AddressType,
    own: IndividualAddress,
    duplication: bool,
    routing_count: u8,
)
    requires
        is_request(req),
    ensures
        ({
            let pending = nl_step(
                Seq::empty(),
                req,
                source,
                address_type,
                own,
                duplication,
                routing_count,
            ).0;
            let con = nl_step(
                pending,
                ServiceType::LDataCon,
                source,
                address_type,
                own,
                duplication,
                routing_count,
            ).1.service_type;
            &&& req == ServiceType::NDataReq ==> con == ServiceType::NDataCon
            &&& req == ServiceType::NGroupDataReq ==> con == ServiceType::NGroupDataCon
            &&& req == ServiceType::NBroadcastReq ==> con == ServiceType::NBroadcastCon
            &&& req == ServiceType::NSystemBroadcastReq ==> con
                == ServiceType::NSystemBroadcastCon
        }),
        ({
            let ind = nl_step(
                Seq::empty(),
                ServiceType::LDataInd,
                source,
                address_type,
                own,
                duplication,
                routing_count,
            ).1.service_type;
            &&& address_type == AddressType::Individual ==> ind == ServiceType::NDataInd
            &&& address_type == AddressType::Group ==> ind == ServiceType::NGroupDataInd
            &&& address_type == AddressType::Broadcast ==> ind == ServiceType::NBroadcastInd
            &&& address_type == AddressType::SystemBroadcast ==> ind
                == ServiceType::NSystemBroadcastInd
        }),
{
}

} // verus!
