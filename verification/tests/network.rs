use zweidraehte_device::address::IndividualAddress;
use zweidraehte_device::layers::network::{
    AddressType, BroadcastDestination, HopCountConversion, NetworkLayer, ServiceType,
};

fn own() -> IndividualAddress {
    IndividualAddress::new(1, 1, 10)
}

fn send(nl: &mut NetworkLayer, s: ServiceType) -> zweidraehte_device::layers::network::NlOutcome {
    nl.process(s, IndividualAddress::new(0, 0, 0), AddressType::Individual, own(), false, 6)
}

#[test]
fn requests_become_link_layer_requests_from_own_address() {
    let mut nl = NetworkLayer::new();
    let r = send(&mut nl, ServiceType::NGroupDataReq);
    assert_eq!(r.service_type, ServiceType::LDataReq);
    assert_eq!(r.source, Some(own()));
    assert_eq!(r.address_type, Some(AddressType::Group));
    assert_eq!(r.destination, None);
    assert_eq!(r.hop_count, Some(HopCountConversion::FromHopCountType(6)));
    assert!(r.standard_control_field);
    assert!(!r.pending_overflow);

    let r = send(&mut nl, ServiceType::NSystemBroadcastReq);
    assert_eq!(r.address_type, None);
    assert_eq!(r.destination, Some(BroadcastDestination::SystemBroadcast));
}

#[test]
fn confirmations_follow_request_order() {
    let mut nl = NetworkLayer::new();
    send(&mut nl, ServiceType::NGroupDataReq);
    send(&mut nl, ServiceType::NBroadcastReq);
    send(&mut nl, ServiceType::NDataReq);
    assert_eq!(send(&mut nl, ServiceType::LDataCon).service_type, ServiceType::NGroupDataCon);
    assert_eq!(send(&mut nl, ServiceType::LDataCon).service_type, ServiceType::NBroadcastCon);
    let c = send(&mut nl, ServiceType::LDataCon);
    assert_eq!(c.service_type, ServiceType::NDataCon);
    assert_eq!(c.hop_count, Some(HopCountConversion::ToHopCountType));
    // Nothing outstanding: the confirmation passes unchanged.
    let c = send(&mut nl, ServiceType::LDataCon);
    assert_eq!(c.service_type, ServiceType::LDataCon);
    assert_eq!(c.hop_count, None);
}

#[test]
fn fifth_outstanding_request_overflows() {
    let mut nl = NetworkLayer::new();
    for _ in 0..4 {
        assert!(!send(&mut nl, ServiceType::NDataReq).pending_overflow);
    }
    let r = send(&mut nl, ServiceType::NGroupDataReq);
    assert!(r.pending_overflow);
    assert_eq!(r.service_type, ServiceType::LDataReq);
    for _ in 0..4 {
        assert_eq!(send(&mut nl, ServiceType::LDataCon).service_type, ServiceType::NDataCon);
    }
    assert_eq!(send(&mut nl, ServiceType::LDataCon).service_type, ServiceType::LDataCon);
}

#[test]
fn indications_and_address_duplication() {
    let mut nl = NetworkLayer::new();
    let r = nl.process(ServiceType::LDataInd, own(), AddressType::Broadcast, own(), false, 6);
    assert_eq!(r.service_type, ServiceType::NBroadcastInd);
    assert!(r.address_duplication);
    assert_eq!(r.hop_count, Some(HopCountConversion::ToHopCountType));

    let r = nl.process(ServiceType::LDataInd, own(), AddressType::Group, own(), true, 6);
    assert_eq!(r.service_type, ServiceType::NGroupDataInd);
    assert!(!r.address_duplication);

    let r = nl.process(ServiceType::LDataInd, IndividualAddress::new(1, 1, 11), AddressType::Individual, own(), false, 6);
    assert_eq!(r.service_type, ServiceType::NDataInd);
    assert!(!r.address_duplication);
}

#[test]
fn four_outstanding_requests_are_confirmed_in_order() {
    let mut nl = NetworkLayer::new();
    send(&mut nl, ServiceType::NSystemBroadcastReq);
    send(&mut nl, ServiceType::NDataReq);
    send(&mut nl, ServiceType::NGroupDataReq);
    let r = send(&mut nl, ServiceType::NBroadcastReq);
    assert!(!r.pending_overflow);
    assert_eq!(send(&mut nl, ServiceType::LDataCon).service_type, ServiceType::NSystemBroadcastCon);
    assert_eq!(send(&mut nl, ServiceType::LDataCon).service_type, ServiceType::NDataCon);
    assert_eq!(send(&mut nl, ServiceType::LDataCon).service_type, ServiceType::NGroupDataCon);
    assert_eq!(send(&mut nl, ServiceType::LDataCon).service_type, ServiceType::NBroadcastCon);
    assert_eq!(send(&mut nl, ServiceType::LDataCon).service_type, ServiceType::LDataCon);
}
