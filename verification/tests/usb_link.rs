use zweidraehte_device::layers::linklayers::usb::link_layer::{
    LinkAction, UsbLinkLayer, L_DATA_CON, L_DATA_IND, L_DATA_REQ,
};

fn frame(apdu_len: u8) -> Vec<u8> {
    vec![L_DATA_REQ, 0x00, 0xBC, 0xE0, 0x11, 0x01, 0x00, 0x01, apdu_len, 0x00, 0x80]
}

#[test]
fn usb_link_sends_and_confirms_positively() {
    let mut ll = UsbLinkLayer::new(15);
    let f = frame(1);
    let to_send = match ll.request(f.clone()) {
        LinkAction::Send(s) => s,
        _ => panic!("a frame within the limit is sent"),
    };
    assert_eq!(to_send, f);
    assert!(matches!(ll.sent(to_send, true), LinkAction::Nothing));
    assert!(ll.awaiting_confirmation());

    let con = [L_DATA_CON, 0x00, 0xBC, 0xE0];
    match ll.incoming(&con) {
        LinkAction::Confirm { frame, positive } => {
            assert_eq!(frame, f);
            assert!(positive);
        }
        _ => panic!("a confirmation confirms the pending frame"),
    }
    assert!(!ll.awaiting_confirmation());
}

#[test]
fn usb_link_negative_confirmation_bit() {
    let mut ll = UsbLinkLayer::new(15);
    ll.sent(frame(1), true);
    match ll.incoming(&[L_DATA_CON, 0x00, 0xBD]) {
        LinkAction::Confirm { positive, .. } => assert!(!positive),
        _ => panic!("a confirmation confirms the pending frame"),
    }
    // a confirmation with no frame pending is dropped
    assert!(matches!(ll.incoming(&[L_DATA_CON, 0x00, 0xBC]), LinkAction::Nothing));
}

#[test]
fn usb_link_rejects_too_long_apdu() {
    let ll = UsbLinkLayer::new(15);
    match ll.request(frame(16)) {
        LinkAction::Confirm { frame: f, positive } => {
            assert_eq!(f, frame(16));
            assert!(!positive);
        }
        _ => panic!("an APDU over the limit is refused"),
    }
    // the length octet moves with the additional information
    let mut with_info = frame(16);
    with_info[1] = 2;
    with_info.splice(2..2, [0xAA, 0xBB]);
    assert!(matches!(ll.request(with_info), LinkAction::Confirm { positive: false, .. }));
    // exactly at the limit is sent
    assert!(matches!(ll.request(frame(15)), LinkAction::Send(_)));
}

#[test]
fn usb_link_send_failure_and_timeout() {
    let mut ll = UsbLinkLayer::new(15);
    assert!(matches!(ll.sent(frame(1), false), LinkAction::Confirm { positive: false, .. }));
    assert!(!ll.awaiting_confirmation());
    assert!(matches!(ll.timeout(), LinkAction::Nothing));

    ll.sent(frame(2), true);
    match ll.timeout() {
        LinkAction::Confirm { frame: f, positive } => {
            assert_eq!(f, frame(2));
            assert!(!positive);
        }
        _ => panic!("a timeout confirms the pending frame negatively"),
    }
    assert!(!ll.awaiting_confirmation());
}

#[test]
fn usb_link_indications_and_noise() {
    let mut ll = UsbLinkLayer::new(15);
    assert!(matches!(ll.incoming(&[L_DATA_IND, 0x00, 0xBC]), LinkAction::Indicate));
    assert!(matches!(ll.incoming(&[]), LinkAction::Nothing));
    assert!(matches!(ll.incoming(&[0xFB, 0x00]), LinkAction::Nothing));
    ll.sent(frame(1), true);
    // an indication does not disturb the pending frame
    assert!(matches!(ll.incoming(&[L_DATA_IND]), LinkAction::Indicate));
    assert!(ll.awaiting_confirmation());
}
