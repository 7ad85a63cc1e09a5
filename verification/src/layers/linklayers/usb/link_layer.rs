//! A USB interface as link layer: the builder, the interpretation of the
//! properties read from the interface, and the handling of frames between
//! the network layer and the interface.

use vstd::prelude::*;

use super::device::{DeviceSelector, UsbHidError};
use crate::address::{be16, hi_byte, lo_byte, IndividualAddress};

verus! {

/// Maximum APDU length assumed when the interface does not report one
/// (a standard TP1 frame).
pub const DEFAULT_MAX_APDU_LENGTH: u16 = 15;

/// How the USB link layer is to be set up.
#[derive(Debug, Clone)]
pub struct UsbLinkLayerBuilder {
    pub selector: DeviceSelector,
    /// The individual address to configure on the interface, if any.
    pub individual_address: Option<IndividualAddress>,
}

impl UsbLinkLayerBuilder {
    /// Auto-discover the interface; leave its address alone.
    pub fn new() -> (r: Self)
        ensures
            r.selector is AutoDiscover,
            r.individual_address is None,
    {
        UsbLinkLayerBuilder { selector: DeviceSelector::AutoDiscover, individual_address: None }
    }

    /// Select the interface with `selector`.
    pub fn with_selector(selector: DeviceSelector) -> (r: Self)
        ensures
            r.selector == selector,
            r.individual_address is None,
    {
        UsbLinkLayerBuilder { selector, individual_address: None }
    }

    /// Select the interface by vendor and product ID.
    pub fn with_vid_pid(vendor_id: u16, product_id: u16) -> (r: Self)
        ensures
            r.selector == (DeviceSelector::VidPid { vendor_id, product_id }),
            r.individual_address is None,
    {
        UsbLinkLayerBuilder {
            selector: DeviceSelector::VidPid { vendor_id, product_id },
            individual_address: None,
        }
    }

    /// Select the interface by device path.
    pub fn with_path(path: String) -> (r: Self)
        ensures
            r.selector == DeviceSelector::Path(path),
            r.individual_address is None,
    {
        UsbLinkLayerBuilder { selector: DeviceSelector::Path(path), individual_address: None }
    }

    /// Configure `address` on the interface.
    pub fn with_individual_address(self, address: IndividualAddress) -> (r: Self)
        ensures
            r.selector == self.selector,
            r.individual_address == Some(address),
    {
        UsbLinkLayerBuilder { selector: self.selector, individual_address: Some(address) }
    }
}

/// The individual address from the subnetwork and device address
/// properties; either missing is an invalid report.
pub fn individual_address_from(subnet: &[u8], device: &[u8]) -> (r: Result<
    IndividualAddress,
    UsbHidError,
>)
    ensures
        (subnet@.len() == 0 || device@.len() == 0) ==> r matches Err(UsbHidError::InvalidReport),
        (subnet@.len() > 0 && device@.len() > 0) ==> (r matches Ok(a) && a.raw == be16(
            subnet@[0],
            device@[0],
        )),
{
    if subnet.len() == 0 || device.len() == 0 {
        return Err(UsbHidError::InvalidReport);
    }
    Ok(IndividualAddress::from_bytes(&[subnet[0], device[0]]))
}

/// The subnetwork and device address octets of `address`, as written to the
/// interface's properties.
pub fn individual_address_parts(address: IndividualAddress) -> (r: (u8, u8))
    ensures
        r == (hi_byte(address.raw), lo_byte(address.raw)),
        be16(r.0, r.1) == address.raw,
{
    let b = address.as_bytes();
    proof {
        crate::address::lemma_be16_octets(address.raw);
    }
    (b[0], b[1])
}

/// The maximum APDU length from its property: two octets, big-endian.
pub fn max_apdu_length_from(data: &[u8]) -> (r: Result<u16, UsbHidError>)
    ensures
        data@.len() < 2 ==> r matches Err(UsbHidError::InvalidReport),
        data@.len() >= 2 ==> (r matches Ok(v) && v == be16(data@[0], data@[1])),
{
    if data.len() < 2 {
        return Err(UsbHidError::InvalidReport);
    }
    Ok(crate::address::be16_from(data[0], data[1]))
}

/// The communication mode from its property: the first octet.
pub fn comm_mode_from(data: &[u8]) -> (r: Result<u8, UsbHidError>)
    ensures
        data@.len() == 0 ==> r matches Err(UsbHidError::InvalidReport),
        data@.len() > 0 ==> (r matches Ok(v) && v == data@[0]),
{
    if data.len() == 0 {
        return Err(UsbHidError::InvalidReport);
    }
    Ok(data[0])
}

/// The maximum APDU length read from the interface, or the default when it
/// could not be read.
pub fn max_apdu_length_or_default(read: Result<u16, UsbHidError>) -> (r: u16)
    ensures
        r == match read {
            Ok(v) => v,
            Err(_) => DEFAULT_MAX_APDU_LENGTH,
        },
{
    match read {
        Ok(v) => v,
        Err(_) => DEFAULT_MAX_APDU_LENGTH,
    }
}

// ============================================================================
// Frames between the network layer and the interface
// ============================================================================

/// cEMI message code of a data request.
pub const L_DATA_REQ: u8 = 0x11;

/// cEMI message code of a data confirmation.
pub const L_DATA_CON: u8 = 0x2E;

/// cEMI message code of a data indication.
pub const L_DATA_IND: u8 = 0x29;

/// The offset of the length octet of a cEMI data frame: the message code,
/// the additional information length and the additional information, the
/// two control fields and the two addresses come first.
pub open spec fn npdu_length_offset(frame: Seq<u8>) -> int {
    let add_info = if frame.len() > 1 {
        frame[1] as int
    } else {
        0
    };
    2 + add_info + 6
}

/// Whether a cEMI frame carries a longer APDU than the interface takes. A
/// frame too short to hold the length octet is not refused here.
pub open spec fn apdu_too_long(frame: Seq<u8>, max_apdu_length: u16) -> bool {
    frame.len() > npdu_length_offset(frame) && frame[npdu_length_offset(frame)] as u16
        > max_apdu_length
}

/// Whether a cEMI confirmation is positive: its control field has the
/// error bit clear.
pub open spec fn positive_confirmation(cemi: Seq<u8>) -> bool {
    cemi.len() > 2 && cemi[2] & 1u8 == 0u8
}

/// What the link layer does next.
pub enum LinkAction {
    /// Nothing.
    Nothing,
    /// Hand the received frame up to the network layer as an indication.
    Indicate,
    /// Send this frame on the interface, then report how that went.
    Send(Vec<u8>),
    /// Confirm this frame to the network layer, positively or negatively.
    Confirm { frame: Vec<u8>, positive: bool },
}

/// The state of the USB link layer between events: the frame sent last,
/// while its confirmation is awaited (with the transmission timer running),
/// and the longest APDU the interface takes.
pub struct UsbLinkLayer {
    pending: Option<Vec<u8>>,
    max_apdu_length: u16,
}

impl UsbLinkLayer {
    /// The frame whose confirmation is awaited.
    pub closed spec fn pending_frame(&self) -> Option<Seq<u8>> {
        match self.pending {
            Some(f) => Some(f@),
            None => None,
        }
    }

    /// The longest APDU the interface takes.
    pub closed spec fn max_apdu(&self) -> u16 {
        self.max_apdu_length
    }

    /// A link layer for an interface taking APDUs of up to
    /// `max_apdu_length` octets, with nothing sent.
    pub fn new(max_apdu_length: u16) -> (r: Self)
        ensures
            r.pending_frame() is None,
            r.max_apdu() == max_apdu_length,
    {
        UsbLinkLayer { pending: None, max_apdu_length }
    }

    /// Whether a confirmation is awaited (the transmission timer runs).
    pub fn awaiting_confirmation(&self) -> (r: bool)
        ensures
            r == self.pending_frame() is Some,
    {
        self.pending.is_some()
    }

    /// A cEMI frame from the interface. A data confirmation while a frame
    /// awaits one confirms that frame (positively when the error bit is
    /// clear) and stops the timer; a data indication goes up to the
    /// network layer; anything else is dropped.
    pub fn incoming(&mut self, cemi: &[u8]) -> (r: LinkAction)
        ensures
            final(self).max_apdu() == old(self).max_apdu(),
            cemi@.len() > 0 && cemi@[0] == L_DATA_CON && old(self).pending_frame() is Some ==> {
                &&& r matches LinkAction::Confirm { frame, positive } && frame@ == old(
                    self,
                ).pending_frame()->0 && positive == positive_confirmation(cemi@)
                &&& final(self).pending_frame() is None
            },
            !(cemi@.len() > 0 && cemi@[0] == L_DATA_CON && old(self).pending_frame() is Some) ==> {
                &&& final(self).pending_frame() == old(self).pending_frame()
                &&& if cemi@.len() > 0 && cemi@[0] == L_DATA_IND {
                    r is Indicate
                } else {
                    r is Nothing
                }
            },
    {
        if cemi.len() == 0 {
            return LinkAction::Nothing;
        }
        let code = cemi[0];
        if code == L_DATA_CON && self.pending.is_some() {
            let frame = match self.pending.take() {
                Some(f) => f,
                None => Vec::new(),
            };
            let positive = cemi.len() > 2 && (cemi[2] & 0x01) == 0;
            return LinkAction::Confirm { frame, positive };
        }
        if code == L_DATA_IND {
            LinkAction::Indicate
        } else {
            LinkAction::Nothing
        }
    }

    /// A data request from the network layer, already as a cEMI frame. A
    /// frame with a longer APDU than the interface takes is confirmed
    /// negatively; any other is to be sent.
    pub fn request(&self, frame: Vec<u8>) -> (r: LinkAction)
        ensures
            apdu_too_long(frame@, self.max_apdu()) ==> (r matches LinkAction::Confirm {
                frame: f,
                positive,
            } && f@ == frame@ && !positive),
            !apdu_too_long(frame@, self.max_apdu()) ==> (r matches LinkAction::Send(f) && f@
                == frame@),
    {
        let add_info: usize = if frame.len() > 1 { frame[1] as usize } else { 0 };
        let offset: usize = 2 + add_info + 6;
        if frame.len() > offset && (frame[offset] as u16) > self.max_apdu_length {
            LinkAction::Confirm { frame, positive: false }
        } else {
            LinkAction::Send(frame)
        }
    }

    /// How sending `frame` went: once sent, it awaits its confirmation (in
    /// place of any frame awaiting one before) and the timer starts; a
    /// frame that could not be sent is confirmed negatively.
    pub fn sent(&mut self, frame: Vec<u8>, ok: bool) -> (r: LinkAction)
        ensures
            final(self).max_apdu() == old(self).max_apdu(),
            ok ==> r is Nothing && final(self).pending_frame() == Some(frame@),
            !ok ==> final(self).pending_frame() == old(self).pending_frame() && (
            r matches LinkAction::Confirm { frame: f, positive } && f@ == frame@ && !positive),
    {
        if ok {
            self.pending = Some(frame);
            LinkAction::Nothing
        } else {
            LinkAction::Confirm { frame, positive: false }
        }
    }

    /// The transmission timer ran out: the frame awaiting confirmation, if
    /// any, is confirmed negatively.
    pub fn timeout(&mut self) -> (r: LinkAction)
        ensures
            final(self).max_apdu() == old(self).max_apdu(),
            final(self).pending_frame() is None,
            match old(self).pending_frame() {
                Some(f) => r matches LinkAction::Confirm { frame, positive } && frame@ == f && !positive,
                None => r is Nothing,
            },
    {
        match self.pending.take() {
            Some(frame) => LinkAction::Confirm { frame, positive: false },
            None => LinkAction::Nothing,
        }
    }
}

/// A data confirmation is positive exactly when bit 0 of its first control
/// field (octet 2) is clear: whatever follows that octet, a confirmation
/// whose octet 2 is odd is negative and one whose octet 2 is even is
/// positive; a confirmation too short to hold the field is negative.
pub proof fn lemma_confirmation_reads_the_error_bit(cemi: Seq<u8>)
    ensures
        cemi.len() > 2 ==> (positive_confirmation(cemi) <==> cemi[2] % 2 == 0),
        cemi.len() <= 2 ==> !positive_confirmation(cemi),
{
    if cemi.len() > 2 {
        let c = cemi[2];
        assert((c & 1u8 == 0u8) <==> (c % 2 == 0)) by (bit_vector);
    }
}

/// The length octet of a data frame sits after the message code, the
/// additional information length, `k` octets of additional information,
/// both control fields and both addresses: a frame is refused as too long
/// exactly when that octet exceeds the interface's limit; a larger limit
/// never refuses a frame a smaller one accepts.
pub proof fn lemma_apdu_length_check(frame: Seq<u8>, max: u16, larger: u16)
    requires
        frame.len() > 1,
        max <= larger,
    ensures
        frame.len() > frame[1] as int + 8 ==> (apdu_too_long(frame, max) <==> frame[frame[1] as int
            + 8] > max),
        frame.len() <= frame[1] as int + 8 ==> !apdu_too_long(frame, max),
        apdu_too_long(frame, larger) ==> apdu_too_long(frame, max),
{
}

} // verus!
