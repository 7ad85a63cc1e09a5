//! KNX Data Secure sequence numbers: the six-octet counter codec, the
//! receive-side replay rule, and the durable advance of a sender's last
//! valid counter.

use vstd::prelude::*;

verus! {

/// The value of a six-octet big-endian sequence number.
pub open spec fn seq6_value(s: Seq<u8>) -> u64 {
    ((s[0] as u64) << 40u64) | ((s[1] as u64) << 32u64) | ((s[2] as u64) << 24u64) | ((
    s[3] as u64) << 16u64) | ((s[4] as u64) << 8u64) | (s[5] as u64)
}

/// The six octets of the low 48 bits of `v`, big-endian.
pub open spec fn seq6_octets(v: u64) -> Seq<u8> {
    seq![
        (v >> 40u64) as u8,
        (v >> 32u64) as u8,
        (v >> 24u64) as u8,
        (v >> 16u64) as u8,
        (v >> 8u64) as u8,
        v as u8,
    ]
}

/// The value of a six-octet sequence number.
pub fn seq6_to_u64(s: &[u8; 6]) -> (r: u64)
    ensures
        r == seq6_value(s@),
{
    ((s[0] as u64) << 40u64) | ((s[1] as u64) << 32u64) | ((s[2] as u64) << 24u64) | ((
    s[3] as u64) << 16u64) | ((s[4] as u64) << 8u64) | (s[5] as u64)
}

/// The six octets of the low 48 bits of `v`.
pub fn u64_to_seq6(v: u64) -> (r: [u8; 6])
    ensures
        r@ == seq6_octets(v),
{
    let r = [
        (v >> 40u64) as u8,
        (v >> 32u64) as u8,
        (v >> 24u64) as u8,
        (v >> 16u64) as u8,
        (v >> 8u64) as u8,
        v as u8,
    ];
    assert(r@ =~= seq6_octets(v));
    r
}

/// Verdict on a received sequence number.
#[derive(Debug, Clone, Copy, PartialEq, Eq, Structural)]
pub enum SeqVerdict {
    /// Newer than the sender's last valid counter.
    Accept,
    /// Equal to it: the sender repeated its last frame.
    Retransmission,
    /// Older than it: a replay.
    Replay,
    /// The all-zero number, which no sender may use.
    Invalid,
}

/// A received sequence number is invalid when it is zero; otherwise it is
/// accepted when the sender has no recorded counter or it is greater than
/// the recorded one, a retransmission when equal, and a replay when less.
pub open spec fn receiving_verdict(received: Seq<u8>, stored: Option<[u8; 6]>) -> SeqVerdict {
    if seq6_value(received) == 0 {
        SeqVerdict::Invalid
    } else {
        match stored {
            None => SeqVerdict::Accept,
            Some(s) => if seq6_value(received) > seq6_value(s@) {
                SeqVerdict::Accept
            } else if seq6_value(received) == seq6_value(s@) {
                SeqVerdict::Retransmission
            } else {
                SeqVerdict::Replay
            },
        }
    }
}

/// The verdict on `received` against the sender's recorded counter.
pub fn check_receiving_seq(received: &[u8; 6], stored: Option<[u8; 6]>) -> (r: SeqVerdict)
    ensures
        r == receiving_verdict(received@, stored),
{
    let value = seq6_to_u64(received);
    if value == 0 {
        return SeqVerdict::Invalid;
    }
    match stored {
        None => SeqVerdict::Accept,
        Some(s) => {
            let last = seq6_to_u64(&s);
            if value > last {
                SeqVerdict::Accept
            } else if value == last {
                SeqVerdict::Retransmission
            } else {
                SeqVerdict::Replay
            }
        },
    }
}

/// Why the durable replay state could not be used.
#[derive(Clone, Copy, Debug, Eq, PartialEq, Structural)]
pub enum SequenceStateError {
    Load,
    Save,
    Invalid,
    Exhausted,
}

/// Durable storage of sequence numbers, implemented by the device.
pub trait SequenceNumberStorage {
    type Error;

    /// What loading the last valid receiving counter returns: for the tool
    /// (`tool_access`) or for the peer `peer_ia`; `None` when the load fails.
    spec fn stored_receiving(&self, tool_access: bool, peer_ia: u16) -> Option<Option<[u8; 6]>>;

    /// Whether saving `seq` as the last valid receiving counter of the tool
    /// (`tool_access`) or of the peer `peer_ia` fails in this state.
    spec fn save_fails(&self, tool_access: bool, peer_ia: u16, seq: [u8; 6]) -> bool;

    /// What loading the sending counter returns; `None` when the load fails.
    spec fn stored_sending(&self) -> Option<[u8; 6]>;

    /// Whether saving `seq` as the sending counter fails in this state.
    spec fn sending_save_fails(&self, seq: [u8; 6]) -> bool;

    /// The device's sending counter.
    fn load_sending_seq(&self) -> (r: Result<[u8; 6], Self::Error>)
        ensures
            match self.stored_sending() {
                Some(v) => r matches Ok(x) && x == v,
                None => r is Err,
            },
    ;

    /// Record the device's sending counter; once it succeeds, a load gives
    /// it back.
    fn save_sending_seq(&mut self, seq: &[u8; 6]) -> (r: Result<(), Self::Error>)
        ensures
            r is Err <==> old(self).sending_save_fails(*seq),
            r is Ok ==> final(self).stored_sending() == Some(*seq),
            r is Err ==> final(self).stored_sending() == old(self).stored_sending(),
            forall|t: bool, p: u16| #[trigger]
                final(self).stored_receiving(t, p) == old(self).stored_receiving(t, p),
    ;

    /// The last valid receiving counter of `peer_ia`, if recorded.
    fn load_receiving_seq(&self, peer_ia: u16) -> (r: Result<Option<[u8; 6]>, Self::Error>)
        ensures
            match self.stored_receiving(false, peer_ia) {
                Some(v) => r matches Ok(x) && x == v,
                None => r is Err,
            },
    ;

    /// Record the last valid receiving counter of `peer_ia`; once it
    /// succeeds, a load gives it back.
    fn save_receiving_seq(&mut self, peer_ia: u16, seq: &[u8; 6]) -> (r: Result<(), Self::Error>)
        ensures
            r is Err <==> old(self).save_fails(false, peer_ia, *seq),
            r is Ok ==> final(self).stored_receiving(false, peer_ia) == Some(Some(*seq)),
            r is Err ==> final(self).stored_receiving(false, peer_ia) == old(self).stored_receiving(
                false,
                peer_ia,
            ),
            final(self).stored_sending() == old(self).stored_sending(),
            forall|v: [u8; 6]| #[trigger]
                final(self).sending_save_fails(v) == old(self).sending_save_fails(v),
    ;

    /// The tool's last valid receiving counter, if recorded.
    fn load_tool_receiving_seq(&self) -> (r: Result<Option<[u8; 6]>, Self::Error>)
        ensures
            match self.stored_receiving(true, 0) {
                Some(v) => r matches Ok(x) && x == v,
                None => r is Err,
            },
    ;

    /// Record the tool's last valid receiving counter; once it succeeds, a
    /// load gives it back.
    fn save_tool_receiving_seq(&mut self, seq: &[u8; 6]) -> (r: Result<(), Self::Error>)
        ensures
            r is Err <==> old(self).save_fails(true, 0, *seq),
            r is Ok ==> final(self).stored_receiving(true, 0) == Some(Some(*seq)),
            r is Err ==> final(self).stored_receiving(true, 0) == old(self).stored_receiving(true, 0),
            final(self).stored_sending() == old(self).stored_sending(),
            forall|v: [u8; 6]| #[trigger]
                final(self).sending_save_fails(v) == old(self).sending_save_fails(v),
    ;
}

/// The storage key of a sender: the tool has one counter, a peer one each.
pub open spec fn sender_key(tool_access: bool, peer_ia: u16) -> u16 {
    if tool_access {
        0
    } else {
        peer_ia
    }
}

/// Load the last valid receiving counter of the tool or of `peer_ia`.
pub fn load_receiving_sequence<S: SequenceNumberStorage>(
    storage: &S,
    tool_access: bool,
    peer_ia: u16,
) -> (r: Result<Option<[u8; 6]>, SequenceStateError>)
    ensures
        match storage.stored_receiving(tool_access, sender_key(tool_access, peer_ia)) {
            Some(v) => r == Ok::<Option<[u8; 6]>, SequenceStateError>(v),
            None => r == Err::<Option<[u8; 6]>, SequenceStateError>(SequenceStateError::Load),
        },
{
    let loaded = if tool_access {
        storage.load_tool_receiving_seq()
    } else {
        storage.load_receiving_seq(peer_ia)
    };
    match loaded {
        Ok(v) => Ok(v),
        Err(_) => Err(SequenceStateError::Load),
    }
}

/// Record the last valid receiving counter of the tool or of `peer_ia`.
pub fn save_receiving_sequence<S: SequenceNumberStorage>(
    storage: &mut S,
    tool_access: bool,
    peer_ia: u16,
    seq: &[u8; 6],
) -> (r: Result<(), SequenceStateError>)
    ensures
        r is Err <==> old(storage).save_fails(tool_access, sender_key(tool_access, peer_ia), *seq),
        r is Ok ==> final(storage).stored_receiving(tool_access, sender_key(tool_access, peer_ia))
            == Some(Some(*seq)),
        r is Err ==> r == Err::<(), SequenceStateError>(SequenceStateError::Save)
            && final(storage).stored_receiving(tool_access, sender_key(tool_access, peer_ia))
            == old(storage).stored_receiving(tool_access, sender_key(tool_access, peer_ia)),
        final(storage).stored_sending() == old(storage).stored_sending(),
        forall|v: [u8; 6]| #[trigger]
            final(storage).sending_save_fails(v) == old(storage).sending_save_fails(v),
{
    let saved = if tool_access {
        storage.save_tool_receiving_seq(seq)
    } else {
        storage.save_receiving_seq(peer_ia, seq)
    };
    match saved {
        Ok(_) => Ok(()),
        Err(_) => Err(SequenceStateError::Save),
    }
}

/// What validating `received` against `storage` and durably advancing the
/// sender's counter returns.
pub open spec fn persist_outcome<S: SequenceNumberStorage>(
    storage: S,
    tool_access: bool,
    peer_ia: u16,
    received: [u8; 6],
) -> Result<(SeqVerdict, Option<[u8; 6]>), SequenceStateError> {
    match storage.stored_receiving(tool_access, sender_key(tool_access, peer_ia)) {
        None => Err(SequenceStateError::Load),
        Some(stored) => {
            let verdict = receiving_verdict(received@, stored);
            if verdict == SeqVerdict::Accept && storage.save_fails(
                tool_access,
                sender_key(tool_access, peer_ia),
                received,
            ) {
                Err(SequenceStateError::Save)
            } else {
                Ok((verdict, stored))
            }
        },
    }
}

/// Validate a received sequence number and durably advance the sender's
/// last valid counter. The verdict is Accept only once the new counter has
/// been saved; a failed load gives no verdict (an unreadable history is not
/// an empty one), and a rejected number leaves the storage alone.
pub fn persist_incoming_sequence<S: SequenceNumberStorage>(
    storage: &mut S,
    tool_access: bool,
    peer_ia: u16,
    received: &[u8; 6],
) -> (r: Result<(SeqVerdict, Option<[u8; 6]>), SequenceStateError>)
    ensures
        r == persist_outcome(*old(storage), tool_access, peer_ia, *received),
        match old(storage).stored_receiving(tool_access, sender_key(tool_access, peer_ia)) {
            None => r == Err::<(SeqVerdict, Option<[u8; 6]>), SequenceStateError>(
                SequenceStateError::Load,
            ) && *final(storage) == *old(storage),
            Some(stored) => {
                let verdict = receiving_verdict(received@, stored);
                if verdict == SeqVerdict::Accept {
                    if old(storage).save_fails(
                        tool_access,
                        sender_key(tool_access, peer_ia),
                        *received,
                    ) {
                        &&& r == Err::<(SeqVerdict, Option<[u8; 6]>), SequenceStateError>(
                            SequenceStateError::Save,
                        )
                        &&& final(storage).stored_receiving(
                            tool_access,
                            sender_key(tool_access, peer_ia),
                        ) == Some(stored)
                    } else {
                        &&& r == Ok::<(SeqVerdict, Option<[u8; 6]>), SequenceStateError>(
                            (SeqVerdict::Accept, stored),
                        )
                        &&& final(storage).stored_receiving(
                            tool_access,
                            sender_key(tool_access, peer_ia),
                        ) == Some(Some(*received))
                    }
                } else {
                    r == Ok::<(SeqVerdict, Option<[u8; 6]>), SequenceStateError>(
                        (verdict, stored),
                    ) && *final(storage) == *old(storage)
                }
            },
        },
{
    let stored = match load_receiving_sequence(storage, tool_access, peer_ia) {
        Ok(s) => s,
        Err(e) => {
            return Err(e);
        },
    };
    let verdict = check_receiving_seq(received, stored);
    if verdict == SeqVerdict::Accept {
        match save_receiving_sequence(storage, tool_access, peer_ia, received) {
            Ok(_) => {},
            Err(e) => {
                return Err(e);
            },
        }
    }
    Ok((verdict, stored))
}

/// Decoding the octets of a 48-bit counter gives it back.
pub proof fn lemma_seq6_round_trip(v: u64)
    requires
        v < 0x1_0000_0000_0000,
    ensures
        seq6_value(seq6_octets(v)) == v,
{
    assert(((((v >> 40u64) as u8) as u64) << 40u64) | ((((v >> 32u64) as u8) as u64) << 32u64)
        | ((((v >> 24u64) as u8) as u64) << 24u64) | ((((v >> 16u64) as u8) as u64) << 16u64)
        | ((((v >> 8u64) as u8) as u64) << 8u64) | ((v as u8) as u64) == v) by (bit_vector)
        requires
            v < 0x1_0000_0000_0000,
    ;
}

/// The big-endian number six octets spell: the first octet counts
/// 2^40, the last one 1.
pub open spec fn be48(s: Seq<u8>) -> int {
    s[0] as int * 0x100_0000_0000 + s[1] as int * 0x1_0000_0000 + s[2] as int * 0x100_0000
        + s[3] as int * 0x1_0000 + s[4] as int * 0x100 + s[5] as int
}

/// A counter's value is the big-endian number its six octets spell.
pub proof fn lemma_seq6_value_is_big_endian(s: Seq<u8>)
    requires
        s.len() == 6,
    ensures
        seq6_value(s) as int == be48(s),
{
    let (a, b, c, d, e, f) = (s[0], s[1], s[2], s[3], s[4], s[5]);
    assert(((a as u64) << 40u64) | ((b as u64) << 32u64) | ((c as u64) << 24u64) | ((d as u64)
        << 16u64) | ((e as u64) << 8u64) | (f as u64) == a as u64 * 0x100_0000_0000u64 + b as u64
        * 0x1_0000_0000u64 + c as u64 * 0x100_0000u64 + d as u64 * 0x1_0000u64 + e as u64
        * 0x100u64 + f as u64) by (bit_vector);
}

/// The verdict on a received number orders it against the sender's
/// counter by the whole 48-bit big-endian value: a nonzero number is
/// accepted exactly when it is greater, a retransmission exactly when
/// equal, and a replay exactly when less; against no counter it is
/// accepted; the zero number is invalid.
pub proof fn lemma_verdict_orders_by_full_value(received: [u8; 6], stored: Option<[u8; 6]>)
    ensures
        be48(received@) == 0 <==> receiving_verdict(received@, stored) == SeqVerdict::Invalid,
        be48(received@) != 0 && stored is None ==> receiving_verdict(received@, stored)
            == SeqVerdict::Accept,
        be48(received@) != 0 && stored is Some ==> {
            let s = stored->0@;
            &&& receiving_verdict(received@, stored) == SeqVerdict::Accept <==> be48(received@)
                > be48(s)
            &&& receiving_verdict(received@, stored) == SeqVerdict::Retransmission <==> be48(
                received@,
            ) == be48(s)
            &&& receiving_verdict(received@, stored) == SeqVerdict::Replay <==> be48(received@)
                < be48(s)
        },
{
    lemma_seq6_value_is_big_endian(received@);
    if let Some(s) = stored {
        lemma_seq6_value_is_big_endian(s@);
    }
}

} // verus!
