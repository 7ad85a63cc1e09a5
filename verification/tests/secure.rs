use zweidraehte_device::security::{
    persist_incoming_sequence, u64_to_seq6, SeqVerdict, SequenceNumberStorage, SequenceStateError,
};

#[derive(Default)]
struct FaultySequenceStore {
    sending: [u8; 6],
    receiving: Option<[u8; 6]>,
    tool_receiving: Option<[u8; 6]>,
    fail_sending_load: bool,
    fail_receiving_load: bool,
    fail_save: bool,
    save_count: usize,
}

impl SequenceNumberStorage for FaultySequenceStore {
    type Error = ();

    fn stored_receiving(&self, tool_access: bool, _peer_ia: u16) -> Option<Option<[u8; 6]>> {
        if self.fail_receiving_load {
            None
        } else if tool_access {
            Some(self.tool_receiving)
        } else {
            Some(self.receiving)
        }
    }

    fn save_fails(&self, _tool_access: bool, _peer_ia: u16, _seq: [u8; 6]) -> bool {
        self.fail_save
    }

    fn stored_sending(&self) -> Option<[u8; 6]> {
        if self.fail_sending_load { None } else { Some(self.sending) }
    }

    fn sending_save_fails(&self, _seq: [u8; 6]) -> bool {
        self.fail_save
    }

    fn load_sending_seq(&self) -> Result<[u8; 6], Self::Error> {
        if self.fail_sending_load { Err(()) } else { Ok(self.sending) }
    }

    fn save_sending_seq(&mut self, seq: &[u8; 6]) -> Result<(), Self::Error> {
        if self.fail_save {
            return Err(());
        }
        self.sending = *seq;
        self.save_count += 1;
        Ok(())
    }

    fn load_receiving_seq(&self, _peer_ia: u16) -> Result<Option<[u8; 6]>, Self::Error> {
        if self.fail_receiving_load { Err(()) } else { Ok(self.receiving) }
    }

    fn save_receiving_seq(&mut self, _peer_ia: u16, seq: &[u8; 6]) -> Result<(), Self::Error> {
        if self.fail_save {
            return Err(());
        }
        self.receiving = Some(*seq);
        self.save_count += 1;
        Ok(())
    }

    fn load_tool_receiving_seq(&self) -> Result<Option<[u8; 6]>, Self::Error> {
        if self.fail_receiving_load { Err(()) } else { Ok(self.tool_receiving) }
    }

    fn save_tool_receiving_seq(&mut self, seq: &[u8; 6]) -> Result<(), Self::Error> {
        if self.fail_save {
            return Err(());
        }
        self.tool_receiving = Some(*seq);
        self.save_count += 1;
        Ok(())
    }
}

#[test]
fn incoming_sequence_is_accepted_only_after_a_durable_save() {
    let sequence = u64_to_seq6(42);
    let mut store = FaultySequenceStore { fail_save: true, ..Default::default() };

    assert_eq!(persist_incoming_sequence(&mut store, false, 0x1101, &sequence), Err(SequenceStateError::Save));
    assert_eq!(store.receiving, None);

    store.fail_save = false;
    assert_eq!(persist_incoming_sequence(&mut store, false, 0x1101, &sequence), Ok((SeqVerdict::Accept, None)));
    assert_eq!(store.receiving, Some(sequence));
}

#[test]
fn incoming_sequence_load_failure_cannot_assume_an_empty_history() {
    let mut store = FaultySequenceStore { fail_receiving_load: true, ..Default::default() };

    assert_eq!(persist_incoming_sequence(&mut store, true, 0x1101, &u64_to_seq6(42)), Err(SequenceStateError::Load));
    assert_eq!(store.save_count, 0);
}

#[test]
fn incoming_sequence_replay_is_rejected_without_a_save() {
    let mut store = FaultySequenceStore { receiving: Some(u64_to_seq6(42)), ..Default::default() };

    assert_eq!(
        persist_incoming_sequence(&mut store, false, 0x1101, &u64_to_seq6(42)),
        Ok((SeqVerdict::Retransmission, Some(u64_to_seq6(42))))
    );
    assert_eq!(
        persist_incoming_sequence(&mut store, false, 0x1101, &u64_to_seq6(41)),
        Ok((SeqVerdict::Replay, Some(u64_to_seq6(42))))
    );
    assert_eq!(store.save_count, 0);

    assert_eq!(
        persist_incoming_sequence(&mut store, false, 0x1101, &u64_to_seq6(43)),
        Ok((SeqVerdict::Accept, Some(u64_to_seq6(42))))
    );
    assert_eq!(store.receiving, Some(u64_to_seq6(43)));
    assert_eq!(store.save_count, 1);
}

#[test]
fn tool_counter_is_kept_apart_from_peer_counters() {
    let mut store = FaultySequenceStore::default();
    assert_eq!(persist_incoming_sequence(&mut store, true, 0x1101, &u64_to_seq6(7)), Ok((SeqVerdict::Accept, None)));
    assert_eq!(store.tool_receiving, Some(u64_to_seq6(7)));
    assert_eq!(store.receiving, None);
}
