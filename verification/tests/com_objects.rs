use zweidraehte_device::objects::comm::{ComObjectStatus, ComObjects};

/// Two communication objects of one octet each.
struct Pair {
    status: [ComObjectStatus; 2],
    values: [[u8; 1]; 2],
}

impl ComObjects for Pair {
    fn count() -> u16 {
        2
    }

    fn status_of(&self, idx: u16) -> ComObjectStatus {
        self.status[idx as usize % 2]
    }

    fn new() -> Self {
        Pair { status: [ComObjectStatus::Uninitialized; 2], values: [[0]; 2] }
    }

    fn status(&self, idx: u16) -> ComObjectStatus {
        self.status[idx as usize % 2]
    }

    fn set_status(&mut self, idx: u16, status: ComObjectStatus) {
        self.status[idx as usize % 2] = status;
    }

    fn value(&self, idx: u16) -> &[u8] {
        &self.values[idx as usize % 2]
    }
}

#[test]
fn acknowledge_update_only_clears_updated() {
    let mut objs = Pair::new();
    objs.set_status(0, ComObjectStatus::Updated);
    objs.set_status(1, ComObjectStatus::ReadRequest);
    objs.acknowledge_update(0);
    objs.acknowledge_update(1);
    assert_eq!(objs.status(0), ComObjectStatus::IdleOk);
    assert_eq!(objs.status(1), ComObjectStatus::ReadRequest);
    assert_eq!(objs.value(1), &[0]);
}

#[test]
fn reset_uninitializes_every_object() {
    let mut objs = Pair::new();
    objs.set_status(0, ComObjectStatus::Updated);
    objs.reset();
    assert_eq!(objs.status(0), ComObjectStatus::Uninitialized);
    assert_eq!(objs.status(1), ComObjectStatus::Uninitialized);
}
