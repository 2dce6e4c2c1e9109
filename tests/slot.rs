use lazyext::slot::{poll_step, PollStep, WakerSlot};

#[test]
fn poll_is_ready_only_at_zero() {
    assert_eq!(poll_step(0), PollStep::Ready);
    assert_eq!(poll_step(1), PollStep::Pending);
    assert_eq!(poll_step(50), PollStep::Pending);
}

#[test]
fn empty_slot_takes_nothing() {
    let mut slot: WakerSlot<u32> = WakerSlot::new();
    assert!(!slot.is_registered());
    assert_eq!(slot.take(), None);
}

#[test]
fn latest_registration_wins() {
    let mut slot = WakerSlot::new();
    slot.register(1u32);
    slot.register(2u32);
    assert!(slot.is_registered());
    assert_eq!(slot.take(), Some(2));
    assert!(!slot.is_registered());
    assert_eq!(slot.take(), None);
}
