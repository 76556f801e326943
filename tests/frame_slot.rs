use smelter_vulkan::channel::{FrameSlot, Receive, SendOutcome};

#[test]
fn second_send_without_receive_is_refused() {
    let mut slot = FrameSlot::new();
    assert!(matches!(slot.try_send(1u64), SendOutcome::Delivered));
    for n in 2u64..10 {
        assert!(matches!(slot.try_send(n), SendOutcome::Full(x) if x == n));
    }
    assert!(matches!(slot.try_receive(), Receive::Frame(1)));
    assert!(matches!(slot.try_receive(), Receive::Empty));
}

#[test]
fn receive_frees_the_slot() {
    let mut slot = FrameSlot::new();
    assert!(matches!(slot.try_send(7u64), SendOutcome::Delivered));
    assert!(slot.has_item());
    assert!(matches!(slot.try_receive(), Receive::Frame(7)));
    assert!(!slot.has_item());
    assert!(matches!(slot.try_send(8u64), SendOutcome::Delivered));
    assert!(matches!(slot.try_receive(), Receive::Frame(8)));
}

#[test]
fn pending_frame_is_delivered_before_end_of_stream() {
    let mut slot = FrameSlot::new();
    assert!(matches!(slot.try_send(3u64), SendOutcome::Delivered));
    slot.close();
    assert!(slot.closed());
    assert!(matches!(slot.try_send(4u64), SendOutcome::Closed(4)));
    assert!(matches!(slot.try_receive(), Receive::Frame(3)));
    assert!(matches!(slot.try_receive(), Receive::EndOfStream));
    assert!(matches!(slot.try_receive(), Receive::EndOfStream));
}

#[test]
fn empty_open_slot_reports_empty() {
    let mut slot: FrameSlot<u64> = FrameSlot::new();
    assert!(matches!(slot.try_receive(), Receive::Empty));
    assert!(!slot.closed());
}
