use alarm_ring::dispatch::{ResetQueue, MAX_QUEUE_SIZE};
use alarm_ring::state::AppResetMessage;

#[test]
fn queue_accepts_up_to_its_capacity() {
    assert_eq!(MAX_QUEUE_SIZE, 5);
    let mut queue = ResetQueue::new();
    for i in 0..MAX_QUEUE_SIZE {
        assert_eq!(queue.len(), i);
        assert!(queue.try_send(AppResetMessage::FromButton));
    }
    assert_eq!(queue.len(), MAX_QUEUE_SIZE);
}

#[test]
fn a_full_queue_drops_the_signal_without_blocking() {
    let mut queue = ResetQueue::new();
    for _ in 0..MAX_QUEUE_SIZE {
        assert!(queue.try_send(AppResetMessage::FromButton));
    }
    assert!(!queue.try_send(AppResetMessage::FromAccelerometer));
    assert_eq!(queue.len(), MAX_QUEUE_SIZE);
    // The dropped signal is gone: the queue still drains to what was accepted.
    for _ in 0..MAX_QUEUE_SIZE {
        assert_eq!(queue.try_receive(), Some(AppResetMessage::FromButton));
    }
    assert_eq!(queue.try_receive(), None);
}

#[test]
fn signals_come_out_in_arrival_order() {
    let mut queue = ResetQueue::new();
    assert!(queue.try_send(AppResetMessage::FromButton));
    assert!(queue.try_send(AppResetMessage::FromAccelerometer));
    assert!(queue.try_send(AppResetMessage::FromButton));
    assert_eq!(queue.try_receive(), Some(AppResetMessage::FromButton));
    assert_eq!(queue.try_receive(), Some(AppResetMessage::FromAccelerometer));
    assert_eq!(queue.try_receive(), Some(AppResetMessage::FromButton));
    assert_eq!(queue.try_receive(), None);
}

#[test]
fn receiving_from_an_empty_queue_returns_none_and_leaves_it_empty() {
    let mut queue = ResetQueue::new();
    assert_eq!(queue.try_receive(), None);
    assert_eq!(queue.len(), 0);
    assert!(queue.try_send(AppResetMessage::FromAccelerometer));
    assert_eq!(queue.try_receive(), Some(AppResetMessage::FromAccelerometer));
    assert_eq!(queue.try_receive(), None);
}
