use pushpull::channel::{delivered, polled_value, try_push};
use pushpull::endpoint::Pullable;
use std::sync::mpsc::{channel, SendError, TryRecvError};

#[test]
fn channel_round_trip_yields_the_value_once() {
    let (sender, mut receiver) = channel::<u32>();
    assert!(try_push(&sender, 17));
    let mut got = receiver.pull();
    if got.is_none() {
        got = receiver.pull();
    }
    assert_eq!(got, Some(17));
    assert_eq!(receiver.pull(), None);
}

#[test]
fn channel_yields_values_in_order_of_arrival() {
    let (sender, mut receiver) = channel::<&'static str>();
    assert!(try_push(&sender, "a"));
    assert!(try_push(&sender, "b"));
    assert!(try_push(&sender, "c"));
    assert_eq!(receiver.pull(), Some("a"));
    assert_eq!(receiver.pull(), Some("b"));
    assert_eq!(receiver.pull(), Some("c"));
    assert_eq!(receiver.pull(), None);
}

#[test]
fn pull_on_empty_channel_yields_none() {
    let (sender, mut receiver) = channel::<u32>();
    assert_eq!(receiver.pull(), None);
    assert_eq!(receiver.pull(), None);
    drop(sender);
}

#[test]
fn pull_on_disconnected_channel_yields_none() {
    let (sender, mut receiver) = channel::<u32>();
    drop(sender);
    assert_eq!(receiver.pull(), None);
}

#[test]
fn pull_drains_what_was_sent_before_the_sender_left() {
    let (sender, mut receiver) = channel::<u32>();
    assert!(try_push(&sender, 1));
    assert!(try_push(&sender, 2));
    drop(sender);
    assert_eq!(receiver.pull(), Some(1));
    assert_eq!(receiver.pull(), Some(2));
    assert_eq!(receiver.pull(), None);
}

#[test]
fn try_push_leaves_the_sender_usable() {
    let (sender, mut receiver) = channel::<u32>();
    assert!(try_push(&sender, 1));
    assert_eq!(receiver.pull(), Some(1));
    assert!(try_push(&sender, 2));
    assert_eq!(receiver.pull(), Some(2));
}

#[test]
fn try_push_into_disconnected_channel_is_not_taken() {
    let (sender, receiver) = channel::<u32>();
    drop(receiver);
    assert!(!try_push(&sender, 1));
}

#[test]
fn try_push_into_disconnected_channel_fails_for_good() {
    let (sender, receiver) = channel::<u32>();
    drop(receiver);
    assert!(!try_push(&sender, 1));
    assert!(!try_push(&sender, 2));
    assert!(!try_push(&sender.clone(), 3));
}

#[test]
fn try_push_is_taken_while_the_receiver_is_idle() {
    let (sender, receiver) = channel::<u32>();
    for value in 0..100 {
        assert!(try_push(&sender, value));
    }
    drop(receiver);
}

#[test]
fn delivered_tells_a_taken_send_from_a_failed_one() {
    assert!(delivered::<u32>(Ok(())));
    assert!(!delivered(Err(SendError(5u32))));
}

#[test]
fn polled_value_keeps_a_received_value() {
    assert_eq!(polled_value::<u32>(Ok(5)), Some(5));
    assert_eq!(polled_value::<&str>(Ok("x")), Some("x"));
}

#[test]
fn polled_value_of_empty_is_none() {
    assert_eq!(polled_value::<u32>(Err(TryRecvError::Empty)), None);
}

#[test]
fn polled_value_of_disconnected_is_none() {
    assert_eq!(polled_value::<u32>(Err(TryRecvError::Disconnected)), None);
}
