use async_broadcast::{
    bounded, fan_out_with, settle, settle_send, unbounded, Receiver, SendError, TryRecvError,
    TrySendError,
};
use std::cell::RefCell;

fn drain(receiver: &Receiver<i32>) -> Vec<i32> {
    let mut seen = Vec::new();
    while let Ok(m) = receiver.try_recv() {
        seen.push(m);
    }
    seen
}

#[test]
fn two_senders_two_receivers_see_both_messages() {
    let (sender1, receiver1) = unbounded();
    let sender2 = sender1.clone();
    let receiver2 = receiver1.clone();

    sender1.try_send(1).unwrap();
    sender2.try_send(2).unwrap();

    assert_eq!(receiver1.try_recv(), Ok(1));
    assert_eq!(receiver1.try_recv(), Ok(2));
    assert_eq!(receiver2.try_recv(), Ok(1));
    assert_eq!(receiver2.try_recv(), Ok(2));
    assert_eq!(receiver1.try_recv(), Err(TryRecvError::Empty));
    assert_eq!(receiver2.try_recv(), Err(TryRecvError::Empty));
}

#[test]
fn bounded_one_full_on_second_send() {
    let (sender, _receiver) = bounded(1);
    assert_eq!(sender.try_send(1), Ok(()));
    assert_eq!(sender.try_send(2), Err(TrySendError::Full(2)));
}

#[test]
fn late_receiver_sees_only_later_messages() {
    let (sender, receiver) = unbounded();
    sender.try_send(1).unwrap();
    let late = receiver.clone();
    sender.try_send(2).unwrap();
    assert_eq!(drain(&receiver), vec![1, 2]);
    assert_eq!(drain(&late), vec![2]);
}

#[test]
fn dropped_sole_receiver_closes_send() {
    let (sender, receiver) = unbounded::<i32>();
    drop(receiver);
    assert_eq!(sender.try_send(1), Err(TrySendError::Closed(1)));
}

#[test]
fn every_receiver_sees_every_message_in_order() {
    let (sender, first) = unbounded();
    let mut receivers = vec![first];
    for _ in 0..4 {
        let next = receivers[0].clone();
        receivers.push(next);
    }
    let messages = vec![7, -3, 0, 42, 7, 19];
    for m in &messages {
        assert_eq!(sender.try_send(*m), Ok(()));
    }
    for r in &receivers {
        for m in &messages {
            assert_eq!(r.try_recv(), Ok(*m));
        }
        assert_eq!(r.try_recv(), Err(TryRecvError::Empty));
    }
}

#[test]
fn receiver_cloned_after_messages_misses_them() {
    let (sender, receiver) = unbounded();
    for m in 0..5 {
        sender.try_send(m).unwrap();
    }
    let late = receiver.clone();
    assert_eq!(late.try_recv(), Err(TryRecvError::Empty));
    sender.try_send(5).unwrap();
    sender.try_send(6).unwrap();
    assert_eq!(drain(&late), vec![5, 6]);
    assert_eq!(drain(&receiver), vec![0, 1, 2, 3, 4, 5, 6]);
}

#[test]
fn cloned_sender_reaches_the_same_receivers() {
    let (sender, receiver) = unbounded();
    let other = receiver.clone();
    let alias = sender.clone();
    alias.try_send(10).unwrap();
    sender.try_send(11).unwrap();
    let third = receiver.clone();
    alias.try_send(12).unwrap();
    assert_eq!(drain(&receiver), vec![10, 11, 12]);
    assert_eq!(drain(&other), vec![10, 11, 12]);
    assert_eq!(drain(&third), vec![12]);
    assert_eq!(sender.entries().len(), 3);
    assert_eq!(alias.entries().len(), 3);
}

#[test]
fn dead_entry_surfaces_as_closed() {
    let (sender, receiver) = unbounded();
    let second = receiver.clone();
    drop(receiver);
    drop(second);
    assert_eq!(sender.try_send(3), Err(TrySendError::Closed(3)));
    assert_eq!(sender.entries().len(), 2);
}

#[test]
fn dead_first_entry_stops_the_fan_out() {
    let (sender, receiver) = unbounded();
    let second = receiver.clone();
    drop(receiver);
    assert_eq!(sender.try_send(4), Err(TrySendError::Closed(4)));
    assert_eq!(second.try_recv(), Err(TryRecvError::Empty));
}

#[test]
fn dead_last_entry_keeps_earlier_deliveries() {
    let (sender, receiver) = unbounded();
    let second = receiver.clone();
    drop(second);
    assert_eq!(sender.try_send(8), Err(TrySendError::Closed(8)));
    assert_eq!(receiver.try_recv(), Ok(8));
    assert_eq!(receiver.try_recv(), Err(TryRecvError::Empty));
}

#[test]
fn bounded_saturation_stops_at_first_full_entry() {
    let (sender, receiver) = bounded(1);
    let second = receiver.clone();
    assert_eq!(sender.try_send(1), Ok(()));
    assert_eq!(sender.try_send(2), Err(TrySendError::Full(2)));
    assert_eq!(drain(&receiver), vec![1]);
    assert_eq!(drain(&second), vec![1]);
}

#[test]
fn bounded_partial_delivery_when_later_entry_is_full() {
    let (sender, receiver) = bounded(1);
    let second = receiver.clone();
    sender.try_send(1).unwrap();
    assert_eq!(receiver.try_recv(), Ok(1));
    assert_eq!(sender.try_send(2), Err(TrySendError::Full(2)));
    assert_eq!(receiver.try_recv(), Ok(2));
    assert_eq!(second.try_recv(), Ok(1));
    assert_eq!(second.try_recv(), Err(TryRecvError::Empty));
}

#[test]
fn clone_keeps_the_bound() {
    let (sender, receiver) = bounded(2);
    let second = receiver.clone();
    sender.try_send(1).unwrap();
    sender.try_send(2).unwrap();
    assert_eq!(sender.try_send(3), Err(TrySendError::Full(3)));
    assert_eq!(drain(&second), vec![1, 2]);
}

#[test]
fn unbounded_takes_many_messages() {
    let (sender, receiver) = unbounded();
    let second = receiver.clone();
    for m in 0..1000 {
        assert_eq!(sender.try_send(m), Ok(()));
    }
    assert_eq!(drain(&receiver).len(), 1000);
    assert_eq!(drain(&second), (0..1000).collect::<Vec<i32>>());
}

#[test]
fn receive_empty_while_registry_keeps_channel_open() {
    let (sender, receiver) = unbounded::<i32>();
    sender.try_send(1).unwrap();
    drop(sender);
    assert_eq!(receiver.try_recv(), Ok(1));
    assert_eq!(receiver.try_recv(), Err(TryRecvError::Empty));
    assert_eq!(receiver.channel().len(), 0);
}

#[test]
fn fresh_group_has_one_entry() {
    let (sender, receiver) = bounded::<u8>(3);
    assert_eq!(sender.entries().len(), 1);
    assert_eq!(sender.entries()[0].capacity(), Some(3));
    assert_eq!(receiver.channel().capacity(), Some(3));
    let (sender, receiver) = unbounded::<u8>();
    assert_eq!(sender.entries().len(), 1);
    assert_eq!(receiver.clone().channel().capacity(), None);
    assert_eq!(sender.entries()[1].capacity(), None);
}

#[test]
fn settle_goes_on_or_carries_the_message() {
    assert_eq!(settle(Ok(()), 5), Ok(5));
    assert_eq!(settle(Err(TrySendError::Full(9)), 5), Err(TrySendError::Full(5)));
    assert_eq!(settle(Err(TrySendError::Closed(9)), 5), Err(TrySendError::Closed(5)));
    assert_eq!(settle_send(Ok(()), 6), Ok(6));
    assert_eq!(settle_send(Err(SendError(1)), 6), Err(SendError(6)));
}

#[test]
fn send_error_kinds() {
    let full: TrySendError<i32> = TrySendError::Full(3);
    let closed: TrySendError<i32> = TrySendError::Closed(4);
    assert!(full.is_full());
    assert!(!full.is_closed());
    assert!(closed.is_closed());
    assert!(!closed.is_full());
    assert_eq!(full.into_inner(), 3);
    assert_eq!(closed.into_inner(), 4);
}

#[test]
fn fan_out_over_no_entry_succeeds_without_delivering() {
    let (r, _) = fan_out_with(0, 9, |_: usize, _: i32| -> Result<(), TrySendError<i32>> {
        panic!("no entry to deliver to")
    });
    assert_eq!(r, Ok(()));
}

#[test]
fn fan_out_hands_each_entry_one_copy_in_order() {
    let handed = RefCell::new(Vec::new());
    let (r, _) = fan_out_with(4, 7, |i: usize, m: i32| {
        handed.borrow_mut().push((i, m));
        Ok(())
    });
    assert_eq!(r, Ok(()));
    assert_eq!(handed.into_inner(), vec![(0, 7), (1, 7), (2, 7), (3, 7)]);
}

#[test]
fn fan_out_stops_after_first_refusal() {
    let handed = RefCell::new(Vec::new());
    let (r, _) = fan_out_with(5, 3, |i: usize, m: i32| {
        handed.borrow_mut().push(i);
        if i == 2 {
            Err(TrySendError::Full(m + 100))
        } else {
            Ok(())
        }
    });
    assert_eq!(r, Err(TrySendError::Full(3)));
    assert_eq!(handed.into_inner(), vec![0, 1, 2]);
}

#[test]
fn fan_out_closed_refusal_carries_the_message() {
    let (r, _) = fan_out_with(3, 11, |i: usize, m: i32| {
        if i == 0 {
            Err(TrySendError::Closed(m))
        } else {
            Ok(())
        }
    });
    assert_eq!(r, Err(TrySendError::Closed(11)));
}
