use chan::channel;
use chan::error::{RecvError, SendError, TryRecvError};
use chan::state::ChannelState;

#[test]
fn values_come_out_in_send_order() {
    let (mut tx, mut rx) = channel();
    for v in 1..=5 {
        assert_eq!(tx.sender(v), Ok(()));
    }
    for v in 1..=5 {
        assert_eq!(rx.recv(), Ok(v));
    }
    assert_eq!(rx.try_recv(), Err(TryRecvError::Empty));
}

#[test]
fn cloned_senders_lose_nothing() {
    let (tx, mut rx) = channel();
    let mut senders = vec![tx.clone(), tx.clone(), tx];
    let mut expected = Vec::new();
    for round in 0..4 {
        for (k, s) in senders.iter_mut().enumerate() {
            let v = (k as u32) * 100 + round;
            assert_eq!(s.sender(v), Ok(()));
            expected.push(v);
        }
    }
    drop(senders);
    let mut got = Vec::new();
    for _ in 0..expected.len() {
        got.push(rx.recv().unwrap());
    }
    assert_eq!(got, expected);
    assert_eq!(rx.recv(), Err(RecvError::Disconnected));
}

#[test]
fn recv_after_last_sender_dropped_is_disconnected() {
    let (tx, mut rx) = channel::<i32>();
    drop(tx);
    assert_eq!(rx.recv(), Err(RecvError::Disconnected));
    assert_eq!(rx.try_recv(), Err(TryRecvError::Disconnected));
}

#[test]
fn queued_values_outlive_the_senders() {
    let (mut tx, mut rx) = channel();
    tx.sender("a").unwrap();
    tx.sender("b").unwrap();
    drop(tx);
    assert_eq!(rx.recv(), Ok("a"));
    assert_eq!(rx.try_recv(), Ok("b"));
    assert_eq!(rx.recv(), Err(RecvError::Disconnected));
}

#[test]
fn channel_stays_open_while_a_clone_lives() {
    let (tx, mut rx) = channel::<u8>();
    let mut other = tx.clone();
    drop(tx);
    assert_eq!(rx.try_recv(), Err(TryRecvError::Empty));
    other.sender(9).unwrap();
    assert_eq!(rx.recv(), Ok(9));
    drop(other);
    assert_eq!(rx.recv(), Err(RecvError::Disconnected));
}

#[test]
fn send_after_receiver_gone_returns_the_value() {
    let (mut tx, rx) = channel::<String>();
    drop(rx);
    let r = tx.sender(String::from("kept"));
    assert_eq!(r, Err(SendError::Disconnected(String::from("kept"))));
    assert_eq!(r.unwrap_err().into_inner(), "kept");
}

#[test]
fn send_succeeds_while_a_cloned_receiver_lives() {
    let (mut tx, rx) = channel();
    let mut rx2 = rx.clone();
    drop(rx);
    assert_eq!(tx.sender(3), Ok(()));
    assert_eq!(rx2.recv(), Ok(3));
    drop(rx2);
    assert_eq!(tx.sender(4), Err(SendError::Disconnected(4)));
}

#[test]
fn try_recv_on_empty_open_channel_is_empty() {
    let (_tx, mut rx) = channel::<u64>();
    assert_eq!(rx.try_recv(), Err(TryRecvError::Empty));
    assert_eq!(rx.try_recv(), Err(TryRecvError::Empty));
}

#[test]
fn send_to_waiting_receiver_is_received() {
    let (mut tx, mut rx) = channel();
    assert_eq!(rx.try_recv(), Err(TryRecvError::Empty));
    tx.sender(42u16).unwrap();
    assert_eq!(rx.recv(), Ok(42));
}

#[test]
fn two_receivers_share_one_queue() {
    let (mut tx, mut rx) = channel();
    let mut rx2 = rx.clone();
    for v in 0..4 {
        tx.sender(v).unwrap();
    }
    assert_eq!(rx.recv(), Ok(0));
    assert_eq!(rx2.recv(), Ok(1));
    assert_eq!(rx2.try_recv(), Ok(2));
    assert_eq!(rx.try_recv(), Ok(3));
    assert_eq!(rx2.try_recv(), Err(TryRecvError::Empty));
}

#[test]
fn state_new_is_open_and_empty() {
    let mut s = ChannelState::<i32>::new();
    assert!(s.would_block());
    assert_eq!(s.try_recv(), Err(TryRecvError::Empty));
}

#[test]
fn state_send_and_receive_in_order() {
    let mut s = ChannelState::new();
    assert_eq!(s.send(7), Ok(()));
    assert_eq!(s.send(8), Ok(()));
    assert!(!s.would_block());
    assert_eq!(s.recv_ready(), Ok(7));
    assert_eq!(s.try_recv(), Ok(8));
    assert!(s.would_block());
}

#[test]
fn state_closes_on_last_sender_removed() {
    let mut s = ChannelState::<i32>::new();
    s.add_sender();
    assert!(!s.remove_sender());
    assert!(s.would_block());
    assert!(s.remove_sender());
    assert!(!s.would_block());
    assert_eq!(s.recv_ready(), Err(RecvError::Disconnected));
    assert_eq!(s.try_recv(), Err(TryRecvError::Disconnected));
}

#[test]
fn state_closed_stays_closed() {
    let mut s = ChannelState::<i32>::new();
    assert!(s.remove_sender());
    s.add_sender();
    assert!(s.remove_sender());
    assert_eq!(s.try_recv(), Err(TryRecvError::Disconnected));
}

#[test]
fn state_send_without_receiver_keeps_queue() {
    let mut s = ChannelState::new();
    assert_eq!(s.send(1), Ok(()));
    s.remove_receiver();
    assert_eq!(s.send(2), Err(SendError::Disconnected(2)));
    s.add_receiver();
    assert_eq!(s.send(3), Ok(()));
    assert_eq!(s.try_recv(), Ok(1));
    assert_eq!(s.try_recv(), Ok(3));
    assert_eq!(s.try_recv(), Err(TryRecvError::Empty));
}

#[test]
fn state_values_still_delivered_after_close() {
    let mut s = ChannelState::new();
    assert_eq!(s.send('x'), Ok(()));
    assert!(s.remove_sender());
    assert!(!s.would_block());
    assert_eq!(s.recv_ready(), Ok('x'));
    assert_eq!(s.recv_ready(), Err(RecvError::Disconnected));
}
