use mpsc_channel::channel;

#[test]
fn ping_pong() {
    let (mut tx, mut rx) = channel();
    tx.send(42);
    assert_eq!(rx.recv(), Some(42));
}

#[test]
fn tx_closed() {
    let (tx, mut rx) = channel::<()>();
    drop(tx);
    assert_eq!(rx.recv(), None);
}

#[test]
fn fifo_order() {
    let (mut tx, mut rx) = channel();
    tx.send(1);
    tx.send(2);
    tx.send(3);
    assert_eq!(rx.recv(), Some(1));
    assert_eq!(rx.recv(), Some(2));
    assert_eq!(rx.recv(), Some(3));
}

#[test]
fn fan_in_complete() {
    let (tx, mut rx) = channel();
    let mut handles = Vec::new();
    for k in 0..8 {
        let mut txk = tx.clone();
        txk.send(k);
        handles.push(txk);
    }
    drop(tx);
    drop(handles);
    let mut got = Vec::new();
    while let Some(v) = rx.recv() {
        got.push(v);
    }
    got.sort();
    assert_eq!(got, vec![0, 1, 2, 3, 4, 5, 6, 7]);
    assert_eq!(rx.recv(), None);
}

#[test]
fn local_buffer_serves_batch() {
    let (mut tx, mut rx) = channel();
    tx.send(10);
    tx.send(20);
    tx.send(30);
    // The first call drains the shared queue; the two staged values are
    // then served from the receiver's local buffer.
    assert_eq!(rx.recv(), Some(10));
    drop(tx);
    assert_eq!(rx.recv(), Some(20));
    assert_eq!(rx.recv(), Some(30));
    assert_eq!(rx.recv(), None);
}

#[test]
fn exhaustion_is_idempotent() {
    let (tx, mut rx) = channel::<u8>();
    drop(tx);
    assert_eq!(rx.recv(), None);
    assert_eq!(rx.recv(), None);
    assert_eq!(rx.recv(), None);
}

#[test]
fn cloned_sender_feeds_same_receiver() {
    let (mut tx, mut rx) = channel();
    let mut tx2 = tx.clone();
    tx.send(1);
    tx2.send(2);
    assert_eq!(rx.recv(), Some(1));
    assert_eq!(rx.recv(), Some(2));
}

#[test]
fn close_needs_every_sender_dropped() {
    let (tx, mut rx) = channel();
    let mut tx2 = tx.clone();
    drop(tx);
    tx2.send(7);
    assert_eq!(rx.recv(), Some(7));
    drop(tx2);
    assert_eq!(rx.recv(), None);
}

#[test]
fn next_pulls_like_recv() {
    let (mut tx, mut rx) = channel();
    tx.send(5);
    tx.send(6);
    drop(tx);
    let mut got = Vec::new();
    while let Some(v) = rx.next() {
        got.push(v);
    }
    assert_eq!(got, vec![5, 6]);
    assert_eq!(rx.next(), None);
}

#[test]
fn finish_recv_delivers_head_and_stages_batch() {
    let (tx, mut rx) = channel::<i32>();
    drop(tx);
    let mut batch = std::collections::VecDeque::new();
    batch.push_back(6);
    batch.push_back(7);
    let step = mpsc_channel::state::RecvStep::Ready(5, batch);
    assert_eq!(rx.finish_recv(step), Some(5));
    // The staged batch is served from the local buffer, then closure.
    assert_eq!(rx.recv(), Some(6));
    assert_eq!(rx.recv(), Some(7));
    assert_eq!(rx.recv(), None);
}

#[test]
fn send_after_receiver_gone_is_quiet() {
    let (mut tx, rx) = channel();
    drop(rx);
    tx.send(9);
    tx.send(10);
}
