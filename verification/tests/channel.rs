use mpsc_channel::channel;

#[test]
fn it_works() {
    let (mut sender, mut receiver) = channel::<i32>();

    for _ in 0..10 {
        sender.send(5i32);
    }

    for _ in 0..10 {
        let data = receiver.recv();
        assert_eq!(data, Some(5i32));
    }
}

#[test]
fn zero_sender() {
    let (sender, mut receiver) = channel::<i32>();

    drop(sender);

    let data = receiver.recv();
    assert_eq!(data, None);
}

#[test]
fn fifo_order() {
    let (mut sender, mut receiver) = channel::<u64>();

    for value in 1..=4u64 {
        sender.send(value);
    }
    drop(sender);

    for value in 1..=4u64 {
        assert_eq!(receiver.recv(), Some(value));
    }
    assert_eq!(receiver.recv(), None);
}

#[test]
fn conservation() {
    let (mut sender, mut receiver) = channel::<usize>();

    let count: usize = 5;
    for value in 0..count {
        sender.send(value);
    }
    drop(sender);

    let mut taken: Vec<usize> = Vec::new();
    while let Some(value) = receiver.recv() {
        taken.push(value);
    }
    assert_eq!(taken, vec![0, 1, 2, 3, 4]);
    assert_eq!(receiver.recv(), None);
}

#[test]
fn drain_before_close() {
    let (mut sender, mut receiver) = channel::<&str>();

    sender.send("first");
    sender.send("second");
    sender.send("third");
    drop(sender);

    assert_eq!(receiver.recv(), Some("first"));
    assert_eq!(receiver.recv(), Some("second"));
    assert_eq!(receiver.recv(), Some("third"));
    assert_eq!(receiver.recv(), None);
}

#[test]
fn clone_accounting() {
    let (sender, mut receiver) = channel::<i32>();

    let mut clone = sender.clone();
    drop(sender);

    clone.send(42);
    assert_eq!(receiver.recv(), Some(42));

    drop(clone);
    assert_eq!(receiver.recv(), None);
}

#[test]
fn two_senders_interleaved() {
    let (mut first, mut receiver) = channel::<i32>();
    let mut second = first.clone();

    first.send(1);
    second.send(10);
    first.send(2);
    second.send(20);
    first.send(3);
    second.send(30);
    drop(first);
    drop(second);

    let mut taken: Vec<i32> = Vec::new();
    while let Some(value) = receiver.recv() {
        taken.push(value);
    }
    assert_eq!(taken.len(), 6);
    assert_eq!(receiver.recv(), None);

    let from_first: Vec<i32> = taken.iter().copied().filter(|v| *v < 10).collect();
    let from_second: Vec<i32> = taken.iter().copied().filter(|v| *v >= 10).collect();
    assert_eq!(from_first, vec![1, 2, 3]);
    assert_eq!(from_second, vec![10, 20, 30]);
}

#[test]
fn buffer_refill_keeps_order() {
    let (mut sender, mut receiver) = channel::<u8>();

    sender.send(1);
    sender.send(2);
    sender.send(3);

    // The first receive pops 1 under the lock and pulls 2 and 3 into the
    // receiver's private buffer; 4 then queues behind them.
    assert_eq!(receiver.recv(), Some(1));
    sender.send(4);
    drop(sender);

    assert_eq!(receiver.recv(), Some(2));
    assert_eq!(receiver.recv(), Some(3));
    assert_eq!(receiver.recv(), Some(4));
    assert_eq!(receiver.recv(), None);
}

#[test]
fn closed_stays_closed() {
    let (sender, mut receiver) = channel::<i32>();
    drop(sender);

    assert_eq!(receiver.recv(), None);
    assert_eq!(receiver.recv(), None);
    assert_eq!(receiver.recv(), None);
}

#[test]
fn send_after_receiver_dropped() {
    let (mut sender, receiver) = channel::<i32>();
    drop(receiver);

    // Such a send stays silent: it succeeds and the message is discarded
    // with the channel.
    sender.send(9);
    sender.send(10);
}
