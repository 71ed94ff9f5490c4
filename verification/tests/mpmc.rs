use anterofit::mpmc::{channel, JobQueue, Recv, Wake};

fn job_of(recv: Recv<u32>) -> Option<u32> {
    recv.job()
}

#[test]
fn new_queue_is_open_and_empty() {
    let (tx, rx, mut queue): (_, _, JobQueue<u32>) = channel(7);
    assert_eq!(queue.number(), 7);
    assert!(!queue.closed());
    assert!(queue.has_room());
    assert!(queue.can_share());
    assert!(tx.usable(&queue));
    assert!(matches!(rx.recv(&mut queue), Recv::Empty));
}

#[test]
fn jobs_come_out_in_the_order_sent() {
    let (tx, rx, mut queue) = channel(0);
    for i in 0..200u32 {
        assert_eq!(tx.send(&mut queue, i), Ok(Wake::One));
    }
    for i in 0..200u32 {
        assert_eq!(job_of(rx.recv(&mut queue)), Some(i));
    }
    assert!(matches!(rx.recv(&mut queue), Recv::Empty));
}

#[test]
fn each_job_is_received_once_by_any_receiver() {
    let (tx, rx, mut queue) = channel(0);
    let other = rx;
    tx.send(&mut queue, 10u32).unwrap();
    tx.send(&mut queue, 11u32).unwrap();
    assert_eq!(job_of(rx.recv(&mut queue)), Some(10));
    assert_eq!(job_of(other.recv(&mut queue)), Some(11));
    assert!(matches!(rx.recv(&mut queue), Recv::Empty));
    assert!(matches!(other.recv(&mut queue), Recv::Empty));
}

#[test]
fn recv_outcome_names_the_receivers_to_wake() {
    let (tx, rx, mut queue) = channel(0);
    tx.send(&mut queue, 1u32).unwrap();
    assert_eq!(rx.recv(&mut queue).wake(), Wake::One);
    assert_eq!(rx.recv(&mut queue).wake(), Wake::Nobody);
    assert_eq!(tx.release(&mut queue), Wake::All);
    assert_eq!(rx.recv(&mut queue).wake(), Wake::All);
}

#[test]
fn queue_closes_when_the_last_sender_is_released() {
    let (tx, rx, mut queue): (_, _, JobQueue<u32>) = channel(0);
    let second = tx.share(&mut queue).expect("an open queue gains a sender");
    assert_eq!(tx.release(&mut queue), Wake::Nobody);
    assert!(!queue.closed());
    assert!(matches!(rx.recv(&mut queue), Recv::Empty));
    assert_eq!(second.release(&mut queue), Wake::All);
    assert!(queue.closed());
    assert!(matches!(rx.recv(&mut queue), Recv::Closed));
    assert!(matches!(rx.recv(&mut queue), Recv::Closed));
}

#[test]
fn pending_jobs_outlive_the_close() {
    let (tx, rx, mut queue) = channel(0);
    tx.send(&mut queue, 5u32).unwrap();
    tx.send(&mut queue, 6u32).unwrap();
    tx.release(&mut queue);
    assert_eq!(job_of(rx.recv(&mut queue)), Some(5));
    assert_eq!(job_of(rx.recv(&mut queue)), Some(6));
    assert!(matches!(rx.recv(&mut queue), Recv::Closed));
}

#[test]
fn closed_queue_hands_the_job_back() {
    let (tx, _rx, mut queue) = channel(0);
    let second = tx.share(&mut queue).unwrap();
    tx.release(&mut queue);
    second.release(&mut queue);
    let (stale, _, _): (_, _, JobQueue<u32>) = channel(0);
    assert_eq!(stale.send(&mut queue, 9u32), Err(9));
    assert!(stale.share(&mut queue).is_none());
    assert!(!stale.usable(&queue));
}

#[test]
fn handle_of_another_queue_reaches_nothing() {
    let (_tx, _rx, mut queue) = channel(1);
    let (other_tx, other_rx, _other): (_, _, JobQueue<u32>) = channel(2);
    assert_eq!(other_tx.send(&mut queue, 3u32), Err(3));
    assert!(matches!(other_rx.recv(&mut queue), Recv::Closed));
    assert_eq!(other_tx.release(&mut queue), Wake::Nobody);
    assert!(!queue.closed());
}

#[test]
fn drain_takes_every_pending_job_in_order() {
    let (tx, rx, mut queue) = channel(0);
    for i in 0..5u32 {
        tx.send(&mut queue, i).unwrap();
    }
    assert_eq!(rx.drain(&mut queue), vec![0, 1, 2, 3, 4]);
    assert_eq!(rx.drain(&mut queue), Vec::<u32>::new());
}

#[test]
fn iteration_views_ask_the_receiver() {
    let (tx, rx, mut queue) = channel(0);
    tx.send(&mut queue, 1u32).unwrap();
    tx.send(&mut queue, 2u32).unwrap();
    let mut borrowed = rx.iter();
    assert_eq!(job_of(borrowed.next(&mut queue)), Some(1));
    let mut owned = rx.into_iter();
    assert_eq!(job_of(owned.next(&mut queue)), Some(2));
    assert!(matches!(owned.next(&mut queue), Recv::Empty));
    tx.release(&mut queue);
    assert!(matches!(borrowed.next(&mut queue), Recv::Closed));
}

#[test]
fn spurious_wakeup_finds_the_queue_empty_again() {
    let (tx, rx, mut queue): (_, _, JobQueue<u32>) = channel(0);
    for _ in 0..3 {
        assert!(matches!(rx.recv(&mut queue), Recv::Empty));
    }
    tx.send(&mut queue, 8).unwrap();
    assert_eq!(job_of(rx.recv(&mut queue)), Some(8));
}
