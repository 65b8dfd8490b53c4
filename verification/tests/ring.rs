use rust2go::{
    pop_index, push_index, Phase, PushResult, Queue, ReadQueue, Work, WriteQueue, YIELD_CNT,
};
use std::sync::atomic::{AtomicUsize, Ordering};
use std::sync::Arc;
use std::task::{Wake, Waker};

struct Counter(AtomicUsize);

impl Wake for Counter {
    fn wake(self: Arc<Self>) {
        self.0.fetch_add(1, Ordering::SeqCst);
    }
}

fn counting_waker() -> (Arc<Counter>, Waker) {
    let counter = Arc::new(Counter(AtomicUsize::new(0)));
    (counter.clone(), Waker::from(counter))
}

fn woken(counter: &Arc<Counter>) -> usize {
    counter.0.load(Ordering::SeqCst)
}

#[test]
fn ring_push_pop_in_order() {
    let mut q: Queue<u8> = Queue::new(4, 10, 11);
    assert!(q.is_empty());
    assert_eq!(q.push(1), Ok(()));
    assert_eq!(q.push(2), Ok(()));
    assert_eq!(q.push(3), Ok(()));
    assert_eq!(q.len(), 3);
    assert_eq!(q.pop(), Some(1));
    assert_eq!(q.pop(), Some(2));
    assert_eq!(q.pop(), Some(3));
    assert_eq!(q.pop(), None);
}

#[test]
fn ring_keeps_order_across_wrap_around() {
    let mut q: Queue<u32> = Queue::new(3, 0, 0);
    let mut next_in: u32 = 0;
    let mut next_out: u32 = 0;
    for round in 0..10 {
        for _ in 0..(1 + round % 3) {
            if q.push(next_in).is_ok() {
                next_in += 1;
            }
        }
        for _ in 0..(1 + (round + 1) % 3) {
            if let Some(v) = q.pop() {
                assert_eq!(v, next_out);
                next_out += 1;
            }
        }
    }
    while let Some(v) = q.pop() {
        assert_eq!(v, next_out);
        next_out += 1;
    }
    assert_eq!(next_in, next_out);
    assert!(next_in > 10);
}

#[test]
fn ring_full_hands_the_item_back() {
    let mut q: Queue<u8> = Queue::new(2, 0, 0);
    assert_eq!(q.slots(), 2);
    assert_eq!(q.push(1), Ok(()));
    assert_eq!(q.push(2), Ok(()));
    assert!(q.is_full());
    assert_eq!(q.push(3), Err(3));
    assert_eq!(q.len(), 2);
    assert_eq!(q.pop(), Some(1));
    assert_eq!(q.push(3), Ok(()));
    assert_eq!(q.pop(), Some(2));
    assert_eq!(q.pop(), Some(3));
}

#[test]
fn ring_without_slots_is_empty_and_full() {
    let mut q: Queue<u8> = Queue::new(0, 0, 0);
    assert!(q.is_empty());
    assert!(q.is_full());
    assert_eq!(q.push(7), Err(7));
    assert_eq!(q.pop(), None);
}

#[test]
fn ring_starts_parked_and_unstuck_with_its_descriptors() {
    let q: Queue<u8> = Queue::new(8, 10, 11);
    assert!(!q.working());
    assert!(!q.stuck());
    assert_eq!(q.fds(), (10, 11));
    assert_eq!(q.pushes_left(), usize::MAX);
}

#[test]
fn slot_indices_follow_the_counters() {
    assert_eq!(push_index(0, 0, 4), Some(0));
    assert_eq!(push_index(3, 5, 4), Some(1));
    assert_eq!(push_index(1, 5, 4), None);
    assert_eq!(pop_index(5, 5, 4), None);
    assert_eq!(pop_index(5, 6, 4), Some(1));
    assert_eq!(push_index(0, 0, 0), None);
}

#[test]
fn consumer_parks_after_three_yields() {
    assert_eq!(YIELD_CNT, 3);
    let mut q: Queue<u8> = Queue::new(1, 10, 11);
    let mut r: ReadQueue<u8> = ReadQueue::new();
    assert_eq!(r.current(), Phase::Parked);
    assert!(matches!(r.step(&mut q).work, Work::Yield));
    assert!(q.working());
    assert_eq!(r.current(), Phase::Yielding(1));
    assert!(matches!(r.step(&mut q).work, Work::Yield));
    assert!(matches!(r.step(&mut q).work, Work::Yield));
    assert_eq!(r.current(), Phase::Yielding(3));
    assert!(matches!(r.step(&mut q).work, Work::Park));
    assert_eq!(r.current(), Phase::Parked);
    assert!(!q.working());
}

#[test]
fn consumer_drains_again_when_an_item_arrives_during_a_yield() {
    let mut q: Queue<u8> = Queue::new(4, 0, 0);
    let mut w: WriteQueue<u8> = WriteQueue::new();
    let mut r: ReadQueue<u8> = ReadQueue::new();
    assert!(matches!(r.step(&mut q).work, Work::Yield));
    assert!(matches!(r.step(&mut q).work, Work::Yield));
    let pushed = w.push(&mut q, 9);
    assert!(pushed.queued);
    assert!(!pushed.notify);
    assert!(matches!(r.step(&mut q).work, Work::Deliver(9)));
    assert_eq!(r.current(), Phase::Draining);
    assert!(matches!(r.step(&mut q).work, Work::Yield));
    assert_eq!(r.current(), Phase::Yielding(1));
}

#[test]
fn capacity_one_alternates_without_deadlock() {
    let mut q: Queue<u32> = Queue::new(1, 0, 0);
    let mut w: WriteQueue<u32> = WriteQueue::new();
    let mut r: ReadQueue<u32> = ReadQueue::new();
    for item in 0..5u32 {
        // the consumer runs dry and parks
        loop {
            match r.step(&mut q).work {
                Work::Park => break,
                Work::Yield => {}
                Work::Deliver(_) => panic!("nothing was pushed"),
            }
        }
        assert!(!q.working());
        // the producer finds a parked consumer and has to wake it
        let pushed = w.push(&mut q, item);
        assert!(pushed.queued);
        assert!(pushed.notify);
        assert!(q.working());
        // woken, the consumer takes the item
        match r.step(&mut q).work {
            Work::Deliver(got) => assert_eq!(got, item),
            _ => panic!("the item was not delivered"),
        }
    }
}

#[test]
fn a_full_ring_queues_behind_it_and_marks_the_producer_stuck() {
    let mut q: Queue<u8> = Queue::new(1, 0, 0);
    let mut w: WriteQueue<u8> = WriteQueue::new();
    let r: ReadQueue<u8> = ReadQueue::new();
    assert!(w.push(&mut q, 1).queued);
    let second = w.push(&mut q, 2);
    assert!(!second.queued);
    assert!(!second.notify);
    assert!(q.stuck());
    assert_eq!(w.pending_len(), 1);
    assert!(!w.push(&mut q, 3).queued);
    assert!(!w.push(&mut q, 4).queued);
    assert_eq!(w.pending_len(), 3);

    // a pop releases the producer
    let (item, notify) = r.pop(&mut q);
    assert_eq!(item, Some(1));
    assert!(notify);
    assert!(!q.stuck());

    // one round moves what fits, in order
    let round = w.unstuck_round(&mut q);
    assert!(!round.again);
    assert_eq!(w.pending_len(), 2);
    assert!(q.stuck());
    assert_eq!(r.pop(&mut q), (Some(2), true));
    w.unstuck_round(&mut q);
    assert_eq!(r.pop(&mut q), (Some(3), true));
    w.unstuck_round(&mut q);
    assert_eq!(w.pending_len(), 0);
    assert_eq!(r.pop(&mut q), (Some(4), false));
    assert_eq!(r.pop(&mut q), (None, false));
}

#[test]
fn drain_moves_as_many_as_fit() {
    let mut q: Queue<u8> = Queue::new(3, 0, 0);
    let mut w: WriteQueue<u8> = WriteQueue::new();
    for item in 0..7u8 {
        w.push(&mut q, item);
    }
    assert_eq!(w.pending_len(), 4);
    assert_eq!(w.drain(&mut q), 0);
    assert_eq!(q.pop(), Some(0));
    assert_eq!(q.pop(), Some(1));
    assert_eq!(w.drain(&mut q), 2);
    assert_eq!(w.pending_len(), 2);
    assert_eq!(q.pop(), Some(2));
    assert_eq!(q.pop(), Some(3));
    assert_eq!(q.pop(), Some(4));
    assert_eq!(w.drain(&mut q), 2);
    assert_eq!(q.pop(), Some(5));
    assert_eq!(q.pop(), Some(6));
    assert_eq!(q.pop(), None);
}

#[test]
fn rearm_asks_for_another_round_only_with_room_and_work() {
    let mut q: Queue<u8> = Queue::new(1, 0, 0);
    let mut w: WriteQueue<u8> = WriteQueue::new();
    let idle = w.rearm(&mut q);
    assert!(idle.notify);
    assert!(!idle.again);
    assert!(q.working());
    w.push(&mut q, 1);
    w.push(&mut q, 2);
    assert!(!w.rearm(&mut q).again);
    // the consumer pops between the drain and the rearm
    assert_eq!(q.pop(), Some(1));
    let raced = w.rearm(&mut q);
    assert!(raced.again);
    assert!(!raced.notify);
    assert!(q.stuck());
}

#[test]
fn a_pending_push_completes_once_the_consumer_pops() {
    let mut q: Queue<u8> = Queue::new(1, 0, 0);
    let mut w: WriteQueue<u8> = WriteQueue::new();
    let r: ReadQueue<u8> = ReadQueue::new();
    assert!(matches!(w.push_with_awaiter(&mut q, 1), (PushResult::Done, true)));
    let handle = match w.push_with_awaiter(&mut q, 2) {
        (PushResult::Pending(handle), false) => handle,
        _ => panic!("the ring was full"),
    };
    let (counter, waker) = counting_waker();
    assert!(!w.poll(&handle, waker.clone()));
    // without a pop nothing moves
    w.unstuck_round(&mut q);
    assert!(!w.poll(&handle, waker.clone()));
    assert_eq!(woken(&counter), 0);
    // one pop, one round: the push is done and its awaiter woken
    assert_eq!(r.pop(&mut q).0, Some(1));
    w.unstuck_round(&mut q);
    assert_eq!(woken(&counter), 1);
    assert!(w.poll(&handle, waker));
    assert_eq!(r.pop(&mut q).0, Some(2));
}

#[test]
fn pending_pushes_complete_in_order() {
    let mut q: Queue<u8> = Queue::new(1, 0, 0);
    let mut w: WriteQueue<u8> = WriteQueue::new();
    w.push(&mut q, 0);
    let first = match w.push_with_awaiter(&mut q, 1).0 {
        PushResult::Pending(h) => h,
        PushResult::Done => panic!("the ring was full"),
    };
    let second = match w.push_with_awaiter(&mut q, 2).0 {
        PushResult::Pending(h) => h,
        PushResult::Done => panic!("the ring was full"),
    };
    let (_, waker) = counting_waker();
    assert_eq!(q.pop(), Some(0));
    w.unstuck_round(&mut q);
    assert!(w.poll(&first, waker.clone()));
    assert!(!w.poll(&second, waker.clone()));
    assert_eq!(q.pop(), Some(1));
    w.unstuck_round(&mut q);
    assert!(w.poll(&second, waker));
}

#[test]
fn push_without_notify_leaves_the_consumer_parked() {
    let mut q: Queue<u8> = Queue::new(1, 0, 0);
    let mut w: WriteQueue<u8> = WriteQueue::new();
    assert!(w.is_empty(&q));
    assert!(w.push_without_notify(&mut q, 1));
    assert!(!q.working());
    assert!(!w.is_empty(&q));
    assert!(!w.push_without_notify(&mut q, 2));
    assert!(q.stuck());
    assert!(w.notify_manually(&mut q));
    assert!(q.working());
    assert!(!w.notify_manually(&mut q));
}

#[test]
fn unworking_a_ring_that_holds_an_item_keeps_the_consumer_working() {
    let mut q: Queue<u8> = Queue::new(2, 0, 0);
    q.mark_working();
    assert!(q.mark_unworking());
    assert!(!q.working());
    q.mark_working();
    assert_eq!(q.push(1), Ok(()));
    assert!(!q.mark_unworking());
    assert!(q.working());
}

#[test]
fn a_step_parks_only_on_an_empty_ring() {
    let mut q: Queue<u8> = Queue::new(2, 0, 0);
    let mut r: ReadQueue<u8> = ReadQueue::new();
    q.push(1).unwrap();
    q.push(2).unwrap();
    let mut delivered = Vec::new();
    loop {
        match r.step(&mut q).work {
            Work::Deliver(item) => delivered.push(item),
            Work::Yield => assert!(q.working()),
            Work::Park => break,
        }
    }
    assert_eq!(delivered, vec![1, 2]);
    assert!(q.is_empty());
    assert!(!q.working());
}

#[test]
fn tickets_count_down() {
    let mut q: Queue<u8> = Queue::new(0, 0, 0);
    let mut w: WriteQueue<u8> = WriteQueue::new();
    assert_eq!(w.tickets_left(), usize::MAX);
    w.push(&mut q, 1);
    assert_eq!(w.tickets_left(), usize::MAX - 1);
}
