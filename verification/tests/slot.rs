use rust2go::{
    new_atomic_slot, LocalFut, SlotInner, SlotWriter, Slots, State, READER_DROPPED,
    VALUE_WRITTEN, WRITER_DROPPED,
};
use std::sync::atomic::{AtomicUsize, Ordering};
use std::sync::Arc;
use std::task::{Wake, Waker};

struct Bell(AtomicUsize);

impl Wake for Bell {
    fn wake(self: Arc<Self>) {
        self.0.fetch_add(1, Ordering::SeqCst);
    }
}

fn bell() -> (Arc<Bell>, Waker) {
    let bell = Arc::new(Bell(AtomicUsize::new(0)));
    (bell.clone(), Waker::from(bell))
}

fn rings(bell: &Arc<Bell>) -> usize {
    bell.0.load(Ordering::SeqCst)
}

#[test]
fn state_bits_are_independent() {
    assert_eq!((WRITER_DROPPED, READER_DROPPED, VALUE_WRITTEN), (1, 2, 4));
    let mut s = State::new();
    assert_eq!(s.load(), 0);
    assert!(!s.take_value());
    assert!(s.claim_value());
    assert_eq!(s.load(), 0b100);
    assert!(!s.claim_value());
    // the value is there, but the writer is not released yet
    assert!(!s.take_value());
    assert!(!s.drop_writer());
    assert_eq!(s.load(), 0b101);
    assert!(s.take_value());
    assert_eq!(s.load(), 0b001);
    assert!(!s.take_value());
    assert!(s.drop_reader());
    assert_eq!(s.load(), 0b011);
}

#[test]
fn a_value_is_read_exactly_once() {
    let mut slots: Slots<u32, ()> = Slots::new();
    let (reader, writer) = new_atomic_slot(&mut slots);
    assert_eq!(slots.live(), 1);
    assert_eq!(reader.read(&mut slots), None);
    assert_eq!(writer.write(&mut slots, 42), None);
    assert_eq!(reader.read(&mut slots), Some(42));
    assert_eq!(reader.read(&mut slots), None);
    assert!(reader.release(&mut slots));
    assert_eq!(slots.live(), 0);
}

#[test]
fn a_second_write_hands_the_value_back() {
    let mut slots: Slots<u32, ()> = Slots::new();
    let (reader, writer) = new_atomic_slot(&mut slots);
    let key = writer.into_ptr();
    let first: SlotWriter<u32, ()> = SlotWriter::from_ptr(key);
    assert_eq!(first.write(&mut slots, 1), None);
    // a handle made up for a slot that already holds a value
    let forged: SlotWriter<u32, ()> = SlotWriter::from_ptr(key);
    assert_eq!(forged.write(&mut slots, 2), Some(2));
    assert_eq!(reader.read(&mut slots), Some(1));
}

#[test]
fn a_write_wakes_the_reader() {
    let mut slots: Slots<String, ()> = Slots::new();
    let (reader, mut writer) = new_atomic_slot(&mut slots);
    let (bell, waker) = bell();
    writer.set_waker(&mut slots, waker);
    assert_eq!(rings(&bell), 0);
    assert_eq!(writer.write(&mut slots, "done".to_string()), None);
    assert_eq!(rings(&bell), 1);
    assert_eq!(reader.read(&mut slots), Some("done".to_string()));
}

#[test]
fn a_reader_released_first_does_not_stop_the_writer() {
    let mut slots: Slots<u32, ()> = Slots::new();
    let (reader, writer) = new_atomic_slot(&mut slots);
    let key = writer.into_ptr();
    assert!(!reader.release(&mut slots));
    assert!(slots.contains(key));
    let writer: SlotWriter<u32, ()> = SlotWriter::from_ptr(key);
    assert_eq!(writer.write(&mut slots, 7), None);
    assert!(!slots.contains(key));
    assert_eq!(slots.live(), 0);
}

#[test]
fn the_last_handle_frees_the_slot() {
    let mut slots: Slots<u32, ()> = Slots::new();
    let (r1, w1) = new_atomic_slot(&mut slots);
    let (r2, w2) = new_atomic_slot(&mut slots);
    assert_eq!(slots.live(), 2);
    assert!(!w1.release(&mut slots));
    assert!(r1.release(&mut slots));
    assert_eq!(slots.live(), 1);
    assert!(!r2.release(&mut slots));
    assert!(w2.release(&mut slots));
    assert_eq!(slots.live(), 0);
    // a freed key is used again
    let (r3, w3) = new_atomic_slot(&mut slots);
    assert_eq!(w3.into_ptr(), 0);
    assert_eq!(r3.read(&mut slots), None);
}

#[test]
fn a_writer_on_a_freed_slot_keeps_its_value() {
    let mut slots: Slots<u32, ()> = Slots::new();
    let stray: SlotWriter<u32, ()> = SlotWriter::from_ptr(5);
    assert_eq!(stray.write(&mut slots, 3), Some(3));
    assert_eq!(slots.live(), 0);
}

#[test]
fn the_attachment_comes_out_with_the_value() {
    let mut slots: Slots<u32, (String, Vec<u8>)> = Slots::new();
    let (reader, mut writer) = new_atomic_slot(&mut slots);
    writer.attach(&mut slots, ("req".to_string(), vec![1, 2]));
    assert_eq!(reader.read_with_attachment(&mut slots), None);
    assert_eq!(writer.write(&mut slots, 9), None);
    assert_eq!(
        reader.read_with_attachment(&mut slots),
        Some((9, Some(("req".to_string(), vec![1, 2]))))
    );
    assert_eq!(reader.read_with_attachment(&mut slots), None);
}

#[test]
fn a_ring_future_is_pending_until_the_result_is_set() {
    let mut fut: LocalFut<u32> = LocalFut { slot: SlotInner::new() };
    let (bell, waker) = bell();
    assert_eq!(fut.poll(waker.clone()), None);
    assert_eq!(rings(&bell), 0);
    fut.slot.set_result(5);
    assert_eq!(rings(&bell), 1);
    assert_eq!(fut.poll(waker.clone()), Some(5));
    assert_eq!(fut.poll(waker), None);
}

#[test]
fn a_result_without_a_waiter_is_kept() {
    let mut cell: SlotInner<&str> = SlotInner::new();
    cell.set_result("early");
    let (bell, waker) = bell();
    assert_eq!(cell.poll(waker), Some("early"));
    assert_eq!(rings(&bell), 0);
}
