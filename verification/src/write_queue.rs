//! The producer's side of the ring: pushes, the overflow of pending tasks
//! that a full ring leaves behind, and the handler that drains it.

use crate::ring::{countable, fillable, intact, pushed, Ring};
use crate::waker::wake;
use std::collections::VecDeque;
use std::task::Waker;
use vstd::prelude::*;

verus! {

/// The cell through which the producer wakes whoever awaits a pending push.
pub enum WakerSlot {
    /// Nobody has polled yet.
    Empty,
    /// The task to wake once the item is in the ring.
    Pending(Waker),
    /// The item is in the ring.
    Finished,
}

impl WakerSlot {
    /// Marks the push as finished and wakes the task that waits for it, if
    /// one does.
    pub fn wake(&mut self)
        ensures
            *final(self) == WakerSlot::Finished,
    {
        let mut prev = WakerSlot::Finished;
        std::mem::swap(self, &mut prev);
        if let WakerSlot::Pending(w) = prev {
            wake(w);
        }
    }

    /// Stores `w` as the task to wake, unless the push has finished; returns
    /// whether it has.
    pub fn set_waker(&mut self, w: Waker) -> (finished: bool)
        ensures
            finished == (*old(self) is Finished),
            *final(self) == if finished {
                WakerSlot::Finished
            } else {
                WakerSlot::Pending(w)
            },
    {
        match self {
            WakerSlot::Finished => true,
            _ => {
                *self = WakerSlot::Pending(w);
                false
            },
        }
    }
}

/// An item that found the ring full, with the cell of its awaiter if the
/// push was made with one.
pub struct PendingTask<T> {
    pub data: T,
    pub waiter: Option<WakerSlot>,
}

/// The handle of a push that is pending: the number of the task among all
/// that this producer ever queued behind the ring.
pub struct PushJoinHandle {
    seq: usize,
}

impl PushJoinHandle {
    /// The number of the task.
    pub closed spec fn seq(&self) -> nat {
        self.seq as nat
    }
}

/// What a push with an awaiter came to.
pub enum PushResult {
    /// The item is in the ring.
    Done,
    /// The ring was full: the item waits behind it.
    Pending(PushJoinHandle),
}

/// What a plain push came to.
pub struct Pushed {
    /// Whether the item is in the ring (else it waits behind it).
    pub queued: bool,
    /// Whether the consumer was parked and has to be woken on `working_fd`.
    pub notify: bool,
}

/// What the unstuck handler does after one round.
pub struct Unstuck {
    /// Whether the consumer was parked and has to be woken on `working_fd`.
    pub notify: bool,
    /// Whether to run another round at once instead of parking on
    /// `unstuck_fd`.
    pub again: bool,
}

/// The producer's own state: the tasks that wait behind the ring, oldest
/// first, and how many such tasks have reached the ring so far.
pub struct WriteQueue<T> {
    pending_tasks: VecDeque<PendingTask<T>>,
    drained: usize,
}

/// The items of the first `n` tasks, in order.
pub open spec fn items_of<T>(tasks: Seq<PendingTask<T>>, n: int) -> Seq<T> {
    Seq::new(n as nat, |i: int| tasks[i].data)
}

/// How many pending tasks fit into a ring of `capacity` slots that holds
/// `len` items.
pub open spec fn fitting(pending: nat, capacity: nat, len: nat) -> nat {
    if pending <= capacity - len {
        pending
    } else {
        (capacity - len) as nat
    }
}

/// What a plain push of `item` makes of a ring and of the tasks that wait
/// behind it: the item goes into the ring and the consumer is marked as
/// working, to be woken if it was not; or, where the ring is full, the
/// producer is marked as stuck and the item waits behind the ring.
pub open spec fn push_outcome<T, R: Ring<T>>(
    queue: WriteQueue<T>,
    ring: R,
    after_queue: WriteQueue<T>,
    after_ring: R,
    item: T,
    r: Pushed,
) -> bool {
    &&& after_ring.capacity() == ring.capacity()
    &&& after_ring.head() == ring.head()
    &&& after_ring.items() == pushed(ring.items(), ring.capacity(), item)
    &&& after_ring.tail() == ring.tail() + after_ring.items().len() - ring.items().len()
    &&& after_queue.drained() == queue.drained()
    &&& r.queued == (ring.items().len() < ring.capacity())
    &&& r.notify == (r.queued && !ring.is_working())
    &&& after_ring.is_working() == (r.queued || ring.is_working())
    &&& after_ring.is_stuck() == (!r.queued || ring.is_stuck())
    &&& after_queue.pending() == if r.queued {
        queue.pending()
    } else {
        queue.pending().push(PendingTask { data: item, waiter: None })
    }
}

/// Back-pressure is released by pops, and only by pops. Take the handle of
/// the newest pending task, a ring that was full, and a consumer that has
/// popped `pops` items since; after one drain, the push behind the handle is
/// completed exactly if the consumer has popped at least one item for each
/// pending task. With nothing else pending, that is: exactly if it has popped
/// at least one item.
pub proof fn lemma_pending_completes_iff_popped<T>(
    before: WriteQueue<T>,
    after: WriteQueue<T>,
    handle: PushJoinHandle,
    capacity: nat,
    pops: nat,
)
    requires
        before.pending().len() > 0,
        handle.seq() == before.issued() - 1,
        pops <= capacity,
        after.drained() == before.drained() + fitting(
            before.pending().len(),
            capacity,
            (capacity - pops) as nat,
        ),
    ensures
        !before.completed(&handle),
        after.completed(&handle) <==> pops >= before.pending().len(),
        before.pending().len() == 1 ==> (after.completed(&handle) <==> pops >= 1),
{
}

impl<T> WriteQueue<T> {
    /// The tasks that wait behind the ring, oldest first.
    pub closed spec fn pending(&self) -> Seq<PendingTask<T>> {
        self.pending_tasks@
    }

    /// How many pending tasks have reached the ring.
    pub closed spec fn drained(&self) -> nat {
        self.drained as nat
    }

    /// How many tasks were ever queued behind the ring.
    pub open spec fn issued(&self) -> nat {
        self.drained() + self.pending().len()
    }

    /// The invariant: the count of issued tasks fits the counter, and no
    /// waiting task is marked as finished.
    pub closed spec fn wf(&self) -> bool {
        &&& self.drained + self.pending_tasks@.len() <= usize::MAX
        &&& forall|i: int|
            0 <= i < self.pending_tasks@.len() ==> (#[trigger] self.pending_tasks@[i]).waiter
                != Some(WakerSlot::Finished)
    }

    /// Whether the push behind `handle` has reached the ring.
    pub open spec fn completed(&self, handle: &PushJoinHandle) -> bool {
        handle.seq() < self.drained()
    }

    /// A producer with nothing pending.
    pub fn new() -> (w: Self)
        ensures
            w.wf(),
            w.pending() == Seq::<PendingTask<T>>::empty(),
            w.drained() == 0,
    {
        WriteQueue { pending_tasks: VecDeque::new(), drained: 0 }
    }

    /// The number of tasks that wait behind the ring.
    pub fn pending_len(&self) -> (n: usize)
        ensures
            n == self.pending().len(),
    {
        self.pending_tasks.len()
    }

    /// How many more pending tasks the counter can count.
    pub fn tickets_left(&self) -> (n: usize)
        requires
            self.wf(),
        ensures
            n == usize::MAX - self.issued(),
    {
        usize::MAX - self.drained - self.pending_tasks.len()
    }

    /// Whether the ring holds nothing.
    pub fn is_empty<R: Ring<T>>(&self, ring: &R) -> (b: bool)
        requires
            intact(ring),
        ensures
            b == (ring.items().len() == 0),
    {
        ring.is_empty()
    }

    /// Puts `item` into the ring and marks the consumer as working; where the
    /// ring is full, marks the producer as stuck and queues the item behind
    /// the ring.
    pub fn push<R: Ring<T>>(&mut self, ring: &mut R, item: T) -> (r: Pushed)
        requires
            old(self).wf(),
            intact(old(ring)),
            countable(old(ring)),
            old(self).issued() < usize::MAX,
        ensures
            final(self).wf(),
            intact(final(ring)),
            push_outcome(*old(self), *old(ring), *final(self), *final(ring), item, r),
    {
        match ring.push(item) {
            Ok(_) => {
                let notify = !ring.working();
                if notify {
                    ring.mark_working();
                }
                Pushed { queued: true, notify }
            },
            Err(item) => {
                ring.mark_stuck();
                self.pending_tasks.push_back(PendingTask { data: item, waiter: None });
                Pushed { queued: false, notify: false }
            },
        }
    }

    /// As `push`, but leaves the consumer's `working` flag alone. Returns
    /// whether the item is in the ring.
    pub fn push_without_notify<R: Ring<T>>(&mut self, ring: &mut R, item: T) -> (queued: bool)
        requires
            old(self).wf(),
            intact(old(ring)),
            countable(old(ring)),
            old(self).issued() < usize::MAX,
        ensures
            final(self).wf(),
            intact(final(ring)),
            final(ring).capacity() == old(ring).capacity(),
            final(ring).head() == old(ring).head(),
            final(ring).items() == pushed(old(ring).items(), old(ring).capacity(), item),
            final(ring).tail() == old(ring).tail() + final(ring).items().len() - old(ring).items().len(),
            final(self).drained() == old(self).drained(),
            queued == (old(ring).items().len() < old(ring).capacity()),
            final(ring).is_working() == old(ring).is_working(),
            final(ring).is_stuck() == (!queued || old(ring).is_stuck()),
            final(self).pending() == if queued {
                old(self).pending()
            } else {
                old(self).pending().push(PendingTask { data: item, waiter: None })
            },
    {
        match ring.push(item) {
            Ok(_) => true,
            Err(item) => {
                ring.mark_stuck();
                self.pending_tasks.push_back(PendingTask { data: item, waiter: None });
                false
            },
        }
    }

    /// Marks a parked consumer as working. Returns whether it was parked and
    /// has to be woken on `working_fd`.
    pub fn notify_manually<R: Ring<T>>(&self, ring: &mut R) -> (notify: bool)
        requires
            intact(old(ring)),
        ensures
            intact(final(ring)),
            final(ring).items() == old(ring).items(),
            final(ring).capacity() == old(ring).capacity(),
            final(ring).head() == old(ring).head(),
            final(ring).tail() == old(ring).tail(),
            final(ring).is_stuck() == old(ring).is_stuck(),
            notify == !old(ring).is_working(),
            final(ring).is_working(),
    {
        if ring.working() {
            return false;
        }
        ring.mark_working();
        true
    }

    /// As `push`, but where the ring is full the item is queued with a cell
    /// for its awaiter, and the handle of that task is returned. The second
    /// component says whether the consumer has to be woken on `working_fd`.
    pub fn push_with_awaiter<R: Ring<T>>(&mut self, ring: &mut R, item: T) -> (r: (PushResult, bool))
        requires
            old(self).wf(),
            intact(old(ring)),
            countable(old(ring)),
            old(self).issued() < usize::MAX,
        ensures
            final(self).wf(),
            intact(final(ring)),
            final(ring).capacity() == old(ring).capacity(),
            final(ring).head() == old(ring).head(),
            final(ring).items() == pushed(old(ring).items(), old(ring).capacity(), item),
            final(ring).tail() == old(ring).tail() + final(ring).items().len() - old(ring).items().len(),
            final(self).drained() == old(self).drained(),
            r.0 is Done == (old(ring).items().len() < old(ring).capacity()),
            r.0 matches PushResult::Pending(h) ==> h.seq() == old(self).issued(),
            r.1 == (r.0 is Done && !old(ring).is_working()),
            final(ring).is_working() == (r.0 is Done || old(ring).is_working()),
            final(ring).is_stuck() == (r.0 is Pending || old(ring).is_stuck()),
            final(self).pending() == if r.0 is Done {
                old(self).pending()
            } else {
                old(self).pending().push(
                    PendingTask { data: item, waiter: Some(WakerSlot::Empty) },
                )
            },
    {
        match ring.push(item) {
            Ok(_) => {
                let notify = !ring.working();
                if notify {
                    ring.mark_working();
                }
                (PushResult::Done, notify)
            },
            Err(item) => {
                ring.mark_stuck();
                let seq: usize = self.drained + self.pending_tasks.len();
                self.pending_tasks.push_back(
                    PendingTask { data: item, waiter: Some(WakerSlot::Empty) },
                );
                (PushResult::Pending(PushJoinHandle { seq }), false)
            },
        }
    }

    /// Polls a pending push: returns whether its item has reached the ring,
    /// and, where it has not, stores `waker` in the task's cell as the task to
    /// wake when it does.
    pub fn poll(&mut self, handle: &PushJoinHandle, waker: Waker) -> (ready: bool)
        requires
            old(self).wf(),
        ensures
            final(self).wf(),
            ready == old(self).completed(handle),
            final(self).drained() == old(self).drained(),
            final(self).pending() == ({
                let i = handle.seq() - old(self).drained();
                let tasks = old(self).pending();
                if 0 <= i < tasks.len() && tasks[i].waiter is Some {
                    tasks.update(
                        i,
                        PendingTask { data: tasks[i].data, waiter: Some(WakerSlot::Pending(waker)) },
                    )
                } else {
                    tasks
                }
            }),
    {
        if handle.seq < self.drained {
            return true;
        }
        let i: usize = handle.seq - self.drained;
        if i >= self.pending_tasks.len() {
            return false;
        }
        let ghost tasks = self.pending_tasks@;
        let removed = self.pending_tasks.remove(i);
        let mut task = removed.unwrap();
        match task.waiter {
            Some(mut slot) => {
                let _ = slot.set_waker(waker);
                task.waiter = Some(slot);
            },
            None => {},
        }
        self.pending_tasks.insert(i, task);
        proof {
            assert(self.pending_tasks@ =~= tasks.update(i as int, task));
            if tasks[i as int].waiter is None {
                assert(task == tasks[i as int]);
                assert(tasks.update(i as int, task) =~= tasks);
            }
        }
        false
    }

    /// Moves pending tasks into the ring, oldest first, until none is left or
    /// the ring is full, and wakes the awaiter of each task moved. Returns how
    /// many were moved.
    pub fn drain<R: Ring<T>>(&mut self, ring: &mut R) -> (moved: usize)
        requires
            old(self).wf(),
            intact(old(ring)),
            fillable(old(ring)),
        ensures
            final(self).wf(),
            intact(final(ring)),
            final(ring).capacity() == old(ring).capacity(),
            final(ring).head() == old(ring).head(),
            final(ring).is_working() == old(ring).is_working(),
            final(ring).is_stuck() == old(ring).is_stuck(),
            moved == fitting(old(self).pending().len(), old(ring).capacity(), old(ring).items().len()),
            final(ring).items() == old(ring).items() + items_of(old(self).pending(), moved as int),
            final(ring).tail() == old(ring).tail() + moved,
            final(self).pending() == old(self).pending().skip(moved as int),
            final(self).drained() == old(self).drained() + moved,
    {
        let mut moved: usize = 0;
        let ghost tasks = self.pending_tasks@;
        let ghost items = ring.items();
        proof {
            assert(items + items_of(tasks, 0) =~= items);
            assert(tasks.skip(0) =~= tasks);
        }
        loop
            invariant
                self.wf(),
                intact(ring),
                tasks == old(self).pending(),
                items == old(ring).items(),
                ring.capacity() == old(ring).capacity(),
                ring.head() == old(ring).head(),
                ring.is_working() == old(ring).is_working(),
                ring.is_stuck() == old(ring).is_stuck(),
                fillable(ring),
                moved <= tasks.len(),
                moved <= fitting(tasks.len(), ring.capacity(), items.len()),
                ring.items() == items + items_of(tasks, moved as int),
                ring.tail() == old(ring).tail() + moved,
                self.pending_tasks@ == tasks.skip(moved as int),
                self.drained == old(self).drained + moved,
            ensures
                moved == fitting(tasks.len(), ring.capacity(), items.len()),
            decreases tasks.len() - moved,
        {
            let first = self.pending_tasks.pop_front();
            match first {
                None => {
                    break ;
                },
                Some(task) => {
                    let PendingTask { data, waiter } = task;
                    assert(task == tasks[moved as int]);
                    match ring.push(data) {
                        Ok(_) => {
                            match waiter {
                                Some(mut slot) => {
                                    slot.wake();
                                },
                                None => {},
                            }
                            moved = moved + 1;
                            self.drained = self.drained + 1;
                            proof {
                                assert(self.pending_tasks@ =~= tasks.skip(moved as int));
                                assert(ring.items() =~= items + items_of(tasks, moved as int));
                            }
                        },
                        Err(data) => {
                            self.pending_tasks.push_front(PendingTask { data, waiter });
                            proof {
                                assert(self.pending_tasks@ =~= tasks.skip(moved as int));
                            }
                            break ;
                        },
                    }
                },
            }
        }
        moved
    }

    /// After a drain: marks the consumer as working, and, if tasks are still
    /// pending, marks the producer as stuck again and asks for another round
    /// at once where the ring has room.
    pub fn rearm<R: Ring<T>>(&self, ring: &mut R) -> (r: Unstuck)
        requires
            self.wf(),
            intact(old(ring)),
        ensures
            intact(final(ring)),
            final(ring).items() == old(ring).items(),
            final(ring).capacity() == old(ring).capacity(),
            final(ring).head() == old(ring).head(),
            final(ring).tail() == old(ring).tail(),
            final(ring).is_working(),
            final(ring).is_stuck() == (self.pending().len() > 0 || old(ring).is_stuck()),
            r.notify == !old(ring).is_working(),
            r.again == (self.pending().len() > 0 && old(ring).items().len() < old(ring).capacity()),
    {
        let notify = !ring.working();
        if notify {
            ring.mark_working();
        }
        let mut again = false;
        if self.pending_tasks.len() != 0 {
            ring.mark_stuck();
            if !ring.is_full() {
                again = true;
            }
        }
        Unstuck { notify, again }
    }

    /// One round of the unstuck handler: a drain, then a rearm. After the
    /// drain either nothing is pending or the ring is full, so the round
    /// never asks for another at once.
    pub fn unstuck_round<R: Ring<T>>(&mut self, ring: &mut R) -> (r: Unstuck)
        requires
            old(self).wf(),
            intact(old(ring)),
            fillable(old(ring)),
        ensures
            final(self).wf(),
            intact(final(ring)),
            final(ring).capacity() == old(ring).capacity(),
            final(ring).head() == old(ring).head(),
            final(ring).items() == old(ring).items() + items_of(
                old(self).pending(),
                fitting(old(self).pending().len(), old(ring).capacity(), old(ring).items().len()) as int,
            ),
            final(self).pending() == old(self).pending().skip(
                fitting(old(self).pending().len(), old(ring).capacity(), old(ring).items().len()) as int,
            ),
            final(self).drained() == old(self).drained() + fitting(
                old(self).pending().len(),
                old(ring).capacity(),
                old(ring).items().len(),
            ),
            final(ring).is_working(),
            final(ring).is_stuck() == (final(self).pending().len() > 0 || old(ring).is_stuck()),
            r.notify == !old(ring).is_working(),
            !r.again,
    {
        let _ = self.drain(ring);
        self.rearm(ring)
    }
}

} // verus!
