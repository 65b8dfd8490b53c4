//! The bounded single-producer single-consumer ring.
//!
//! `head` and `tail` count every pop and every push since the ring was made;
//! the slot of a counter value is that value modulo the capacity. The ring is
//! the state that both sides share: the producer advances `tail`, sets `stuck`
//! and sets `working`; the consumer advances `head`, clears `stuck` and clears
//! or restores `working`.

use vstd::arithmetic::div_mod::{lemma_mod_equivalence, lemma_small_mod};
use vstd::prelude::*;

verus! {

/// The number of slots of a ring where none is asked for.
pub const DEFAULT_QUEUE_SIZE: usize = 4096;

/// The slot that the next push fills, or `None` when the ring is full.
pub fn push_index(head: usize, tail: usize, capacity: usize) -> (slot: Option<usize>)
    requires
        head <= tail,
        tail - head <= capacity,
    ensures
        slot is None <==> tail - head == capacity,
        slot matches Some(i) ==> i < capacity && i == tail % capacity,
{
    if tail - head == capacity {
        None
    } else {
        Some(tail % capacity)
    }
}

/// The slot that the next pop empties, or `None` when the ring is empty.
pub fn pop_index(head: usize, tail: usize, capacity: usize) -> (slot: Option<usize>)
    requires
        head <= tail,
        tail - head <= capacity,
    ensures
        slot is None <==> head == tail,
        slot matches Some(i) ==> i < capacity && i == head % capacity,
{
    if head == tail {
        None
    } else {
        Some(head % capacity)
    }
}

/// Counter values less than one capacity apart never share a slot.
pub proof fn lemma_slots_distinct(a: int, b: int, capacity: int)
    requires
        0 <= a < b,
        b - a < capacity,
    ensures
        a % capacity != b % capacity,
{
    if a % capacity == b % capacity {
        lemma_mod_equivalence(b, a, capacity);
        lemma_small_mod((b - a) as nat, capacity as nat);
    }
}

/// The items of a ring after a push of `item`: appended where a slot is
/// free, unchanged where the ring is full.
pub open spec fn pushed<T>(items: Seq<T>, capacity: nat, item: T) -> Seq<T> {
    if items.len() < capacity {
        items.push(item)
    } else {
        items
    }
}

/// The result of a pop: the oldest item, if there is one.
pub open spec fn front<T>(items: Seq<T>) -> Option<T> {
    if items.len() > 0 {
        Some(items[0])
    } else {
        None
    }
}

/// The items of a ring after a pop.
pub open spec fn popped<T>(items: Seq<T>) -> Seq<T> {
    if items.len() > 0 {
        items.drop_first()
    } else {
        items
    }
}

/// The items of a ring after one push of each of `more`, in order.
pub open spec fn pushed_all<T>(items: Seq<T>, capacity: nat, more: Seq<T>) -> Seq<T>
    decreases more.len(),
{
    if more.len() == 0 {
        items
    } else {
        pushed_all(pushed(items, capacity, more[0]), capacity, more.drop_first())
    }
}

/// The results of `n` pops in a row, in order.
pub open spec fn pops<T>(items: Seq<T>, n: nat) -> Seq<Option<T>>
    decreases n,
{
    if n == 0 {
        Seq::empty()
    } else {
        seq![front(items)] + pops(popped(items), (n - 1) as nat)
    }
}

/// Pushes that all find room append their items in order.
pub proof fn lemma_pushed_all_appends<T>(items: Seq<T>, capacity: nat, more: Seq<T>)
    requires
        items.len() + more.len() <= capacity,
    ensures
        pushed_all(items, capacity, more) == items + more,
    decreases more.len(),
{
    if more.len() == 0 {
        assert(items + more =~= items);
    } else {
        lemma_pushed_all_appends(items.push(more[0]), capacity, more.drop_first());
        assert(items.push(more[0]) + more.drop_first() =~= items + more);
    }
}

/// Pops hand out the queued items oldest first, and `None` once the ring is
/// empty.
pub proof fn lemma_pops_in_order<T>(items: Seq<T>, n: nat)
    ensures
        pops(items, n).len() == n,
        forall|i: int| 0 <= i < n && i < items.len() ==> (#[trigger] pops(items, n)[i]) == Some(items[i]),
        forall|i: int| items.len() <= i < n ==> (#[trigger] pops(items, n)[i]) is None,
    decreases n,
{
    if n > 0 {
        lemma_pops_in_order(popped(items), (n - 1) as nat);
        let rest = pops(popped(items), (n - 1) as nat);
        assert forall|i: int| 0 <= i < n && i < items.len() implies (#[trigger] pops(items, n)[i])
            == Some(items[i]) by {
            if i > 0 {
                assert(pops(items, n)[i] == rest[i - 1]);
                assert(popped(items)[i - 1] == items[i]);
            }
        }
        assert forall|i: int| items.len() <= i < n implies (#[trigger] pops(items, n)[i]) is None by {
            if i > 0 {
                assert(pops(items, n)[i] == rest[i - 1]);
            }
        }
    }
}

/// First in, first out: on a ring with room for them, `n` pushes followed by
/// `n` pops hand the pushed items back in the order in which they were pushed.
pub proof fn lemma_fifo<T>(capacity: nat, pushes: Seq<T>)
    requires
        pushes.len() <= capacity,
    ensures
        pops(pushed_all(Seq::empty(), capacity, pushes), pushes.len()).len() == pushes.len(),
        forall|i: int|
            0 <= i < pushes.len() ==> (#[trigger] pops(
                pushed_all(Seq::empty(), capacity, pushes),
                pushes.len(),
            )[i]) == Some(pushes[i]),
{
    lemma_pushed_all_appends(Seq::<T>::empty(), capacity, pushes);
    assert(Seq::<T>::empty() + pushes =~= pushes);
    lemma_pops_in_order(pushes, pushes.len());
}

/// The ring as the two sides use it. The library's own `Queue` is one; a
/// ring that lies in memory shared with another runtime is another.
///
/// A ring outside this library implements the executable methods alone: its
/// invariant then never holds, so that nothing is claimed of what it does.
pub trait Ring<T>: Sized {
    /// The queued items, oldest first.
    open spec fn items(&self) -> Seq<T> {
        Seq::empty()
    }

    /// The number of slots.
    open spec fn capacity(&self) -> nat {
        0
    }

    /// How many items were ever popped.
    open spec fn head(&self) -> nat {
        0
    }

    /// How many items were ever pushed.
    open spec fn tail(&self) -> nat {
        0
    }

    /// Whether the consumer is marked as polling.
    open spec fn is_working(&self) -> bool {
        false
    }

    /// Whether the producer is marked as waiting for room.
    open spec fn is_stuck(&self) -> bool {
        false
    }

    /// The invariant of the ring.
    open spec fn wf(&self) -> bool {
        false
    }

    /// Whether nothing is queued.
    fn is_empty(&self) -> (b: bool)
        requires
            self.wf(),
            self.items().len() == self.tail() - self.head(),
            self.items().len() <= self.capacity(),
        ensures
            b == (self.items().len() == 0),
    ;

    /// Whether every slot is taken.
    fn is_full(&self) -> (b: bool)
        requires
            self.wf(),
            self.items().len() == self.tail() - self.head(),
            self.items().len() <= self.capacity(),
        ensures
            b == (self.items().len() == self.capacity()),
    ;

    /// Appends `item`, or hands it back when the ring is full. Only `tail`
    /// and the slot it names change.
    fn push(&mut self, item: T) -> (r: Result<(), T>)
        requires
            old(self).wf(),
            old(self).items().len() == old(self).tail() - old(self).head(),
            old(self).items().len() <= old(self).capacity(),
            old(self).items().len() < old(self).capacity() ==> old(self).tail() < usize::MAX,
        ensures
            final(self).wf(),
            final(self).items().len() == final(self).tail() - final(self).head(),
            final(self).items().len() <= final(self).capacity(),
            final(self).capacity() == old(self).capacity(),
            final(self).head() == old(self).head(),
            final(self).is_working() == old(self).is_working(),
            final(self).is_stuck() == old(self).is_stuck(),
            final(self).items() == pushed(old(self).items(), old(self).capacity(), item),
            r == if old(self).items().len() < old(self).capacity() {
                Ok::<(), T>(())
            } else {
                Err::<(), T>(item)
            },
    ;

    /// Removes the oldest item, or returns `None` when the ring is empty.
    /// Only `head` and the slot it names change.
    fn pop(&mut self) -> (r: Option<T>)
        requires
            old(self).wf(),
            old(self).items().len() == old(self).tail() - old(self).head(),
            old(self).items().len() <= old(self).capacity(),
        ensures
            final(self).wf(),
            final(self).items().len() == final(self).tail() - final(self).head(),
            final(self).items().len() <= final(self).capacity(),
            final(self).capacity() == old(self).capacity(),
            final(self).tail() == old(self).tail(),
            final(self).is_working() == old(self).is_working(),
            final(self).is_stuck() == old(self).is_stuck(),
            r == front(old(self).items()),
            final(self).items() == popped(old(self).items()),
    ;

    /// The consumer stops polling: clears `working`, looks at the ring once
    /// more, and sets the flag again if an item is there. Returns whether the
    /// consumer may park.
    fn mark_unworking(&mut self) -> (parked: bool)
        requires
            old(self).wf(),
            old(self).items().len() == old(self).tail() - old(self).head(),
            old(self).items().len() <= old(self).capacity(),
        ensures
            final(self).wf(),
            final(self).items().len() == final(self).tail() - final(self).head(),
            final(self).items().len() <= final(self).capacity(),
            final(self).capacity() == old(self).capacity(),
            final(self).items() == old(self).items(),
            final(self).head() == old(self).head(),
            final(self).tail() == old(self).tail(),
            final(self).is_stuck() == old(self).is_stuck(),
            parked == (old(self).items().len() == 0),
            final(self).is_working() == !parked,
    ;

    /// Sets `working`.
    fn mark_working(&mut self)
        requires
            old(self).wf(),
            old(self).items().len() == old(self).tail() - old(self).head(),
            old(self).items().len() <= old(self).capacity(),
        ensures
            final(self).wf(),
            final(self).items().len() == final(self).tail() - final(self).head(),
            final(self).items().len() <= final(self).capacity(),
            final(self).capacity() == old(self).capacity(),
            final(self).items() == old(self).items(),
            final(self).head() == old(self).head(),
            final(self).tail() == old(self).tail(),
            final(self).is_stuck() == old(self).is_stuck(),
            final(self).is_working(),
    ;

    /// Whether `working` is set.
    fn working(&self) -> (b: bool)
        requires
            self.wf(),
            self.items().len() == self.tail() - self.head(),
            self.items().len() <= self.capacity(),
        ensures
            b == self.is_working(),
    ;

    /// Clears `stuck`.
    fn mark_unstuck(&mut self)
        requires
            old(self).wf(),
            old(self).items().len() == old(self).tail() - old(self).head(),
            old(self).items().len() <= old(self).capacity(),
        ensures
            final(self).wf(),
            final(self).items().len() == final(self).tail() - final(self).head(),
            final(self).items().len() <= final(self).capacity(),
            final(self).capacity() == old(self).capacity(),
            final(self).items() == old(self).items(),
            final(self).head() == old(self).head(),
            final(self).tail() == old(self).tail(),
            final(self).is_working() == old(self).is_working(),
            !final(self).is_stuck(),
    ;

    /// Sets `stuck`.
    fn mark_stuck(&mut self)
        requires
            old(self).wf(),
            old(self).items().len() == old(self).tail() - old(self).head(),
            old(self).items().len() <= old(self).capacity(),
        ensures
            final(self).wf(),
            final(self).items().len() == final(self).tail() - final(self).head(),
            final(self).items().len() <= final(self).capacity(),
            final(self).capacity() == old(self).capacity(),
            final(self).items() == old(self).items(),
            final(self).head() == old(self).head(),
            final(self).tail() == old(self).tail(),
            final(self).is_working() == old(self).is_working(),
            final(self).is_stuck(),
    ;

    /// Whether `stuck` is set.
    fn stuck(&self) -> (b: bool)
        requires
            self.wf(),
            self.items().len() == self.tail() - self.head(),
            self.items().len() <= self.capacity(),
        ensures
            b == self.is_stuck(),
    ;
}

/// Whether the ring is valid and holds as many items as its counters say,
/// which is no more than it has slots: what every use of a ring needs.
pub open spec fn intact<T, R: Ring<T>>(ring: &R) -> bool {
    &&& ring.wf()
    &&& ring.items().len() == ring.tail() - ring.head()
    &&& ring.items().len() <= ring.capacity()
}

/// Whether the `tail` counter can count the next push: it can unless it
/// stands at the largest value while a slot is free.
pub open spec fn countable<T, R: Ring<T>>(ring: &R) -> bool {
    ring.items().len() < ring.capacity() ==> ring.tail() < usize::MAX
}

/// Whether the counters leave room to fill the ring up.
pub open spec fn fillable<T, R: Ring<T>>(ring: &R) -> bool {
    ring.head() + ring.capacity() <= usize::MAX
}

/// A ring of `capacity` slots holding values of `T`.
pub struct Queue<T> {
    buffer: Vec<Option<T>>,
    head: usize,
    tail: usize,
    working: u32,
    stuck: u32,
    working_fd: i32,
    unstuck_fd: i32,
}

impl<T> View for Queue<T> {
    type V = Seq<T>;

    /// The queued items, oldest first.
    closed spec fn view(&self) -> Seq<T> {
        Seq::new(
            (self.tail - self.head) as nat,
            |i: int| self.buffer@[(self.head + i) % (self.buffer@.len() as int)].unwrap(),
        )
    }
}

impl<T> Queue<T> {
    /// The invariant of the ring: the counters are ordered and at most one
    /// capacity apart, both flags are 0 or 1, and every counted slot is filled.
    pub closed spec fn wf(&self) -> bool {
        &&& self.head <= self.tail
        &&& self.tail - self.head <= self.buffer@.len()
        &&& self.working <= 1
        &&& self.stuck <= 1
        &&& forall|k: int|
            self.head <= k < self.tail ==> (#[trigger] self.buffer@[k % (
            self.buffer@.len() as int)]) is Some
    }

    /// The number of slots.
    pub closed spec fn capacity(&self) -> nat {
        self.buffer@.len()
    }

    /// How many items were ever popped.
    pub closed spec fn head(&self) -> nat {
        self.head as nat
    }

    /// How many items were ever pushed.
    pub closed spec fn tail(&self) -> nat {
        self.tail as nat
    }

    /// Whether the consumer is marked as polling.
    pub closed spec fn is_working(&self) -> bool {
        self.working == 1
    }

    /// Whether the producer is marked as waiting for room.
    pub closed spec fn is_stuck(&self) -> bool {
        self.stuck == 1
    }

    /// The descriptor on which the producer wakes the consumer.
    pub closed spec fn working_fd(&self) -> i32 {
        self.working_fd
    }

    /// The descriptor on which the consumer wakes the producer.
    pub closed spec fn unstuck_fd(&self) -> i32 {
        self.unstuck_fd
    }

    /// The number of queued items is the distance of the counters.
    pub proof fn lemma_len(&self)
        requires
            self.wf(),
        ensures
            self@.len() == self.tail() - self.head(),
            self@.len() <= self.capacity(),
    {
    }

    /// An empty ring of `size` slots, with the consumer parked and the
    /// producer not stuck.
    pub fn new(size: usize, working_fd: i32, unstuck_fd: i32) -> (q: Self)
        ensures
            q.wf(),
            q@ == Seq::<T>::empty(),
            q.capacity() == size,
            q.head() == 0,
            q.tail() == 0,
            !q.is_working(),
            !q.is_stuck(),
            q.working_fd() == working_fd,
            q.unstuck_fd() == unstuck_fd,
    {
        let mut buffer: Vec<Option<T>> = Vec::new();
        let mut i: usize = 0;
        while i < size
            invariant
                i <= size,
                buffer@.len() == i,
            decreases size - i,
        {
            buffer.push(None);
            i += 1;
        }
        let q = Queue { buffer, head: 0, tail: 0, working: 0, stuck: 0, working_fd, unstuck_fd };
        assert(q@ =~= Seq::<T>::empty());
        q
    }

    /// The number of queued items.
    pub fn len(&self) -> (n: usize)
        requires
            self.wf(),
        ensures
            n == self@.len(),
    {
        self.tail - self.head
    }

    /// Whether nothing is queued.
    pub fn is_empty(&self) -> (b: bool)
        requires
            self.wf(),
        ensures
            b == (self@.len() == 0),
    {
        self.tail == self.head
    }

    /// Whether every slot is taken.
    pub fn is_full(&self) -> (b: bool)
        requires
            self.wf(),
        ensures
            b == (self@.len() == self.capacity()),
    {
        self.tail - self.head == self.buffer.len()
    }

    /// The number of slots.
    pub fn slots(&self) -> (n: usize)
        ensures
            n == self.capacity(),
    {
        self.buffer.len()
    }

    /// How many more pushes the `tail` counter can count.
    pub fn pushes_left(&self) -> (n: usize)
        ensures
            n == usize::MAX - self.tail(),
    {
        usize::MAX - self.tail
    }

    /// The two wake descriptors: the consumer's first, the producer's second.
    pub fn fds(&self) -> (r: (i32, i32))
        ensures
            r.0 == self.working_fd(),
            r.1 == self.unstuck_fd(),
    {
        (self.working_fd, self.unstuck_fd)
    }

    /// Appends `item`, or hands it back when the ring is full. Only `tail`
    /// and the slot it names change.
    pub fn push(&mut self, item: T) -> (r: Result<(), T>)
        requires
            old(self).wf(),
            old(self)@.len() < old(self).capacity() ==> old(self).tail() < usize::MAX,
        ensures
            final(self).wf(),
            final(self).capacity() == old(self).capacity(),
            final(self).head() == old(self).head(),
            final(self).is_working() == old(self).is_working(),
            final(self).is_stuck() == old(self).is_stuck(),
            final(self).working_fd() == old(self).working_fd(),
            final(self).unstuck_fd() == old(self).unstuck_fd(),
            final(self)@ == pushed(old(self)@, old(self).capacity(), item),
            final(self).tail() == old(self).tail() + final(self)@.len() - old(self)@.len(),
            r == if old(self)@.len() < old(self).capacity() {
                Ok::<(), T>(())
            } else {
                Err::<(), T>(item)
            },
    {
        let slot = push_index(self.head, self.tail, self.buffer.len());
        match slot {
            None => Err(item),
            Some(i) => {
                let ghost before = *self;
                self.buffer.set(i, Some(item));
                self.tail = self.tail + 1;
                proof {
                    let n = before.buffer@.len() as int;
                    assert forall|k: int| self.head <= k < self.tail implies (
                    #[trigger] self.buffer@[k % n]) is Some by {
                        if k < before.tail {
                            lemma_slots_distinct(k, before.tail as int, n);
                        }
                    }
                    assert forall|j: int| 0 <= j < before@.len() implies self@[j] == before@[j] by {
                        lemma_slots_distinct(before.head + j, before.tail as int, n);
                    }
                    assert(self@ =~= before@.push(item));
                }
                Ok(())
            },
        }
    }

    /// Removes the oldest item, or returns `None` when the ring is empty.
    /// Only `head` and the slot it names change.
    pub fn pop(&mut self) -> (r: Option<T>)
        requires
            old(self).wf(),
        ensures
            final(self).wf(),
            final(self).capacity() == old(self).capacity(),
            final(self).tail() == old(self).tail(),
            final(self).is_working() == old(self).is_working(),
            final(self).is_stuck() == old(self).is_stuck(),
            final(self).working_fd() == old(self).working_fd(),
            final(self).unstuck_fd() == old(self).unstuck_fd(),
            r == front(old(self)@),
            final(self)@ == popped(old(self)@),
            final(self).head() == old(self).head() + old(self)@.len() - final(self)@.len(),
    {
        let slot = pop_index(self.head, self.tail, self.buffer.len());
        match slot {
            None => None,
            Some(i) => {
                let ghost before = *self;
                let ghost n = before.buffer@.len() as int;
                assert(before.buffer@[before.head as int % n] is Some);
                let mut taken: Option<T> = None;
                std::mem::swap(&mut taken, &mut self.buffer[i]);
                self.head = self.head + 1;
                proof {
                    assert forall|k: int| self.head <= k < self.tail implies (
                    #[trigger] self.buffer@[k % n]) is Some by {
                        lemma_slots_distinct(before.head as int, k, n);
                        assert(before.buffer@[k % n] is Some);
                    }
                    assert forall|j: int| 0 <= j < self@.len() implies self@[j] == before@[j
                        + 1] by {
                        lemma_slots_distinct(before.head as int, before.head + j + 1, n);
                    }
                    assert(before@[0] == taken.unwrap());
                    assert(self@ =~= before@.drop_first());
                }
                taken
            },
        }
    }

    /// The consumer stops polling: clears `working`, looks at the ring once
    /// more, and sets the flag again if an item is there. Returns whether the
    /// consumer may park.
    pub fn mark_unworking(&mut self) -> (parked: bool)
        requires
            old(self).wf(),
        ensures
            final(self).wf(),
            final(self)@ == old(self)@,
            final(self).capacity() == old(self).capacity(),
            final(self).head() == old(self).head(),
            final(self).tail() == old(self).tail(),
            final(self).is_stuck() == old(self).is_stuck(),
            final(self).working_fd() == old(self).working_fd(),
            final(self).unstuck_fd() == old(self).unstuck_fd(),
            parked == (old(self)@.len() == 0),
            final(self).is_working() == !parked,
    {
        self.working = 0;
        assert(self@ =~= old(self)@);
        if self.is_empty() {
            return true;
        }
        self.mark_working();
        false
    }

    /// Sets `working`.
    pub fn mark_working(&mut self)
        requires
            old(self).wf(),
        ensures
            final(self).wf(),
            final(self)@ == old(self)@,
            final(self).capacity() == old(self).capacity(),
            final(self).head() == old(self).head(),
            final(self).tail() == old(self).tail(),
            final(self).is_stuck() == old(self).is_stuck(),
            final(self).working_fd() == old(self).working_fd(),
            final(self).unstuck_fd() == old(self).unstuck_fd(),
            final(self).is_working(),
    {
        self.working = 1;
        assert(self@ =~= old(self)@);
    }

    /// Whether `working` is set.
    pub fn working(&self) -> (b: bool)
        ensures
            b == self.is_working(),
    {
        self.working == 1
    }

    /// Clears `stuck`.
    pub fn mark_unstuck(&mut self)
        requires
            old(self).wf(),
        ensures
            final(self).wf(),
            final(self)@ == old(self)@,
            final(self).capacity() == old(self).capacity(),
            final(self).head() == old(self).head(),
            final(self).tail() == old(self).tail(),
            final(self).is_working() == old(self).is_working(),
            final(self).working_fd() == old(self).working_fd(),
            final(self).unstuck_fd() == old(self).unstuck_fd(),
            !final(self).is_stuck(),
    {
        self.stuck = 0;
        assert(self@ =~= old(self)@);
    }

    /// Sets `stuck`.
    pub fn mark_stuck(&mut self)
        requires
            old(self).wf(),
        ensures
            final(self).wf(),
            final(self)@ == old(self)@,
            final(self).capacity() == old(self).capacity(),
            final(self).head() == old(self).head(),
            final(self).tail() == old(self).tail(),
            final(self).is_working() == old(self).is_working(),
            final(self).working_fd() == old(self).working_fd(),
            final(self).unstuck_fd() == old(self).unstuck_fd(),
            final(self).is_stuck(),
    {
        self.stuck = 1;
        assert(self@ =~= old(self)@);
    }

    /// Whether `stuck` is set.
    pub fn stuck(&self) -> (b: bool)
        ensures
            b == self.is_stuck(),
    {
        self.stuck == 1
    }
}

impl<T> Ring<T> for Queue<T> {
    open spec fn items(&self) -> Seq<T> {
        self@
    }

    open spec fn capacity(&self) -> nat {
        Queue::capacity(self)
    }

    open spec fn head(&self) -> nat {
        Queue::head(self)
    }

    open spec fn tail(&self) -> nat {
        Queue::tail(self)
    }

    open spec fn is_working(&self) -> bool {
        Queue::is_working(self)
    }

    open spec fn is_stuck(&self) -> bool {
        Queue::is_stuck(self)
    }

    open spec fn wf(&self) -> bool {
        Queue::wf(self)
    }

    fn is_empty(&self) -> (b: bool) {
        Queue::is_empty(self)
    }

    fn is_full(&self) -> (b: bool) {
        Queue::is_full(self)
    }

    fn push(&mut self, item: T) -> (r: Result<(), T>) {
        let r = Queue::push(self, item);
        proof {
            Queue::lemma_len(self);
        }
        r
    }

    fn pop(&mut self) -> (r: Option<T>) {
        let r = Queue::pop(self);
        proof {
            Queue::lemma_len(self);
        }
        r
    }

    fn mark_unworking(&mut self) -> (parked: bool) {
        let r = Queue::mark_unworking(self);
        proof {
            Queue::lemma_len(self);
        }
        r
    }

    fn mark_working(&mut self) {
        let r = Queue::mark_working(self);
        proof {
            Queue::lemma_len(self);
        }
        r
    }

    fn working(&self) -> (b: bool) {
        Queue::working(self)
    }

    fn mark_unstuck(&mut self) {
        let r = Queue::mark_unstuck(self);
        proof {
            Queue::lemma_len(self);
        }
        r
    }

    fn mark_stuck(&mut self) {
        let r = Queue::mark_stuck(self);
        proof {
            Queue::lemma_len(self);
        }
        r
    }

    fn stuck(&self) -> (b: bool) {
        Queue::stuck(self)
    }
}

} // verus!
