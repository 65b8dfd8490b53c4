//! The completion slot: a one-shot cell that joins the future of an
//! asynchronous call to the callback that completes it.
//!
//! A slot lives in a table under a key, which is what crosses the language
//! boundary in place of an address. Each slot has two handles, a reader and a
//! writer; whichever of them is released last frees the slot.

use crate::waker::wake;
use std::marker::PhantomData;
use std::task::Waker;
use vstd::prelude::*;

verus! {

/// State bit: the writer handle is released.
pub const WRITER_DROPPED: u8 = 0b001;

/// State bit: the reader handle is released.
pub const READER_DROPPED: u8 = 0b010;

/// State bit: a value is written and not yet read.
pub const VALUE_WRITTEN: u8 = 0b100;

/// The state word of a slot: three independent bits.
pub struct State {
    bits: u8,
}

/// Whether `bit` is set in `bits`.
pub open spec fn bit_set(bits: u8, bit: u8) -> bool {
    bits & bit == bit
}

impl State {
    /// The state word.
    pub closed spec fn bits(&self) -> u8 {
        self.bits
    }

    /// A state with no bit set.
    pub fn new() -> (s: Self)
        ensures
            s.bits() == 0,
    {
        State { bits: 0 }
    }

    /// The state word.
    pub fn load(&self) -> (bits: u8)
        ensures
            bits == self.bits(),
    {
        self.bits
    }

    /// The reader's step: where a value is written and the writer is
    /// released, clears the value bit and returns true.
    pub fn take_value(&mut self) -> (taken: bool)
        ensures
            taken == (bit_set(old(self).bits(), VALUE_WRITTEN) && bit_set(
                old(self).bits(),
                WRITER_DROPPED,
            )),
            bit_set(final(self).bits(), WRITER_DROPPED) == bit_set(old(self).bits(), WRITER_DROPPED),
            bit_set(final(self).bits(), READER_DROPPED) == bit_set(old(self).bits(), READER_DROPPED),
            bit_set(final(self).bits(), VALUE_WRITTEN) == (!taken && bit_set(
                old(self).bits(),
                VALUE_WRITTEN,
            )),
    {
        let curr: u8 = self.bits;
        if curr & 0b101 == 0b101 {
            self.bits = curr & 0b011;
            assert(curr & 0b101 == 0b101 ==> (curr & 4 == 4 && curr & 1 == 1 && (curr & 0b011) & 1
                == 1 && (curr & 0b011) & 4 != 4 && ((curr & 0b011) & 2 == 2) == (curr & 2 == 2)))
                by (bit_vector);
            true
        } else {
            assert(curr & 0b101 != 0b101 ==> !(curr & 4 == 4 && curr & 1 == 1)) by (bit_vector);
            false
        }
    }

    /// The writer's step: where no value is written, sets the value bit and
    /// returns true.
    pub fn claim_value(&mut self) -> (claimed: bool)
        ensures
            claimed == !bit_set(old(self).bits(), VALUE_WRITTEN),
            bit_set(final(self).bits(), VALUE_WRITTEN),
            bit_set(final(self).bits(), WRITER_DROPPED) == bit_set(old(self).bits(), WRITER_DROPPED),
            bit_set(final(self).bits(), READER_DROPPED) == bit_set(old(self).bits(), READER_DROPPED),
    {
        let curr: u8 = self.bits;
        if curr & 0b100 != 0 {
            assert(curr & 0b100 != 0 ==> curr & 4 == 4) by (bit_vector);
            false
        } else {
            self.bits = 0b100 | curr;
            assert(curr & 0b100 == 0 ==> (curr & 4 != 4 && (0b100 | curr) & 4 == 4 && ((0b100
                | curr) & 1 == 1) == (curr & 1 == 1) && ((0b100 | curr) & 2 == 2) == (curr & 2
                == 2))) by (bit_vector);
            true
        }
    }

    /// The release of the reader: sets its bit and returns whether the writer
    /// was released before, in which case the slot is to be freed.
    pub fn drop_reader(&mut self) -> (last: bool)
        ensures
            last == bit_set(old(self).bits(), WRITER_DROPPED),
            bit_set(final(self).bits(), READER_DROPPED),
            bit_set(final(self).bits(), WRITER_DROPPED) == bit_set(old(self).bits(), WRITER_DROPPED),
            bit_set(final(self).bits(), VALUE_WRITTEN) == bit_set(old(self).bits(), VALUE_WRITTEN),
    {
        let curr: u8 = self.bits;
        self.bits = 0b010 | curr;
        assert((curr & 0b001 != 0) == (curr & 1 == 1) && (0b010 | curr) & 2 == 2 && ((0b010 | curr)
            & 1 == 1) == (curr & 1 == 1) && ((0b010 | curr) & 4 == 4) == (curr & 4 == 4))
            by (bit_vector);
        curr & 0b001 != 0
    }

    /// The release of the writer: sets its bit and returns whether the reader
    /// was released before, in which case the slot is to be freed.
    pub fn drop_writer(&mut self) -> (last: bool)
        ensures
            last == bit_set(old(self).bits(), READER_DROPPED),
            bit_set(final(self).bits(), WRITER_DROPPED),
            bit_set(final(self).bits(), READER_DROPPED) == bit_set(old(self).bits(), READER_DROPPED),
            bit_set(final(self).bits(), VALUE_WRITTEN) == bit_set(old(self).bits(), VALUE_WRITTEN),
    {
        let curr: u8 = self.bits;
        self.bits = 0b001 | curr;
        assert((curr & 0b010 != 0) == (curr & 2 == 2) && (0b001 | curr) & 1 == 1 && ((0b001 | curr)
            & 2 == 2) == (curr & 2 == 2) && ((0b001 | curr) & 4 == 4) == (curr & 4 == 4))
            by (bit_vector);
        curr & 0b010 != 0
    }
}

/// What a slot holds, with each state bit as a `bool`; the value bit is set
/// exactly where `value` is there.
pub struct SlotView<T, A> {
    pub writer_dropped: bool,
    pub reader_dropped: bool,
    pub value: Option<T>,
    pub attachment: Option<A>,
    pub waker: Option<Waker>,
}

impl<T, A> SlotView<T, A> {
    /// A slot as it is made: both handles alive, nothing in it.
    pub open spec fn fresh() -> Self {
        SlotView {
            writer_dropped: false,
            reader_dropped: false,
            value: None,
            attachment: None,
            waker: None,
        }
    }

    /// The invariant of a slot in the table: a slot with both handles
    /// released is gone, and a value is there only once the writer is
    /// released.
    pub open spec fn wf(self) -> bool {
        &&& !(self.writer_dropped && self.reader_dropped)
        &&& self.value is Some ==> self.writer_dropped
    }

    /// Whether a read succeeds.
    pub open spec fn readable(self) -> bool {
        self.value is Some && self.writer_dropped
    }

    /// The slot after a read: the value is gone where the read succeeds.
    pub open spec fn after_read(self) -> Self {
        if self.readable() {
            SlotView { value: None, ..self }
        } else {
            self
        }
    }

    /// Whether a write succeeds.
    pub open spec fn writable(self) -> bool {
        self.value is None
    }

    /// The slot after a write of `v`, before the writer is released: where
    /// the write succeeds the value is there and the waker is taken.
    pub open spec fn after_write(self, v: T) -> Self {
        if self.writable() {
            SlotView { value: Some(v), waker: None, ..self }
        } else {
            self
        }
    }
}

/// The cell of one slot.
struct SlotInner<T, A> {
    state: State,
    data: Option<T>,
    attachment: Option<A>,
    waker: Option<Waker>,
}

impl<T, A> SlotInner<T, A> {
    spec fn inv(&self) -> bool {
        bit_set(self.state.bits(), VALUE_WRITTEN) == (self.data is Some)
    }

    spec fn as_view(&self) -> SlotView<T, A> {
        SlotView {
            writer_dropped: bit_set(self.state.bits(), WRITER_DROPPED),
            reader_dropped: bit_set(self.state.bits(), READER_DROPPED),
            value: self.data,
            attachment: self.attachment,
            waker: self.waker,
        }
    }

    fn new() -> (c: Self)
        ensures
            c.inv(),
            c.as_view() == SlotView::<T, A>::fresh(),
    {
        assert(0u8 & 1 != 1 && 0u8 & 2 != 2 && 0u8 & 4 != 4) by (bit_vector);
        SlotInner { state: State::new(), data: None, attachment: None, waker: None }
    }

    fn read(&mut self) -> (r: Option<T>)
        requires
            old(self).inv(),
        ensures
            final(self).inv(),
            final(self).as_view() == old(self).as_view().after_read(),
            r == if old(self).as_view().readable() {
                old(self).as_view().value
            } else {
                None
            },
    {
        if self.state.take_value() {
            self.data.take()
        } else {
            None
        }
    }

    fn write(&mut self, data: T) -> (r: Option<T>)
        requires
            old(self).inv(),
        ensures
            final(self).inv(),
            final(self).as_view() == (SlotView {
                value: if old(self).as_view().writable() {
                    Some(data)
                } else {
                    old(self).as_view().value
                },
                ..old(self).as_view()
            }),
            r == if old(self).as_view().writable() {
                None
            } else {
                Some(data)
            },
    {
        if !self.state.claim_value() {
            return Some(data);
        }
        self.data = Some(data);
        None
    }
}

/// The table of slots.
pub struct Slots<T, A> {
    cells: Vec<Option<SlotInner<T, A>>>,
}

impl<T, A> View for Slots<T, A> {
    type V = Map<usize, SlotView<T, A>>;

    /// The slots that are allocated, by key.
    closed spec fn view(&self) -> Map<usize, SlotView<T, A>> {
        Map::new(
            |k: usize| k < self.cells@.len() && self.cells@[k as int] is Some,
            |k: usize| self.cells@[k as int].unwrap().as_view(),
        )
    }
}

/// The table after the reader of the slot under `key` is released.
pub open spec fn after_reader_release<T, A>(
    slots: Map<usize, SlotView<T, A>>,
    key: usize,
) -> Map<usize, SlotView<T, A>> {
    if !slots.contains_key(key) {
        slots
    } else if slots[key].writer_dropped {
        slots.remove(key)
    } else {
        slots.insert(key, SlotView { reader_dropped: true, ..slots[key] })
    }
}

/// The table after the writer of the slot under `key` is released.
pub open spec fn after_writer_release<T, A>(
    slots: Map<usize, SlotView<T, A>>,
    key: usize,
) -> Map<usize, SlotView<T, A>> {
    if !slots.contains_key(key) {
        slots
    } else if slots[key].reader_dropped {
        slots.remove(key)
    } else {
        slots.insert(key, SlotView { writer_dropped: true, ..slots[key] })
    }
}

/// The table after a read of the slot under `key`.
pub open spec fn after_read<T, A>(slots: Map<usize, SlotView<T, A>>, key: usize) -> Map<
    usize,
    SlotView<T, A>,
> {
    if slots.contains_key(key) {
        slots.insert(key, slots[key].after_read())
    } else {
        slots
    }
}

/// What a read of the slot under `key` returns.
pub open spec fn read_result<T, A>(slots: Map<usize, SlotView<T, A>>, key: usize) -> Option<T> {
    if slots.contains_key(key) && slots[key].readable() {
        slots[key].value
    } else {
        None
    }
}

/// Whether a write to the slot under `key` succeeds.
pub open spec fn write_succeeds<T, A>(slots: Map<usize, SlotView<T, A>>, key: usize) -> bool {
    slots.contains_key(key) && slots[key].writable()
}

/// The table after a write of `v` to the slot under `key`, which releases
/// the writer.
pub open spec fn after_write<T, A>(slots: Map<usize, SlotView<T, A>>, key: usize, v: T) -> Map<
    usize,
    SlotView<T, A>,
> {
    if slots.contains_key(key) {
        after_writer_release(slots.insert(key, slots[key].after_write(v)), key)
    } else {
        slots
    }
}

/// At most one write succeeds. A write releases the writer, so once it is
/// done the slot is gone or its writer is released, whether the write
/// succeeded or not, and neither a read nor the release of the reader brings
/// the writer back.
pub proof fn lemma_write_at_most_once<T, A>(slots: Map<usize, SlotView<T, A>>, key: usize, v: T)
    requires
        slots.contains_key(key),
        slots[key].wf(),
        !slots[key].writer_dropped,
    ensures
        write_succeeds(slots, key),
        ({
            let done = after_write(slots, key, v);
            &&& done.contains_key(key) ==> done[key].writer_dropped
            &&& after_read(done, key).contains_key(key) ==> after_read(done, key)[key].writer_dropped
            &&& after_reader_release(done, key).contains_key(key) ==> after_reader_release(
                done,
                key,
            )[key].writer_dropped
        }),
{
}

/// Exactly one read succeeds if the write succeeded and the reader was not
/// released first, and none otherwise: the first read after the write hands
/// out the value, every later read hands out nothing, and so does every read
/// before the write.
pub proof fn lemma_read_exactly_once<T, A>(slots: Map<usize, SlotView<T, A>>, key: usize, v: T)
    requires
        slots.contains_key(key),
        slots[key].wf(),
        !slots[key].writer_dropped,
    ensures
        read_result(slots, key) is None,
        after_read(slots, key) == slots,
        !slots[key].reader_dropped ==> {
            let done = after_write(slots, key, v);
            &&& read_result(done, key) == Some(v)
            &&& read_result(after_read(done, key), key) is None
            &&& after_read(after_read(done, key), key) == after_read(done, key)
        },
        slots[key].reader_dropped ==> read_result(after_write(slots, key, v), key) is None,
{
    assert(after_read(slots, key) =~= slots);
    let done = after_write(slots, key, v);
    if !slots[key].reader_dropped {
        assert(after_read(after_read(done, key), key) =~= after_read(done, key));
    }
}

/// The slot is freed exactly once, by the handle that is released last: it
/// is still there after the first release, whichever handle that is, and
/// gone after the second. A write counts as the release of the writer.
pub proof fn lemma_freed_exactly_once<T, A>(slots: Map<usize, SlotView<T, A>>, key: usize, v: T)
    requires
        slots.contains_key(key),
        slots[key].wf(),
        !slots[key].writer_dropped,
        !slots[key].reader_dropped,
    ensures
        after_reader_release(slots, key).contains_key(key),
        after_writer_release(slots, key).contains_key(key),
        after_write(slots, key, v).contains_key(key),
        !after_writer_release(after_reader_release(slots, key), key).contains_key(key),
        !after_reader_release(after_writer_release(slots, key), key).contains_key(key),
        !after_write(after_reader_release(slots, key), key, v).contains_key(key),
        !after_reader_release(after_write(slots, key, v), key).contains_key(key),
        !after_reader_release(after_read(after_write(slots, key, v), key), key).contains_key(key),
{
}

/// A reader that is released before the writer fires does not stand in the
/// writer's way: the write succeeds, and it frees the slot.
pub proof fn lemma_reader_released_first<T, A>(slots: Map<usize, SlotView<T, A>>, key: usize, v: T)
    requires
        slots.contains_key(key),
        slots[key].wf(),
        !slots[key].writer_dropped,
        !slots[key].reader_dropped,
    ensures
        ({
            let left = after_reader_release(slots, key);
            &&& left.contains_key(key)
            &&& left[key].wf()
            &&& !left[key].writer_dropped
            &&& write_succeeds(left, key)
            &&& after_write(left, key, v) == slots.remove(key)
        }),
{
    let left = after_reader_release(slots, key);
    assert(after_write(left, key, v) =~= slots.remove(key));
}

/// The reading handle of a slot.
pub struct SlotReader<T, A> {
    key: usize,
    marker: PhantomData<(T, A)>,
}

/// The writing handle of a slot.
pub struct SlotWriter<T, A> {
    key: usize,
    marker: PhantomData<(T, A)>,
}

impl<T, A> Slots<T, A> {
    /// The invariant of the table: every slot in it is well-formed.
    pub closed spec fn wf(&self) -> bool {
        forall|k: int|
            0 <= k < self.cells@.len() && (#[trigger] self.cells@[k]) is Some ==> {
                &&& self.cells@[k].unwrap().inv()
                &&& self.cells@[k].unwrap().as_view().wf()
            }
    }

    /// Every slot of a well-formed table is well-formed.
    pub proof fn lemma_wf(&self, key: usize)
        requires
            self.wf(),
            self@.contains_key(key),
        ensures
            self@[key].wf(),
    {
        assert(self.cells@[key as int] is Some);
    }

    /// A table without slots.
    pub fn new() -> (s: Self)
        ensures
            s.wf(),
            s@.dom() == Set::<usize>::empty(),
    {
        let s = Slots { cells: Vec::new() };
        assert(s@.dom() =~= Set::<usize>::empty());
        s
    }

    /// Whether a slot is allocated under `key`.
    pub fn contains(&self, key: usize) -> (b: bool)
        ensures
            b == self@.contains_key(key),
    {
        key < self.cells.len() && self.cells[key].is_some()
    }

    /// The number of allocated slots.
    pub fn live(&self) -> (n: usize)
        ensures
            n == self@.dom().len(),
    {
        let mut n: usize = 0;
        let mut i: usize = 0;
        let ghost mut seen: Set<usize> = Set::empty();
        while i < self.cells.len()
            invariant
                i <= self.cells@.len(),
                n <= i,
                seen.finite(),
                seen.len() == n,
                seen =~= self@.dom().filter(|k: usize| k < i),
            decreases self.cells@.len() - i,
        {
            if self.cells[i].is_some() {
                proof {
                    seen = seen.insert(i);
                }
                n = n + 1;
            }
            i = i + 1;
        }
        assert(seen =~= self@.dom());
        n
    }

    fn free(&mut self, key: usize)
        requires
            old(self).wf(),
            key < old(self).cells@.len(),
        ensures
            final(self).wf(),
            final(self)@ == old(self)@.remove(key),
    {
        self.cells.set(key, None);
        assert(self@ =~= old(self)@.remove(key));
    }

    fn store(&mut self, key: usize, cell: SlotInner<T, A>)
        requires
            old(self).wf(),
            key < old(self).cells@.len(),
            cell.inv(),
            cell.as_view().wf(),
        ensures
            final(self).wf(),
            final(self)@ == old(self)@.insert(key, cell.as_view()),
    {
        self.cells.set(key, Some(cell));
        assert(self@ =~= old(self)@.insert(key, cell.as_view()));
    }

    fn take(&mut self, key: usize) -> (cell: SlotInner<T, A>)
        requires
            old(self).wf(),
            old(self)@.contains_key(key),
        ensures
            final(self).wf(),
            final(self).cells@.len() == old(self).cells@.len(),
            key < final(self).cells@.len(),
            final(self)@ == old(self)@.remove(key),
            cell.inv(),
            cell.as_view().wf(),
            cell.as_view() == old(self)@[key],
    {
        let mut taken: Option<SlotInner<T, A>> = None;
        std::mem::swap(&mut taken, &mut self.cells[key]);
        assert(self@ =~= old(self)@.remove(key));
        assert(old(self).cells@[key as int] is Some);
        taken.unwrap()
    }
}

/// Allocates a slot and returns its two handles.
pub fn new_atomic_slot<T, A>(slots: &mut Slots<T, A>) -> (r: (SlotReader<T, A>, SlotWriter<T, A>))
    requires
        old(slots).wf(),
    ensures
        final(slots).wf(),
        r.0.key() == r.1.key(),
        !old(slots)@.contains_key(r.0.key()),
        forall|k: usize| k < r.0.key() ==> old(slots)@.contains_key(k),
        final(slots)@ == old(slots)@.insert(r.0.key(), SlotView::<T, A>::fresh()),
{
    let mut key: usize = 0;
    while key < slots.cells.len() && slots.cells[key].is_some()
        invariant
            key <= slots.cells@.len(),
            slots.wf(),
            slots == old(slots),
            forall|k: usize| k < key ==> slots@.contains_key(k),
        decreases slots.cells@.len() - key,
    {
        key = key + 1;
    }
    let cell: SlotInner<T, A> = SlotInner::new();
    if key == slots.cells.len() {
        slots.cells.push(None);
        assert(slots@ =~= old(slots)@);
    }
    slots.store(key, cell);
    (SlotReader { key, marker: PhantomData }, SlotWriter { key, marker: PhantomData })
}

impl<T, A> SlotReader<T, A> {
    /// The key of the slot.
    pub closed spec fn key(&self) -> usize {
        self.key
    }

    /// Takes the value out of the slot, if one is written and the writer is
    /// released.
    pub fn read(&self, slots: &mut Slots<T, A>) -> (r: Option<T>)
        requires
            old(slots).wf(),
        ensures
            final(slots).wf(),
            r == read_result(old(slots)@, self.key()),
            final(slots)@ == after_read(old(slots)@, self.key()),
    {
        if !slots.contains(self.key) {
            return None;
        }
        let mut cell = slots.take(self.key);
        let r = cell.read();
        slots.store(self.key, cell);
        assert(slots@ =~= after_read(old(slots)@, self.key));
        r
    }

    /// As `read`, and hands out the attachment with the value.
    pub fn read_with_attachment(&self, slots: &mut Slots<T, A>) -> (r: Option<(T, Option<A>)>)
        requires
            old(slots).wf(),
        ensures
            final(slots).wf(),
            r == match read_result(old(slots)@, self.key()) {
                Some(v) => Some((v, old(slots)@[self.key()].attachment)),
                None => None,
            },
            final(slots)@ == if read_result(old(slots)@, self.key()) is Some {
                old(slots)@.insert(
                    self.key(),
                    SlotView { value: None, attachment: None, ..old(slots)@[self.key()] },
                )
            } else {
                old(slots)@
            },
    {
        if !slots.contains(self.key) {
            return None;
        }
        let mut cell = slots.take(self.key);
        let r = match cell.read() {
            Some(v) => Some((v, cell.attachment.take())),
            None => None,
        };
        slots.store(self.key, cell);
        assert(slots@ =~= if read_result(old(slots)@, self.key) is Some {
            old(slots)@.insert(
                self.key,
                SlotView { value: None, attachment: None, ..old(slots)@[self.key] },
            )
        } else {
            old(slots)@
        });
        r
    }

    /// Releases the reader. The slot is freed if the writer was released
    /// before; returns whether it was.
    pub fn release(self, slots: &mut Slots<T, A>) -> (freed: bool)
        requires
            old(slots).wf(),
        ensures
            final(slots).wf(),
            final(slots)@ == after_reader_release(old(slots)@, self.key()),
            freed == (old(slots)@.contains_key(self.key()) && old(slots)@[self.key()].writer_dropped),
    {
        if !slots.contains(self.key) {
            return false;
        }
        let mut cell = slots.take(self.key);
        let ghost before = cell.as_view();
        if cell.state.drop_reader() {
            assert(before.writer_dropped);
            assert(slots@ =~= after_reader_release(old(slots)@, self.key));
            true
        } else {
            assert(cell.as_view() == SlotView { reader_dropped: true, ..before });
            assert(!before.writer_dropped);
            slots.store(self.key, cell);
            assert(old(slots)@.remove(self.key).insert(self.key, cell.as_view()) =~= old(
                slots,
            )@.insert(self.key, cell.as_view()));
            false
        }
    }
}

impl<T, A> SlotWriter<T, A> {
    /// The key of the slot.
    pub closed spec fn key(&self) -> usize {
        self.key
    }

    /// Writes `data` into the slot, wakes the task that waits for it, and
    /// releases the writer. Where a value is already there, or the slot is
    /// gone, `data` comes back unwritten.
    pub fn write(self, slots: &mut Slots<T, A>, data: T) -> (r: Option<T>)
        requires
            old(slots).wf(),
            old(slots)@.contains_key(self.key()) ==> !old(slots)@[self.key()].writer_dropped,
        ensures
            final(slots).wf(),
            r == if write_succeeds(old(slots)@, self.key()) {
                None
            } else {
                Some(data)
            },
            final(slots)@ == after_write(old(slots)@, self.key(), data),
    {
        if !slots.contains(self.key) {
            return Some(data);
        }
        let mut cell = slots.take(self.key);
        let r = cell.write(data);
        if r.is_none() {
            match cell.waker.take() {
                Some(w) => {
                    wake(w);
                },
                None => {},
            }
        }
        if cell.state.drop_writer() {
            assert(slots@ =~= after_write(old(slots)@, self.key, data));
        } else {
            slots.store(self.key, cell);
            assert(slots@ =~= after_write(old(slots)@, self.key, data));
        }
        r
    }

    /// Gives up the handle for the key of its slot, to be carried across the
    /// boundary.
    pub fn into_ptr(self) -> (ptr: usize)
        ensures
            ptr == self.key(),
    {
        self.key
    }

    /// Makes the writing handle of the slot under `ptr` again. The caller
    /// sees to it that the slot has not more than one writer.
    pub fn from_ptr(ptr: usize) -> (w: Self)
        ensures
            w.key() == ptr,
    {
        SlotWriter { key: ptr, marker: PhantomData }
    }

    /// Stores what the reader must keep until it has read.
    pub fn attach(&mut self, slots: &mut Slots<T, A>, attachment: A)
        requires
            old(slots).wf(),
            old(slots)@.contains_key(old(self).key()),
        ensures
            final(slots).wf(),
            final(self).key() == old(self).key(),
            final(slots)@ == old(slots)@.insert(
                old(self).key(),
                SlotView { attachment: Some(attachment), ..old(slots)@[old(self).key()] },
            ),
    {
        let mut cell = slots.take(self.key);
        cell.attachment = Some(attachment);
        slots.store(self.key, cell);
        assert(slots@ =~= old(slots)@.insert(
            self.key,
            SlotView { attachment: Some(attachment), ..old(slots)@[self.key] },
        ));
    }

    /// Stores the task that the write wakes.
    pub fn set_waker(&mut self, slots: &mut Slots<T, A>, waker: Waker)
        requires
            old(slots).wf(),
            old(slots)@.contains_key(old(self).key()),
        ensures
            final(slots).wf(),
            final(self).key() == old(self).key(),
            final(slots)@ == old(slots)@.insert(
                old(self).key(),
                SlotView { waker: Some(waker), ..old(slots)@[old(self).key()] },
            ),
    {
        let mut cell = slots.take(self.key);
        cell.waker = Some(waker);
        slots.store(self.key, cell);
        assert(slots@ =~= old(slots)@.insert(
            self.key,
            SlotView { waker: Some(waker), ..old(slots)@[self.key] },
        ));
    }

    /// Releases the writer without a write. The slot is freed if the reader
    /// was released before; returns whether it was.
    pub fn release(self, slots: &mut Slots<T, A>) -> (freed: bool)
        requires
            old(slots).wf(),
            old(slots)@.contains_key(self.key()) ==> !old(slots)@[self.key()].writer_dropped,
        ensures
            final(slots).wf(),
            final(slots)@ == after_writer_release(old(slots)@, self.key()),
            freed == (old(slots)@.contains_key(self.key()) && old(slots)@[self.key()].reader_dropped),
    {
        if !slots.contains(self.key) {
            return false;
        }
        let mut cell = slots.take(self.key);
        let ghost before = cell.as_view();
        if cell.state.drop_writer() {
            assert(before.reader_dropped);
            assert(slots@ =~= after_writer_release(old(slots)@, self.key));
            true
        } else {
            assert(cell.as_view() == SlotView { writer_dropped: true, ..before });
            assert(!before.reader_dropped);
            slots.store(self.key, cell);
            assert(old(slots)@.remove(self.key).insert(self.key, cell.as_view()) =~= old(
                slots,
            )@.insert(self.key, cell.as_view()));
            false
        }
    }
}

} // verus!
