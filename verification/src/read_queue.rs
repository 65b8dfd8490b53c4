//! The consumer's side of the ring: pops that release a stuck producer, and
//! the working state machine that drains, yields, and parks.

use crate::ring::{front, intact, popped, Ring};
use std::marker::PhantomData;
use vstd::prelude::*;

verus! {

/// How often the consumer yields on an empty ring before it parks.
pub const YIELD_CNT: u8 = 3;

/// Where the consumer stands between two steps.
#[derive(Debug, Clone, Copy, PartialEq, Eq, Structural)]
pub enum Phase {
    /// Popping: the last pop handed out an item.
    Draining,
    /// The ring was empty, and the yield of this number (from 1) is under way.
    Yielding(u8),
    /// Waiting on `working_fd`, or not started yet.
    Parked,
}

/// What the consumer does before its next step.
pub enum Work<T> {
    /// Hand the item to the handler.
    Deliver(T),
    /// Yield to the executor once.
    Yield,
    /// Wait until `working_fd` is signalled.
    Park,
}

/// The outcome of one step.
pub struct Step<T> {
    pub work: Work<T>,
    /// Whether the producer was stuck and has to be woken on `unstuck_fd`.
    pub notify: bool,
}

/// The consumer's own state, for a ring of `T`.
pub struct ReadQueue<T> {
    phase: Phase,
    marker: PhantomData<T>,
}

/// Whether a step that starts in `phase` on a ring of `len` items pops.
pub open spec fn step_pops(phase: Phase, len: nat) -> bool {
    match phase {
        Phase::Draining => true,
        Phase::Parked => true,
        Phase::Yielding(_) => len > 0,
    }
}

/// The phase after a step that starts in `phase` on a ring of `len` items.
pub open spec fn next_phase(phase: Phase, len: nat) -> Phase {
    if len > 0 {
        Phase::Draining
    } else {
        match phase {
            Phase::Draining => Phase::Yielding(1),
            Phase::Parked => Phase::Yielding(1),
            Phase::Yielding(n) => if n < YIELD_CNT {
                Phase::Yielding((n + 1) as u8)
            } else {
                Phase::Parked
            },
        }
    }
}

impl<T> ReadQueue<T> {
    /// Where the consumer stands.
    pub closed spec fn phase(&self) -> Phase {
        self.phase
    }

    /// The invariant: a yield that is under way is one of the `YIELD_CNT`.
    pub open spec fn wf(&self) -> bool {
        self.phase() matches Phase::Yielding(n) ==> 1 <= n <= YIELD_CNT
    }

    /// A consumer that has not started: its first step marks it as working.
    pub fn new() -> (r: Self)
        ensures
            r.wf(),
            r.phase() == Phase::Parked,
    {
        ReadQueue { phase: Phase::Parked, marker: PhantomData }
    }

    /// Where the consumer stands.
    pub fn current(&self) -> (p: Phase)
        ensures
            p == self.phase(),
    {
        self.phase
    }

    /// Pops the oldest item and clears `stuck`. The second component says
    /// whether the producer was stuck and has to be woken on `unstuck_fd`.
    pub fn pop<R: Ring<T>>(&self, ring: &mut R) -> (r: (Option<T>, bool))
        requires
            intact(old(ring)),
        ensures
            intact(final(ring)),
            final(ring).capacity() == old(ring).capacity(),
            final(ring).tail() == old(ring).tail(),
            final(ring).head() == old(ring).head() + old(ring).items().len() - final(ring).items().len(),
            final(ring).is_working() == old(ring).is_working(),
            r.0 == front(old(ring).items()),
            final(ring).items() == popped(old(ring).items()),
            r.1 == old(ring).is_stuck(),
            !final(ring).is_stuck(),
    {
        let item = ring.pop();
        let notify = ring.stuck();
        if notify {
            ring.mark_unstuck();
        }
        (item, notify)
    }

    /// One step of the working state machine, taken at the start, after the
    /// handler has taken an item, after a yield, and after a wake.
    ///
    /// From `Parked` the consumer marks itself as working. It then pops: an
    /// item is delivered; on an empty ring it yields, up to `YIELD_CNT` times
    /// in a row, and after the last yield it clears `working` and parks.
    pub fn step<R: Ring<T>>(&mut self, ring: &mut R) -> (r: Step<T>)
        requires
            old(self).wf(),
            intact(old(ring)),
        ensures
            final(self).wf(),
            intact(final(ring)),
            final(ring).capacity() == old(ring).capacity(),
            final(ring).tail() == old(ring).tail(),
            final(ring).head() == old(ring).head() + old(ring).items().len() - final(ring).items().len(),
            final(self).phase() == next_phase(old(self).phase(), old(ring).items().len()),
            final(ring).items() == popped(old(ring).items()),
            r.work == match (final(self).phase(), front(old(ring).items())) {
                (Phase::Draining, Some(item)) => Work::Deliver(item),
                (Phase::Parked, _) => Work::Park,
                _ => Work::Yield,
            },
            final(ring).is_working() == match final(self).phase() {
                Phase::Parked => false,
                _ => old(ring).is_working() || old(self).phase() == Phase::Parked,
            },
            r.notify == (step_pops(old(self).phase(), old(ring).items().len()) && old(ring).is_stuck()),
            final(ring).is_stuck() == (old(ring).is_stuck() && !r.notify),
    {
        match self.phase {
            Phase::Parked => {
                ring.mark_working();
            },
            Phase::Yielding(n) => {
                if ring.is_empty() {
                    if n < YIELD_CNT {
                        self.phase = Phase::Yielding(n + 1);
                        return Step { work: Work::Yield, notify: false };
                    }
                    if ring.mark_unworking() {
                        self.phase = Phase::Parked;
                        return Step { work: Work::Park, notify: false };
                    }
                }
            },
            Phase::Draining => {},
        }
        let (item, notify) = self.pop(ring);
        match item {
            Some(item) => {
                self.phase = Phase::Draining;
                Step { work: Work::Deliver(item), notify }
            },
            None => {
                self.phase = Phase::Yielding(1);
                Step { work: Work::Yield, notify }
            },
        }
    }
}

/// A consumer on an empty ring parks after exactly `YIELD_CNT` yields, and
/// only then: four steps from the drain that found the ring empty.
pub proof fn lemma_parks_after_yields()
    ensures
        next_phase(Phase::Draining, 0) == Phase::Yielding(1),
        next_phase(Phase::Yielding(1), 0) == Phase::Yielding(2),
        next_phase(Phase::Yielding(2), 0) == Phase::Yielding(3),
        next_phase(Phase::Yielding(3), 0) == Phase::Parked,
        forall|p: Phase, len: nat| len > 0 ==> #[trigger] next_phase(p, len) == Phase::Draining,
{
}

/// A working consumer drains the ring before it parks: a step ends parked
/// only if it found the ring empty, after the last yield, and no step parks
/// while an item is queued.
pub proof fn lemma_parks_only_when_empty(phase: Phase, len: nat)
    requires
        next_phase(phase, len) == Phase::Parked,
    ensures
        len == 0,
        phase matches Phase::Yielding(n) && n >= YIELD_CNT,
{
}

} // verus!
