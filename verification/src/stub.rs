//! What every stub of a routine does around the call itself: it lays the
//! request out as a view, lets the other side read it, and reads the answer
//! back from the other side's view.

use crate::convert::{calc_ref, round_trip, FromRef, ToRef};
use crate::copy_struct::CopyStruct;
use crate::layout::Pod;
use crate::local::SlotInner;
use crate::mem_type::MemType;
use crate::memory::{sound, MemoryRead};
use crate::payload::{Payload, TaskDesc};
use crate::registry::{push_slab, slab_entries};
use crate::ring::{countable, intact, Ring};
use crate::slot::{after_write, write_succeeds, Slots, SlotWriter};
use crate::write_queue::{push_outcome, Pushed, WriteQueue};
use slab::Slab;
use vstd::prelude::*;

verus! {

/// A synchronous call with an answer, of a routine that takes its request by
/// value. The request is carried over, `callee` runs on what arrives, and its
/// answer is carried back. The call fails only where no memory holds one of
/// the two views, which is never the case for primitives.
pub fn call<Req: FromRef, Resp: FromRef, F: FnOnce(Req) -> Resp>(req: &Req, callee: F) -> (o:
    Option<Resp>)
    requires
        forall|arrived: Req| callee.requires((arrived,)),
    ensures
        o matches Some(back) ==> exists|arrived: Req, answer: Resp|
            arrived.deep_view() == req.deep_view() && #[trigger] callee.ensures((arrived,), answer)
                && back.deep_view() == answer.deep_view(),
        Req::mem_type() == MemType::Primitive && Resp::mem_type() == MemType::Primitive ==> o is Some,
{
    let arrived = match round_trip(req) {
        Some(arrived) => arrived,
        None => {
            return None;
        },
    };
    let ghost seen = arrived;
    let answer = callee(arrived);
    let back = round_trip(&answer);
    proof {
        if back is Some {
            assert(callee.ensures((seen,), answer));
        }
    }
    back
}

/// As `call`, for a routine that takes its request by reference.
pub fn call_ref<Req: FromRef, Resp: FromRef, F: FnOnce(&Req) -> Resp>(req: &Req, callee: F) -> (o:
    Option<Resp>)
    requires
        forall|arrived: Req| callee.requires((&arrived,)),
    ensures
        o matches Some(back) ==> exists|arrived: Req, answer: Resp|
            arrived.deep_view() == req.deep_view() && #[trigger] callee.ensures(
                (&arrived,),
                answer,
            ) && back.deep_view() == answer.deep_view(),
        Req::mem_type() == MemType::Primitive && Resp::mem_type() == MemType::Primitive ==> o is Some,
{
    let arrived = match round_trip(req) {
        Some(arrived) => arrived,
        None => {
            return None;
        },
    };
    let answer = callee(&arrived);
    let back = round_trip(&answer);
    proof {
        if back is Some {
            assert(callee.ensures((&arrived,), answer));
        }
    }
    back
}

/// A synchronous call without an answer, of a routine that takes its request
/// by reference. Returns whether the request arrived and `callee` ran.
pub fn call_oneway<Req: FromRef, F: FnOnce(&Req)>(req: &Req, callee: F) -> (ran: bool)
    requires
        forall|arrived: Req| callee.requires((&arrived,)),
    ensures
        ran ==> exists|arrived: Req|
            arrived.deep_view() == req.deep_view() && #[trigger] callee.ensures((&arrived,), ()),
        Req::mem_type() == MemType::Primitive ==> ran,
{
    match round_trip(req) {
        Some(arrived) => {
            callee(&arrived);
            assert(callee.ensures((&arrived,), ()));
            true
        },
        None => false,
    }
}

/// The callback of an asynchronous call: makes the answer from the view
/// `head` in the other side's memory, writes it into the slot under `slot`,
/// wakes the caller, and releases the writer of that slot. Returns whether
/// the answer was written; where it could not be read, the writer is
/// released without a write.
pub fn callback<Resp: FromRef, A, M: MemoryRead>(
    head: &<Resp as ToRef>::Ref,
    mem: &M,
    slots: &mut Slots<Resp, A>,
    slot: usize,
) -> (written: bool)
    requires
        sound(mem),
        old(slots).wf(),
        old(slots)@.contains_key(slot) ==> !old(slots)@[slot].writer_dropped,
    ensures
        final(slots).wf(),
        written == (Resp::decoded(*head, mem.image()) is Some && write_succeeds(old(slots)@, slot)),
        match Resp::decoded(*head, mem.image()) {
            Some(view) => exists|answer: Resp|
                answer.deep_view() == view && #[trigger] after_write(old(slots)@, slot, answer)
                    == final(slots)@,
            None => final(slots)@ == crate::slot::after_writer_release(old(slots)@, slot),
        },
{
    let writer: SlotWriter<Resp, A> = SlotWriter::from_ptr(slot);
    match Resp::from_ref(head, mem) {
        Some(answer) => {
            let left = writer.write(slots, answer);
            assert(after_write(old(slots)@, slot, answer) == slots@);
            left.is_none()
        },
        None => {
            writer.release(slots);
            false
        },
    }
}

/// Issues a call over the ring: lays the parameters out with their heads at
/// the end of the arena, registers the arena under a new key together with
/// the two addresses that the reply handler needs, and pushes the call
/// payload, which carries the key and the address of the heads. Returns the
/// key and what became of the push, or `None`, with nothing done, where the
/// parameters take more bytes than the machine can count.
pub fn call_ring<P: ToRef<Ref = usize>, R: Ring<Payload>>(
    queue: &mut WriteQueue<Payload>,
    ring: &mut R,
    slab: &mut Slab<TaskDesc>,
    call_id: u32,
    params: &P,
    params_ptr: usize,
    slot_ptr: usize,
) -> (r: Option<(usize, Pushed)>)
    requires
        old(queue).wf(),
        intact(old(ring)),
        countable(old(ring)),
        old(queue).issued() < usize::MAX,
    ensures
        final(queue).wf(),
        intact(final(ring)),
        r is Some == (params.size() <= usize::MAX),
        r is None ==> *final(ring) == *old(ring) && *final(slab) == *old(slab) && *final(queue)
            == *old(queue),
        r matches Some(done) ==> {
            &&& !slab_entries(*old(slab)).contains_key(done.0)
            &&& slab_entries(*final(slab)).contains_key(done.0)
            &&& slab_entries(*final(slab)).remove(done.0) == slab_entries(*old(slab))
            &&& slab_entries(*final(slab))[done.0].buf@.len() == params.size()
            &&& slab_entries(*final(slab))[done.0].params_ptr == params_ptr
            &&& slab_entries(*final(slab))[done.0].slot_ptr == slot_ptr
        },
        r matches Some(done) ==> exists|ptr: usize|
            push_outcome(
                *old(queue),
                *old(ring),
                *final(queue),
                *final(ring),
                #[trigger] Payload::call(call_id, done.0, ptr),
                done.1,
            ),
{
    if params.checked_size(0).is_none() {
        return None;
    }
    let (buf, ptr) = calc_ref(params);
    let key = push_slab(slab, TaskDesc { buf, params_ptr, slot_ptr });
    let call = Payload::new_call(call_id, key, ptr);
    let pushed = queue.push(ring, call);
    let done = (key, pushed);
    proof {
        assert(slab_entries(*slab).remove(key) =~= slab_entries(*old(slab)));
        assert(call == Payload::call(call_id, key, ptr));
    }
    Some(done)
}

/// The reply handler of a ring call with an answer: makes the answer from
/// the head that lies at `ptr` in the other side's memory and stores it in
/// the call's cell, which wakes the caller. Returns whether the answer could
/// be read; the other side is owed an acknowledgement either way.
pub fn reply<Resp: FromRef, M: MemoryRead>(ptr: usize, mem: &M, cell: &mut SlotInner<Resp>) -> (read:
    bool) where <Resp as ToRef>::Ref: Pod
    requires
        sound(mem),
    ensures
        read == (CopyStruct::<(Resp,)>::decoded(ptr, mem.image()) is Some),
        match CopyStruct::<(Resp,)>::decoded(ptr, mem.image()) {
            Some(view) => final(cell).value matches Some(answer) && answer.deep_view() == view.0
                && final(cell).waker is None,
            None => *final(cell) == *old(cell),
        },
{
    match CopyStruct::<(Resp,)>::from_ref(&ptr, mem) {
        Some(heads) => {
            let CopyStruct((answer,)) = heads;
            cell.set_result(answer);
            true
        },
        None => false,
    }
}

} // verus!
