//! The caller's registry of calls in flight, and what the caller's ring
//! handler decides for each payload that arrives.

use crate::payload::{has_bit, Payload, TaskDesc, FLAG_QUIT};
use crate::ring::{countable, intact, Ring};
use crate::write_queue::{push_outcome, Pushed, WriteQueue};
use slab::Slab;
use vstd::prelude::*;

verus! {

/// `slab::Slab`, of which the library sees nothing but what `slab_entries`
/// names.
#[verifier::external_type_specification]
#[verifier::external_body]
#[verifier::reject_recursive_types(T)]
pub struct ExSlab<T>(slab::Slab<T>);

/// The entries of a slab of calls in flight: what it holds under each key.
pub uninterp spec fn slab_entries(slab: Slab<TaskDesc>) -> Map<usize, TaskDesc>;

/// `Slab::new`: a slab without entries.
#[verifier::external_body]
fn slab_new() -> (made: Slab<TaskDesc>)
    ensures
        slab_entries(made).dom() == Set::<usize>::empty(),
{
    Slab::new()
}

/// `Slab::insert`: stores the value under a key that held nothing, and
/// returns that key; the other entries stay. Which vacant key is taken
/// depends on the earlier removals and is left open.
#[verifier::external_body]
fn slab_insert(slab: &mut Slab<TaskDesc>, val: TaskDesc) -> (key: usize)
    ensures
        !slab_entries(*old(slab)).contains_key(key),
        slab_entries(*final(slab)) == slab_entries(*old(slab)).insert(key, val),
{
    slab.insert(val)
}

/// `Slab::contains`: whether a value is stored under the key.
#[verifier::external_body]
fn slab_contains(slab: &Slab<TaskDesc>, key: usize) -> (b: bool)
    ensures
        b == slab_entries(*slab).contains_key(key),
{
    slab.contains(key)
}

/// `Slab::remove`: takes out the value stored under the key; the other
/// entries stay. The call panics on a key that holds nothing, which the
/// precondition leaves out.
#[verifier::external_body]
fn slab_remove(slab: &mut Slab<TaskDesc>, key: usize) -> (val: TaskDesc)
    requires
        slab_entries(*old(slab)).contains_key(key),
    ensures
        val == slab_entries(*old(slab))[key],
        slab_entries(*final(slab)) == slab_entries(*old(slab)).remove(key),
{
    slab.remove(key)
}

/// An empty registry.
pub fn new_slab() -> (slab: Slab<TaskDesc>)
    ensures
        slab_entries(slab).dom() == Set::<usize>::empty(),
{
    slab_new()
}

/// Registers a call in flight and returns its key, which no other call in
/// flight has.
pub fn push_slab(slab: &mut Slab<TaskDesc>, val: TaskDesc) -> (key: usize)
    ensures
        !slab_entries(*old(slab)).contains_key(key),
        slab_entries(*final(slab)) == slab_entries(*old(slab)).insert(key, val),
{
    slab_insert(slab, val)
}

/// Takes the call registered under `key` out of the registry.
pub fn pop_slab(slab: &mut Slab<TaskDesc>, key: usize) -> (val: TaskDesc)
    requires
        slab_entries(*old(slab)).contains_key(key),
    ensures
        val == slab_entries(*old(slab))[key],
        slab_entries(*final(slab)) == slab_entries(*old(slab)).remove(key),
{
    slab_remove(slab, key)
}

/// Takes the call registered under `key` out of the registry, if there is
/// one; else the registry stays as it is.
pub fn try_pop_slab(slab: &mut Slab<TaskDesc>, key: usize) -> (val: Option<TaskDesc>)
    ensures
        val == if slab_entries(*old(slab)).contains_key(key) {
            Some(slab_entries(*old(slab))[key])
        } else {
            None
        },
        slab_entries(*final(slab)) == slab_entries(*old(slab)).remove(key),
{
    if slab_contains(slab, key) {
        Some(pop_slab(slab, key))
    } else {
        assert(slab_entries(*slab).remove(key) =~= slab_entries(*slab));
        None
    }
}

/// What the caller's ring handler does with a payload.
pub enum Dispatch {
    /// The peer quits: nothing to run.
    Quit,
    /// No handler has the payload's `call_id`: the peer broke the protocol.
    UnknownCall,
    /// No call is registered under the payload's `user_data`: the peer broke
    /// the protocol, as with a second reply to one call.
    UnknownTask,
    /// Run handler `call_id` on the address and the registered call; if it
    /// says that the peer holds memory for the reply, push `ack`.
    Run { call_id: u32, ptr: usize, desc: TaskDesc, ack: Payload },
}

/// Decides what to do with `payload`, where `handlers` handlers are
/// installed. The registered call leaves the registry exactly when a handler
/// is to run.
pub fn dispatch(payload: Payload, handlers: usize, slab: &mut Slab<TaskDesc>) -> (d: Dispatch)
    ensures
        d == if has_bit(payload.flag, FLAG_QUIT) {
            Dispatch::Quit
        } else if payload.call_id >= handlers {
            Dispatch::UnknownCall
        } else if !slab_entries(*old(slab)).contains_key(payload.user_data) {
            Dispatch::UnknownTask
        } else {
            Dispatch::Run {
                call_id: payload.call_id,
                ptr: payload.ptr,
                desc: slab_entries(*old(slab))[payload.user_data],
                ack: Payload::acknowledgement(payload.call_id, payload.next_user_data),
            }
        },
        slab_entries(*final(slab)) == if d is Run {
            slab_entries(*old(slab)).remove(payload.user_data)
        } else {
            slab_entries(*old(slab))
        },
{
    if payload.wants_quit() {
        return Dispatch::Quit;
    }
    if payload.call_id as usize >= handlers {
        return Dispatch::UnknownCall;
    }
    match try_pop_slab(slab, payload.user_data) {
        None => {
            assert(slab_entries(*slab) =~= slab_entries(*old(slab)));
            Dispatch::UnknownTask
        },
        Some(desc) => Dispatch::Run {
            call_id: payload.call_id,
            ptr: payload.ptr,
            desc,
            ack: Payload::new_drop(payload.call_id, payload.next_user_data),
        },
    }
}

/// The answer of the side that was called. Without a return value the call
/// is acknowledged at once, which releases the caller's arena; with one, the
/// arena of the answer is registered here under a new key and the reply
/// carries that key, so that the caller can release it in turn.
pub fn respond(slab: &mut Slab<TaskDesc>, call: Payload, answer: Option<(TaskDesc, usize)>) -> (p:
    Payload)
    ensures
        match answer {
            None => {
                &&& p == Payload::acknowledgement(call.call_id, call.user_data)
                &&& slab_entries(*final(slab)) == slab_entries(*old(slab))
            },
            Some(made) => {
                &&& !slab_entries(*old(slab)).contains_key(p.next_user_data)
                &&& slab_entries(*final(slab)) == slab_entries(*old(slab)).insert(
                    p.next_user_data,
                    made.0,
                )
                &&& p == (Payload {
                    ptr: made.1,
                    user_data: call.user_data,
                    next_user_data: p.next_user_data,
                    call_id: call.call_id,
                    flag: crate::payload::REPLY,
                })
            },
        },
{
    match answer {
        None => Payload::new_drop(call.call_id, call.user_data),
        Some((desc, ptr)) => {
            let key = push_slab(slab, desc);
            Payload::new_reply(call.call_id, call.user_data, key, ptr)
        },
    }
}

/// Issues a call over the ring: registers `desc` and pushes the call payload
/// with the new key as its `user_data`. Returns the key and what became of
/// the push.
pub fn submit<R: Ring<Payload>>(
    queue: &mut WriteQueue<Payload>,
    ring: &mut R,
    slab: &mut Slab<TaskDesc>,
    call_id: u32,
    desc: TaskDesc,
    ptr: usize,
) -> (r: (usize, Pushed))
    requires
        old(queue).wf(),
        intact(old(ring)),
        countable(old(ring)),
        old(queue).issued() < usize::MAX,
    ensures
        final(queue).wf(),
        intact(final(ring)),
        !slab_entries(*old(slab)).contains_key(r.0),
        slab_entries(*final(slab)) == slab_entries(*old(slab)).insert(r.0, desc),
        push_outcome(
            *old(queue),
            *old(ring),
            *final(queue),
            *final(ring),
            Payload::call(call_id, r.0, ptr),
            r.1,
        ),
{
    let key = push_slab(slab, desc);
    let pushed = queue.push(ring, Payload::new_call(call_id, key, ptr));
    (key, pushed)
}

} // verus!
