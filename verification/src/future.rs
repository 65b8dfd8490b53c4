//! The future of an asynchronous call that completes through a slot.

use crate::convert::{calc_ref, ToRef};
use crate::memory::image_of;
use crate::slot::{new_atomic_slot, read_result, SlotReader, Slots, SlotView};
use std::task::Waker;
use vstd::prelude::*;

verus! {

/// The state of an asynchronous call.
pub enum ResponseFuture<Req, Resp, Exec> {
    /// Not issued yet: the routine that issues the call, the request, and
    /// the address of the callback.
    Init(Exec, Req, usize),
    /// Issued: the reader of the slot that takes the answer.
    Executed(SlotReader<Resp, (Req, Vec<u8>)>),
    /// Done: the answer was handed out.
    Fused,
}

/// A `ResponseFuture` that hands out the answer alone.
pub struct ResponseFutureWithoutReq<Req, Resp, Exec>(pub ResponseFuture<Req, Resp, Exec>);

impl<Req, Resp, Exec> ResponseFuture<Req, Resp, Exec> {
    /// The future of a call that is yet to be issued. It hands the request
    /// back with the answer.
    pub fn new(exec: Exec, req: Req, callback: usize) -> (f: Self)
        ensures
            f == ResponseFuture::<Req, Resp, Exec>::Init(exec, req, callback),
    {
        ResponseFuture::Init(exec, req, callback)
    }

    /// The future of a call that is yet to be issued. It hands out the
    /// answer alone.
    pub fn new_without_req(exec: Exec, req: Req, callback: usize) -> (f: ResponseFutureWithoutReq<
        Req,
        Resp,
        Exec,
    >)
        ensures
            f.0 == ResponseFuture::<Req, Resp, Exec>::Init(exec, req, callback),
    {
        ResponseFutureWithoutReq(ResponseFuture::Init(exec, req, callback))
    }
}

/// Whether the slot under `key` holds the request that was attached to it,
/// should it hold an answer.
pub open spec fn answer_has_request<Req, Resp>(
    slots: Map<usize, SlotView<Resp, (Req, Vec<u8>)>>,
    key: usize,
) -> bool {
    read_result(slots, key) is Some ==> slots[key].attachment is Some
}

/// Whether `exec` was run to issue the call for `req`: on a head that is a
/// view of the request in the arena `buf`, which lies at `base`, with the key
/// of the slot and the callback.
pub open spec fn issued<Req: ToRef, Exec: FnOnce(Req::Ref, usize, usize)>(
    exec: Exec,
    req: Req,
    callback: usize,
    key: usize,
    buf: Vec<u8>,
    head: Req::Ref,
    base: usize,
) -> bool {
    &&& buf@.len() == req.size()
    &&& base + buf@.len() <= usize::MAX
    &&& req.views(head, image_of(base, buf@, buf@.len()), base as int, base + req.size(), false)
    &&& exec.ensures((head, key, callback), ())
}

impl<Req: ToRef, Resp, Exec: FnOnce(Req::Ref, usize, usize)> ResponseFuture<Req, Resp, Exec> {
    /// What the poll needs: the future is not done; a call that is yet to be
    /// issued has a request that fits an arena, and a routine that takes
    /// whatever it is given; an answer that is there came with its request.
    pub open spec fn pollable(&self, slots: Map<usize, SlotView<Resp, (Req, Vec<u8>)>>) -> bool {
        match *self {
            ResponseFuture::Init(exec, req, _) => {
                &&& req.size() <= usize::MAX
                &&& forall|head: Req::Ref, slot: usize, callback: usize|
                    exec.requires((head, slot, callback))
            },
            ResponseFuture::Executed(reader) => answer_has_request(slots, reader.key()),
            ResponseFuture::Fused => false,
        }
    }

    /// Polls the future.
    ///
    /// The first poll allocates a slot, lays the request out, attaches the
    /// request and its arena to the slot, stores `waker` in it, and issues
    /// the call with the head of the view, the key of the slot, and the
    /// callback; it returns `None`. Later polls read the slot: once the
    /// answer is there, the poll returns it with the request, frees the slot,
    /// and the future is done.
    pub fn poll(&mut self, slots: &mut Slots<Resp, (Req, Vec<u8>)>, waker: Waker) -> (r: Option<
        (Resp, Req),
    >)
        requires
            old(slots).wf(),
            old(self).pollable(old(slots)@),
        ensures
            final(slots).wf(),
            match *old(self) {
                ResponseFuture::Init(exec, req, callback) => {
                    &&& r is None
                    &&& *final(self) matches ResponseFuture::Executed(reader)
                    &&& !old(slots)@.contains_key(reader.key())
                    &&& exists|buf: Vec<u8>, head: Req::Ref, base: usize| #[trigger]
                        issued(exec, req, callback, reader.key(), buf, head, base)
                            && final(slots)@ == old(slots)@.insert(
                            reader.key(),
                            SlotView {
                                attachment: Some((req, buf)),
                                waker: Some(waker),
                                ..SlotView::fresh()
                            },
                        )
                },
                ResponseFuture::Executed(reader) => match read_result(old(slots)@, reader.key()) {
                    Some(answer) => {
                        &&& r matches Some(out)
                        &&& out.0 == answer
                        &&& old(slots)@[reader.key()].attachment matches Some(kept)
                        &&& out.1 == kept.0
                        &&& *final(self) is Fused
                        &&& final(slots)@ == old(slots)@.remove(reader.key())
                    },
                    None => {
                        &&& r is None
                        &&& *final(self) == *old(self)
                        &&& final(slots)@ == old(slots)@
                    },
                },
                ResponseFuture::Fused => true,
            },
    {
        let mut state: ResponseFuture<Req, Resp, Exec> = ResponseFuture::Fused;
        std::mem::swap(self, &mut state);
        match state {
            ResponseFuture::Init(exec, req, callback) => {
                let (reader, mut writer) = new_atomic_slot(slots);
                let (buf, head) = calc_ref(&req);
                let ghost base: usize = choose|base: usize|
                    base + buf@.len() <= usize::MAX && #[trigger] req.views(
                        head,
                        image_of(base, buf@, buf@.len()),
                        base as int,
                        base + req.size(),
                        false,
                    );
                writer.attach(slots, (req, buf));
                writer.set_waker(slots, waker);
                let slot = writer.into_ptr();
                exec(head, slot, callback);
                proof {
                    assert(slots@ =~= old(slots)@.insert(
                        reader.key(),
                        SlotView {
                            attachment: Some((req, buf)),
                            waker: Some(waker),
                            ..SlotView::fresh()
                        },
                    ));
                    assert(issued(exec, req, callback, reader.key(), buf, head, base));
                }
                *self = ResponseFuture::Executed(reader);
                None
            },
            ResponseFuture::Executed(reader) => {
                match reader.read_with_attachment(slots) {
                    Some((answer, attachment)) => {
                        proof {
                            slots.lemma_wf(reader.key());
                        }
                        let freed = reader.release(slots);
                        assert(slots@ =~= old(slots)@.remove(reader.key()));
                        let (req, _) = attachment.unwrap();
                        Some((answer, req))
                    },
                    None => {
                        *self = ResponseFuture::Executed(reader);
                        None
                    },
                }
            },
            ResponseFuture::Fused => None,
        }
    }
}

impl<Req: ToRef, Resp, Exec: FnOnce(Req::Ref, usize, usize)> ResponseFutureWithoutReq<
    Req,
    Resp,
    Exec,
> {
    /// Polls the future: as `ResponseFuture::poll`, without the request.
    pub fn poll(&mut self, slots: &mut Slots<Resp, (Req, Vec<u8>)>, waker: Waker) -> (r: Option<
        Resp,
    >)
        requires
            old(slots).wf(),
            old(self).0.pollable(old(slots)@),
        ensures
            final(slots).wf(),
            match old(self).0 {
                ResponseFuture::Init(exec, req, callback) => {
                    &&& r is None
                    &&& final(self).0 matches ResponseFuture::Executed(reader)
                    &&& !old(slots)@.contains_key(reader.key())
                    &&& final(slots)@.contains_key(reader.key())
                    &&& final(slots)@[reader.key()].waker == Some(waker)
                    &&& final(slots)@[reader.key()].attachment matches Some(kept)
                    &&& kept.0 == req
                },
                ResponseFuture::Executed(reader) => match read_result(old(slots)@, reader.key()) {
                    Some(answer) => {
                        &&& r == Some(answer)
                        &&& final(self).0 is Fused
                        &&& final(slots)@ == old(slots)@.remove(reader.key())
                    },
                    None => {
                        &&& r is None
                        &&& final(self).0 == old(self).0
                        &&& final(slots)@ == old(slots)@
                    },
                },
                ResponseFuture::Fused => true,
            },
    {
        match self.0.poll(slots, waker) {
            Some((answer, _)) => Some(answer),
            None => None,
        }
    }
}

} // verus!
