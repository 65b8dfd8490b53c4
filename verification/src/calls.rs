//! The caller's stubs of the routines of the two services. Each stub
//! carries its request to an implementation of the service and the answer
//! back.

use crate::copy_struct::CopyStruct;
use crate::demo::{DemoCall, DemoComplicatedRequest, DemoResponse, DemoUser};
use crate::future::{ResponseFuture, ResponseFutureWithoutReq};
use crate::payload::{Payload, TaskDesc};
use crate::ring::{countable, intact, Ring};
use crate::registry::slab_entries;
use crate::stub::{call, call_oneway, call_ref, call_ring};
use crate::users::{
    FriendsListRequest, FriendsListResponse, LoginRequest, LoginResponse, PMFriendRequest,
    PMFriendResponse, PreserveStructAttrsRequest, PreserveStructAttrsResponse, TestCall, User,
};
use crate::write_queue::{push_outcome, Pushed, WriteQueue};
use slab::Slab;
use std::marker::PhantomData;
use vstd::prelude::*;

verus! {

/// The index of `multi_param_test` among the routines of the user service
/// that travel over the ring.
pub const MULTI_PARAM_TEST: u32 = 0;

/// The stubs of the user service, over an implementation `C` of it.
pub struct TestCallImpl<C: TestCall> {
    marker: PhantomData<C>,
}

impl<C: TestCall> TestCallImpl<C> {
    /// Calls `ping`. A number always arrives, so the call always returns
    /// what the service answers.
    pub fn ping(n: usize) -> (r: usize)
        ensures
            call_ensures(C::ping, (n,), r),
    {
        match call(&n, C::ping) {
            Some(r) => r,
            None => n,
        }
    }

    /// Calls `login`: the service answers a request that equals `req`.
    pub fn login(req: &LoginRequest) -> (o: Option<LoginResponse>)
        ensures
            o matches Some(back) ==> exists|arrived: LoginRequest, answer: LoginResponse|
                arrived.deep_view() == req.deep_view() && #[trigger] call_ensures(
                    C::login,
                    (&arrived,),
                    answer,
                ) && back.deep_view() == answer.deep_view(),
    {
        call_ref(req, C::login)
    }

    /// Calls `logout`, which has no answer. Returns whether the request
    /// arrived.
    pub fn logout(req: &User) -> (ran: bool)
        ensures
            ran ==> exists|arrived: User|
                arrived.deep_view() == req.deep_view() && #[trigger] call_ensures(
                    C::logout,
                    (&arrived,),
                    (),
                ),
    {
        call_oneway(req, C::logout)
    }

    /// Calls `preserve_struct_attrs_test`: the service answers a request
    /// that equals `data`.
    pub fn preserve_struct_attrs_test(data: &PreserveStructAttrsRequest) -> (o: Option<
        PreserveStructAttrsResponse,
    >)
        ensures
            o matches Some(back) ==> exists|
                arrived: PreserveStructAttrsRequest,
                answer: PreserveStructAttrsResponse,
            |
                arrived.deep_view() == data.deep_view() && #[trigger] call_ensures(
                    C::preserve_struct_attrs_test,
                    (&arrived,),
                    answer,
                ) && back.deep_view() == answer.deep_view(),
    {
        call_ref(data, C::preserve_struct_attrs_test)
    }

    /// The future of `add_friends`, which borrows its request: the request
    /// has to stay in place until the future is done, so the future must not
    /// be dropped before.
    pub fn add_friends<'a, Exec>(exec: Exec, req: &'a FriendsListRequest, callback: usize) -> (f:
        ResponseFutureWithoutReq<(&'a FriendsListRequest,), FriendsListResponse, Exec>)
        ensures
            f.0 == ResponseFuture::<(&'a FriendsListRequest,), FriendsListResponse, Exec>::Init(
                exec,
                (req,),
                callback,
            ),
    {
        ResponseFuture::new_without_req(exec, (req,), callback)
    }

    /// The future of `delete_friends`, which owns its request and may be
    /// dropped at any time.
    pub fn delete_friends<Exec>(exec: Exec, req: FriendsListRequest, callback: usize) -> (f:
        ResponseFutureWithoutReq<(FriendsListRequest,), FriendsListResponse, Exec>)
        ensures
            f.0 == ResponseFuture::<(FriendsListRequest,), FriendsListResponse, Exec>::Init(
                exec,
                (req,),
                callback,
            ),
    {
        ResponseFuture::new_without_req(exec, (req,), callback)
    }

    /// The future of `pm_friend`, which owns its request, may be dropped at
    /// any time, and hands the request back with the answer.
    pub fn pm_friend<Exec>(exec: Exec, req: PMFriendRequest, callback: usize) -> (f: ResponseFuture<
        (PMFriendRequest,),
        PMFriendResponse,
        Exec,
    >)
        ensures
            f == ResponseFuture::<(PMFriendRequest,), PMFriendResponse, Exec>::Init(
                exec,
                (req,),
                callback,
            ),
    {
        ResponseFuture::new(exec, (req,), callback)
    }

    /// Issues `multi_param_test` over the ring. `slot_ptr` is the address of
    /// the cell that takes the answer.
    pub fn multi_param_test<R: Ring<Payload>>(
        queue: &mut WriteQueue<Payload>,
        ring: &mut R,
        slab: &mut Slab<TaskDesc>,
        user: &User,
        message: &String,
        token: &Vec<u8>,
        slot_ptr: usize,
    ) -> (r: Option<(usize, Pushed)>)
        requires
            old(queue).wf(),
            intact(old(ring)),
            countable(old(ring)),
            old(queue).issued() < usize::MAX,
        ensures
            final(queue).wf(),
            intact(final(ring)),
            r matches Some(done) && {
                &&& !slab_entries(*old(slab)).contains_key(done.0)
                &&& slab_entries(*final(slab)).contains_key(done.0)
                &&& slab_entries(*final(slab)).remove(done.0) == slab_entries(*old(slab))
                &&& slab_entries(*final(slab))[done.0].buf@.len() == 64
                &&& slab_entries(*final(slab))[done.0].params_ptr == 0
                &&& slab_entries(*final(slab))[done.0].slot_ptr == slot_ptr
            },
            r matches Some(done) ==> exists|ptr: usize|
                push_outcome(
                    *old(queue),
                    *old(ring),
                    *final(queue),
                    *final(ring),
                    #[trigger] Payload::call(MULTI_PARAM_TEST, done.0, ptr),
                    done.1,
                ),
    {
        let params = CopyStruct((user, message, token));
        call_ring(queue, ring, slab, MULTI_PARAM_TEST, &params, 0, slot_ptr)
    }
}

/// The stubs of the demonstration, over an implementation `C` of it.
pub struct DemoCallImpl<C: DemoCall> {
    marker: PhantomData<C>,
}

impl<C: DemoCall> DemoCallImpl<C> {
    /// Calls `demo_oneway`, which has no answer. Returns whether the
    /// request arrived.
    pub fn demo_oneway(req: &DemoUser) -> (ran: bool)
        ensures
            ran ==> exists|arrived: DemoUser|
                arrived.deep_view() == req.deep_view() && #[trigger] call_ensures(
                    C::demo_oneway,
                    (&arrived,),
                    (),
                ),
    {
        call_oneway(req, C::demo_oneway)
    }

    /// Calls `demo_check`: the service answers a request that equals `req`.
    pub fn demo_check(req: &DemoComplicatedRequest) -> (o: Option<DemoResponse>)
        ensures
            o matches Some(back) ==> exists|arrived: DemoComplicatedRequest, answer: DemoResponse|
                arrived.deep_view() == req.deep_view() && #[trigger] call_ensures(
                    C::demo_check,
                    (&arrived,),
                    answer,
                ) && back.deep_view() == answer.deep_view(),
    {
        call_ref(req, C::demo_check)
    }

    /// The future of `demo_check_async`, which borrows its request.
    pub fn demo_check_async<'a, Exec>(
        exec: Exec,
        req: &'a DemoComplicatedRequest,
        callback: usize,
    ) -> (f: ResponseFutureWithoutReq<(&'a DemoComplicatedRequest,), DemoResponse, Exec>)
        ensures
            f.0 == ResponseFuture::<(&'a DemoComplicatedRequest,), DemoResponse, Exec>::Init(
                exec,
                (req,),
                callback,
            ),
    {
        ResponseFuture::new_without_req(exec, (req,), callback)
    }
}

} // verus!
