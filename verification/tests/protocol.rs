use rust2go::{
    calc_view, call_ring, callback, dispatch, expose, new_atomic_slot, new_slab, pop_slab,
    push_slab, reply, respond, submit, try_pop_slab, CopyStruct, DataView, Dispatch, FriendsListRequest,
    FriendsListRequestRef, FriendsListResponse, FromRef, Kind, LoginRequest, LoginResponse,
    Memory, PMFriendRequest, PMFriendRequestRef, PMFriendResponse, Payload,
    PreserveStructAttrsRequest, PreserveStructAttrsResponse, Queue, ReadQueue, ResponseFuture,
    SlotInner, Slots, StringRef, TaskDesc, TestCall, TestCallImpl, User, WriteQueue, CALL, DROP,
    QUIT_ACK, QUIT_INIT, REPLY,
};
use std::cell::RefCell;
use std::rc::Rc;
use std::sync::atomic::{AtomicUsize, Ordering};
use std::sync::Arc;
use std::task::{Wake, Waker};

struct Chime(AtomicUsize);

impl Wake for Chime {
    fn wake(self: Arc<Self>) {
        self.0.fetch_add(1, Ordering::SeqCst);
    }
}

fn chime() -> (Arc<Chime>, Waker) {
    let chime = Arc::new(Chime(AtomicUsize::new(0)));
    (chime.clone(), Waker::from(chime))
}

fn chimes(chime: &Arc<Chime>) -> usize {
    chime.0.load(Ordering::SeqCst)
}

fn desc(tag: u8) -> TaskDesc {
    TaskDesc { buf: vec![tag], params_ptr: 0, slot_ptr: tag as usize }
}

struct Friends;

impl TestCall for Friends {
    fn ping(n: usize) -> usize {
        n
    }

    fn login(_req: &LoginRequest) -> LoginResponse {
        LoginResponse { succ: false, message: String::new(), token: vec![] }
    }

    fn logout(_req: &User) {}

    fn add_friends(req: &FriendsListRequest) -> FriendsListResponse {
        Self::delete_friends(req.clone())
    }

    fn delete_friends(req: FriendsListRequest) -> FriendsListResponse {
        let mut users: Vec<User> = Vec::new();
        if req.token == vec![6, 6, 6] {
            for id in req.user_ids {
                if (1..=3).contains(&id) && !users.iter().any(|u| u.id == id) {
                    users.push(User { id, name: String::new(), age: 0 });
                }
            }
        }
        FriendsListResponse { users }
    }

    fn pm_friend(req: PMFriendRequest) -> PMFriendResponse {
        let succ = req.token == vec![6, 6, 6] && (1..=3).contains(&req.user_id);
        PMFriendResponse { succ, message: String::new() }
    }

    fn multi_param_test(user: &User, message: &String, token: &Vec<u8>) -> LoginResponse {
        LoginResponse { succ: user.id == 1, message: message.clone(), token: token.clone() }
    }

    fn preserve_struct_attrs_test(_data: &PreserveStructAttrsRequest) -> PreserveStructAttrsResponse {
        PreserveStructAttrsResponse { Success: true }
    }
}

#[test]
fn payloads_carry_their_flags() {
    assert_eq!((CALL, REPLY, DROP, QUIT_INIT, QUIT_ACK), (0b0101, 0b1110, 0b1000, 0b10100, 0b10000));
    let call = Payload::new_call(3, 17, 0x1000);
    assert_eq!(
        call,
        Payload { ptr: 0x1000, user_data: 17, next_user_data: 0, call_id: 3, flag: 0b0101 }
    );
    assert_eq!(call.kind(), Kind::Call);
    assert!(call.has_call() && call.wants_reply() && !call.has_response() && !call.can_drop());
    let reply = Payload::new_reply(3, 17, 5, 0x2000);
    assert_eq!(
        reply,
        Payload { ptr: 0x2000, user_data: 17, next_user_data: 5, call_id: 3, flag: 0b1110 }
    );
    assert_eq!(reply.kind(), Kind::Reply);
    assert!(reply.has_response() && reply.can_drop() && !reply.has_call() && !reply.wants_quit());
    let drop = Payload::new_drop(3, 5);
    assert_eq!(drop, Payload { ptr: 0, user_data: 5, next_user_data: 0, call_id: 3, flag: 0b1000 });
    assert_eq!(drop.kind(), Kind::Drop);
    assert!(drop.can_drop() && !drop.has_response() && !drop.wants_reply());
    let init = Payload::new_quit_init();
    assert_eq!(init, Payload { ptr: 0, user_data: 0, next_user_data: 0, call_id: 0, flag: 0b10100 });
    assert_eq!(init.kind(), Kind::QuitInit);
    assert!(init.wants_quit() && init.wants_reply());
    let ack = Payload::new_quit_ack();
    assert_eq!(ack.flag, 0b10000);
    assert_eq!(ack.kind(), Kind::QuitAck);
    assert!(ack.wants_quit() && !ack.wants_reply());
    assert_eq!(Payload { flag: 0b11, ..call }.kind(), Kind::Other);
}

#[test]
fn the_registry_hands_out_fresh_keys() {
    let mut slab = new_slab();
    let a = push_slab(&mut slab, desc(1));
    let b = push_slab(&mut slab, desc(2));
    assert_ne!(a, b);
    assert_eq!(pop_slab(&mut slab, a).buf, vec![1]);
    assert!(try_pop_slab(&mut slab, a).is_none());
    let c = push_slab(&mut slab, desc(3));
    assert_ne!(c, b);
    assert_eq!(try_pop_slab(&mut slab, b).unwrap().buf, vec![2]);
    assert_eq!(try_pop_slab(&mut slab, c).unwrap().slot_ptr, 3);
    assert!(slab.is_empty());
}

#[test]
fn a_reply_runs_its_handler_and_is_acknowledged() {
    let mut slab = new_slab();
    let key = push_slab(&mut slab, desc(7));
    let other = push_slab(&mut slab, desc(8));
    match dispatch(Payload::new_reply(1, key, 55, 0x3000), 2, &mut slab) {
        Dispatch::Run { call_id, ptr, desc, ack } => {
            assert_eq!((call_id, ptr), (1, 0x3000));
            assert_eq!(desc.buf, vec![7]);
            assert_eq!(ack, Payload::new_drop(1, 55));
        }
        _ => panic!("the reply was not dispatched"),
    }
    assert!(!slab.contains(key));
    assert!(slab.contains(other));
}

#[test]
fn a_second_reply_finds_no_call() {
    let mut slab = new_slab();
    let key = push_slab(&mut slab, desc(7));
    let reply = Payload::new_reply(0, key, 1, 0);
    assert!(matches!(dispatch(reply, 1, &mut slab), Dispatch::Run { .. }));
    assert!(matches!(dispatch(reply, 1, &mut slab), Dispatch::UnknownTask));
}

#[test]
fn an_unknown_routine_leaves_the_registry_alone() {
    let mut slab = new_slab();
    let key = push_slab(&mut slab, desc(7));
    assert!(matches!(dispatch(Payload::new_reply(2, key, 1, 0), 2, &mut slab), Dispatch::UnknownCall));
    assert!(matches!(dispatch(Payload::new_drop(9, key), 0, &mut slab), Dispatch::UnknownCall));
    assert!(slab.contains(key));
}

#[test]
fn quit_messages_run_nothing() {
    let mut slab = new_slab();
    let key = push_slab(&mut slab, desc(7));
    assert!(matches!(dispatch(Payload::new_quit_ack(), 0, &mut slab), Dispatch::Quit));
    assert!(matches!(dispatch(Payload::new_quit_init(), 1, &mut slab), Dispatch::Quit));
    let mut odd = Payload::new_reply(0, key, 0, 0);
    odd.flag |= QUIT_ACK;
    assert!(matches!(dispatch(odd, 1, &mut slab), Dispatch::Quit));
    assert!(slab.contains(key));
}

#[test]
fn an_acknowledgement_of_a_oneway_call_releases_the_arena() {
    let mut slab = new_slab();
    let mut ring: Queue<Payload> = Queue::new(4, 0, 0);
    let mut queue: WriteQueue<Payload> = WriteQueue::new();
    let (key, pushed) = submit(&mut queue, &mut ring, &mut slab, 0, desc(1), 0x10);
    assert!(pushed.queued && pushed.notify);
    assert_eq!(ring.pop(), Some(Payload::new_call(0, key, 0x10)));
    match dispatch(Payload::new_drop(0, key), 1, &mut slab) {
        Dispatch::Run { desc, .. } => assert_eq!(desc.buf, vec![1]),
        _ => panic!("the acknowledgement was not dispatched"),
    }
    assert!(slab.is_empty());
}

#[test]
fn a_call_on_a_full_ring_waits_behind_it() {
    let mut slab = new_slab();
    let mut ring: Queue<Payload> = Queue::new(1, 0, 0);
    let mut queue: WriteQueue<Payload> = WriteQueue::new();
    let (first, _) = submit(&mut queue, &mut ring, &mut slab, 0, desc(1), 0x10);
    let (second, pushed) = submit(&mut queue, &mut ring, &mut slab, 0, desc(2), 0x20);
    assert!(!pushed.queued);
    assert!(slab.contains(first) && slab.contains(second));
    assert_eq!(ring.pop().unwrap().user_data, first);
    queue.unstuck_round(&mut ring);
    assert_eq!(ring.pop(), Some(Payload::new_call(0, second, 0x20)));
}

#[test]
fn the_called_side_replies_or_acknowledges() {
    let mut theirs = new_slab();
    let call = Payload::new_call(2, 40, 0x10);
    // no return value: the caller's arena is released at once
    assert_eq!(respond(&mut theirs, call, None), Payload::new_drop(2, 40));
    assert!(theirs.is_empty());
    // a return value: its arena waits for the caller's acknowledgement
    let reply = respond(&mut theirs, call, Some((desc(5), 0x20)));
    assert_eq!(reply, Payload::new_reply(2, 40, reply.next_user_data, 0x20));
    assert_eq!(theirs.get(reply.next_user_data).unwrap().buf, vec![5]);
    // the caller's acknowledgement names that key
    let mut ours = new_slab();
    let key = push_slab(&mut ours, desc(1));
    assert_eq!(key, 0);
    let reply = Payload { user_data: key, ..reply };
    match dispatch(reply, 3, &mut ours) {
        Dispatch::Run { ack, .. } => {
            assert_eq!(ack.kind(), Kind::Drop);
            assert_eq!(try_pop_slab(&mut theirs, ack.user_data).unwrap().buf, vec![5]);
        }
        _ => panic!("the reply was not dispatched"),
    }
    assert!(theirs.is_empty() && ours.is_empty());
}

type Issued = Rc<RefCell<Vec<(usize, usize)>>>;

#[test]
fn an_async_call_completes_through_its_slot() {
    let mut slots: Slots<PMFriendResponse, ((PMFriendRequest,), Vec<u8>)> = Slots::new();
    let issued: Issued = Rc::new(RefCell::new(Vec::new()));
    let log = issued.clone();
    let req = PMFriendRequest { user_id: 1, token: vec![6, 6, 6], message: "hello".to_string() };
    let mut fut = TestCallImpl::<Friends>::pm_friend(
        move |head: (PMFriendRequestRef,), slot: usize, cb: usize| {
            assert_eq!((head.0.user_id, head.0.token.0.len, head.0.message.0.len), (1, 3, 5));
            log.borrow_mut().push((slot, cb));
        },
        req.clone(),
        0xcb,
    );
    let (bell, waker) = chime();
    // the first poll issues the call
    assert!(fut.poll(&mut slots, waker.clone()).is_none());
    assert_eq!(issued.borrow().len(), 1);
    let (slot, cb) = issued.borrow()[0];
    assert_eq!(cb, 0xcb);
    assert_eq!(slots.live(), 1);
    // nothing has arrived
    assert!(fut.poll(&mut slots, waker.clone()).is_none());
    assert_eq!(issued.borrow().len(), 1);
    assert_eq!(chimes(&bell), 0);
    // the other side answers through the callback
    let answer = Friends::pm_friend(req.clone());
    assert!(answer.succ);
    let (w, head) = calc_view(&answer);
    let mem = expose(&answer, w, &head).unwrap();
    assert!(callback::<PMFriendResponse, _, Memory>(&head, &mem, &mut slots, slot));
    assert_eq!(chimes(&bell), 1);
    // the next poll hands out the answer with the request, and frees the slot
    assert_eq!(fut.poll(&mut slots, waker), Some((answer, (req,))));
    assert!(matches!(fut, ResponseFuture::Fused));
    assert_eq!(slots.live(), 0);
}

#[test]
fn a_message_to_a_stranger_fails_and_returns_the_request() {
    let mut slots: Slots<PMFriendResponse, ((PMFriendRequest,), Vec<u8>)> = Slots::new();
    let issued: Issued = Rc::new(RefCell::new(Vec::new()));
    let log = issued.clone();
    let req = PMFriendRequest { user_id: 8, token: vec![6, 6, 6], message: "hello".to_string() };
    let mut fut = TestCallImpl::<Friends>::pm_friend(
        move |_head: (PMFriendRequestRef,), slot: usize, cb: usize| log.borrow_mut().push((slot, cb)),
        req.clone(),
        0,
    );
    let (_, waker) = chime();
    assert!(fut.poll(&mut slots, waker.clone()).is_none());
    let (slot, _) = issued.borrow()[0];
    let answer = Friends::pm_friend(req.clone());
    let (w, head) = calc_view(&answer);
    let mem = expose(&answer, w, &head).unwrap();
    assert!(callback::<PMFriendResponse, _, Memory>(&head, &mem, &mut slots, slot));
    let (got, returned) = fut.poll(&mut slots, waker).unwrap();
    assert!(!got.succ);
    assert_eq!(returned, (req,));
}

#[test]
fn an_async_call_without_request_hands_out_the_answer() {
    let mut slots: Slots<FriendsListResponse, ((FriendsListRequest,), Vec<u8>)> = Slots::new();
    let issued: Issued = Rc::new(RefCell::new(Vec::new()));
    let log = issued.clone();
    let req = FriendsListRequest { token: vec![6, 6, 6], user_ids: vec![1, 3] };
    let mut fut = TestCallImpl::<Friends>::delete_friends(
        move |_head: (FriendsListRequestRef,), slot: usize, cb: usize| {
            log.borrow_mut().push((slot, cb));
        },
        req.clone(),
        1,
    );
    let (_, waker) = chime();
    assert!(fut.poll(&mut slots, waker.clone()).is_none());
    let (slot, _) = issued.borrow()[0];
    let answer = Friends::delete_friends(req);
    assert_eq!(answer.users.iter().map(|u| u.id).collect::<Vec<u32>>(), vec![1, 3]);
    let (w, head) = calc_view(&answer);
    let mem = expose(&answer, w, &head).unwrap();
    assert!(callback::<FriendsListResponse, _, Memory>(&head, &mem, &mut slots, slot));
    assert_eq!(fut.poll(&mut slots, waker), Some(answer));
    assert_eq!(slots.live(), 0);
}

#[test]
fn a_borrowing_async_call_sees_the_request_in_place() {
    let mut slots: Slots<FriendsListResponse, ((&FriendsListRequest,), Vec<u8>)> = Slots::new();
    let req = FriendsListRequest { token: vec![6, 6, 6], user_ids: vec![1, 2, 3] };
    let ids = req.user_ids.as_ptr() as usize;
    let seen: Issued = Rc::new(RefCell::new(Vec::new()));
    let log = seen.clone();
    let mut fut = TestCallImpl::<Friends>::add_friends(
        move |head: (FriendsListRequestRef,), slot: usize, _cb: usize| {
            log.borrow_mut().push((head.0.user_ids.0.ptr, slot));
        },
        &req,
        0,
    );
    let (_, waker) = chime();
    assert!(fut.poll(&mut slots, waker.clone()).is_none());
    let (ptr, slot) = seen.borrow()[0];
    assert_eq!(ptr, ids);
    let answer = Friends::add_friends(&req);
    let (w, head) = calc_view(&answer);
    let mem = expose(&answer, w, &head).unwrap();
    assert!(callback::<FriendsListResponse, _, Memory>(&head, &mem, &mut slots, slot));
    let got = fut.poll(&mut slots, waker).unwrap();
    assert_eq!(got.users.iter().map(|u| u.id).collect::<Vec<u32>>(), vec![1, 2, 3]);
}

#[test]
fn an_empty_token_adds_no_friends() {
    let answer = Friends::add_friends(&FriendsListRequest { token: vec![], user_ids: vec![1, 2, 3] });
    let (w, head) = calc_view(&answer);
    let mem = expose(&answer, w, &head).unwrap();
    assert_eq!(FriendsListResponse::from_ref(&head, &mem).unwrap().users, vec![]);
}

#[test]
fn a_dropped_async_call_leaves_a_slot_that_the_callback_frees() {
    let mut slots: Slots<u32, ((u32,), Vec<u8>)> = Slots::new();
    let issued: Issued = Rc::new(RefCell::new(Vec::new()));
    let log = issued.clone();
    let mut fut: ResponseFuture<(u32,), u32, _> = ResponseFuture::new(
        move |_head: (u32,), slot: usize, cb: usize| log.borrow_mut().push((slot, cb)),
        (5,),
        0,
    );
    let (bell, waker) = chime();
    assert!(fut.poll(&mut slots, waker).is_none());
    let (slot, _) = issued.borrow()[0];
    // the caller gives up: the reader is released, the slot stays for the writer
    match fut {
        ResponseFuture::Executed(reader) => assert!(!reader.release(&mut slots)),
        _ => panic!("the call was issued"),
    }
    assert_eq!(slots.live(), 1);
    let mem = Memory::new();
    assert!(callback::<u32, _, Memory>(&6, &mem, &mut slots, slot));
    assert_eq!(chimes(&bell), 1);
    assert_eq!(slots.live(), 0);
}

#[test]
fn a_callback_that_cannot_read_its_answer_releases_the_writer() {
    let mut slots: Slots<String, ()> = Slots::new();
    let (reader, writer) = new_atomic_slot(&mut slots);
    let slot = writer.into_ptr();
    let lost = StringRef(DataView { ptr: 0x5000, len: 4 });
    assert!(!callback::<String, (), Memory>(&lost, &Memory::new(), &mut slots, slot));
    assert_eq!(reader.read(&mut slots), None);
    assert!(reader.release(&mut slots));
}

#[test]
fn a_ring_call_travels_there_and_back() {
    let mut slab = new_slab();
    let mut ring: Queue<Payload> = Queue::new(4, 0, 0);
    let mut back: Queue<Payload> = Queue::new(4, 0, 0);
    let mut queue: WriteQueue<Payload> = WriteQueue::new();
    let mut acks: WriteQueue<Payload> = WriteQueue::new();
    let consumer: ReadQueue<Payload> = ReadQueue::new();
    let user = User { id: 1, name: "u".to_string(), age: 3 };
    let message = "hi".to_string();
    let token = vec![6u8, 6, 6];
    let mut cell: SlotInner<LoginResponse> = SlotInner::new();
    let (bell, waker) = chime();

    let (key, pushed) = TestCallImpl::<Friends>::multi_param_test(
        &mut queue, &mut ring, &mut slab, &user, &message, &token, 0x51,
    )
    .unwrap();
    assert!(pushed.queued && pushed.notify);
    assert!(cell.poll(waker.clone()).is_none());

    // the other side pops the call
    let call = consumer.pop(&mut ring).0.unwrap();
    assert_eq!((call.call_id, call.user_data, call.flag), (0, key, CALL));
    // the registry keeps the arena that the payload points into: the three heads
    // of 32, 16 and 16 bytes lie at its start, as nothing else is in it
    let kept = slab.get(key).unwrap();
    assert_eq!((kept.slot_ptr, kept.params_ptr, kept.buf.len()), (0x51, 0, 64));
    assert_eq!(call.ptr, kept.buf.as_ptr() as usize);
    // it reads the parameters through the one address
    let params = CopyStruct((&user, &message, &token));
    let (w, ptr) = calc_view(&params);
    let there = expose(&params, w, &ptr).unwrap();
    let arrived = CopyStruct::<(User, String, Vec<u8>)>::from_ref(&ptr, &there).unwrap().0;
    assert_eq!(arrived, (user.clone(), message.clone(), token.clone()));
    // and answers with the head of the answer at the end of its own arena
    let out = CopyStruct((Friends::multi_param_test(&arrived.0, &arrived.1, &arrived.2),));
    let (w, ptr) = calc_view(&out);
    let mem = expose(&out, w, &ptr).unwrap();
    assert_eq!(back.push(Payload::new_reply(call.call_id, call.user_data, 9, ptr)), Ok(()));

    // the caller's handler takes the reply
    let replied = consumer.pop(&mut back).0.unwrap();
    match dispatch(replied, 1, &mut slab) {
        Dispatch::Run { ptr, desc, ack, .. } => {
            assert_eq!(desc.slot_ptr, 0x51);
            assert!(reply(ptr, &mem, &mut cell));
            assert!(acks.push(&mut ring, ack).queued);
        }
        _ => panic!("the reply was not dispatched"),
    }
    assert_eq!(chimes(&bell), 1);
    assert_eq!(
        cell.poll(waker),
        Some(LoginResponse { succ: true, message: "hi".to_string(), token: vec![6, 6, 6] })
    );
    assert!(slab.is_empty());
    assert_eq!(consumer.pop(&mut ring).0, Some(Payload::new_drop(0, 9)));
}

#[test]
fn a_ring_call_whose_future_is_dropped_is_absorbed() {
    let mut slab = new_slab();
    let mut ring: Queue<Payload> = Queue::new(4, 0, 0);
    let mut queue: WriteQueue<Payload> = WriteQueue::new();
    let params = CopyStruct((5u32,));
    let (key, _) = call_ring(&mut queue, &mut ring, &mut slab, 0, &params, 0, 0x77).unwrap();
    {
        // the caller polls once and gives up
        let mut cell: SlotInner<u32> = SlotInner::new();
        let (_, waker) = chime();
        assert!(cell.poll(waker).is_none());
    }
    let call = ring.pop().unwrap();
    let out = CopyStruct((6u32,));
    let (w, ptr) = calc_view(&out);
    let mem = expose(&out, w, &ptr).unwrap();
    match dispatch(Payload::new_reply(call.call_id, key, 3, ptr), 1, &mut slab) {
        Dispatch::Run { ptr, desc, ack, .. } => {
            // the arena was kept by the registry, not by the future
            assert_eq!(desc.buf.len(), 4);
            // with nobody waiting, the answer goes into a cell that nobody reads
            let mut orphan: SlotInner<u32> = SlotInner::new();
            assert!(reply(ptr, &mem, &mut orphan));
            assert_eq!(orphan.value, Some(6));
            assert_eq!(ack, Payload::new_drop(0, 3));
        }
        _ => panic!("the reply was not dispatched"),
    }
    assert!(slab.is_empty());
}

#[test]
fn a_reply_that_cannot_be_read_leaves_the_cell_alone() {
    let mut cell: SlotInner<String> = SlotInner::new();
    assert!(!reply(0x9000, &Memory::new(), &mut cell));
    assert!(cell.value.is_none());
}
