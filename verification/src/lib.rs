//! A cross-language call framework core: reference views over owned values
//! with a single arena per call, a one-shot completion slot, and a bounded
//! single-producer single-consumer ring with wake-on-idle back-pressure.

pub mod address;
pub mod calls;
pub mod convert;
pub mod copy_struct;
pub mod demo;
pub mod future;
pub mod layout;
pub mod list;
pub mod local;
pub mod mem_type;
pub mod memory;
pub mod payload;
pub mod primitive;
pub mod read_queue;
pub mod registry;
pub mod ring;
pub mod slot;
pub mod stub;
pub mod text;
pub mod tuple;
pub mod users;
pub mod waker;
pub mod write_queue;
pub mod writer;

pub use calls::{DemoCallImpl, TestCallImpl};
pub use convert::{
    calc_ref, calc_size, calc_view, expose, round_trip, DataView, FromRef, ListRef, StringRef, ToRef,
};
pub use copy_struct::CopyStruct;
pub use demo::{
    DemoCall, DemoComplicatedRequest, DemoComplicatedRequestRef, DemoResponse, DemoResponseRef,
    DemoUser, DemoUserRef,
};
pub use future::{ResponseFuture, ResponseFutureWithoutReq};
pub use layout::{append_bytes, append_padding, take_field, Pod};
pub use local::{new_shared, LocalFut, SlotInner};
pub use mem_type::MemType;
pub use memory::{Memory, MemoryRead, Segment};
pub use payload::{
    Kind, Payload, TaskDesc, CALL, DROP, FLAG_CALL, FLAG_DROP, FLAG_QUIT, FLAG_RESPONSE,
    FLAG_WANT_REPLY, QUIT_ACK, QUIT_INIT, REPLY,
};
pub use read_queue::{Phase, ReadQueue, Step, Work, YIELD_CNT};
pub use registry::{
    dispatch, new_slab, pop_slab, push_slab, respond, submit, try_pop_slab, Dispatch,
};
pub use ring::{pop_index, push_index, Queue, Ring, DEFAULT_QUEUE_SIZE};
pub use slot::{
    new_atomic_slot, SlotReader, SlotView, SlotWriter, Slots, State, READER_DROPPED,
    VALUE_WRITTEN, WRITER_DROPPED,
};
pub use stub::{call, call_oneway, call_ref, call_ring, callback, reply};
pub use users::{
    FriendsListRequest, FriendsListRequestRef, FriendsListResponse, FriendsListResponseRef,
    LoginRequest, LoginRequestRef, LoginResponse, LoginResponseRef, LogoutRequest,
    LogoutRequestRef, PMFriendRequest, PMFriendRequestRef, PMFriendResponse, PMFriendResponseRef,
    PreserveStructAttrsRequest, PreserveStructAttrsRequestRef, PreserveStructAttrsResponse,
    PreserveStructAttrsResponseRef, TestCall, User, UserRef,
};
pub use write_queue::{
    PendingTask, PushJoinHandle, PushResult, Pushed, Unstuck, WakerSlot, WriteQueue,
};
pub use writer::{Reserved, Writer};
