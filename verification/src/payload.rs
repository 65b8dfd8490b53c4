//! The fixed-size message that travels through the ring.

use vstd::prelude::*;

verus! {

/// Flag bit: the payload carries a call.
pub const FLAG_CALL: u32 = 0b00001;

/// Flag bit: the payload carries a response.
pub const FLAG_RESPONSE: u32 = 0b00010;

/// Flag bit: the sender wants a reply from its peer.
pub const FLAG_WANT_REPLY: u32 = 0b00100;

/// Flag bit: the memory behind the previous payload may be released.
pub const FLAG_DROP: u32 = 0b01000;

/// Flag bit: the sender wants its peer to quit.
pub const FLAG_QUIT: u32 = 0b10000;

/// The flag of a call: a request that wants a reply.
pub const CALL: u32 = 0b00101;

/// The flag of a reply: a response that also releases the request.
pub const REPLY: u32 = 0b01110;

/// The flag of a bare acknowledgement that memory may be released.
pub const DROP: u32 = 0b01000;

/// The flag that opens a teardown and asks the peer to confirm it.
pub const QUIT_INIT: u32 = 0b10100;

/// The flag that confirms a teardown.
pub const QUIT_ACK: u32 = 0b10000;

/// One ring message: 32 bytes where addresses are 64 bits wide.
#[derive(Debug, Clone, Copy, PartialEq, Eq, Structural)]
pub struct Payload {
    /// The address of the head reference of the parameters or of the
    /// response.
    pub ptr: usize,
    /// The registry key of the receiver: in a response, that of the request;
    /// in an acknowledgement, the `next_user_data` of the response.
    pub user_data: usize,
    /// The registry key under which the sender keeps the memory of this
    /// payload alive.
    pub next_user_data: usize,
    /// The index of the routine within the interface.
    pub call_id: u32,
    /// The flag bits.
    pub flag: u32,
}

/// What a payload asks of its receiver, by its flag.
#[derive(Debug, Clone, Copy, PartialEq, Eq, Structural)]
pub enum Kind {
    Call,
    Reply,
    Drop,
    QuitInit,
    QuitAck,
    Other,
}

/// Whether `bit` is set in `flag`.
pub open spec fn has_bit(flag: u32, bit: u32) -> bool {
    flag & bit == bit
}

/// The kind that a flag stands for.
pub open spec fn kind_of(flag: u32) -> Kind {
    if flag == CALL {
        Kind::Call
    } else if flag == REPLY {
        Kind::Reply
    } else if flag == DROP {
        Kind::Drop
    } else if flag == QUIT_INIT {
        Kind::QuitInit
    } else if flag == QUIT_ACK {
        Kind::QuitAck
    } else {
        Kind::Other
    }
}

impl Payload {
    /// The call payload for routine `call_id` under the key `user_data`,
    /// with its parameters at `ptr`.
    pub open spec fn call(call_id: u32, user_data: usize, ptr: usize) -> Payload {
        Payload { ptr, user_data, next_user_data: 0, call_id, flag: CALL }
    }

    /// The payload that says that the memory kept under `user_data` may be
    /// released.
    pub open spec fn acknowledgement(call_id: u32, user_data: usize) -> Payload {
        Payload { ptr: 0, user_data, next_user_data: 0, call_id, flag: DROP }
    }

    /// A request for routine `call_id`, whose parameters start at `ptr` and
    /// are kept alive under the sender's key `user_data`.
    pub fn new_call(call_id: u32, user_data: usize, ptr: usize) -> (p: Self)
        ensures
            p == Payload::call(call_id, user_data, ptr),
    {
        Payload { ptr, user_data, next_user_data: 0, call_id, flag: CALL }
    }

    /// The response to the request that was sent under `user_data`, which
    /// starts at `ptr` and is kept alive under the sender's key
    /// `next_user_data`.
    pub fn new_reply(call_id: u32, user_data: usize, next_user_data: usize, ptr: usize) -> (p:
        Self)
        ensures
            p == (Payload { ptr, user_data, next_user_data, call_id, flag: REPLY }),
    {
        Payload { ptr, user_data, next_user_data, call_id, flag: REPLY }
    }

    /// The acknowledgement that the memory kept under `user_data` may be
    /// released.
    pub fn new_drop(call_id: u32, user_data: usize) -> (p: Self)
        ensures
            p == Payload::acknowledgement(call_id, user_data),
    {
        Payload { ptr: 0, user_data, next_user_data: 0, call_id, flag: DROP }
    }

    /// The message that opens a teardown.
    pub fn new_quit_init() -> (p: Self)
        ensures
            p == (Payload { ptr: 0, user_data: 0, next_user_data: 0, call_id: 0, flag: QUIT_INIT }),
    {
        Payload { ptr: 0, user_data: 0, next_user_data: 0, call_id: 0, flag: QUIT_INIT }
    }

    /// The message that confirms a teardown.
    pub fn new_quit_ack() -> (p: Self)
        ensures
            p == (Payload { ptr: 0, user_data: 0, next_user_data: 0, call_id: 0, flag: QUIT_ACK }),
    {
        Payload { ptr: 0, user_data: 0, next_user_data: 0, call_id: 0, flag: QUIT_ACK }
    }

    /// Whether the payload asks its receiver to quit: true of both teardown
    /// messages.
    pub fn wants_quit(&self) -> (b: bool)
        ensures
            b == has_bit(self.flag, FLAG_QUIT),
    {
        self.flag & FLAG_QUIT == FLAG_QUIT
    }

    /// Whether the payload carries a call.
    pub fn has_call(&self) -> (b: bool)
        ensures
            b == has_bit(self.flag, FLAG_CALL),
    {
        self.flag & FLAG_CALL == FLAG_CALL
    }

    /// Whether the payload carries a response.
    pub fn has_response(&self) -> (b: bool)
        ensures
            b == has_bit(self.flag, FLAG_RESPONSE),
    {
        self.flag & FLAG_RESPONSE == FLAG_RESPONSE
    }

    /// Whether the sender wants a reply.
    pub fn wants_reply(&self) -> (b: bool)
        ensures
            b == has_bit(self.flag, FLAG_WANT_REPLY),
    {
        self.flag & FLAG_WANT_REPLY == FLAG_WANT_REPLY
    }

    /// Whether the payload releases the memory of the previous one.
    pub fn can_drop(&self) -> (b: bool)
        ensures
            b == has_bit(self.flag, FLAG_DROP),
    {
        self.flag & FLAG_DROP == FLAG_DROP
    }

    /// The kind of the payload.
    pub fn kind(&self) -> (k: Kind)
        ensures
            k == kind_of(self.flag),
    {
        if self.flag == CALL {
            Kind::Call
        } else if self.flag == REPLY {
            Kind::Reply
        } else if self.flag == DROP {
            Kind::Drop
        } else if self.flag == QUIT_INIT {
            Kind::QuitInit
        } else if self.flag == QUIT_ACK {
            Kind::QuitAck
        } else {
            Kind::Other
        }
    }
}

/// The five flags are made of the five bits as the protocol says: a call is a
/// request that wants a reply, a reply is a response that releases, an
/// acknowledgement only releases, and both teardown messages carry the quit
/// bit, of which only the first wants a reply.
pub proof fn lemma_flag_bits()
    ensures
        CALL == FLAG_CALL | FLAG_WANT_REPLY,
        REPLY == FLAG_RESPONSE | FLAG_WANT_REPLY | FLAG_DROP,
        DROP == FLAG_DROP,
        QUIT_INIT == FLAG_QUIT | FLAG_WANT_REPLY,
        QUIT_ACK == FLAG_QUIT,
        has_bit(CALL, FLAG_CALL) && !has_bit(CALL, FLAG_RESPONSE) && has_bit(CALL, FLAG_WANT_REPLY)
            && !has_bit(CALL, FLAG_DROP) && !has_bit(CALL, FLAG_QUIT),
        !has_bit(REPLY, FLAG_CALL) && has_bit(REPLY, FLAG_RESPONSE) && has_bit(REPLY, FLAG_DROP)
            && !has_bit(REPLY, FLAG_QUIT),
        !has_bit(DROP, FLAG_CALL) && !has_bit(DROP, FLAG_RESPONSE) && has_bit(DROP, FLAG_DROP)
            && !has_bit(DROP, FLAG_QUIT),
        has_bit(QUIT_INIT, FLAG_QUIT) && has_bit(QUIT_INIT, FLAG_WANT_REPLY),
        has_bit(QUIT_ACK, FLAG_QUIT) && !has_bit(QUIT_ACK, FLAG_WANT_REPLY),
{
    assert(0b00101u32 == 0b00001u32 | 0b00100u32) by (bit_vector);
    assert(0b01110u32 == 0b00010u32 | 0b00100u32 | 0b01000u32) by (bit_vector);
    assert(0b10100u32 == 0b10000u32 | 0b00100u32) by (bit_vector);
    assert(0b00101u32 & 0b00001u32 == 0b00001u32 && 0b00101u32 & 0b00010u32 != 0b00010u32
        && 0b00101u32 & 0b00100u32 == 0b00100u32 && 0b00101u32 & 0b01000u32 != 0b01000u32
        && 0b00101u32 & 0b10000u32 != 0b10000u32) by (bit_vector);
    assert(0b01110u32 & 0b00001u32 != 0b00001u32 && 0b01110u32 & 0b00010u32 == 0b00010u32
        && 0b01110u32 & 0b01000u32 == 0b01000u32 && 0b01110u32 & 0b10000u32 != 0b10000u32)
        by (bit_vector);
    assert(0b01000u32 & 0b00001u32 != 0b00001u32 && 0b01000u32 & 0b00010u32 != 0b00010u32
        && 0b01000u32 & 0b01000u32 == 0b01000u32 && 0b01000u32 & 0b10000u32 != 0b10000u32)
        by (bit_vector);
    assert(0b10100u32 & 0b10000u32 == 0b10000u32 && 0b10100u32 & 0b00100u32 == 0b00100u32)
        by (bit_vector);
    assert(0b10000u32 & 0b10000u32 == 0b10000u32 && 0b10000u32 & 0b00100u32 != 0b00100u32)
        by (bit_vector);
}

/// What the caller keeps alive for a call in flight: the arena, the address
/// of the boxed parameters, and the address of the slot that takes the reply.
pub struct TaskDesc {
    pub buf: Vec<u8>,
    pub params_ptr: usize,
    pub slot_ptr: usize,
}

} // verus!
