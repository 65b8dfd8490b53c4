//! The user service: its records, their views, and its routines.

use crate::convert::{lemma_view_stays, FromRef, ListRef, StringRef, ToRef};
use crate::layout::{append_bytes, append_padding, field, padding, take_field, Pod};
use crate::mem_type::{lemma_max_parts, MemType};
use crate::memory::{lemma_holds_all_concat, pieces_of, Image, MemoryRead, Piece, Segment};
use crate::writer::{lemma_keeps_same, lemma_keeps_trans, Writer};
use vstd::prelude::*;

verus! {

/// A user.
#[derive(Clone, Debug, PartialEq, Eq)]
pub struct User {
    pub id: u32,
    pub name: String,
    pub age: u8,
}

/// The view of a `User`.
#[derive(Clone, Copy, Debug, PartialEq, Eq)]
pub struct UserRef {
    pub id: u32,
    pub name: StringRef,
    pub age: u8,
}

impl ToRef for User {
    type Ref = UserRef;

    open spec fn mem_type() -> MemType {
        MemType::Primitive.spec_max(<u32 as ToRef>::mem_type()).spec_max(<String as ToRef>::mem_type()).spec_max(<u8 as ToRef>::mem_type())
    }

    open spec fn size(&self) -> nat {
        self.id.size() + self.name.size() + self.age.size()
    }

    open spec fn views(&self, r: UserRef, img: Image, lo: int, hi: int, deep: bool) -> bool {
        &&& self.id.views(r.id, img, lo, hi, deep)
        &&& self.name.views(r.name, img, lo, hi, deep)
        &&& self.age.views(r.age, img, lo, hi, deep)
    }

    open spec fn flat(&self) -> UserRef {
        UserRef { id: self.id.flat(), name: self.name.flat(), age: self.age.flat() }
    }

    open spec fn pins(&self, r: UserRef, img: Image) -> Seq<Piece> {
        self.id.pins(r.id, img) + self.name.pins(r.name, img) + self.age.pins(r.age, img)
    }

    proof fn lemma_flat(&self) {
        lemma_max_parts(MemType::Primitive.spec_max(<u32 as ToRef>::mem_type()).spec_max(<String as ToRef>::mem_type()), <u8 as ToRef>::mem_type());
        lemma_max_parts(MemType::Primitive.spec_max(<u32 as ToRef>::mem_type()), <String as ToRef>::mem_type());
        lemma_max_parts(MemType::Primitive, <u32 as ToRef>::mem_type());
        self.id.lemma_flat();
        self.name.lemma_flat();
        self.age.lemma_flat();
    }

    proof fn lemma_primitive(&self, r: UserRef, img: Image, lo: int, hi: int, deep: bool) {
        lemma_max_parts(MemType::Primitive.spec_max(<u32 as ToRef>::mem_type()).spec_max(<String as ToRef>::mem_type()), <u8 as ToRef>::mem_type());
        lemma_max_parts(MemType::Primitive.spec_max(<u32 as ToRef>::mem_type()), <String as ToRef>::mem_type());
        lemma_max_parts(MemType::Primitive, <u32 as ToRef>::mem_type());
        self.id.lemma_primitive(r.id, img, lo, hi, deep);
        self.name.lemma_primitive(r.name, img, lo, hi, deep);
        self.age.lemma_primitive(r.age, img, lo, hi, deep);
        if Self::mem_type() == MemType::Primitive {
            assert(self.pins(r, img) =~= Seq::<Piece>::empty());
        }
    }

    proof fn lemma_deepen(&self, r: UserRef, img: Image, other: Image, lo: int, hi: int) {
        lemma_holds_all_concat(other, self.id.pins(r.id, img) + self.name.pins(r.name, img), self.age.pins(r.age, img));
        lemma_holds_all_concat(other, self.id.pins(r.id, img), self.name.pins(r.name, img));
        self.id.lemma_deepen(r.id, img, other, lo, hi);
        self.name.lemma_deepen(r.name, img, other, lo, hi);
        self.age.lemma_deepen(r.age, img, other, lo, hi);
    }

    proof fn lemma_frame(&self, r: UserRef, img: Image, other: Image, lo: int, hi: int, deep: bool) {
        self.id.lemma_frame(r.id, img, other, lo, hi, deep);
        self.name.lemma_frame(r.name, img, other, lo, hi, deep);
        self.age.lemma_frame(r.age, img, other, lo, hi, deep);
    }

    proof fn lemma_widen(
        &self,
        r: UserRef,
        img: Image,
        lo: int,
        hi: int,
        wide_lo: int,
        wide_hi: int,
        deep: bool,
    ) {
        self.id.lemma_widen(r.id, img, lo, hi, wide_lo, wide_hi, deep);
        self.name.lemma_widen(r.name, img, lo, hi, wide_lo, wide_hi, deep);
        self.age.lemma_widen(r.age, img, lo, hi, wide_lo, wide_hi, deep);
    }

    fn mem_type_of() -> (t: MemType) {
        MemType::Primitive.max(<u32 as ToRef>::mem_type_of()).max(<String as ToRef>::mem_type_of()).max(<u8 as ToRef>::mem_type_of())
    }

    fn to_size(&self, acc: &mut usize) {
        self.id.to_size(acc);
        self.name.to_size(acc);
        self.age.to_size(acc);
    }

    fn checked_size(&self, acc: usize) -> (sum: Option<usize>) {
        let sum0 = acc;
        let sum1 = match self.id.checked_size(sum0) {
            Some(next) => next,
            None => {
                return None;
            },
        };
        let sum2 = match self.name.checked_size(sum1) {
            Some(next) => next,
            None => {
                return None;
            },
        };
        let sum3 = match self.age.checked_size(sum2) {
            Some(next) => next,
            None => {
                return None;
            },
        };
        Some(sum3)
    }

    fn to_ref(&self, writer: &mut Writer) -> (r: UserRef) {
        let ghost base = writer.base() as int;
        let ghost w0 = *writer;
        proof {
            writer.lemma_bounds();
            lemma_keeps_same(writer.arena(), writer.cursor());
            lemma_max_parts(MemType::Primitive.spec_max(<u32 as ToRef>::mem_type()).spec_max(<String as ToRef>::mem_type()), <u8 as ToRef>::mem_type());
            lemma_max_parts(MemType::Primitive.spec_max(<u32 as ToRef>::mem_type()), <String as ToRef>::mem_type());
            lemma_max_parts(MemType::Primitive, <u32 as ToRef>::mem_type());
        }
        let f0 = self.id.to_ref(writer);
        let ghost w1 = *writer;
        proof {
            writer.lemma_bounds();
        }
        let f1 = self.name.to_ref(writer);
        let ghost w2 = *writer;
        proof {
            writer.lemma_bounds();
        }
        let f2 = self.age.to_ref(writer);
        let ghost w3 = *writer;
        proof {
            writer.lemma_bounds();
        }
        proof {
            lemma_keeps_trans(w1.arena(), w2.arena(), w3.arena(), w1.cursor(), w2.cursor());
            lemma_keeps_trans(w0.arena(), w1.arena(), w3.arena(), w0.cursor(), w1.cursor());
            lemma_view_stays(&self.id, f0, w1, w3, base + w0.cursor(), base + w1.cursor());
            lemma_view_stays(&self.name, f1, w2, w3, base + w1.cursor(), base + w2.cursor());
            self.id.lemma_widen(f0, w3.image(), base + w0.cursor(), base + w1.cursor(), base + w0.cursor(), base + w3.cursor(), false);
            self.name.lemma_widen(f1, w3.image(), base + w1.cursor(), base + w2.cursor(), base + w0.cursor(), base + w3.cursor(), false);
            self.age.lemma_widen(f2, w3.image(), base + w2.cursor(), base + w3.cursor(), base + w0.cursor(), base + w3.cursor(), false);
        }
        UserRef { id: f0, name: f1, age: f2 }
    }

    fn pinned<M: MemoryRead>(&self, r: &UserRef, mem: &M, out: &mut Vec<Segment>) {
        self.id.pinned(&r.id, mem, out);
        self.name.pinned(&r.name, mem, out);
        self.age.pinned(&r.age, mem, out);
        assert(pieces_of(out@) =~= pieces_of(old(out)@) + self.pins(*r, mem.image()));
    }
}

impl DeepView for User {
    type V = (<u32 as DeepView>::V, <String as DeepView>::V, <u8 as DeepView>::V);

    open spec fn deep_view(&self) -> (<u32 as DeepView>::V, <String as DeepView>::V, <u8 as DeepView>::V) {
        (self.id.deep_view(), self.name.deep_view(), self.age.deep_view())
    }
}

impl FromRef for User {
    open spec fn decoded(r: UserRef, img: Image) -> Option<(<u32 as DeepView>::V, <String as DeepView>::V, <u8 as DeepView>::V)> {
        match (<u32 as FromRef>::decoded(r.id, img), <String as FromRef>::decoded(r.name, img), <u8 as FromRef>::decoded(r.age, img)) {
            (Some(v0), Some(v1), Some(v2)) => Some((v0, v1, v2)),
            _ => None,
        }
    }

    proof fn lemma_round_trip(&self, r: UserRef, img: Image, lo: int, hi: int) {
        self.id.lemma_round_trip(r.id, img, lo, hi);
        self.name.lemma_round_trip(r.name, img, lo, hi);
        self.age.lemma_round_trip(r.age, img, lo, hi);
    }

    fn from_ref<M: MemoryRead>(r: &UserRef, mem: &M) -> (o: Option<Self>) {
        let v0 = match <u32 as FromRef>::from_ref(&r.id, mem) {
            Some(v) => v,
            None => {
                return None;
            },
        };
        let v1 = match <String as FromRef>::from_ref(&r.name, mem) {
            Some(v) => v,
            None => {
                return None;
            },
        };
        let v2 = match <u8 as FromRef>::from_ref(&r.age, mem) {
            Some(v) => v,
            None => {
                return None;
            },
        };
        Some(User { id: v0, name: v1, age: v2 })
    }
}

impl Pod for UserRef {
    open spec fn size() -> nat {
        32
    }

    open spec fn encode(self) -> Seq<u8> {
        self.id.encode() + padding(4) + self.name.encode() + self.age.encode() + padding(7)
    }

    open spec fn decode(bytes: Seq<u8>) -> Self {
        UserRef { id: <u32 as Pod>::decode(field(bytes, 0, 4)), name: <StringRef as Pod>::decode(field(bytes, 8, 16)), age: <u8 as Pod>::decode(field(bytes, 24, 1)) }
    }

    proof fn lemma_layout(self) {
        self.id.lemma_layout();
        self.name.lemma_layout();
        self.age.lemma_layout();
        assert(field(self.encode(), 0, 4) =~= self.id.encode());
        assert(field(self.encode(), 8, 16) =~= self.name.encode());
        assert(field(self.encode(), 24, 1) =~= self.age.encode());
    }

    proof fn lemma_size() {
    }

    fn size_of() -> (n: usize) {
        32
    }

    fn to_bytes(&self) -> (b: Vec<u8>) {
        let mut b: Vec<u8> = Vec::new();
        let part0 = self.id.to_bytes();
        append_bytes(&mut b, &part0);
        append_padding(&mut b, 4);
        let part1 = self.name.to_bytes();
        append_bytes(&mut b, &part1);
        let part2 = self.age.to_bytes();
        append_bytes(&mut b, &part2);
        append_padding(&mut b, 7);
        assert(b@ =~= self.encode());
        b
    }

    fn from_bytes(b: &Vec<u8>) -> (r: Self) {
        let part0 = take_field(b, 0, 4);
        let part1 = take_field(b, 8, 16);
        let part2 = take_field(b, 24, 1);
        UserRef { id: <u32 as Pod>::from_bytes(&part0), name: <StringRef as Pod>::from_bytes(&part1), age: <u8 as Pod>::from_bytes(&part2) }
    }
}

/// Asks to log a user in.
#[derive(Clone, Debug, PartialEq, Eq)]
pub struct LoginRequest {
    pub user: User,
    pub password: String,
}

/// The view of a `LoginRequest`.
#[derive(Clone, Copy, Debug, PartialEq, Eq)]
pub struct LoginRequestRef {
    pub user: UserRef,
    pub password: StringRef,
}

impl ToRef for LoginRequest {
    type Ref = LoginRequestRef;

    open spec fn mem_type() -> MemType {
        MemType::Primitive.spec_max(<User as ToRef>::mem_type()).spec_max(<String as ToRef>::mem_type())
    }

    open spec fn size(&self) -> nat {
        self.user.size() + self.password.size()
    }

    open spec fn views(&self, r: LoginRequestRef, img: Image, lo: int, hi: int, deep: bool) -> bool {
        &&& self.user.views(r.user, img, lo, hi, deep)
        &&& self.password.views(r.password, img, lo, hi, deep)
    }

    open spec fn flat(&self) -> LoginRequestRef {
        LoginRequestRef { user: self.user.flat(), password: self.password.flat() }
    }

    open spec fn pins(&self, r: LoginRequestRef, img: Image) -> Seq<Piece> {
        self.user.pins(r.user, img) + self.password.pins(r.password, img)
    }

    proof fn lemma_flat(&self) {
        lemma_max_parts(MemType::Primitive.spec_max(<User as ToRef>::mem_type()), <String as ToRef>::mem_type());
        lemma_max_parts(MemType::Primitive, <User as ToRef>::mem_type());
        self.user.lemma_flat();
        self.password.lemma_flat();
    }

    proof fn lemma_primitive(&self, r: LoginRequestRef, img: Image, lo: int, hi: int, deep: bool) {
        lemma_max_parts(MemType::Primitive.spec_max(<User as ToRef>::mem_type()), <String as ToRef>::mem_type());
        lemma_max_parts(MemType::Primitive, <User as ToRef>::mem_type());
        self.user.lemma_primitive(r.user, img, lo, hi, deep);
        self.password.lemma_primitive(r.password, img, lo, hi, deep);
        if Self::mem_type() == MemType::Primitive {
            assert(self.pins(r, img) =~= Seq::<Piece>::empty());
        }
    }

    proof fn lemma_deepen(&self, r: LoginRequestRef, img: Image, other: Image, lo: int, hi: int) {
        lemma_holds_all_concat(other, self.user.pins(r.user, img), self.password.pins(r.password, img));
        self.user.lemma_deepen(r.user, img, other, lo, hi);
        self.password.lemma_deepen(r.password, img, other, lo, hi);
    }

    proof fn lemma_frame(&self, r: LoginRequestRef, img: Image, other: Image, lo: int, hi: int, deep: bool) {
        self.user.lemma_frame(r.user, img, other, lo, hi, deep);
        self.password.lemma_frame(r.password, img, other, lo, hi, deep);
    }

    proof fn lemma_widen(
        &self,
        r: LoginRequestRef,
        img: Image,
        lo: int,
        hi: int,
        wide_lo: int,
        wide_hi: int,
        deep: bool,
    ) {
        self.user.lemma_widen(r.user, img, lo, hi, wide_lo, wide_hi, deep);
        self.password.lemma_widen(r.password, img, lo, hi, wide_lo, wide_hi, deep);
    }

    fn mem_type_of() -> (t: MemType) {
        MemType::Primitive.max(<User as ToRef>::mem_type_of()).max(<String as ToRef>::mem_type_of())
    }

    fn to_size(&self, acc: &mut usize) {
        self.user.to_size(acc);
        self.password.to_size(acc);
    }

    fn checked_size(&self, acc: usize) -> (sum: Option<usize>) {
        let sum0 = acc;
        let sum1 = match self.user.checked_size(sum0) {
            Some(next) => next,
            None => {
                return None;
            },
        };
        let sum2 = match self.password.checked_size(sum1) {
            Some(next) => next,
            None => {
                return None;
            },
        };
        Some(sum2)
    }

    fn to_ref(&self, writer: &mut Writer) -> (r: LoginRequestRef) {
        let ghost base = writer.base() as int;
        let ghost w0 = *writer;
        proof {
            writer.lemma_bounds();
            lemma_keeps_same(writer.arena(), writer.cursor());
            lemma_max_parts(MemType::Primitive.spec_max(<User as ToRef>::mem_type()), <String as ToRef>::mem_type());
            lemma_max_parts(MemType::Primitive, <User as ToRef>::mem_type());
        }
        let f0 = self.user.to_ref(writer);
        let ghost w1 = *writer;
        proof {
            writer.lemma_bounds();
        }
        let f1 = self.password.to_ref(writer);
        let ghost w2 = *writer;
        proof {
            writer.lemma_bounds();
        }
        proof {
            lemma_keeps_trans(w0.arena(), w1.arena(), w2.arena(), w0.cursor(), w1.cursor());
            lemma_view_stays(&self.user, f0, w1, w2, base + w0.cursor(), base + w1.cursor());
            self.user.lemma_widen(f0, w2.image(), base + w0.cursor(), base + w1.cursor(), base + w0.cursor(), base + w2.cursor(), false);
            self.password.lemma_widen(f1, w2.image(), base + w1.cursor(), base + w2.cursor(), base + w0.cursor(), base + w2.cursor(), false);
        }
        LoginRequestRef { user: f0, password: f1 }
    }

    fn pinned<M: MemoryRead>(&self, r: &LoginRequestRef, mem: &M, out: &mut Vec<Segment>) {
        self.user.pinned(&r.user, mem, out);
        self.password.pinned(&r.password, mem, out);
        assert(pieces_of(out@) =~= pieces_of(old(out)@) + self.pins(*r, mem.image()));
    }
}

impl DeepView for LoginRequest {
    type V = (<User as DeepView>::V, <String as DeepView>::V);

    open spec fn deep_view(&self) -> (<User as DeepView>::V, <String as DeepView>::V) {
        (self.user.deep_view(), self.password.deep_view())
    }
}

impl FromRef for LoginRequest {
    open spec fn decoded(r: LoginRequestRef, img: Image) -> Option<(<User as DeepView>::V, <String as DeepView>::V)> {
        match (<User as FromRef>::decoded(r.user, img), <String as FromRef>::decoded(r.password, img)) {
            (Some(v0), Some(v1)) => Some((v0, v1)),
            _ => None,
        }
    }

    proof fn lemma_round_trip(&self, r: LoginRequestRef, img: Image, lo: int, hi: int) {
        self.user.lemma_round_trip(r.user, img, lo, hi);
        self.password.lemma_round_trip(r.password, img, lo, hi);
    }

    fn from_ref<M: MemoryRead>(r: &LoginRequestRef, mem: &M) -> (o: Option<Self>) {
        let v0 = match <User as FromRef>::from_ref(&r.user, mem) {
            Some(v) => v,
            None => {
                return None;
            },
        };
        let v1 = match <String as FromRef>::from_ref(&r.password, mem) {
            Some(v) => v,
            None => {
                return None;
            },
        };
        Some(LoginRequest { user: v0, password: v1 })
    }
}

impl Pod for LoginRequestRef {
    open spec fn size() -> nat {
        48
    }

    open spec fn encode(self) -> Seq<u8> {
        self.user.encode() + self.password.encode()
    }

    open spec fn decode(bytes: Seq<u8>) -> Self {
        LoginRequestRef { user: <UserRef as Pod>::decode(field(bytes, 0, 32)), password: <StringRef as Pod>::decode(field(bytes, 32, 16)) }
    }

    proof fn lemma_layout(self) {
        self.user.lemma_layout();
        self.password.lemma_layout();
        assert(field(self.encode(), 0, 32) =~= self.user.encode());
        assert(field(self.encode(), 32, 16) =~= self.password.encode());
    }

    proof fn lemma_size() {
    }

    fn size_of() -> (n: usize) {
        48
    }

    fn to_bytes(&self) -> (b: Vec<u8>) {
        let mut b: Vec<u8> = Vec::new();
        let part0 = self.user.to_bytes();
        append_bytes(&mut b, &part0);
        let part1 = self.password.to_bytes();
        append_bytes(&mut b, &part1);
        assert(b@ =~= self.encode());
        b
    }

    fn from_bytes(b: &Vec<u8>) -> (r: Self) {
        let part0 = take_field(b, 0, 32);
        let part1 = take_field(b, 32, 16);
        LoginRequestRef { user: <UserRef as Pod>::from_bytes(&part0), password: <StringRef as Pod>::from_bytes(&part1) }
    }
}

/// The answer to a `LoginRequest`.
#[derive(Clone, Debug, PartialEq, Eq)]
pub struct LoginResponse {
    pub succ: bool,
    pub message: String,
    pub token: Vec<u8>,
}

/// The view of a `LoginResponse`.
#[derive(Clone, Copy, Debug, PartialEq, Eq)]
pub struct LoginResponseRef {
    pub succ: bool,
    pub message: StringRef,
    pub token: ListRef,
}

impl ToRef for LoginResponse {
    type Ref = LoginResponseRef;

    open spec fn mem_type() -> MemType {
        MemType::Primitive.spec_max(<bool as ToRef>::mem_type()).spec_max(<String as ToRef>::mem_type()).spec_max(<Vec<u8> as ToRef>::mem_type())
    }

    open spec fn size(&self) -> nat {
        self.succ.size() + self.message.size() + self.token.size()
    }

    open spec fn views(&self, r: LoginResponseRef, img: Image, lo: int, hi: int, deep: bool) -> bool {
        &&& self.succ.views(r.succ, img, lo, hi, deep)
        &&& self.message.views(r.message, img, lo, hi, deep)
        &&& self.token.views(r.token, img, lo, hi, deep)
    }

    open spec fn flat(&self) -> LoginResponseRef {
        LoginResponseRef { succ: self.succ.flat(), message: self.message.flat(), token: self.token.flat() }
    }

    open spec fn pins(&self, r: LoginResponseRef, img: Image) -> Seq<Piece> {
        self.succ.pins(r.succ, img) + self.message.pins(r.message, img) + self.token.pins(r.token, img)
    }

    proof fn lemma_flat(&self) {
        lemma_max_parts(MemType::Primitive.spec_max(<bool as ToRef>::mem_type()).spec_max(<String as ToRef>::mem_type()), <Vec<u8> as ToRef>::mem_type());
        lemma_max_parts(MemType::Primitive.spec_max(<bool as ToRef>::mem_type()), <String as ToRef>::mem_type());
        lemma_max_parts(MemType::Primitive, <bool as ToRef>::mem_type());
        self.succ.lemma_flat();
        self.message.lemma_flat();
        self.token.lemma_flat();
    }

    proof fn lemma_primitive(&self, r: LoginResponseRef, img: Image, lo: int, hi: int, deep: bool) {
        lemma_max_parts(MemType::Primitive.spec_max(<bool as ToRef>::mem_type()).spec_max(<String as ToRef>::mem_type()), <Vec<u8> as ToRef>::mem_type());
        lemma_max_parts(MemType::Primitive.spec_max(<bool as ToRef>::mem_type()), <String as ToRef>::mem_type());
        lemma_max_parts(MemType::Primitive, <bool as ToRef>::mem_type());
        self.succ.lemma_primitive(r.succ, img, lo, hi, deep);
        self.message.lemma_primitive(r.message, img, lo, hi, deep);
        self.token.lemma_primitive(r.token, img, lo, hi, deep);
        if Self::mem_type() == MemType::Primitive {
            assert(self.pins(r, img) =~= Seq::<Piece>::empty());
        }
    }

    proof fn lemma_deepen(&self, r: LoginResponseRef, img: Image, other: Image, lo: int, hi: int) {
        lemma_holds_all_concat(other, self.succ.pins(r.succ, img) + self.message.pins(r.message, img), self.token.pins(r.token, img));
        lemma_holds_all_concat(other, self.succ.pins(r.succ, img), self.message.pins(r.message, img));
        self.succ.lemma_deepen(r.succ, img, other, lo, hi);
        self.message.lemma_deepen(r.message, img, other, lo, hi);
        self.token.lemma_deepen(r.token, img, other, lo, hi);
    }

    proof fn lemma_frame(&self, r: LoginResponseRef, img: Image, other: Image, lo: int, hi: int, deep: bool) {
        self.succ.lemma_frame(r.succ, img, other, lo, hi, deep);
        self.message.lemma_frame(r.message, img, other, lo, hi, deep);
        self.token.lemma_frame(r.token, img, other, lo, hi, deep);
    }

    proof fn lemma_widen(
        &self,
        r: LoginResponseRef,
        img: Image,
        lo: int,
        hi: int,
        wide_lo: int,
        wide_hi: int,
        deep: bool,
    ) {
        self.succ.lemma_widen(r.succ, img, lo, hi, wide_lo, wide_hi, deep);
        self.message.lemma_widen(r.message, img, lo, hi, wide_lo, wide_hi, deep);
        self.token.lemma_widen(r.token, img, lo, hi, wide_lo, wide_hi, deep);
    }

    fn mem_type_of() -> (t: MemType) {
        MemType::Primitive.max(<bool as ToRef>::mem_type_of()).max(<String as ToRef>::mem_type_of()).max(<Vec<u8> as ToRef>::mem_type_of())
    }

    fn to_size(&self, acc: &mut usize) {
        self.succ.to_size(acc);
        self.message.to_size(acc);
        self.token.to_size(acc);
    }

    fn checked_size(&self, acc: usize) -> (sum: Option<usize>) {
        let sum0 = acc;
        let sum1 = match self.succ.checked_size(sum0) {
            Some(next) => next,
            None => {
                return None;
            },
        };
        let sum2 = match self.message.checked_size(sum1) {
            Some(next) => next,
            None => {
                return None;
            },
        };
        let sum3 = match self.token.checked_size(sum2) {
            Some(next) => next,
            None => {
                return None;
            },
        };
        Some(sum3)
    }

    fn to_ref(&self, writer: &mut Writer) -> (r: LoginResponseRef) {
        let ghost base = writer.base() as int;
        let ghost w0 = *writer;
        proof {
            writer.lemma_bounds();
            lemma_keeps_same(writer.arena(), writer.cursor());
            lemma_max_parts(MemType::Primitive.spec_max(<bool as ToRef>::mem_type()).spec_max(<String as ToRef>::mem_type()), <Vec<u8> as ToRef>::mem_type());
            lemma_max_parts(MemType::Primitive.spec_max(<bool as ToRef>::mem_type()), <String as ToRef>::mem_type());
            lemma_max_parts(MemType::Primitive, <bool as ToRef>::mem_type());
        }
        let f0 = self.succ.to_ref(writer);
        let ghost w1 = *writer;
        proof {
            writer.lemma_bounds();
        }
        let f1 = self.message.to_ref(writer);
        let ghost w2 = *writer;
        proof {
            writer.lemma_bounds();
        }
        let f2 = self.token.to_ref(writer);
        let ghost w3 = *writer;
        proof {
            writer.lemma_bounds();
        }
        proof {
            lemma_keeps_trans(w1.arena(), w2.arena(), w3.arena(), w1.cursor(), w2.cursor());
            lemma_keeps_trans(w0.arena(), w1.arena(), w3.arena(), w0.cursor(), w1.cursor());
            lemma_view_stays(&self.succ, f0, w1, w3, base + w0.cursor(), base + w1.cursor());
            lemma_view_stays(&self.message, f1, w2, w3, base + w1.cursor(), base + w2.cursor());
            self.succ.lemma_widen(f0, w3.image(), base + w0.cursor(), base + w1.cursor(), base + w0.cursor(), base + w3.cursor(), false);
            self.message.lemma_widen(f1, w3.image(), base + w1.cursor(), base + w2.cursor(), base + w0.cursor(), base + w3.cursor(), false);
            self.token.lemma_widen(f2, w3.image(), base + w2.cursor(), base + w3.cursor(), base + w0.cursor(), base + w3.cursor(), false);
        }
        LoginResponseRef { succ: f0, message: f1, token: f2 }
    }

    fn pinned<M: MemoryRead>(&self, r: &LoginResponseRef, mem: &M, out: &mut Vec<Segment>) {
        self.succ.pinned(&r.succ, mem, out);
        self.message.pinned(&r.message, mem, out);
        self.token.pinned(&r.token, mem, out);
        assert(pieces_of(out@) =~= pieces_of(old(out)@) + self.pins(*r, mem.image()));
    }
}

impl DeepView for LoginResponse {
    type V = (<bool as DeepView>::V, <String as DeepView>::V, <Vec<u8> as DeepView>::V);

    open spec fn deep_view(&self) -> (<bool as DeepView>::V, <String as DeepView>::V, <Vec<u8> as DeepView>::V) {
        (self.succ.deep_view(), self.message.deep_view(), self.token.deep_view())
    }
}

impl FromRef for LoginResponse {
    open spec fn decoded(r: LoginResponseRef, img: Image) -> Option<(<bool as DeepView>::V, <String as DeepView>::V, <Vec<u8> as DeepView>::V)> {
        match (<bool as FromRef>::decoded(r.succ, img), <String as FromRef>::decoded(r.message, img), <Vec<u8> as FromRef>::decoded(r.token, img)) {
            (Some(v0), Some(v1), Some(v2)) => Some((v0, v1, v2)),
            _ => None,
        }
    }

    proof fn lemma_round_trip(&self, r: LoginResponseRef, img: Image, lo: int, hi: int) {
        self.succ.lemma_round_trip(r.succ, img, lo, hi);
        self.message.lemma_round_trip(r.message, img, lo, hi);
        self.token.lemma_round_trip(r.token, img, lo, hi);
    }

    fn from_ref<M: MemoryRead>(r: &LoginResponseRef, mem: &M) -> (o: Option<Self>) {
        let v0 = match <bool as FromRef>::from_ref(&r.succ, mem) {
            Some(v) => v,
            None => {
                return None;
            },
        };
        let v1 = match <String as FromRef>::from_ref(&r.message, mem) {
            Some(v) => v,
            None => {
                return None;
            },
        };
        let v2 = match <Vec<u8> as FromRef>::from_ref(&r.token, mem) {
            Some(v) => v,
            None => {
                return None;
            },
        };
        Some(LoginResponse { succ: v0, message: v1, token: v2 })
    }
}

impl Pod for LoginResponseRef {
    open spec fn size() -> nat {
        40
    }

    open spec fn encode(self) -> Seq<u8> {
        self.succ.encode() + padding(7) + self.message.encode() + self.token.encode()
    }

    open spec fn decode(bytes: Seq<u8>) -> Self {
        LoginResponseRef { succ: <bool as Pod>::decode(field(bytes, 0, 1)), message: <StringRef as Pod>::decode(field(bytes, 8, 16)), token: <ListRef as Pod>::decode(field(bytes, 24, 16)) }
    }

    proof fn lemma_layout(self) {
        self.succ.lemma_layout();
        self.message.lemma_layout();
        self.token.lemma_layout();
        assert(field(self.encode(), 0, 1) =~= self.succ.encode());
        assert(field(self.encode(), 8, 16) =~= self.message.encode());
        assert(field(self.encode(), 24, 16) =~= self.token.encode());
    }

    proof fn lemma_size() {
    }

    fn size_of() -> (n: usize) {
        40
    }

    fn to_bytes(&self) -> (b: Vec<u8>) {
        let mut b: Vec<u8> = Vec::new();
        let part0 = self.succ.to_bytes();
        append_bytes(&mut b, &part0);
        append_padding(&mut b, 7);
        let part1 = self.message.to_bytes();
        append_bytes(&mut b, &part1);
        let part2 = self.token.to_bytes();
        append_bytes(&mut b, &part2);
        assert(b@ =~= self.encode());
        b
    }

    fn from_bytes(b: &Vec<u8>) -> (r: Self) {
        let part0 = take_field(b, 0, 1);
        let part1 = take_field(b, 8, 16);
        let part2 = take_field(b, 24, 16);
        LoginResponseRef { succ: <bool as Pod>::from_bytes(&part0), message: <StringRef as Pod>::from_bytes(&part1), token: <ListRef as Pod>::from_bytes(&part2) }
    }
}

/// Asks to log users out.
#[derive(Clone, Debug, PartialEq, Eq)]
pub struct LogoutRequest {
    pub token: Vec<u8>,
    pub user_ids: Vec<u32>,
}

/// The view of a `LogoutRequest`.
#[derive(Clone, Copy, Debug, PartialEq, Eq)]
pub struct LogoutRequestRef {
    pub token: ListRef,
    pub user_ids: ListRef,
}

impl ToRef for LogoutRequest {
    type Ref = LogoutRequestRef;

    open spec fn mem_type() -> MemType {
        MemType::Primitive.spec_max(<Vec<u8> as ToRef>::mem_type()).spec_max(<Vec<u32> as ToRef>::mem_type())
    }

    open spec fn size(&self) -> nat {
        self.token.size() + self.user_ids.size()
    }

    open spec fn views(&self, r: LogoutRequestRef, img: Image, lo: int, hi: int, deep: bool) -> bool {
        &&& self.token.views(r.token, img, lo, hi, deep)
        &&& self.user_ids.views(r.user_ids, img, lo, hi, deep)
    }

    open spec fn flat(&self) -> LogoutRequestRef {
        LogoutRequestRef { token: self.token.flat(), user_ids: self.user_ids.flat() }
    }

    open spec fn pins(&self, r: LogoutRequestRef, img: Image) -> Seq<Piece> {
        self.token.pins(r.token, img) + self.user_ids.pins(r.user_ids, img)
    }

    proof fn lemma_flat(&self) {
        lemma_max_parts(MemType::Primitive.spec_max(<Vec<u8> as ToRef>::mem_type()), <Vec<u32> as ToRef>::mem_type());
        lemma_max_parts(MemType::Primitive, <Vec<u8> as ToRef>::mem_type());
        self.token.lemma_flat();
        self.user_ids.lemma_flat();
    }

    proof fn lemma_primitive(&self, r: LogoutRequestRef, img: Image, lo: int, hi: int, deep: bool) {
        lemma_max_parts(MemType::Primitive.spec_max(<Vec<u8> as ToRef>::mem_type()), <Vec<u32> as ToRef>::mem_type());
        lemma_max_parts(MemType::Primitive, <Vec<u8> as ToRef>::mem_type());
        self.token.lemma_primitive(r.token, img, lo, hi, deep);
        self.user_ids.lemma_primitive(r.user_ids, img, lo, hi, deep);
        if Self::mem_type() == MemType::Primitive {
            assert(self.pins(r, img) =~= Seq::<Piece>::empty());
        }
    }

    proof fn lemma_deepen(&self, r: LogoutRequestRef, img: Image, other: Image, lo: int, hi: int) {
        lemma_holds_all_concat(other, self.token.pins(r.token, img), self.user_ids.pins(r.user_ids, img));
        self.token.lemma_deepen(r.token, img, other, lo, hi);
        self.user_ids.lemma_deepen(r.user_ids, img, other, lo, hi);
    }

    proof fn lemma_frame(&self, r: LogoutRequestRef, img: Image, other: Image, lo: int, hi: int, deep: bool) {
        self.token.lemma_frame(r.token, img, other, lo, hi, deep);
        self.user_ids.lemma_frame(r.user_ids, img, other, lo, hi, deep);
    }

    proof fn lemma_widen(
        &self,
        r: LogoutRequestRef,
        img: Image,
        lo: int,
        hi: int,
        wide_lo: int,
        wide_hi: int,
        deep: bool,
    ) {
        self.token.lemma_widen(r.token, img, lo, hi, wide_lo, wide_hi, deep);
        self.user_ids.lemma_widen(r.user_ids, img, lo, hi, wide_lo, wide_hi, deep);
    }

    fn mem_type_of() -> (t: MemType) {
        MemType::Primitive.max(<Vec<u8> as ToRef>::mem_type_of()).max(<Vec<u32> as ToRef>::mem_type_of())
    }

    fn to_size(&self, acc: &mut usize) {
        self.token.to_size(acc);
        self.user_ids.to_size(acc);
    }

    fn checked_size(&self, acc: usize) -> (sum: Option<usize>) {
        let sum0 = acc;
        let sum1 = match self.token.checked_size(sum0) {
            Some(next) => next,
            None => {
                return None;
            },
        };
        let sum2 = match self.user_ids.checked_size(sum1) {
            Some(next) => next,
            None => {
                return None;
            },
        };
        Some(sum2)
    }

    fn to_ref(&self, writer: &mut Writer) -> (r: LogoutRequestRef) {
        let ghost base = writer.base() as int;
        let ghost w0 = *writer;
        proof {
            writer.lemma_bounds();
            lemma_keeps_same(writer.arena(), writer.cursor());
            lemma_max_parts(MemType::Primitive.spec_max(<Vec<u8> as ToRef>::mem_type()), <Vec<u32> as ToRef>::mem_type());
            lemma_max_parts(MemType::Primitive, <Vec<u8> as ToRef>::mem_type());
        }
        let f0 = self.token.to_ref(writer);
        let ghost w1 = *writer;
        proof {
            writer.lemma_bounds();
        }
        let f1 = self.user_ids.to_ref(writer);
        let ghost w2 = *writer;
        proof {
            writer.lemma_bounds();
        }
        proof {
            lemma_keeps_trans(w0.arena(), w1.arena(), w2.arena(), w0.cursor(), w1.cursor());
            lemma_view_stays(&self.token, f0, w1, w2, base + w0.cursor(), base + w1.cursor());
            self.token.lemma_widen(f0, w2.image(), base + w0.cursor(), base + w1.cursor(), base + w0.cursor(), base + w2.cursor(), false);
            self.user_ids.lemma_widen(f1, w2.image(), base + w1.cursor(), base + w2.cursor(), base + w0.cursor(), base + w2.cursor(), false);
        }
        LogoutRequestRef { token: f0, user_ids: f1 }
    }

    fn pinned<M: MemoryRead>(&self, r: &LogoutRequestRef, mem: &M, out: &mut Vec<Segment>) {
        self.token.pinned(&r.token, mem, out);
        self.user_ids.pinned(&r.user_ids, mem, out);
        assert(pieces_of(out@) =~= pieces_of(old(out)@) + self.pins(*r, mem.image()));
    }
}

impl DeepView for LogoutRequest {
    type V = (<Vec<u8> as DeepView>::V, <Vec<u32> as DeepView>::V);

    open spec fn deep_view(&self) -> (<Vec<u8> as DeepView>::V, <Vec<u32> as DeepView>::V) {
        (self.token.deep_view(), self.user_ids.deep_view())
    }
}

impl FromRef for LogoutRequest {
    open spec fn decoded(r: LogoutRequestRef, img: Image) -> Option<(<Vec<u8> as DeepView>::V, <Vec<u32> as DeepView>::V)> {
        match (<Vec<u8> as FromRef>::decoded(r.token, img), <Vec<u32> as FromRef>::decoded(r.user_ids, img)) {
            (Some(v0), Some(v1)) => Some((v0, v1)),
            _ => None,
        }
    }

    proof fn lemma_round_trip(&self, r: LogoutRequestRef, img: Image, lo: int, hi: int) {
        self.token.lemma_round_trip(r.token, img, lo, hi);
        self.user_ids.lemma_round_trip(r.user_ids, img, lo, hi);
    }

    fn from_ref<M: MemoryRead>(r: &LogoutRequestRef, mem: &M) -> (o: Option<Self>) {
        let v0 = match <Vec<u8> as FromRef>::from_ref(&r.token, mem) {
            Some(v) => v,
            None => {
                return None;
            },
        };
        let v1 = match <Vec<u32> as FromRef>::from_ref(&r.user_ids, mem) {
            Some(v) => v,
            None => {
                return None;
            },
        };
        Some(LogoutRequest { token: v0, user_ids: v1 })
    }
}

impl Pod for LogoutRequestRef {
    open spec fn size() -> nat {
        32
    }

    open spec fn encode(self) -> Seq<u8> {
        self.token.encode() + self.user_ids.encode()
    }

    open spec fn decode(bytes: Seq<u8>) -> Self {
        LogoutRequestRef { token: <ListRef as Pod>::decode(field(bytes, 0, 16)), user_ids: <ListRef as Pod>::decode(field(bytes, 16, 16)) }
    }

    proof fn lemma_layout(self) {
        self.token.lemma_layout();
        self.user_ids.lemma_layout();
        assert(field(self.encode(), 0, 16) =~= self.token.encode());
        assert(field(self.encode(), 16, 16) =~= self.user_ids.encode());
    }

    proof fn lemma_size() {
    }

    fn size_of() -> (n: usize) {
        32
    }

    fn to_bytes(&self) -> (b: Vec<u8>) {
        let mut b: Vec<u8> = Vec::new();
        let part0 = self.token.to_bytes();
        append_bytes(&mut b, &part0);
        let part1 = self.user_ids.to_bytes();
        append_bytes(&mut b, &part1);
        assert(b@ =~= self.encode());
        b
    }

    fn from_bytes(b: &Vec<u8>) -> (r: Self) {
        let part0 = take_field(b, 0, 16);
        let part1 = take_field(b, 16, 16);
        LogoutRequestRef { token: <ListRef as Pod>::from_bytes(&part0), user_ids: <ListRef as Pod>::from_bytes(&part1) }
    }
}

/// Names users to add to or to remove from the friends of the caller.
#[derive(Clone, Debug, PartialEq, Eq)]
pub struct FriendsListRequest {
    pub token: Vec<u8>,
    pub user_ids: Vec<u32>,
}

/// The view of a `FriendsListRequest`.
#[derive(Clone, Copy, Debug, PartialEq, Eq)]
pub struct FriendsListRequestRef {
    pub token: ListRef,
    pub user_ids: ListRef,
}

impl ToRef for FriendsListRequest {
    type Ref = FriendsListRequestRef;

    open spec fn mem_type() -> MemType {
        MemType::Primitive.spec_max(<Vec<u8> as ToRef>::mem_type()).spec_max(<Vec<u32> as ToRef>::mem_type())
    }

    open spec fn size(&self) -> nat {
        self.token.size() + self.user_ids.size()
    }

    open spec fn views(&self, r: FriendsListRequestRef, img: Image, lo: int, hi: int, deep: bool) -> bool {
        &&& self.token.views(r.token, img, lo, hi, deep)
        &&& self.user_ids.views(r.user_ids, img, lo, hi, deep)
    }

    open spec fn flat(&self) -> FriendsListRequestRef {
        FriendsListRequestRef { token: self.token.flat(), user_ids: self.user_ids.flat() }
    }

    open spec fn pins(&self, r: FriendsListRequestRef, img: Image) -> Seq<Piece> {
        self.token.pins(r.token, img) + self.user_ids.pins(r.user_ids, img)
    }

    proof fn lemma_flat(&self) {
        lemma_max_parts(MemType::Primitive.spec_max(<Vec<u8> as ToRef>::mem_type()), <Vec<u32> as ToRef>::mem_type());
        lemma_max_parts(MemType::Primitive, <Vec<u8> as ToRef>::mem_type());
        self.token.lemma_flat();
        self.user_ids.lemma_flat();
    }

    proof fn lemma_primitive(&self, r: FriendsListRequestRef, img: Image, lo: int, hi: int, deep: bool) {
        lemma_max_parts(MemType::Primitive.spec_max(<Vec<u8> as ToRef>::mem_type()), <Vec<u32> as ToRef>::mem_type());
        lemma_max_parts(MemType::Primitive, <Vec<u8> as ToRef>::mem_type());
        self.token.lemma_primitive(r.token, img, lo, hi, deep);
        self.user_ids.lemma_primitive(r.user_ids, img, lo, hi, deep);
        if Self::mem_type() == MemType::Primitive {
            assert(self.pins(r, img) =~= Seq::<Piece>::empty());
        }
    }

    proof fn lemma_deepen(&self, r: FriendsListRequestRef, img: Image, other: Image, lo: int, hi: int) {
        lemma_holds_all_concat(other, self.token.pins(r.token, img), self.user_ids.pins(r.user_ids, img));
        self.token.lemma_deepen(r.token, img, other, lo, hi);
        self.user_ids.lemma_deepen(r.user_ids, img, other, lo, hi);
    }

    proof fn lemma_frame(&self, r: FriendsListRequestRef, img: Image, other: Image, lo: int, hi: int, deep: bool) {
        self.token.lemma_frame(r.token, img, other, lo, hi, deep);
        self.user_ids.lemma_frame(r.user_ids, img, other, lo, hi, deep);
    }

    proof fn lemma_widen(
        &self,
        r: FriendsListRequestRef,
        img: Image,
        lo: int,
        hi: int,
        wide_lo: int,
        wide_hi: int,
        deep: bool,
    ) {
        self.token.lemma_widen(r.token, img, lo, hi, wide_lo, wide_hi, deep);
        self.user_ids.lemma_widen(r.user_ids, img, lo, hi, wide_lo, wide_hi, deep);
    }

    fn mem_type_of() -> (t: MemType) {
        MemType::Primitive.max(<Vec<u8> as ToRef>::mem_type_of()).max(<Vec<u32> as ToRef>::mem_type_of())
    }

    fn to_size(&self, acc: &mut usize) {
        self.token.to_size(acc);
        self.user_ids.to_size(acc);
    }

    fn checked_size(&self, acc: usize) -> (sum: Option<usize>) {
        let sum0 = acc;
        let sum1 = match self.token.checked_size(sum0) {
            Some(next) => next,
            None => {
                return None;
            },
        };
        let sum2 = match self.user_ids.checked_size(sum1) {
            Some(next) => next,
            None => {
                return None;
            },
        };
        Some(sum2)
    }

    fn to_ref(&self, writer: &mut Writer) -> (r: FriendsListRequestRef) {
        let ghost base = writer.base() as int;
        let ghost w0 = *writer;
        proof {
            writer.lemma_bounds();
            lemma_keeps_same(writer.arena(), writer.cursor());
            lemma_max_parts(MemType::Primitive.spec_max(<Vec<u8> as ToRef>::mem_type()), <Vec<u32> as ToRef>::mem_type());
            lemma_max_parts(MemType::Primitive, <Vec<u8> as ToRef>::mem_type());
        }
        let f0 = self.token.to_ref(writer);
        let ghost w1 = *writer;
        proof {
            writer.lemma_bounds();
        }
        let f1 = self.user_ids.to_ref(writer);
        let ghost w2 = *writer;
        proof {
            writer.lemma_bounds();
        }
        proof {
            lemma_keeps_trans(w0.arena(), w1.arena(), w2.arena(), w0.cursor(), w1.cursor());
            lemma_view_stays(&self.token, f0, w1, w2, base + w0.cursor(), base + w1.cursor());
            self.token.lemma_widen(f0, w2.image(), base + w0.cursor(), base + w1.cursor(), base + w0.cursor(), base + w2.cursor(), false);
            self.user_ids.lemma_widen(f1, w2.image(), base + w1.cursor(), base + w2.cursor(), base + w0.cursor(), base + w2.cursor(), false);
        }
        FriendsListRequestRef { token: f0, user_ids: f1 }
    }

    fn pinned<M: MemoryRead>(&self, r: &FriendsListRequestRef, mem: &M, out: &mut Vec<Segment>) {
        self.token.pinned(&r.token, mem, out);
        self.user_ids.pinned(&r.user_ids, mem, out);
        assert(pieces_of(out@) =~= pieces_of(old(out)@) + self.pins(*r, mem.image()));
    }
}

impl DeepView for FriendsListRequest {
    type V = (<Vec<u8> as DeepView>::V, <Vec<u32> as DeepView>::V);

    open spec fn deep_view(&self) -> (<Vec<u8> as DeepView>::V, <Vec<u32> as DeepView>::V) {
        (self.token.deep_view(), self.user_ids.deep_view())
    }
}

impl FromRef for FriendsListRequest {
    open spec fn decoded(r: FriendsListRequestRef, img: Image) -> Option<(<Vec<u8> as DeepView>::V, <Vec<u32> as DeepView>::V)> {
        match (<Vec<u8> as FromRef>::decoded(r.token, img), <Vec<u32> as FromRef>::decoded(r.user_ids, img)) {
            (Some(v0), Some(v1)) => Some((v0, v1)),
            _ => None,
        }
    }

    proof fn lemma_round_trip(&self, r: FriendsListRequestRef, img: Image, lo: int, hi: int) {
        self.token.lemma_round_trip(r.token, img, lo, hi);
        self.user_ids.lemma_round_trip(r.user_ids, img, lo, hi);
    }

    fn from_ref<M: MemoryRead>(r: &FriendsListRequestRef, mem: &M) -> (o: Option<Self>) {
        let v0 = match <Vec<u8> as FromRef>::from_ref(&r.token, mem) {
            Some(v) => v,
            None => {
                return None;
            },
        };
        let v1 = match <Vec<u32> as FromRef>::from_ref(&r.user_ids, mem) {
            Some(v) => v,
            None => {
                return None;
            },
        };
        Some(FriendsListRequest { token: v0, user_ids: v1 })
    }
}

impl Pod for FriendsListRequestRef {
    open spec fn size() -> nat {
        32
    }

    open spec fn encode(self) -> Seq<u8> {
        self.token.encode() + self.user_ids.encode()
    }

    open spec fn decode(bytes: Seq<u8>) -> Self {
        FriendsListRequestRef { token: <ListRef as Pod>::decode(field(bytes, 0, 16)), user_ids: <ListRef as Pod>::decode(field(bytes, 16, 16)) }
    }

    proof fn lemma_layout(self) {
        self.token.lemma_layout();
        self.user_ids.lemma_layout();
        assert(field(self.encode(), 0, 16) =~= self.token.encode());
        assert(field(self.encode(), 16, 16) =~= self.user_ids.encode());
    }

    proof fn lemma_size() {
    }

    fn size_of() -> (n: usize) {
        32
    }

    fn to_bytes(&self) -> (b: Vec<u8>) {
        let mut b: Vec<u8> = Vec::new();
        let part0 = self.token.to_bytes();
        append_bytes(&mut b, &part0);
        let part1 = self.user_ids.to_bytes();
        append_bytes(&mut b, &part1);
        assert(b@ =~= self.encode());
        b
    }

    fn from_bytes(b: &Vec<u8>) -> (r: Self) {
        let part0 = take_field(b, 0, 16);
        let part1 = take_field(b, 16, 16);
        FriendsListRequestRef { token: <ListRef as Pod>::from_bytes(&part0), user_ids: <ListRef as Pod>::from_bytes(&part1) }
    }
}

/// The users that a `FriendsListRequest` took effect on.
#[derive(Clone, Debug, PartialEq, Eq)]
pub struct FriendsListResponse {
    pub users: Vec<User>,
}

/// The view of a `FriendsListResponse`.
#[derive(Clone, Copy, Debug, PartialEq, Eq)]
pub struct FriendsListResponseRef {
    pub users: ListRef,
}

impl ToRef for FriendsListResponse {
    type Ref = FriendsListResponseRef;

    open spec fn mem_type() -> MemType {
        MemType::Primitive.spec_max(<Vec<User> as ToRef>::mem_type())
    }

    open spec fn size(&self) -> nat {
        self.users.size()
    }

    open spec fn views(&self, r: FriendsListResponseRef, img: Image, lo: int, hi: int, deep: bool) -> bool {
        &&& self.users.views(r.users, img, lo, hi, deep)
    }

    open spec fn flat(&self) -> FriendsListResponseRef {
        FriendsListResponseRef { users: self.users.flat() }
    }

    open spec fn pins(&self, r: FriendsListResponseRef, img: Image) -> Seq<Piece> {
        self.users.pins(r.users, img)
    }

    proof fn lemma_flat(&self) {
        lemma_max_parts(MemType::Primitive, <Vec<User> as ToRef>::mem_type());
        self.users.lemma_flat();
    }

    proof fn lemma_primitive(&self, r: FriendsListResponseRef, img: Image, lo: int, hi: int, deep: bool) {
        lemma_max_parts(MemType::Primitive, <Vec<User> as ToRef>::mem_type());
        self.users.lemma_primitive(r.users, img, lo, hi, deep);
        if Self::mem_type() == MemType::Primitive {
            assert(self.pins(r, img) =~= Seq::<Piece>::empty());
        }
    }

    proof fn lemma_deepen(&self, r: FriendsListResponseRef, img: Image, other: Image, lo: int, hi: int) {
        self.users.lemma_deepen(r.users, img, other, lo, hi);
    }

    proof fn lemma_frame(&self, r: FriendsListResponseRef, img: Image, other: Image, lo: int, hi: int, deep: bool) {
        self.users.lemma_frame(r.users, img, other, lo, hi, deep);
    }

    proof fn lemma_widen(
        &self,
        r: FriendsListResponseRef,
        img: Image,
        lo: int,
        hi: int,
        wide_lo: int,
        wide_hi: int,
        deep: bool,
    ) {
        self.users.lemma_widen(r.users, img, lo, hi, wide_lo, wide_hi, deep);
    }

    fn mem_type_of() -> (t: MemType) {
        MemType::Primitive.max(<Vec<User> as ToRef>::mem_type_of())
    }

    fn to_size(&self, acc: &mut usize) {
        self.users.to_size(acc);
    }

    fn checked_size(&self, acc: usize) -> (sum: Option<usize>) {
        let sum0 = acc;
        let sum1 = match self.users.checked_size(sum0) {
            Some(next) => next,
            None => {
                return None;
            },
        };
        Some(sum1)
    }

    fn to_ref(&self, writer: &mut Writer) -> (r: FriendsListResponseRef) {
        let ghost base = writer.base() as int;
        let ghost w0 = *writer;
        proof {
            writer.lemma_bounds();
            lemma_keeps_same(writer.arena(), writer.cursor());
            lemma_max_parts(MemType::Primitive, <Vec<User> as ToRef>::mem_type());
        }
        let f0 = self.users.to_ref(writer);
        let ghost w1 = *writer;
        proof {
            writer.lemma_bounds();
        }
        proof {
            self.users.lemma_widen(f0, w1.image(), base + w0.cursor(), base + w1.cursor(), base + w0.cursor(), base + w1.cursor(), false);
        }
        FriendsListResponseRef { users: f0 }
    }

    fn pinned<M: MemoryRead>(&self, r: &FriendsListResponseRef, mem: &M, out: &mut Vec<Segment>) {
        self.users.pinned(&r.users, mem, out);
        assert(pieces_of(out@) =~= pieces_of(old(out)@) + self.pins(*r, mem.image()));
    }
}

impl DeepView for FriendsListResponse {
    type V = <Vec<User> as DeepView>::V;

    open spec fn deep_view(&self) -> <Vec<User> as DeepView>::V {
        self.users.deep_view()
    }
}

impl FromRef for FriendsListResponse {
    open spec fn decoded(r: FriendsListResponseRef, img: Image) -> Option<<Vec<User> as DeepView>::V> {
        match <Vec<User> as FromRef>::decoded(r.users, img) {
            Some(v0) => Some(v0),
            None => None,
        }
    }

    proof fn lemma_round_trip(&self, r: FriendsListResponseRef, img: Image, lo: int, hi: int) {
        self.users.lemma_round_trip(r.users, img, lo, hi);
    }

    fn from_ref<M: MemoryRead>(r: &FriendsListResponseRef, mem: &M) -> (o: Option<Self>) {
        let v0 = match <Vec<User> as FromRef>::from_ref(&r.users, mem) {
            Some(v) => v,
            None => {
                return None;
            },
        };
        Some(FriendsListResponse { users: v0 })
    }
}

impl Pod for FriendsListResponseRef {
    open spec fn size() -> nat {
        16
    }

    open spec fn encode(self) -> Seq<u8> {
        self.users.encode()
    }

    open spec fn decode(bytes: Seq<u8>) -> Self {
        FriendsListResponseRef { users: <ListRef as Pod>::decode(field(bytes, 0, 16)) }
    }

    proof fn lemma_layout(self) {
        self.users.lemma_layout();
        assert(field(self.encode(), 0, 16) =~= self.users.encode());
    }

    proof fn lemma_size() {
    }

    fn size_of() -> (n: usize) {
        16
    }

    fn to_bytes(&self) -> (b: Vec<u8>) {
        let mut b: Vec<u8> = Vec::new();
        let part0 = self.users.to_bytes();
        append_bytes(&mut b, &part0);
        assert(b@ =~= self.encode());
        b
    }

    fn from_bytes(b: &Vec<u8>) -> (r: Self) {
        let part0 = take_field(b, 0, 16);
        FriendsListResponseRef { users: <ListRef as Pod>::from_bytes(&part0) }
    }
}

/// A private message to a friend.
#[derive(Clone, Debug, PartialEq, Eq)]
pub struct PMFriendRequest {
    pub user_id: u32,
    pub token: Vec<u8>,
    pub message: String,
}

/// The view of a `PMFriendRequest`.
#[derive(Clone, Copy, Debug, PartialEq, Eq)]
pub struct PMFriendRequestRef {
    pub user_id: u32,
    pub token: ListRef,
    pub message: StringRef,
}

impl ToRef for PMFriendRequest {
    type Ref = PMFriendRequestRef;

    open spec fn mem_type() -> MemType {
        MemType::Primitive.spec_max(<u32 as ToRef>::mem_type()).spec_max(<Vec<u8> as ToRef>::mem_type()).spec_max(<String as ToRef>::mem_type())
    }

    open spec fn size(&self) -> nat {
        self.user_id.size() + self.token.size() + self.message.size()
    }

    open spec fn views(&self, r: PMFriendRequestRef, img: Image, lo: int, hi: int, deep: bool) -> bool {
        &&& self.user_id.views(r.user_id, img, lo, hi, deep)
        &&& self.token.views(r.token, img, lo, hi, deep)
        &&& self.message.views(r.message, img, lo, hi, deep)
    }

    open spec fn flat(&self) -> PMFriendRequestRef {
        PMFriendRequestRef { user_id: self.user_id.flat(), token: self.token.flat(), message: self.message.flat() }
    }

    open spec fn pins(&self, r: PMFriendRequestRef, img: Image) -> Seq<Piece> {
        self.user_id.pins(r.user_id, img) + self.token.pins(r.token, img) + self.message.pins(r.message, img)
    }

    proof fn lemma_flat(&self) {
        lemma_max_parts(MemType::Primitive.spec_max(<u32 as ToRef>::mem_type()).spec_max(<Vec<u8> as ToRef>::mem_type()), <String as ToRef>::mem_type());
        lemma_max_parts(MemType::Primitive.spec_max(<u32 as ToRef>::mem_type()), <Vec<u8> as ToRef>::mem_type());
        lemma_max_parts(MemType::Primitive, <u32 as ToRef>::mem_type());
        self.user_id.lemma_flat();
        self.token.lemma_flat();
        self.message.lemma_flat();
    }

    proof fn lemma_primitive(&self, r: PMFriendRequestRef, img: Image, lo: int, hi: int, deep: bool) {
        lemma_max_parts(MemType::Primitive.spec_max(<u32 as ToRef>::mem_type()).spec_max(<Vec<u8> as ToRef>::mem_type()), <String as ToRef>::mem_type());
        lemma_max_parts(MemType::Primitive.spec_max(<u32 as ToRef>::mem_type()), <Vec<u8> as ToRef>::mem_type());
        lemma_max_parts(MemType::Primitive, <u32 as ToRef>::mem_type());
        self.user_id.lemma_primitive(r.user_id, img, lo, hi, deep);
        self.token.lemma_primitive(r.token, img, lo, hi, deep);
        self.message.lemma_primitive(r.message, img, lo, hi, deep);
        if Self::mem_type() == MemType::Primitive {
            assert(self.pins(r, img) =~= Seq::<Piece>::empty());
        }
    }

    proof fn lemma_deepen(&self, r: PMFriendRequestRef, img: Image, other: Image, lo: int, hi: int) {
        lemma_holds_all_concat(other, self.user_id.pins(r.user_id, img) + self.token.pins(r.token, img), self.message.pins(r.message, img));
        lemma_holds_all_concat(other, self.user_id.pins(r.user_id, img), self.token.pins(r.token, img));
        self.user_id.lemma_deepen(r.user_id, img, other, lo, hi);
        self.token.lemma_deepen(r.token, img, other, lo, hi);
        self.message.lemma_deepen(r.message, img, other, lo, hi);
    }

    proof fn lemma_frame(&self, r: PMFriendRequestRef, img: Image, other: Image, lo: int, hi: int, deep: bool) {
        self.user_id.lemma_frame(r.user_id, img, other, lo, hi, deep);
        self.token.lemma_frame(r.token, img, other, lo, hi, deep);
        self.message.lemma_frame(r.message, img, other, lo, hi, deep);
    }

    proof fn lemma_widen(
        &self,
        r: PMFriendRequestRef,
        img: Image,
        lo: int,
        hi: int,
        wide_lo: int,
        wide_hi: int,
        deep: bool,
    ) {
        self.user_id.lemma_widen(r.user_id, img, lo, hi, wide_lo, wide_hi, deep);
        self.token.lemma_widen(r.token, img, lo, hi, wide_lo, wide_hi, deep);
        self.message.lemma_widen(r.message, img, lo, hi, wide_lo, wide_hi, deep);
    }

    fn mem_type_of() -> (t: MemType) {
        MemType::Primitive.max(<u32 as ToRef>::mem_type_of()).max(<Vec<u8> as ToRef>::mem_type_of()).max(<String as ToRef>::mem_type_of())
    }

    fn to_size(&self, acc: &mut usize) {
        self.user_id.to_size(acc);
        self.token.to_size(acc);
        self.message.to_size(acc);
    }

    fn checked_size(&self, acc: usize) -> (sum: Option<usize>) {
        let sum0 = acc;
        let sum1 = match self.user_id.checked_size(sum0) {
            Some(next) => next,
            None => {
                return None;
            },
        };
        let sum2 = match self.token.checked_size(sum1) {
            Some(next) => next,
            None => {
                return None;
            },
        };
        let sum3 = match self.message.checked_size(sum2) {
            Some(next) => next,
            None => {
                return None;
            },
        };
        Some(sum3)
    }

    fn to_ref(&self, writer: &mut Writer) -> (r: PMFriendRequestRef) {
        let ghost base = writer.base() as int;
        let ghost w0 = *writer;
        proof {
            writer.lemma_bounds();
            lemma_keeps_same(writer.arena(), writer.cursor());
            lemma_max_parts(MemType::Primitive.spec_max(<u32 as ToRef>::mem_type()).spec_max(<Vec<u8> as ToRef>::mem_type()), <String as ToRef>::mem_type());
            lemma_max_parts(MemType::Primitive.spec_max(<u32 as ToRef>::mem_type()), <Vec<u8> as ToRef>::mem_type());
            lemma_max_parts(MemType::Primitive, <u32 as ToRef>::mem_type());
        }
        let f0 = self.user_id.to_ref(writer);
        let ghost w1 = *writer;
        proof {
            writer.lemma_bounds();
        }
        let f1 = self.token.to_ref(writer);
        let ghost w2 = *writer;
        proof {
            writer.lemma_bounds();
        }
        let f2 = self.message.to_ref(writer);
        let ghost w3 = *writer;
        proof {
            writer.lemma_bounds();
        }
        proof {
            lemma_keeps_trans(w1.arena(), w2.arena(), w3.arena(), w1.cursor(), w2.cursor());
            lemma_keeps_trans(w0.arena(), w1.arena(), w3.arena(), w0.cursor(), w1.cursor());
            lemma_view_stays(&self.user_id, f0, w1, w3, base + w0.cursor(), base + w1.cursor());
            lemma_view_stays(&self.token, f1, w2, w3, base + w1.cursor(), base + w2.cursor());
            self.user_id.lemma_widen(f0, w3.image(), base + w0.cursor(), base + w1.cursor(), base + w0.cursor(), base + w3.cursor(), false);
            self.token.lemma_widen(f1, w3.image(), base + w1.cursor(), base + w2.cursor(), base + w0.cursor(), base + w3.cursor(), false);
            self.message.lemma_widen(f2, w3.image(), base + w2.cursor(), base + w3.cursor(), base + w0.cursor(), base + w3.cursor(), false);
        }
        PMFriendRequestRef { user_id: f0, token: f1, message: f2 }
    }

    fn pinned<M: MemoryRead>(&self, r: &PMFriendRequestRef, mem: &M, out: &mut Vec<Segment>) {
        self.user_id.pinned(&r.user_id, mem, out);
        self.token.pinned(&r.token, mem, out);
        self.message.pinned(&r.message, mem, out);
        assert(pieces_of(out@) =~= pieces_of(old(out)@) + self.pins(*r, mem.image()));
    }
}

impl DeepView for PMFriendRequest {
    type V = (<u32 as DeepView>::V, <Vec<u8> as DeepView>::V, <String as DeepView>::V);

    open spec fn deep_view(&self) -> (<u32 as DeepView>::V, <Vec<u8> as DeepView>::V, <String as DeepView>::V) {
        (self.user_id.deep_view(), self.token.deep_view(), self.message.deep_view())
    }
}

impl FromRef for PMFriendRequest {
    open spec fn decoded(r: PMFriendRequestRef, img: Image) -> Option<(<u32 as DeepView>::V, <Vec<u8> as DeepView>::V, <String as DeepView>::V)> {
        match (<u32 as FromRef>::decoded(r.user_id, img), <Vec<u8> as FromRef>::decoded(r.token, img), <String as FromRef>::decoded(r.message, img)) {
            (Some(v0), Some(v1), Some(v2)) => Some((v0, v1, v2)),
            _ => None,
        }
    }

    proof fn lemma_round_trip(&self, r: PMFriendRequestRef, img: Image, lo: int, hi: int) {
        self.user_id.lemma_round_trip(r.user_id, img, lo, hi);
        self.token.lemma_round_trip(r.token, img, lo, hi);
        self.message.lemma_round_trip(r.message, img, lo, hi);
    }

    fn from_ref<M: MemoryRead>(r: &PMFriendRequestRef, mem: &M) -> (o: Option<Self>) {
        let v0 = match <u32 as FromRef>::from_ref(&r.user_id, mem) {
            Some(v) => v,
            None => {
                return None;
            },
        };
        let v1 = match <Vec<u8> as FromRef>::from_ref(&r.token, mem) {
            Some(v) => v,
            None => {
                return None;
            },
        };
        let v2 = match <String as FromRef>::from_ref(&r.message, mem) {
            Some(v) => v,
            None => {
                return None;
            },
        };
        Some(PMFriendRequest { user_id: v0, token: v1, message: v2 })
    }
}

impl Pod for PMFriendRequestRef {
    open spec fn size() -> nat {
        40
    }

    open spec fn encode(self) -> Seq<u8> {
        self.user_id.encode() + padding(4) + self.token.encode() + self.message.encode()
    }

    open spec fn decode(bytes: Seq<u8>) -> Self {
        PMFriendRequestRef { user_id: <u32 as Pod>::decode(field(bytes, 0, 4)), token: <ListRef as Pod>::decode(field(bytes, 8, 16)), message: <StringRef as Pod>::decode(field(bytes, 24, 16)) }
    }

    proof fn lemma_layout(self) {
        self.user_id.lemma_layout();
        self.token.lemma_layout();
        self.message.lemma_layout();
        assert(field(self.encode(), 0, 4) =~= self.user_id.encode());
        assert(field(self.encode(), 8, 16) =~= self.token.encode());
        assert(field(self.encode(), 24, 16) =~= self.message.encode());
    }

    proof fn lemma_size() {
    }

    fn size_of() -> (n: usize) {
        40
    }

    fn to_bytes(&self) -> (b: Vec<u8>) {
        let mut b: Vec<u8> = Vec::new();
        let part0 = self.user_id.to_bytes();
        append_bytes(&mut b, &part0);
        append_padding(&mut b, 4);
        let part1 = self.token.to_bytes();
        append_bytes(&mut b, &part1);
        let part2 = self.message.to_bytes();
        append_bytes(&mut b, &part2);
        assert(b@ =~= self.encode());
        b
    }

    fn from_bytes(b: &Vec<u8>) -> (r: Self) {
        let part0 = take_field(b, 0, 4);
        let part1 = take_field(b, 8, 16);
        let part2 = take_field(b, 24, 16);
        PMFriendRequestRef { user_id: <u32 as Pod>::from_bytes(&part0), token: <ListRef as Pod>::from_bytes(&part1), message: <StringRef as Pod>::from_bytes(&part2) }
    }
}

/// The answer to a `PMFriendRequest`.
#[derive(Clone, Debug, PartialEq, Eq)]
pub struct PMFriendResponse {
    pub succ: bool,
    pub message: String,
}

/// The view of a `PMFriendResponse`.
#[derive(Clone, Copy, Debug, PartialEq, Eq)]
pub struct PMFriendResponseRef {
    pub succ: bool,
    pub message: StringRef,
}

impl ToRef for PMFriendResponse {
    type Ref = PMFriendResponseRef;

    open spec fn mem_type() -> MemType {
        MemType::Primitive.spec_max(<bool as ToRef>::mem_type()).spec_max(<String as ToRef>::mem_type())
    }

    open spec fn size(&self) -> nat {
        self.succ.size() + self.message.size()
    }

    open spec fn views(&self, r: PMFriendResponseRef, img: Image, lo: int, hi: int, deep: bool) -> bool {
        &&& self.succ.views(r.succ, img, lo, hi, deep)
        &&& self.message.views(r.message, img, lo, hi, deep)
    }

    open spec fn flat(&self) -> PMFriendResponseRef {
        PMFriendResponseRef { succ: self.succ.flat(), message: self.message.flat() }
    }

    open spec fn pins(&self, r: PMFriendResponseRef, img: Image) -> Seq<Piece> {
        self.succ.pins(r.succ, img) + self.message.pins(r.message, img)
    }

    proof fn lemma_flat(&self) {
        lemma_max_parts(MemType::Primitive.spec_max(<bool as ToRef>::mem_type()), <String as ToRef>::mem_type());
        lemma_max_parts(MemType::Primitive, <bool as ToRef>::mem_type());
        self.succ.lemma_flat();
        self.message.lemma_flat();
    }

    proof fn lemma_primitive(&self, r: PMFriendResponseRef, img: Image, lo: int, hi: int, deep: bool) {
        lemma_max_parts(MemType::Primitive.spec_max(<bool as ToRef>::mem_type()), <String as ToRef>::mem_type());
        lemma_max_parts(MemType::Primitive, <bool as ToRef>::mem_type());
        self.succ.lemma_primitive(r.succ, img, lo, hi, deep);
        self.message.lemma_primitive(r.message, img, lo, hi, deep);
        if Self::mem_type() == MemType::Primitive {
            assert(self.pins(r, img) =~= Seq::<Piece>::empty());
        }
    }

    proof fn lemma_deepen(&self, r: PMFriendResponseRef, img: Image, other: Image, lo: int, hi: int) {
        lemma_holds_all_concat(other, self.succ.pins(r.succ, img), self.message.pins(r.message, img));
        self.succ.lemma_deepen(r.succ, img, other, lo, hi);
        self.message.lemma_deepen(r.message, img, other, lo, hi);
    }

    proof fn lemma_frame(&self, r: PMFriendResponseRef, img: Image, other: Image, lo: int, hi: int, deep: bool) {
        self.succ.lemma_frame(r.succ, img, other, lo, hi, deep);
        self.message.lemma_frame(r.message, img, other, lo, hi, deep);
    }

    proof fn lemma_widen(
        &self,
        r: PMFriendResponseRef,
        img: Image,
        lo: int,
        hi: int,
        wide_lo: int,
        wide_hi: int,
        deep: bool,
    ) {
        self.succ.lemma_widen(r.succ, img, lo, hi, wide_lo, wide_hi, deep);
        self.message.lemma_widen(r.message, img, lo, hi, wide_lo, wide_hi, deep);
    }

    fn mem_type_of() -> (t: MemType) {
        MemType::Primitive.max(<bool as ToRef>::mem_type_of()).max(<String as ToRef>::mem_type_of())
    }

    fn to_size(&self, acc: &mut usize) {
        self.succ.to_size(acc);
        self.message.to_size(acc);
    }

    fn checked_size(&self, acc: usize) -> (sum: Option<usize>) {
        let sum0 = acc;
        let sum1 = match self.succ.checked_size(sum0) {
            Some(next) => next,
            None => {
                return None;
            },
        };
        let sum2 = match self.message.checked_size(sum1) {
            Some(next) => next,
            None => {
                return None;
            },
        };
        Some(sum2)
    }

    fn to_ref(&self, writer: &mut Writer) -> (r: PMFriendResponseRef) {
        let ghost base = writer.base() as int;
        let ghost w0 = *writer;
        proof {
            writer.lemma_bounds();
            lemma_keeps_same(writer.arena(), writer.cursor());
            lemma_max_parts(MemType::Primitive.spec_max(<bool as ToRef>::mem_type()), <String as ToRef>::mem_type());
            lemma_max_parts(MemType::Primitive, <bool as ToRef>::mem_type());
        }
        let f0 = self.succ.to_ref(writer);
        let ghost w1 = *writer;
        proof {
            writer.lemma_bounds();
        }
        let f1 = self.message.to_ref(writer);
        let ghost w2 = *writer;
        proof {
            writer.lemma_bounds();
        }
        proof {
            lemma_keeps_trans(w0.arena(), w1.arena(), w2.arena(), w0.cursor(), w1.cursor());
            lemma_view_stays(&self.succ, f0, w1, w2, base + w0.cursor(), base + w1.cursor());
            self.succ.lemma_widen(f0, w2.image(), base + w0.cursor(), base + w1.cursor(), base + w0.cursor(), base + w2.cursor(), false);
            self.message.lemma_widen(f1, w2.image(), base + w1.cursor(), base + w2.cursor(), base + w0.cursor(), base + w2.cursor(), false);
        }
        PMFriendResponseRef { succ: f0, message: f1 }
    }

    fn pinned<M: MemoryRead>(&self, r: &PMFriendResponseRef, mem: &M, out: &mut Vec<Segment>) {
        self.succ.pinned(&r.succ, mem, out);
        self.message.pinned(&r.message, mem, out);
        assert(pieces_of(out@) =~= pieces_of(old(out)@) + self.pins(*r, mem.image()));
    }
}

impl DeepView for PMFriendResponse {
    type V = (<bool as DeepView>::V, <String as DeepView>::V);

    open spec fn deep_view(&self) -> (<bool as DeepView>::V, <String as DeepView>::V) {
        (self.succ.deep_view(), self.message.deep_view())
    }
}

impl FromRef for PMFriendResponse {
    open spec fn decoded(r: PMFriendResponseRef, img: Image) -> Option<(<bool as DeepView>::V, <String as DeepView>::V)> {
        match (<bool as FromRef>::decoded(r.succ, img), <String as FromRef>::decoded(r.message, img)) {
            (Some(v0), Some(v1)) => Some((v0, v1)),
            _ => None,
        }
    }

    proof fn lemma_round_trip(&self, r: PMFriendResponseRef, img: Image, lo: int, hi: int) {
        self.succ.lemma_round_trip(r.succ, img, lo, hi);
        self.message.lemma_round_trip(r.message, img, lo, hi);
    }

    fn from_ref<M: MemoryRead>(r: &PMFriendResponseRef, mem: &M) -> (o: Option<Self>) {
        let v0 = match <bool as FromRef>::from_ref(&r.succ, mem) {
            Some(v) => v,
            None => {
                return None;
            },
        };
        let v1 = match <String as FromRef>::from_ref(&r.message, mem) {
            Some(v) => v,
            None => {
                return None;
            },
        };
        Some(PMFriendResponse { succ: v0, message: v1 })
    }
}

impl Pod for PMFriendResponseRef {
    open spec fn size() -> nat {
        24
    }

    open spec fn encode(self) -> Seq<u8> {
        self.succ.encode() + padding(7) + self.message.encode()
    }

    open spec fn decode(bytes: Seq<u8>) -> Self {
        PMFriendResponseRef { succ: <bool as Pod>::decode(field(bytes, 0, 1)), message: <StringRef as Pod>::decode(field(bytes, 8, 16)) }
    }

    proof fn lemma_layout(self) {
        self.succ.lemma_layout();
        self.message.lemma_layout();
        assert(field(self.encode(), 0, 1) =~= self.succ.encode());
        assert(field(self.encode(), 8, 16) =~= self.message.encode());
    }

    proof fn lemma_size() {
    }

    fn size_of() -> (n: usize) {
        24
    }

    fn to_bytes(&self) -> (b: Vec<u8>) {
        let mut b: Vec<u8> = Vec::new();
        let part0 = self.succ.to_bytes();
        append_bytes(&mut b, &part0);
        append_padding(&mut b, 7);
        let part1 = self.message.to_bytes();
        append_bytes(&mut b, &part1);
        assert(b@ =~= self.encode());
        b
    }

    fn from_bytes(b: &Vec<u8>) -> (r: Self) {
        let part0 = take_field(b, 0, 1);
        let part1 = take_field(b, 8, 16);
        PMFriendResponseRef { succ: <bool as Pod>::from_bytes(&part0), message: <StringRef as Pod>::from_bytes(&part1) }
    }
}

/// A request whose field names are kept as they are on the other side.
#[allow(non_snake_case)]
#[derive(Clone, Debug, PartialEq, Eq)]
pub struct PreserveStructAttrsRequest {
    pub UserId: u64,
    pub UserName: String,
}

/// The view of a `PreserveStructAttrsRequest`.
#[allow(non_snake_case)]
#[derive(Clone, Copy, Debug, PartialEq, Eq)]
pub struct PreserveStructAttrsRequestRef {
    pub UserId: u64,
    pub UserName: StringRef,
}

impl ToRef for PreserveStructAttrsRequest {
    type Ref = PreserveStructAttrsRequestRef;

    open spec fn mem_type() -> MemType {
        MemType::Primitive.spec_max(<u64 as ToRef>::mem_type()).spec_max(<String as ToRef>::mem_type())
    }

    open spec fn size(&self) -> nat {
        self.UserId.size() + self.UserName.size()
    }

    open spec fn views(&self, r: PreserveStructAttrsRequestRef, img: Image, lo: int, hi: int, deep: bool) -> bool {
        &&& self.UserId.views(r.UserId, img, lo, hi, deep)
        &&& self.UserName.views(r.UserName, img, lo, hi, deep)
    }

    open spec fn flat(&self) -> PreserveStructAttrsRequestRef {
        PreserveStructAttrsRequestRef { UserId: self.UserId.flat(), UserName: self.UserName.flat() }
    }

    open spec fn pins(&self, r: PreserveStructAttrsRequestRef, img: Image) -> Seq<Piece> {
        self.UserId.pins(r.UserId, img) + self.UserName.pins(r.UserName, img)
    }

    proof fn lemma_flat(&self) {
        lemma_max_parts(MemType::Primitive.spec_max(<u64 as ToRef>::mem_type()), <String as ToRef>::mem_type());
        lemma_max_parts(MemType::Primitive, <u64 as ToRef>::mem_type());
        self.UserId.lemma_flat();
        self.UserName.lemma_flat();
    }

    proof fn lemma_primitive(&self, r: PreserveStructAttrsRequestRef, img: Image, lo: int, hi: int, deep: bool) {
        lemma_max_parts(MemType::Primitive.spec_max(<u64 as ToRef>::mem_type()), <String as ToRef>::mem_type());
        lemma_max_parts(MemType::Primitive, <u64 as ToRef>::mem_type());
        self.UserId.lemma_primitive(r.UserId, img, lo, hi, deep);
        self.UserName.lemma_primitive(r.UserName, img, lo, hi, deep);
        if Self::mem_type() == MemType::Primitive {
            assert(self.pins(r, img) =~= Seq::<Piece>::empty());
        }
    }

    proof fn lemma_deepen(&self, r: PreserveStructAttrsRequestRef, img: Image, other: Image, lo: int, hi: int) {
        lemma_holds_all_concat(other, self.UserId.pins(r.UserId, img), self.UserName.pins(r.UserName, img));
        self.UserId.lemma_deepen(r.UserId, img, other, lo, hi);
        self.UserName.lemma_deepen(r.UserName, img, other, lo, hi);
    }

    proof fn lemma_frame(&self, r: PreserveStructAttrsRequestRef, img: Image, other: Image, lo: int, hi: int, deep: bool) {
        self.UserId.lemma_frame(r.UserId, img, other, lo, hi, deep);
        self.UserName.lemma_frame(r.UserName, img, other, lo, hi, deep);
    }

    proof fn lemma_widen(
        &self,
        r: PreserveStructAttrsRequestRef,
        img: Image,
        lo: int,
        hi: int,
        wide_lo: int,
        wide_hi: int,
        deep: bool,
    ) {
        self.UserId.lemma_widen(r.UserId, img, lo, hi, wide_lo, wide_hi, deep);
        self.UserName.lemma_widen(r.UserName, img, lo, hi, wide_lo, wide_hi, deep);
    }

    fn mem_type_of() -> (t: MemType) {
        MemType::Primitive.max(<u64 as ToRef>::mem_type_of()).max(<String as ToRef>::mem_type_of())
    }

    fn to_size(&self, acc: &mut usize) {
        self.UserId.to_size(acc);
        self.UserName.to_size(acc);
    }

    fn checked_size(&self, acc: usize) -> (sum: Option<usize>) {
        let sum0 = acc;
        let sum1 = match self.UserId.checked_size(sum0) {
            Some(next) => next,
            None => {
                return None;
            },
        };
        let sum2 = match self.UserName.checked_size(sum1) {
            Some(next) => next,
            None => {
                return None;
            },
        };
        Some(sum2)
    }

    fn to_ref(&self, writer: &mut Writer) -> (r: PreserveStructAttrsRequestRef) {
        let ghost base = writer.base() as int;
        let ghost w0 = *writer;
        proof {
            writer.lemma_bounds();
            lemma_keeps_same(writer.arena(), writer.cursor());
            lemma_max_parts(MemType::Primitive.spec_max(<u64 as ToRef>::mem_type()), <String as ToRef>::mem_type());
            lemma_max_parts(MemType::Primitive, <u64 as ToRef>::mem_type());
        }
        let f0 = self.UserId.to_ref(writer);
        let ghost w1 = *writer;
        proof {
            writer.lemma_bounds();
        }
        let f1 = self.UserName.to_ref(writer);
        let ghost w2 = *writer;
        proof {
            writer.lemma_bounds();
        }
        proof {
            lemma_keeps_trans(w0.arena(), w1.arena(), w2.arena(), w0.cursor(), w1.cursor());
            lemma_view_stays(&self.UserId, f0, w1, w2, base + w0.cursor(), base + w1.cursor());
            self.UserId.lemma_widen(f0, w2.image(), base + w0.cursor(), base + w1.cursor(), base + w0.cursor(), base + w2.cursor(), false);
            self.UserName.lemma_widen(f1, w2.image(), base + w1.cursor(), base + w2.cursor(), base + w0.cursor(), base + w2.cursor(), false);
        }
        PreserveStructAttrsRequestRef { UserId: f0, UserName: f1 }
    }

    fn pinned<M: MemoryRead>(&self, r: &PreserveStructAttrsRequestRef, mem: &M, out: &mut Vec<Segment>) {
        self.UserId.pinned(&r.UserId, mem, out);
        self.UserName.pinned(&r.UserName, mem, out);
        assert(pieces_of(out@) =~= pieces_of(old(out)@) + self.pins(*r, mem.image()));
    }
}

impl DeepView for PreserveStructAttrsRequest {
    type V = (<u64 as DeepView>::V, <String as DeepView>::V);

    open spec fn deep_view(&self) -> (<u64 as DeepView>::V, <String as DeepView>::V) {
        (self.UserId.deep_view(), self.UserName.deep_view())
    }
}

impl FromRef for PreserveStructAttrsRequest {
    open spec fn decoded(r: PreserveStructAttrsRequestRef, img: Image) -> Option<(<u64 as DeepView>::V, <String as DeepView>::V)> {
        match (<u64 as FromRef>::decoded(r.UserId, img), <String as FromRef>::decoded(r.UserName, img)) {
            (Some(v0), Some(v1)) => Some((v0, v1)),
            _ => None,
        }
    }

    proof fn lemma_round_trip(&self, r: PreserveStructAttrsRequestRef, img: Image, lo: int, hi: int) {
        self.UserId.lemma_round_trip(r.UserId, img, lo, hi);
        self.UserName.lemma_round_trip(r.UserName, img, lo, hi);
    }

    fn from_ref<M: MemoryRead>(r: &PreserveStructAttrsRequestRef, mem: &M) -> (o: Option<Self>) {
        let v0 = match <u64 as FromRef>::from_ref(&r.UserId, mem) {
            Some(v) => v,
            None => {
                return None;
            },
        };
        let v1 = match <String as FromRef>::from_ref(&r.UserName, mem) {
            Some(v) => v,
            None => {
                return None;
            },
        };
        Some(PreserveStructAttrsRequest { UserId: v0, UserName: v1 })
    }
}

impl Pod for PreserveStructAttrsRequestRef {
    open spec fn size() -> nat {
        24
    }

    open spec fn encode(self) -> Seq<u8> {
        self.UserId.encode() + self.UserName.encode()
    }

    open spec fn decode(bytes: Seq<u8>) -> Self {
        PreserveStructAttrsRequestRef { UserId: <u64 as Pod>::decode(field(bytes, 0, 8)), UserName: <StringRef as Pod>::decode(field(bytes, 8, 16)) }
    }

    proof fn lemma_layout(self) {
        self.UserId.lemma_layout();
        self.UserName.lemma_layout();
        assert(field(self.encode(), 0, 8) =~= self.UserId.encode());
        assert(field(self.encode(), 8, 16) =~= self.UserName.encode());
    }

    proof fn lemma_size() {
    }

    fn size_of() -> (n: usize) {
        24
    }

    fn to_bytes(&self) -> (b: Vec<u8>) {
        let mut b: Vec<u8> = Vec::new();
        let part0 = self.UserId.to_bytes();
        append_bytes(&mut b, &part0);
        let part1 = self.UserName.to_bytes();
        append_bytes(&mut b, &part1);
        assert(b@ =~= self.encode());
        b
    }

    fn from_bytes(b: &Vec<u8>) -> (r: Self) {
        let part0 = take_field(b, 0, 8);
        let part1 = take_field(b, 8, 16);
        PreserveStructAttrsRequestRef { UserId: <u64 as Pod>::from_bytes(&part0), UserName: <StringRef as Pod>::from_bytes(&part1) }
    }
}

/// The answer to a `PreserveStructAttrsRequest`.
#[allow(non_snake_case)]
#[derive(Clone, Debug, PartialEq, Eq)]
pub struct PreserveStructAttrsResponse {
    pub Success: bool,
}

/// The view of a `PreserveStructAttrsResponse`.
#[allow(non_snake_case)]
#[derive(Clone, Copy, Debug, PartialEq, Eq)]
pub struct PreserveStructAttrsResponseRef {
    pub Success: bool,
}

impl ToRef for PreserveStructAttrsResponse {
    type Ref = PreserveStructAttrsResponseRef;

    open spec fn mem_type() -> MemType {
        MemType::Primitive.spec_max(<bool as ToRef>::mem_type())
    }

    open spec fn size(&self) -> nat {
        self.Success.size()
    }

    open spec fn views(&self, r: PreserveStructAttrsResponseRef, img: Image, lo: int, hi: int, deep: bool) -> bool {
        &&& self.Success.views(r.Success, img, lo, hi, deep)
    }

    open spec fn flat(&self) -> PreserveStructAttrsResponseRef {
        PreserveStructAttrsResponseRef { Success: self.Success.flat() }
    }

    open spec fn pins(&self, r: PreserveStructAttrsResponseRef, img: Image) -> Seq<Piece> {
        self.Success.pins(r.Success, img)
    }

    proof fn lemma_flat(&self) {
        lemma_max_parts(MemType::Primitive, <bool as ToRef>::mem_type());
        self.Success.lemma_flat();
    }

    proof fn lemma_primitive(&self, r: PreserveStructAttrsResponseRef, img: Image, lo: int, hi: int, deep: bool) {
        lemma_max_parts(MemType::Primitive, <bool as ToRef>::mem_type());
        self.Success.lemma_primitive(r.Success, img, lo, hi, deep);
        if Self::mem_type() == MemType::Primitive {
            assert(self.pins(r, img) =~= Seq::<Piece>::empty());
        }
    }

    proof fn lemma_deepen(&self, r: PreserveStructAttrsResponseRef, img: Image, other: Image, lo: int, hi: int) {
        self.Success.lemma_deepen(r.Success, img, other, lo, hi);
    }

    proof fn lemma_frame(&self, r: PreserveStructAttrsResponseRef, img: Image, other: Image, lo: int, hi: int, deep: bool) {
        self.Success.lemma_frame(r.Success, img, other, lo, hi, deep);
    }

    proof fn lemma_widen(
        &self,
        r: PreserveStructAttrsResponseRef,
        img: Image,
        lo: int,
        hi: int,
        wide_lo: int,
        wide_hi: int,
        deep: bool,
    ) {
        self.Success.lemma_widen(r.Success, img, lo, hi, wide_lo, wide_hi, deep);
    }

    fn mem_type_of() -> (t: MemType) {
        MemType::Primitive.max(<bool as ToRef>::mem_type_of())
    }

    fn to_size(&self, acc: &mut usize) {
        self.Success.to_size(acc);
    }

    fn checked_size(&self, acc: usize) -> (sum: Option<usize>) {
        let sum0 = acc;
        let sum1 = match self.Success.checked_size(sum0) {
            Some(next) => next,
            None => {
                return None;
            },
        };
        Some(sum1)
    }

    fn to_ref(&self, writer: &mut Writer) -> (r: PreserveStructAttrsResponseRef) {
        let ghost base = writer.base() as int;
        let ghost w0 = *writer;
        proof {
            writer.lemma_bounds();
            lemma_keeps_same(writer.arena(), writer.cursor());
            lemma_max_parts(MemType::Primitive, <bool as ToRef>::mem_type());
        }
        let f0 = self.Success.to_ref(writer);
        let ghost w1 = *writer;
        proof {
            writer.lemma_bounds();
        }
        proof {
            self.Success.lemma_widen(f0, w1.image(), base + w0.cursor(), base + w1.cursor(), base + w0.cursor(), base + w1.cursor(), false);
        }
        PreserveStructAttrsResponseRef { Success: f0 }
    }

    fn pinned<M: MemoryRead>(&self, r: &PreserveStructAttrsResponseRef, mem: &M, out: &mut Vec<Segment>) {
        self.Success.pinned(&r.Success, mem, out);
        assert(pieces_of(out@) =~= pieces_of(old(out)@) + self.pins(*r, mem.image()));
    }
}

impl DeepView for PreserveStructAttrsResponse {
    type V = <bool as DeepView>::V;

    open spec fn deep_view(&self) -> <bool as DeepView>::V {
        self.Success.deep_view()
    }
}

impl FromRef for PreserveStructAttrsResponse {
    open spec fn decoded(r: PreserveStructAttrsResponseRef, img: Image) -> Option<<bool as DeepView>::V> {
        match <bool as FromRef>::decoded(r.Success, img) {
            Some(v0) => Some(v0),
            None => None,
        }
    }

    proof fn lemma_round_trip(&self, r: PreserveStructAttrsResponseRef, img: Image, lo: int, hi: int) {
        self.Success.lemma_round_trip(r.Success, img, lo, hi);
    }

    fn from_ref<M: MemoryRead>(r: &PreserveStructAttrsResponseRef, mem: &M) -> (o: Option<Self>) {
        let v0 = match <bool as FromRef>::from_ref(&r.Success, mem) {
            Some(v) => v,
            None => {
                return None;
            },
        };
        Some(PreserveStructAttrsResponse { Success: v0 })
    }
}

impl Pod for PreserveStructAttrsResponseRef {
    open spec fn size() -> nat {
        1
    }

    open spec fn encode(self) -> Seq<u8> {
        self.Success.encode()
    }

    open spec fn decode(bytes: Seq<u8>) -> Self {
        PreserveStructAttrsResponseRef { Success: <bool as Pod>::decode(field(bytes, 0, 1)) }
    }

    proof fn lemma_layout(self) {
        self.Success.lemma_layout();
        assert(field(self.encode(), 0, 1) =~= self.Success.encode());
    }

    proof fn lemma_size() {
    }

    fn size_of() -> (n: usize) {
        1
    }

    fn to_bytes(&self) -> (b: Vec<u8>) {
        let mut b: Vec<u8> = Vec::new();
        let part0 = self.Success.to_bytes();
        append_bytes(&mut b, &part0);
        assert(b@ =~= self.encode());
        b
    }

    fn from_bytes(b: &Vec<u8>) -> (r: Self) {
        let part0 = take_field(b, 0, 1);
        PreserveStructAttrsResponseRef { Success: <bool as Pod>::from_bytes(&part0) }
    }
}

/// The routines of the user service, as the other side implements them.
pub trait TestCall {
    fn ping(n: usize) -> usize;

    fn login(req: &LoginRequest) -> LoginResponse;

    fn logout(req: &User);

    fn add_friends(req: &FriendsListRequest) -> FriendsListResponse;

    fn delete_friends(req: FriendsListRequest) -> FriendsListResponse;

    fn pm_friend(req: PMFriendRequest) -> PMFriendResponse;

    fn multi_param_test(user: &User, message: &String, token: &Vec<u8>) -> LoginResponse;

    fn preserve_struct_attrs_test(data: &PreserveStructAttrsRequest) -> PreserveStructAttrsResponse;
}

} // verus!
