//! A small demonstration: a request with a list of records.

use crate::convert::{lemma_view_stays, FromRef, ListRef, StringRef, ToRef};
use crate::layout::{append_bytes, append_padding, field, padding, take_field, Pod};
use crate::mem_type::{lemma_max_parts, MemType};
use crate::memory::{lemma_holds_all_concat, pieces_of, Image, MemoryRead, Piece, Segment};
use crate::writer::{lemma_keeps_same, lemma_keeps_trans, Writer};
use vstd::prelude::*;

verus! {

/// A user of the demonstration.
#[derive(Clone, Debug, PartialEq, Eq)]
pub struct DemoUser {
    pub name: String,
    pub age: u8,
}

/// The view of a `DemoUser`.
#[derive(Clone, Copy, Debug, PartialEq, Eq)]
pub struct DemoUserRef {
    pub name: StringRef,
    pub age: u8,
}

impl ToRef for DemoUser {
    type Ref = DemoUserRef;

    open spec fn mem_type() -> MemType {
        MemType::Primitive.spec_max(<String as ToRef>::mem_type()).spec_max(<u8 as ToRef>::mem_type())
    }

    open spec fn size(&self) -> nat {
        self.name.size() + self.age.size()
    }

    open spec fn views(&self, r: DemoUserRef, img: Image, lo: int, hi: int, deep: bool) -> bool {
        &&& self.name.views(r.name, img, lo, hi, deep)
        &&& self.age.views(r.age, img, lo, hi, deep)
    }

    open spec fn flat(&self) -> DemoUserRef {
        DemoUserRef { name: self.name.flat(), age: self.age.flat() }
    }

    open spec fn pins(&self, r: DemoUserRef, img: Image) -> Seq<Piece> {
        self.name.pins(r.name, img) + self.age.pins(r.age, img)
    }

    proof fn lemma_flat(&self) {
        lemma_max_parts(MemType::Primitive.spec_max(<String as ToRef>::mem_type()), <u8 as ToRef>::mem_type());
        lemma_max_parts(MemType::Primitive, <String as ToRef>::mem_type());
        self.name.lemma_flat();
        self.age.lemma_flat();
    }

    proof fn lemma_primitive(&self, r: DemoUserRef, img: Image, lo: int, hi: int, deep: bool) {
        lemma_max_parts(MemType::Primitive.spec_max(<String as ToRef>::mem_type()), <u8 as ToRef>::mem_type());
        lemma_max_parts(MemType::Primitive, <String as ToRef>::mem_type());
        self.name.lemma_primitive(r.name, img, lo, hi, deep);
        self.age.lemma_primitive(r.age, img, lo, hi, deep);
        if Self::mem_type() == MemType::Primitive {
            assert(self.pins(r, img) =~= Seq::<Piece>::empty());
        }
    }

    proof fn lemma_deepen(&self, r: DemoUserRef, img: Image, other: Image, lo: int, hi: int) {
        lemma_holds_all_concat(other, self.name.pins(r.name, img), self.age.pins(r.age, img));
        self.name.lemma_deepen(r.name, img, other, lo, hi);
        self.age.lemma_deepen(r.age, img, other, lo, hi);
    }

    proof fn lemma_frame(&self, r: DemoUserRef, img: Image, other: Image, lo: int, hi: int, deep: bool) {
        self.name.lemma_frame(r.name, img, other, lo, hi, deep);
        self.age.lemma_frame(r.age, img, other, lo, hi, deep);
    }

    proof fn lemma_widen(
        &self,
        r: DemoUserRef,
        img: Image,
        lo: int,
        hi: int,
        wide_lo: int,
        wide_hi: int,
        deep: bool,
    ) {
        self.name.lemma_widen(r.name, img, lo, hi, wide_lo, wide_hi, deep);
        self.age.lemma_widen(r.age, img, lo, hi, wide_lo, wide_hi, deep);
    }

    fn mem_type_of() -> (t: MemType) {
        MemType::Primitive.max(<String as ToRef>::mem_type_of()).max(<u8 as ToRef>::mem_type_of())
    }

    fn to_size(&self, acc: &mut usize) {
        self.name.to_size(acc);
        self.age.to_size(acc);
    }

    fn checked_size(&self, acc: usize) -> (sum: Option<usize>) {
        let sum0 = acc;
        let sum1 = match self.name.checked_size(sum0) {
            Some(next) => next,
            None => {
                return None;
            },
        };
        let sum2 = match self.age.checked_size(sum1) {
            Some(next) => next,
            None => {
                return None;
            },
        };
        Some(sum2)
    }

    fn to_ref(&self, writer: &mut Writer) -> (r: DemoUserRef) {
        let ghost base = writer.base() as int;
        let ghost w0 = *writer;
        proof {
            writer.lemma_bounds();
            lemma_keeps_same(writer.arena(), writer.cursor());
            lemma_max_parts(MemType::Primitive.spec_max(<String as ToRef>::mem_type()), <u8 as ToRef>::mem_type());
            lemma_max_parts(MemType::Primitive, <String as ToRef>::mem_type());
        }
        let f0 = self.name.to_ref(writer);
        let ghost w1 = *writer;
        proof {
            writer.lemma_bounds();
        }
        let f1 = self.age.to_ref(writer);
        let ghost w2 = *writer;
        proof {
            writer.lemma_bounds();
        }
        proof {
            lemma_keeps_trans(w0.arena(), w1.arena(), w2.arena(), w0.cursor(), w1.cursor());
            lemma_view_stays(&self.name, f0, w1, w2, base + w0.cursor(), base + w1.cursor());
            self.name.lemma_widen(f0, w2.image(), base + w0.cursor(), base + w1.cursor(), base + w0.cursor(), base + w2.cursor(), false);
            self.age.lemma_widen(f1, w2.image(), base + w1.cursor(), base + w2.cursor(), base + w0.cursor(), base + w2.cursor(), false);
        }
        DemoUserRef { name: f0, age: f1 }
    }

    fn pinned<M: MemoryRead>(&self, r: &DemoUserRef, mem: &M, out: &mut Vec<Segment>) {
        self.name.pinned(&r.name, mem, out);
        self.age.pinned(&r.age, mem, out);
        assert(pieces_of(out@) =~= pieces_of(old(out)@) + self.pins(*r, mem.image()));
    }
}

impl DeepView for DemoUser {
    type V = (<String as DeepView>::V, <u8 as DeepView>::V);

    open spec fn deep_view(&self) -> (<String as DeepView>::V, <u8 as DeepView>::V) {
        (self.name.deep_view(), self.age.deep_view())
    }
}

impl FromRef for DemoUser {
    open spec fn decoded(r: DemoUserRef, img: Image) -> Option<(<String as DeepView>::V, <u8 as DeepView>::V)> {
        match (<String as FromRef>::decoded(r.name, img), <u8 as FromRef>::decoded(r.age, img)) {
            (Some(v0), Some(v1)) => Some((v0, v1)),
            _ => None,
        }
    }

    proof fn lemma_round_trip(&self, r: DemoUserRef, img: Image, lo: int, hi: int) {
        self.name.lemma_round_trip(r.name, img, lo, hi);
        self.age.lemma_round_trip(r.age, img, lo, hi);
    }

    fn from_ref<M: MemoryRead>(r: &DemoUserRef, mem: &M) -> (o: Option<Self>) {
        let v0 = match <String as FromRef>::from_ref(&r.name, mem) {
            Some(v) => v,
            None => {
                return None;
            },
        };
        let v1 = match <u8 as FromRef>::from_ref(&r.age, mem) {
            Some(v) => v,
            None => {
                return None;
            },
        };
        Some(DemoUser { name: v0, age: v1 })
    }
}

impl Pod for DemoUserRef {
    open spec fn size() -> nat {
        24
    }

    open spec fn encode(self) -> Seq<u8> {
        self.name.encode() + self.age.encode() + padding(7)
    }

    open spec fn decode(bytes: Seq<u8>) -> Self {
        DemoUserRef { name: <StringRef as Pod>::decode(field(bytes, 0, 16)), age: <u8 as Pod>::decode(field(bytes, 16, 1)) }
    }

    proof fn lemma_layout(self) {
        self.name.lemma_layout();
        self.age.lemma_layout();
        assert(field(self.encode(), 0, 16) =~= self.name.encode());
        assert(field(self.encode(), 16, 1) =~= self.age.encode());
    }

    proof fn lemma_size() {
    }

    fn size_of() -> (n: usize) {
        24
    }

    fn to_bytes(&self) -> (b: Vec<u8>) {
        let mut b: Vec<u8> = Vec::new();
        let part0 = self.name.to_bytes();
        append_bytes(&mut b, &part0);
        let part1 = self.age.to_bytes();
        append_bytes(&mut b, &part1);
        append_padding(&mut b, 7);
        assert(b@ =~= self.encode());
        b
    }

    fn from_bytes(b: &Vec<u8>) -> (r: Self) {
        let part0 = take_field(b, 0, 16);
        let part1 = take_field(b, 16, 1);
        DemoUserRef { name: <StringRef as Pod>::from_bytes(&part0), age: <u8 as Pod>::from_bytes(&part1) }
    }
}

/// A request that carries a list of records.
#[derive(Clone, Debug, PartialEq, Eq)]
pub struct DemoComplicatedRequest {
    pub users: Vec<DemoUser>,
}

/// The view of a `DemoComplicatedRequest`.
#[derive(Clone, Copy, Debug, PartialEq, Eq)]
pub struct DemoComplicatedRequestRef {
    pub users: ListRef,
}

impl ToRef for DemoComplicatedRequest {
    type Ref = DemoComplicatedRequestRef;

    open spec fn mem_type() -> MemType {
        MemType::Primitive.spec_max(<Vec<DemoUser> as ToRef>::mem_type())
    }

    open spec fn size(&self) -> nat {
        self.users.size()
    }

    open spec fn views(&self, r: DemoComplicatedRequestRef, img: Image, lo: int, hi: int, deep: bool) -> bool {
        &&& self.users.views(r.users, img, lo, hi, deep)
    }

    open spec fn flat(&self) -> DemoComplicatedRequestRef {
        DemoComplicatedRequestRef { users: self.users.flat() }
    }

    open spec fn pins(&self, r: DemoComplicatedRequestRef, img: Image) -> Seq<Piece> {
        self.users.pins(r.users, img)
    }

    proof fn lemma_flat(&self) {
        lemma_max_parts(MemType::Primitive, <Vec<DemoUser> as ToRef>::mem_type());
        self.users.lemma_flat();
    }

    proof fn lemma_primitive(&self, r: DemoComplicatedRequestRef, img: Image, lo: int, hi: int, deep: bool) {
        lemma_max_parts(MemType::Primitive, <Vec<DemoUser> as ToRef>::mem_type());
        self.users.lemma_primitive(r.users, img, lo, hi, deep);
        if Self::mem_type() == MemType::Primitive {
            assert(self.pins(r, img) =~= Seq::<Piece>::empty());
        }
    }

    proof fn lemma_deepen(&self, r: DemoComplicatedRequestRef, img: Image, other: Image, lo: int, hi: int) {
        self.users.lemma_deepen(r.users, img, other, lo, hi);
    }

    proof fn lemma_frame(&self, r: DemoComplicatedRequestRef, img: Image, other: Image, lo: int, hi: int, deep: bool) {
        self.users.lemma_frame(r.users, img, other, lo, hi, deep);
    }

    proof fn lemma_widen(
        &self,
        r: DemoComplicatedRequestRef,
        img: Image,
        lo: int,
        hi: int,
        wide_lo: int,
        wide_hi: int,
        deep: bool,
    ) {
        self.users.lemma_widen(r.users, img, lo, hi, wide_lo, wide_hi, deep);
    }

    fn mem_type_of() -> (t: MemType) {
        MemType::Primitive.max(<Vec<DemoUser> as ToRef>::mem_type_of())
    }

    fn to_size(&self, acc: &mut usize) {
        self.users.to_size(acc);
    }

    fn checked_size(&self, acc: usize) -> (sum: Option<usize>) {
        let sum0 = acc;
        let sum1 = match self.users.checked_size(sum0) {
            Some(next) => next,
            None => {
                return None;
            },
        };
        Some(sum1)
    }

    fn to_ref(&self, writer: &mut Writer) -> (r: DemoComplicatedRequestRef) {
        let ghost base = writer.base() as int;
        let ghost w0 = *writer;
        proof {
            writer.lemma_bounds();
            lemma_keeps_same(writer.arena(), writer.cursor());
            lemma_max_parts(MemType::Primitive, <Vec<DemoUser> as ToRef>::mem_type());
        }
        let f0 = self.users.to_ref(writer);
        let ghost w1 = *writer;
        proof {
            writer.lemma_bounds();
        }
        proof {
            self.users.lemma_widen(f0, w1.image(), base + w0.cursor(), base + w1.cursor(), base + w0.cursor(), base + w1.cursor(), false);
        }
        DemoComplicatedRequestRef { users: f0 }
    }

    fn pinned<M: MemoryRead>(&self, r: &DemoComplicatedRequestRef, mem: &M, out: &mut Vec<Segment>) {
        self.users.pinned(&r.users, mem, out);
        assert(pieces_of(out@) =~= pieces_of(old(out)@) + self.pins(*r, mem.image()));
    }
}

impl DeepView for DemoComplicatedRequest {
    type V = <Vec<DemoUser> as DeepView>::V;

    open spec fn deep_view(&self) -> <Vec<DemoUser> as DeepView>::V {
        self.users.deep_view()
    }
}

impl FromRef for DemoComplicatedRequest {
    open spec fn decoded(r: DemoComplicatedRequestRef, img: Image) -> Option<<Vec<DemoUser> as DeepView>::V> {
        match <Vec<DemoUser> as FromRef>::decoded(r.users, img) {
            Some(v0) => Some(v0),
            None => None,
        }
    }

    proof fn lemma_round_trip(&self, r: DemoComplicatedRequestRef, img: Image, lo: int, hi: int) {
        self.users.lemma_round_trip(r.users, img, lo, hi);
    }

    fn from_ref<M: MemoryRead>(r: &DemoComplicatedRequestRef, mem: &M) -> (o: Option<Self>) {
        let v0 = match <Vec<DemoUser> as FromRef>::from_ref(&r.users, mem) {
            Some(v) => v,
            None => {
                return None;
            },
        };
        Some(DemoComplicatedRequest { users: v0 })
    }
}

impl Pod for DemoComplicatedRequestRef {
    open spec fn size() -> nat {
        16
    }

    open spec fn encode(self) -> Seq<u8> {
        self.users.encode()
    }

    open spec fn decode(bytes: Seq<u8>) -> Self {
        DemoComplicatedRequestRef { users: <ListRef as Pod>::decode(field(bytes, 0, 16)) }
    }

    proof fn lemma_layout(self) {
        self.users.lemma_layout();
        assert(field(self.encode(), 0, 16) =~= self.users.encode());
    }

    proof fn lemma_size() {
    }

    fn size_of() -> (n: usize) {
        16
    }

    fn to_bytes(&self) -> (b: Vec<u8>) {
        let mut b: Vec<u8> = Vec::new();
        let part0 = self.users.to_bytes();
        append_bytes(&mut b, &part0);
        assert(b@ =~= self.encode());
        b
    }

    fn from_bytes(b: &Vec<u8>) -> (r: Self) {
        let part0 = take_field(b, 0, 16);
        DemoComplicatedRequestRef { users: <ListRef as Pod>::from_bytes(&part0) }
    }
}

/// The answer of the demonstration.
#[derive(Clone, Copy, Debug, PartialEq, Eq)]
pub struct DemoResponse {
    pub pass: bool,
}

/// The view of a `DemoResponse`.
#[derive(Clone, Copy, Debug, PartialEq, Eq)]
pub struct DemoResponseRef {
    pub pass: bool,
}

impl ToRef for DemoResponse {
    type Ref = DemoResponseRef;

    open spec fn mem_type() -> MemType {
        MemType::Primitive.spec_max(<bool as ToRef>::mem_type())
    }

    open spec fn size(&self) -> nat {
        self.pass.size()
    }

    open spec fn views(&self, r: DemoResponseRef, img: Image, lo: int, hi: int, deep: bool) -> bool {
        &&& self.pass.views(r.pass, img, lo, hi, deep)
    }

    open spec fn flat(&self) -> DemoResponseRef {
        DemoResponseRef { pass: self.pass.flat() }
    }

    open spec fn pins(&self, r: DemoResponseRef, img: Image) -> Seq<Piece> {
        self.pass.pins(r.pass, img)
    }

    proof fn lemma_flat(&self) {
        lemma_max_parts(MemType::Primitive, <bool as ToRef>::mem_type());
        self.pass.lemma_flat();
    }

    proof fn lemma_primitive(&self, r: DemoResponseRef, img: Image, lo: int, hi: int, deep: bool) {
        lemma_max_parts(MemType::Primitive, <bool as ToRef>::mem_type());
        self.pass.lemma_primitive(r.pass, img, lo, hi, deep);
        if Self::mem_type() == MemType::Primitive {
            assert(self.pins(r, img) =~= Seq::<Piece>::empty());
        }
    }

    proof fn lemma_deepen(&self, r: DemoResponseRef, img: Image, other: Image, lo: int, hi: int) {
        self.pass.lemma_deepen(r.pass, img, other, lo, hi);
    }

    proof fn lemma_frame(&self, r: DemoResponseRef, img: Image, other: Image, lo: int, hi: int, deep: bool) {
        self.pass.lemma_frame(r.pass, img, other, lo, hi, deep);
    }

    proof fn lemma_widen(
        &self,
        r: DemoResponseRef,
        img: Image,
        lo: int,
        hi: int,
        wide_lo: int,
        wide_hi: int,
        deep: bool,
    ) {
        self.pass.lemma_widen(r.pass, img, lo, hi, wide_lo, wide_hi, deep);
    }

    fn mem_type_of() -> (t: MemType) {
        MemType::Primitive.max(<bool as ToRef>::mem_type_of())
    }

    fn to_size(&self, acc: &mut usize) {
        self.pass.to_size(acc);
    }

    fn checked_size(&self, acc: usize) -> (sum: Option<usize>) {
        let sum0 = acc;
        let sum1 = match self.pass.checked_size(sum0) {
            Some(next) => next,
            None => {
                return None;
            },
        };
        Some(sum1)
    }

    fn to_ref(&self, writer: &mut Writer) -> (r: DemoResponseRef) {
        let ghost base = writer.base() as int;
        let ghost w0 = *writer;
        proof {
            writer.lemma_bounds();
            lemma_keeps_same(writer.arena(), writer.cursor());
            lemma_max_parts(MemType::Primitive, <bool as ToRef>::mem_type());
        }
        let f0 = self.pass.to_ref(writer);
        let ghost w1 = *writer;
        proof {
            writer.lemma_bounds();
        }
        proof {
            self.pass.lemma_widen(f0, w1.image(), base + w0.cursor(), base + w1.cursor(), base + w0.cursor(), base + w1.cursor(), false);
        }
        DemoResponseRef { pass: f0 }
    }

    fn pinned<M: MemoryRead>(&self, r: &DemoResponseRef, mem: &M, out: &mut Vec<Segment>) {
        self.pass.pinned(&r.pass, mem, out);
        assert(pieces_of(out@) =~= pieces_of(old(out)@) + self.pins(*r, mem.image()));
    }
}

impl DeepView for DemoResponse {
    type V = <bool as DeepView>::V;

    open spec fn deep_view(&self) -> <bool as DeepView>::V {
        self.pass.deep_view()
    }
}

impl FromRef for DemoResponse {
    open spec fn decoded(r: DemoResponseRef, img: Image) -> Option<<bool as DeepView>::V> {
        match <bool as FromRef>::decoded(r.pass, img) {
            Some(v0) => Some(v0),
            None => None,
        }
    }

    proof fn lemma_round_trip(&self, r: DemoResponseRef, img: Image, lo: int, hi: int) {
        self.pass.lemma_round_trip(r.pass, img, lo, hi);
    }

    fn from_ref<M: MemoryRead>(r: &DemoResponseRef, mem: &M) -> (o: Option<Self>) {
        let v0 = match <bool as FromRef>::from_ref(&r.pass, mem) {
            Some(v) => v,
            None => {
                return None;
            },
        };
        Some(DemoResponse { pass: v0 })
    }
}

impl Pod for DemoResponseRef {
    open spec fn size() -> nat {
        1
    }

    open spec fn encode(self) -> Seq<u8> {
        self.pass.encode()
    }

    open spec fn decode(bytes: Seq<u8>) -> Self {
        DemoResponseRef { pass: <bool as Pod>::decode(field(bytes, 0, 1)) }
    }

    proof fn lemma_layout(self) {
        self.pass.lemma_layout();
        assert(field(self.encode(), 0, 1) =~= self.pass.encode());
    }

    proof fn lemma_size() {
    }

    fn size_of() -> (n: usize) {
        1
    }

    fn to_bytes(&self) -> (b: Vec<u8>) {
        let mut b: Vec<u8> = Vec::new();
        let part0 = self.pass.to_bytes();
        append_bytes(&mut b, &part0);
        assert(b@ =~= self.encode());
        b
    }

    fn from_bytes(b: &Vec<u8>) -> (r: Self) {
        let part0 = take_field(b, 0, 1);
        DemoResponseRef { pass: <bool as Pod>::from_bytes(&part0) }
    }
}

/// The routines of the demonstration, as the other side implements them.
pub trait DemoCall {
    fn demo_oneway(req: &DemoUser);

    fn demo_check(req: &DemoComplicatedRequest) -> DemoResponse;

    fn demo_check_async(req: &DemoComplicatedRequest) -> DemoResponse;
}

} // verus!
