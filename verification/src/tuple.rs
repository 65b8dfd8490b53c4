//! Tuples: the parameters of a call, seen field by field. Tuples of up to
//! sixteen fields have views; those of up to twelve, the largest that have a
//! deep view, can be read back.

use crate::convert::{lemma_view_stays, FromRef, ToRef};
use crate::mem_type::{lemma_max_parts, MemType};
use crate::memory::{lemma_holds_all_concat, pieces_of, Image, MemoryRead, Piece, Segment};
use crate::writer::{lemma_keeps_same, lemma_keeps_trans, Writer};
use vstd::prelude::*;

verus! {

impl<T1: ToRef> ToRef for (T1,) {
    type Ref = (<T1 as ToRef>::Ref,);

    open spec fn mem_type() -> MemType {
        MemType::Primitive.spec_max(<T1 as ToRef>::mem_type())
    }

    open spec fn size(&self) -> nat {
        self.0.size()
    }

    open spec fn views(&self, r: (<T1 as ToRef>::Ref,), img: Image, lo: int, hi: int, deep: bool) -> bool {
        &&& self.0.views(r.0, img, lo, hi, deep)
    }

    open spec fn flat(&self) -> (<T1 as ToRef>::Ref,) {
        (self.0.flat(),)
    }

    open spec fn pins(&self, r: (<T1 as ToRef>::Ref,), img: Image) -> Seq<Piece> {
        self.0.pins(r.0, img)
    }

    proof fn lemma_flat(&self) {
        lemma_max_parts(MemType::Primitive, <T1 as ToRef>::mem_type());
        self.0.lemma_flat();
    }

    proof fn lemma_primitive(&self, r: (<T1 as ToRef>::Ref,), img: Image, lo: int, hi: int, deep: bool) {
        lemma_max_parts(MemType::Primitive, <T1 as ToRef>::mem_type());
        self.0.lemma_primitive(r.0, img, lo, hi, deep);
        if Self::mem_type() == MemType::Primitive {
            assert(self.pins(r, img) =~= Seq::<Piece>::empty());
        }
    }

    proof fn lemma_deepen(&self, r: (<T1 as ToRef>::Ref,), img: Image, other: Image, lo: int, hi: int) {
        self.0.lemma_deepen(r.0, img, other, lo, hi);
    }

    proof fn lemma_frame(&self, r: (<T1 as ToRef>::Ref,), img: Image, other: Image, lo: int, hi: int, deep: bool) {
        self.0.lemma_frame(r.0, img, other, lo, hi, deep);
    }

    proof fn lemma_widen(
        &self,
        r: (<T1 as ToRef>::Ref,),
        img: Image,
        lo: int,
        hi: int,
        wide_lo: int,
        wide_hi: int,
        deep: bool,
    ) {
        self.0.lemma_widen(r.0, img, lo, hi, wide_lo, wide_hi, deep);
    }

    fn mem_type_of() -> (t: MemType) {
        MemType::Primitive.max(<T1 as ToRef>::mem_type_of())
    }

    fn to_size(&self, acc: &mut usize) {
        self.0.to_size(acc);
    }

    fn checked_size(&self, acc: usize) -> (sum: Option<usize>) {
        let sum0 = acc;
        let sum1 = match self.0.checked_size(sum0) {
            Some(next) => next,
            None => {
                return None;
            },
        };
        Some(sum1)
    }

    fn to_ref(&self, writer: &mut Writer) -> (r: (<T1 as ToRef>::Ref,)) {
        let ghost base = writer.base() as int;
        let ghost w0 = *writer;
        proof {
            writer.lemma_bounds();
            lemma_keeps_same(writer.arena(), writer.cursor());
            lemma_max_parts(MemType::Primitive, <T1 as ToRef>::mem_type());
        }
        let f0 = self.0.to_ref(writer);
        let ghost w1 = *writer;
        proof {
            writer.lemma_bounds();
        }
        proof {
            self.0.lemma_widen(f0, w1.image(), base + w0.cursor(), base + w1.cursor(), base + w0.cursor(), base + w1.cursor(), false);
        }
        (f0,)
    }

    fn pinned<M: MemoryRead>(&self, r: &(<T1 as ToRef>::Ref,), mem: &M, out: &mut Vec<Segment>) {
        self.0.pinned(&r.0, mem, out);
        assert(pieces_of(out@) =~= pieces_of(old(out)@) + self.pins(*r, mem.image()));
    }
}

impl<T1: FromRef> FromRef for (T1,) {
    open spec fn decoded(r: (<T1 as ToRef>::Ref,), img: Image) -> Option<(<T1 as DeepView>::V,)> {
        match <T1 as FromRef>::decoded(r.0, img) {
            Some(v0) => Some((v0,)),
            None => None,
        }
    }

    proof fn lemma_round_trip(&self, r: (<T1 as ToRef>::Ref,), img: Image, lo: int, hi: int) {
        self.0.lemma_round_trip(r.0, img, lo, hi);
    }

    fn from_ref<M: MemoryRead>(r: &(<T1 as ToRef>::Ref,), mem: &M) -> (o: Option<Self>) {
        let v0 = match <T1 as FromRef>::from_ref(&r.0, mem) {
            Some(v) => v,
            None => {
                return None;
            },
        };
        Some((v0,))
    }
}

impl<T1: ToRef, T2: ToRef> ToRef for (T1, T2) {
    type Ref = (<T1 as ToRef>::Ref, <T2 as ToRef>::Ref);

    open spec fn mem_type() -> MemType {
        MemType::Primitive.spec_max(<T1 as ToRef>::mem_type()).spec_max(<T2 as ToRef>::mem_type())
    }

    open spec fn size(&self) -> nat {
        self.0.size() + self.1.size()
    }

    open spec fn views(&self, r: (<T1 as ToRef>::Ref, <T2 as ToRef>::Ref), img: Image, lo: int, hi: int, deep: bool) -> bool {
        &&& self.0.views(r.0, img, lo, hi, deep)
        &&& self.1.views(r.1, img, lo, hi, deep)
    }

    open spec fn flat(&self) -> (<T1 as ToRef>::Ref, <T2 as ToRef>::Ref) {
        (self.0.flat(), self.1.flat())
    }

    open spec fn pins(&self, r: (<T1 as ToRef>::Ref, <T2 as ToRef>::Ref), img: Image) -> Seq<Piece> {
        self.0.pins(r.0, img) + self.1.pins(r.1, img)
    }

    proof fn lemma_flat(&self) {
        lemma_max_parts(MemType::Primitive.spec_max(<T1 as ToRef>::mem_type()), <T2 as ToRef>::mem_type());
        lemma_max_parts(MemType::Primitive, <T1 as ToRef>::mem_type());
        self.0.lemma_flat();
        self.1.lemma_flat();
    }

    proof fn lemma_primitive(&self, r: (<T1 as ToRef>::Ref, <T2 as ToRef>::Ref), img: Image, lo: int, hi: int, deep: bool) {
        lemma_max_parts(MemType::Primitive.spec_max(<T1 as ToRef>::mem_type()), <T2 as ToRef>::mem_type());
        lemma_max_parts(MemType::Primitive, <T1 as ToRef>::mem_type());
        self.0.lemma_primitive(r.0, img, lo, hi, deep);
        self.1.lemma_primitive(r.1, img, lo, hi, deep);
        if Self::mem_type() == MemType::Primitive {
            assert(self.pins(r, img) =~= Seq::<Piece>::empty());
        }
    }

    proof fn lemma_deepen(&self, r: (<T1 as ToRef>::Ref, <T2 as ToRef>::Ref), img: Image, other: Image, lo: int, hi: int) {
        lemma_holds_all_concat(other, self.0.pins(r.0, img), self.1.pins(r.1, img));
        self.0.lemma_deepen(r.0, img, other, lo, hi);
        self.1.lemma_deepen(r.1, img, other, lo, hi);
    }

    proof fn lemma_frame(&self, r: (<T1 as ToRef>::Ref, <T2 as ToRef>::Ref), img: Image, other: Image, lo: int, hi: int, deep: bool) {
        self.0.lemma_frame(r.0, img, other, lo, hi, deep);
        self.1.lemma_frame(r.1, img, other, lo, hi, deep);
    }

    proof fn lemma_widen(
        &self,
        r: (<T1 as ToRef>::Ref, <T2 as ToRef>::Ref),
        img: Image,
        lo: int,
        hi: int,
        wide_lo: int,
        wide_hi: int,
        deep: bool,
    ) {
        self.0.lemma_widen(r.0, img, lo, hi, wide_lo, wide_hi, deep);
        self.1.lemma_widen(r.1, img, lo, hi, wide_lo, wide_hi, deep);
    }

    fn mem_type_of() -> (t: MemType) {
        MemType::Primitive.max(<T1 as ToRef>::mem_type_of()).max(<T2 as ToRef>::mem_type_of())
    }

    fn to_size(&self, acc: &mut usize) {
        self.0.to_size(acc);
        self.1.to_size(acc);
    }

    fn checked_size(&self, acc: usize) -> (sum: Option<usize>) {
        let sum0 = acc;
        let sum1 = match self.0.checked_size(sum0) {
            Some(next) => next,
            None => {
                return None;
            },
        };
        let sum2 = match self.1.checked_size(sum1) {
            Some(next) => next,
            None => {
                return None;
            },
        };
        Some(sum2)
    }

    fn to_ref(&self, writer: &mut Writer) -> (r: (<T1 as ToRef>::Ref, <T2 as ToRef>::Ref)) {
        let ghost base = writer.base() as int;
        let ghost w0 = *writer;
        proof {
            writer.lemma_bounds();
            lemma_keeps_same(writer.arena(), writer.cursor());
            lemma_max_parts(MemType::Primitive.spec_max(<T1 as ToRef>::mem_type()), <T2 as ToRef>::mem_type());
            lemma_max_parts(MemType::Primitive, <T1 as ToRef>::mem_type());
        }
        let f0 = self.0.to_ref(writer);
        let ghost w1 = *writer;
        proof {
            writer.lemma_bounds();
        }
        let f1 = self.1.to_ref(writer);
        let ghost w2 = *writer;
        proof {
            writer.lemma_bounds();
        }
        proof {
            lemma_keeps_trans(w0.arena(), w1.arena(), w2.arena(), w0.cursor(), w1.cursor());
            lemma_view_stays(&self.0, f0, w1, w2, base + w0.cursor(), base + w1.cursor());
            self.0.lemma_widen(f0, w2.image(), base + w0.cursor(), base + w1.cursor(), base + w0.cursor(), base + w2.cursor(), false);
            self.1.lemma_widen(f1, w2.image(), base + w1.cursor(), base + w2.cursor(), base + w0.cursor(), base + w2.cursor(), false);
        }
        (f0, f1)
    }

    fn pinned<M: MemoryRead>(&self, r: &(<T1 as ToRef>::Ref, <T2 as ToRef>::Ref), mem: &M, out: &mut Vec<Segment>) {
        self.0.pinned(&r.0, mem, out);
        self.1.pinned(&r.1, mem, out);
        assert(pieces_of(out@) =~= pieces_of(old(out)@) + self.pins(*r, mem.image()));
    }
}

impl<T1: FromRef, T2: FromRef> FromRef for (T1, T2) {
    open spec fn decoded(r: (<T1 as ToRef>::Ref, <T2 as ToRef>::Ref), img: Image) -> Option<(<T1 as DeepView>::V, <T2 as DeepView>::V)> {
        match (<T1 as FromRef>::decoded(r.0, img), <T2 as FromRef>::decoded(r.1, img)) {
            (Some(v0), Some(v1)) => Some((v0, v1)),
            _ => None,
        }
    }

    proof fn lemma_round_trip(&self, r: (<T1 as ToRef>::Ref, <T2 as ToRef>::Ref), img: Image, lo: int, hi: int) {
        self.0.lemma_round_trip(r.0, img, lo, hi);
        self.1.lemma_round_trip(r.1, img, lo, hi);
    }

    fn from_ref<M: MemoryRead>(r: &(<T1 as ToRef>::Ref, <T2 as ToRef>::Ref), mem: &M) -> (o: Option<Self>) {
        let v0 = match <T1 as FromRef>::from_ref(&r.0, mem) {
            Some(v) => v,
            None => {
                return None;
            },
        };
        let v1 = match <T2 as FromRef>::from_ref(&r.1, mem) {
            Some(v) => v,
            None => {
                return None;
            },
        };
        Some((v0, v1))
    }
}

impl<T1: ToRef, T2: ToRef, T3: ToRef> ToRef for (T1, T2, T3) {
    type Ref = (<T1 as ToRef>::Ref, <T2 as ToRef>::Ref, <T3 as ToRef>::Ref);

    open spec fn mem_type() -> MemType {
        MemType::Primitive.spec_max(<T1 as ToRef>::mem_type()).spec_max(<T2 as ToRef>::mem_type()).spec_max(<T3 as ToRef>::mem_type())
    }

    open spec fn size(&self) -> nat {
        self.0.size() + self.1.size() + self.2.size()
    }

    open spec fn views(&self, r: (<T1 as ToRef>::Ref, <T2 as ToRef>::Ref, <T3 as ToRef>::Ref), img: Image, lo: int, hi: int, deep: bool) -> bool {
        &&& self.0.views(r.0, img, lo, hi, deep)
        &&& self.1.views(r.1, img, lo, hi, deep)
        &&& self.2.views(r.2, img, lo, hi, deep)
    }

    open spec fn flat(&self) -> (<T1 as ToRef>::Ref, <T2 as ToRef>::Ref, <T3 as ToRef>::Ref) {
        (self.0.flat(), self.1.flat(), self.2.flat())
    }

    open spec fn pins(&self, r: (<T1 as ToRef>::Ref, <T2 as ToRef>::Ref, <T3 as ToRef>::Ref), img: Image) -> Seq<Piece> {
        self.0.pins(r.0, img) + self.1.pins(r.1, img) + self.2.pins(r.2, img)
    }

    proof fn lemma_flat(&self) {
        lemma_max_parts(MemType::Primitive.spec_max(<T1 as ToRef>::mem_type()).spec_max(<T2 as ToRef>::mem_type()), <T3 as ToRef>::mem_type());
        lemma_max_parts(MemType::Primitive.spec_max(<T1 as ToRef>::mem_type()), <T2 as ToRef>::mem_type());
        lemma_max_parts(MemType::Primitive, <T1 as ToRef>::mem_type());
        self.0.lemma_flat();
        self.1.lemma_flat();
        self.2.lemma_flat();
    }

    proof fn lemma_primitive(&self, r: (<T1 as ToRef>::Ref, <T2 as ToRef>::Ref, <T3 as ToRef>::Ref), img: Image, lo: int, hi: int, deep: bool) {
        lemma_max_parts(MemType::Primitive.spec_max(<T1 as ToRef>::mem_type()).spec_max(<T2 as ToRef>::mem_type()), <T3 as ToRef>::mem_type());
        lemma_max_parts(MemType::Primitive.spec_max(<T1 as ToRef>::mem_type()), <T2 as ToRef>::mem_type());
        lemma_max_parts(MemType::Primitive, <T1 as ToRef>::mem_type());
        self.0.lemma_primitive(r.0, img, lo, hi, deep);
        self.1.lemma_primitive(r.1, img, lo, hi, deep);
        self.2.lemma_primitive(r.2, img, lo, hi, deep);
        if Self::mem_type() == MemType::Primitive {
            assert(self.pins(r, img) =~= Seq::<Piece>::empty());
        }
    }

    proof fn lemma_deepen(&self, r: (<T1 as ToRef>::Ref, <T2 as ToRef>::Ref, <T3 as ToRef>::Ref), img: Image, other: Image, lo: int, hi: int) {
        lemma_holds_all_concat(other, self.0.pins(r.0, img) + self.1.pins(r.1, img), self.2.pins(r.2, img));
        lemma_holds_all_concat(other, self.0.pins(r.0, img), self.1.pins(r.1, img));
        self.0.lemma_deepen(r.0, img, other, lo, hi);
        self.1.lemma_deepen(r.1, img, other, lo, hi);
        self.2.lemma_deepen(r.2, img, other, lo, hi);
    }

    proof fn lemma_frame(&self, r: (<T1 as ToRef>::Ref, <T2 as ToRef>::Ref, <T3 as ToRef>::Ref), img: Image, other: Image, lo: int, hi: int, deep: bool) {
        self.0.lemma_frame(r.0, img, other, lo, hi, deep);
        self.1.lemma_frame(r.1, img, other, lo, hi, deep);
        self.2.lemma_frame(r.2, img, other, lo, hi, deep);
    }

    proof fn lemma_widen(
        &self,
        r: (<T1 as ToRef>::Ref, <T2 as ToRef>::Ref, <T3 as ToRef>::Ref),
        img: Image,
        lo: int,
        hi: int,
        wide_lo: int,
        wide_hi: int,
        deep: bool,
    ) {
        self.0.lemma_widen(r.0, img, lo, hi, wide_lo, wide_hi, deep);
        self.1.lemma_widen(r.1, img, lo, hi, wide_lo, wide_hi, deep);
        self.2.lemma_widen(r.2, img, lo, hi, wide_lo, wide_hi, deep);
    }

    fn mem_type_of() -> (t: MemType) {
        MemType::Primitive.max(<T1 as ToRef>::mem_type_of()).max(<T2 as ToRef>::mem_type_of()).max(<T3 as ToRef>::mem_type_of())
    }

    fn to_size(&self, acc: &mut usize) {
        self.0.to_size(acc);
        self.1.to_size(acc);
        self.2.to_size(acc);
    }

    fn checked_size(&self, acc: usize) -> (sum: Option<usize>) {
        let sum0 = acc;
        let sum1 = match self.0.checked_size(sum0) {
            Some(next) => next,
            None => {
                return None;
            },
        };
        let sum2 = match self.1.checked_size(sum1) {
            Some(next) => next,
            None => {
                return None;
            },
        };
        let sum3 = match self.2.checked_size(sum2) {
            Some(next) => next,
            None => {
                return None;
            },
        };
        Some(sum3)
    }

    fn to_ref(&self, writer: &mut Writer) -> (r: (<T1 as ToRef>::Ref, <T2 as ToRef>::Ref, <T3 as ToRef>::Ref)) {
        let ghost base = writer.base() as int;
        let ghost w0 = *writer;
        proof {
            writer.lemma_bounds();
            lemma_keeps_same(writer.arena(), writer.cursor());
            lemma_max_parts(MemType::Primitive.spec_max(<T1 as ToRef>::mem_type()).spec_max(<T2 as ToRef>::mem_type()), <T3 as ToRef>::mem_type());
            lemma_max_parts(MemType::Primitive.spec_max(<T1 as ToRef>::mem_type()), <T2 as ToRef>::mem_type());
            lemma_max_parts(MemType::Primitive, <T1 as ToRef>::mem_type());
        }
        let f0 = self.0.to_ref(writer);
        let ghost w1 = *writer;
        proof {
            writer.lemma_bounds();
        }
        let f1 = self.1.to_ref(writer);
        let ghost w2 = *writer;
        proof {
            writer.lemma_bounds();
        }
        let f2 = self.2.to_ref(writer);
        let ghost w3 = *writer;
        proof {
            writer.lemma_bounds();
        }
        proof {
            lemma_keeps_trans(w1.arena(), w2.arena(), w3.arena(), w1.cursor(), w2.cursor());
            lemma_keeps_trans(w0.arena(), w1.arena(), w3.arena(), w0.cursor(), w1.cursor());
            lemma_view_stays(&self.0, f0, w1, w3, base + w0.cursor(), base + w1.cursor());
            lemma_view_stays(&self.1, f1, w2, w3, base + w1.cursor(), base + w2.cursor());
            self.0.lemma_widen(f0, w3.image(), base + w0.cursor(), base + w1.cursor(), base + w0.cursor(), base + w3.cursor(), false);
            self.1.lemma_widen(f1, w3.image(), base + w1.cursor(), base + w2.cursor(), base + w0.cursor(), base + w3.cursor(), false);
            self.2.lemma_widen(f2, w3.image(), base + w2.cursor(), base + w3.cursor(), base + w0.cursor(), base + w3.cursor(), false);
        }
        (f0, f1, f2)
    }

    fn pinned<M: MemoryRead>(&self, r: &(<T1 as ToRef>::Ref, <T2 as ToRef>::Ref, <T3 as ToRef>::Ref), mem: &M, out: &mut Vec<Segment>) {
        self.0.pinned(&r.0, mem, out);
        self.1.pinned(&r.1, mem, out);
        self.2.pinned(&r.2, mem, out);
        assert(pieces_of(out@) =~= pieces_of(old(out)@) + self.pins(*r, mem.image()));
    }
}

impl<T1: FromRef, T2: FromRef, T3: FromRef> FromRef for (T1, T2, T3) {
    open spec fn decoded(r: (<T1 as ToRef>::Ref, <T2 as ToRef>::Ref, <T3 as ToRef>::Ref), img: Image) -> Option<(<T1 as DeepView>::V, <T2 as DeepView>::V, <T3 as DeepView>::V)> {
        match (<T1 as FromRef>::decoded(r.0, img), <T2 as FromRef>::decoded(r.1, img), <T3 as FromRef>::decoded(r.2, img)) {
            (Some(v0), Some(v1), Some(v2)) => Some((v0, v1, v2)),
            _ => None,
        }
    }

    proof fn lemma_round_trip(&self, r: (<T1 as ToRef>::Ref, <T2 as ToRef>::Ref, <T3 as ToRef>::Ref), img: Image, lo: int, hi: int) {
        self.0.lemma_round_trip(r.0, img, lo, hi);
        self.1.lemma_round_trip(r.1, img, lo, hi);
        self.2.lemma_round_trip(r.2, img, lo, hi);
    }

    fn from_ref<M: MemoryRead>(r: &(<T1 as ToRef>::Ref, <T2 as ToRef>::Ref, <T3 as ToRef>::Ref), mem: &M) -> (o: Option<Self>) {
        let v0 = match <T1 as FromRef>::from_ref(&r.0, mem) {
            Some(v) => v,
            None => {
                return None;
            },
        };
        let v1 = match <T2 as FromRef>::from_ref(&r.1, mem) {
            Some(v) => v,
            None => {
                return None;
            },
        };
        let v2 = match <T3 as FromRef>::from_ref(&r.2, mem) {
            Some(v) => v,
            None => {
                return None;
            },
        };
        Some((v0, v1, v2))
    }
}

impl<T1: ToRef, T2: ToRef, T3: ToRef, T4: ToRef> ToRef for (T1, T2, T3, T4) {
    type Ref = (<T1 as ToRef>::Ref, <T2 as ToRef>::Ref, <T3 as ToRef>::Ref, <T4 as ToRef>::Ref);

    open spec fn mem_type() -> MemType {
        MemType::Primitive.spec_max(<T1 as ToRef>::mem_type()).spec_max(<T2 as ToRef>::mem_type()).spec_max(<T3 as ToRef>::mem_type()).spec_max(<T4 as ToRef>::mem_type())
    }

    open spec fn size(&self) -> nat {
        self.0.size() + self.1.size() + self.2.size() + self.3.size()
    }

    open spec fn views(&self, r: (<T1 as ToRef>::Ref, <T2 as ToRef>::Ref, <T3 as ToRef>::Ref, <T4 as ToRef>::Ref), img: Image, lo: int, hi: int, deep: bool) -> bool {
        &&& self.0.views(r.0, img, lo, hi, deep)
        &&& self.1.views(r.1, img, lo, hi, deep)
        &&& self.2.views(r.2, img, lo, hi, deep)
        &&& self.3.views(r.3, img, lo, hi, deep)
    }

    open spec fn flat(&self) -> (<T1 as ToRef>::Ref, <T2 as ToRef>::Ref, <T3 as ToRef>::Ref, <T4 as ToRef>::Ref) {
        (self.0.flat(), self.1.flat(), self.2.flat(), self.3.flat())
    }

    open spec fn pins(&self, r: (<T1 as ToRef>::Ref, <T2 as ToRef>::Ref, <T3 as ToRef>::Ref, <T4 as ToRef>::Ref), img: Image) -> Seq<Piece> {
        self.0.pins(r.0, img) + self.1.pins(r.1, img) + self.2.pins(r.2, img) + self.3.pins(r.3, img)
    }

    proof fn lemma_flat(&self) {
        lemma_max_parts(MemType::Primitive.spec_max(<T1 as ToRef>::mem_type()).spec_max(<T2 as ToRef>::mem_type()).spec_max(<T3 as ToRef>::mem_type()), <T4 as ToRef>::mem_type());
        lemma_max_parts(MemType::Primitive.spec_max(<T1 as ToRef>::mem_type()).spec_max(<T2 as ToRef>::mem_type()), <T3 as ToRef>::mem_type());
        lemma_max_parts(MemType::Primitive.spec_max(<T1 as ToRef>::mem_type()), <T2 as ToRef>::mem_type());
        lemma_max_parts(MemType::Primitive, <T1 as ToRef>::mem_type());
        self.0.lemma_flat();
        self.1.lemma_flat();
        self.2.lemma_flat();
        self.3.lemma_flat();
    }

    proof fn lemma_primitive(&self, r: (<T1 as ToRef>::Ref, <T2 as ToRef>::Ref, <T3 as ToRef>::Ref, <T4 as ToRef>::Ref), img: Image, lo: int, hi: int, deep: bool) {
        lemma_max_parts(MemType::Primitive.spec_max(<T1 as ToRef>::mem_type()).spec_max(<T2 as ToRef>::mem_type()).spec_max(<T3 as ToRef>::mem_type()), <T4 as ToRef>::mem_type());
        lemma_max_parts(MemType::Primitive.spec_max(<T1 as ToRef>::mem_type()).spec_max(<T2 as ToRef>::mem_type()), <T3 as ToRef>::mem_type());
        lemma_max_parts(MemType::Primitive.spec_max(<T1 as ToRef>::mem_type()), <T2 as ToRef>::mem_type());
        lemma_max_parts(MemType::Primitive, <T1 as ToRef>::mem_type());
        self.0.lemma_primitive(r.0, img, lo, hi, deep);
        self.1.lemma_primitive(r.1, img, lo, hi, deep);
        self.2.lemma_primitive(r.2, img, lo, hi, deep);
        self.3.lemma_primitive(r.3, img, lo, hi, deep);
        if Self::mem_type() == MemType::Primitive {
            assert(self.pins(r, img) =~= Seq::<Piece>::empty());
        }
    }

    proof fn lemma_deepen(&self, r: (<T1 as ToRef>::Ref, <T2 as ToRef>::Ref, <T3 as ToRef>::Ref, <T4 as ToRef>::Ref), img: Image, other: Image, lo: int, hi: int) {
        lemma_holds_all_concat(other, self.0.pins(r.0, img) + self.1.pins(r.1, img) + self.2.pins(r.2, img), self.3.pins(r.3, img));
        lemma_holds_all_concat(other, self.0.pins(r.0, img) + self.1.pins(r.1, img), self.2.pins(r.2, img));
        lemma_holds_all_concat(other, self.0.pins(r.0, img), self.1.pins(r.1, img));
        self.0.lemma_deepen(r.0, img, other, lo, hi);
        self.1.lemma_deepen(r.1, img, other, lo, hi);
        self.2.lemma_deepen(r.2, img, other, lo, hi);
        self.3.lemma_deepen(r.3, img, other, lo, hi);
    }

    proof fn lemma_frame(&self, r: (<T1 as ToRef>::Ref, <T2 as ToRef>::Ref, <T3 as ToRef>::Ref, <T4 as ToRef>::Ref), img: Image, other: Image, lo: int, hi: int, deep: bool) {
        self.0.lemma_frame(r.0, img, other, lo, hi, deep);
        self.1.lemma_frame(r.1, img, other, lo, hi, deep);
        self.2.lemma_frame(r.2, img, other, lo, hi, deep);
        self.3.lemma_frame(r.3, img, other, lo, hi, deep);
    }

    proof fn lemma_widen(
        &self,
        r: (<T1 as ToRef>::Ref, <T2 as ToRef>::Ref, <T3 as ToRef>::Ref, <T4 as ToRef>::Ref),
        img: Image,
        lo: int,
        hi: int,
        wide_lo: int,
        wide_hi: int,
        deep: bool,
    ) {
        self.0.lemma_widen(r.0, img, lo, hi, wide_lo, wide_hi, deep);
        self.1.lemma_widen(r.1, img, lo, hi, wide_lo, wide_hi, deep);
        self.2.lemma_widen(r.2, img, lo, hi, wide_lo, wide_hi, deep);
        self.3.lemma_widen(r.3, img, lo, hi, wide_lo, wide_hi, deep);
    }

    fn mem_type_of() -> (t: MemType) {
        MemType::Primitive.max(<T1 as ToRef>::mem_type_of()).max(<T2 as ToRef>::mem_type_of()).max(<T3 as ToRef>::mem_type_of()).max(<T4 as ToRef>::mem_type_of())
    }

    fn to_size(&self, acc: &mut usize) {
        self.0.to_size(acc);
        self.1.to_size(acc);
        self.2.to_size(acc);
        self.3.to_size(acc);
    }

    fn checked_size(&self, acc: usize) -> (sum: Option<usize>) {
        let sum0 = acc;
        let sum1 = match self.0.checked_size(sum0) {
            Some(next) => next,
            None => {
                return None;
            },
        };
        let sum2 = match self.1.checked_size(sum1) {
            Some(next) => next,
            None => {
                return None;
            },
        };
        let sum3 = match self.2.checked_size(sum2) {
            Some(next) => next,
            None => {
                return None;
            },
        };
        let sum4 = match self.3.checked_size(sum3) {
            Some(next) => next,
            None => {
                return None;
            },
        };
        Some(sum4)
    }

    fn to_ref(&self, writer: &mut Writer) -> (r: (<T1 as ToRef>::Ref, <T2 as ToRef>::Ref, <T3 as ToRef>::Ref, <T4 as ToRef>::Ref)) {
        let ghost base = writer.base() as int;
        let ghost w0 = *writer;
        proof {
            writer.lemma_bounds();
            lemma_keeps_same(writer.arena(), writer.cursor());
            lemma_max_parts(MemType::Primitive.spec_max(<T1 as ToRef>::mem_type()).spec_max(<T2 as ToRef>::mem_type()).spec_max(<T3 as ToRef>::mem_type()), <T4 as ToRef>::mem_type());
            lemma_max_parts(MemType::Primitive.spec_max(<T1 as ToRef>::mem_type()).spec_max(<T2 as ToRef>::mem_type()), <T3 as ToRef>::mem_type());
            lemma_max_parts(MemType::Primitive.spec_max(<T1 as ToRef>::mem_type()), <T2 as ToRef>::mem_type());
            lemma_max_parts(MemType::Primitive, <T1 as ToRef>::mem_type());
        }
        let f0 = self.0.to_ref(writer);
        let ghost w1 = *writer;
        proof {
            writer.lemma_bounds();
        }
        let f1 = self.1.to_ref(writer);
        let ghost w2 = *writer;
        proof {
            writer.lemma_bounds();
        }
        let f2 = self.2.to_ref(writer);
        let ghost w3 = *writer;
        proof {
            writer.lemma_bounds();
        }
        let f3 = self.3.to_ref(writer);
        let ghost w4 = *writer;
        proof {
            writer.lemma_bounds();
        }
        proof {
            lemma_keeps_trans(w2.arena(), w3.arena(), w4.arena(), w2.cursor(), w3.cursor());
            lemma_keeps_trans(w1.arena(), w2.arena(), w4.arena(), w1.cursor(), w2.cursor());
            lemma_keeps_trans(w0.arena(), w1.arena(), w4.arena(), w0.cursor(), w1.cursor());
            lemma_view_stays(&self.0, f0, w1, w4, base + w0.cursor(), base + w1.cursor());
            lemma_view_stays(&self.1, f1, w2, w4, base + w1.cursor(), base + w2.cursor());
            lemma_view_stays(&self.2, f2, w3, w4, base + w2.cursor(), base + w3.cursor());
            self.0.lemma_widen(f0, w4.image(), base + w0.cursor(), base + w1.cursor(), base + w0.cursor(), base + w4.cursor(), false);
            self.1.lemma_widen(f1, w4.image(), base + w1.cursor(), base + w2.cursor(), base + w0.cursor(), base + w4.cursor(), false);
            self.2.lemma_widen(f2, w4.image(), base + w2.cursor(), base + w3.cursor(), base + w0.cursor(), base + w4.cursor(), false);
            self.3.lemma_widen(f3, w4.image(), base + w3.cursor(), base + w4.cursor(), base + w0.cursor(), base + w4.cursor(), false);
        }
        (f0, f1, f2, f3)
    }

    fn pinned<M: MemoryRead>(&self, r: &(<T1 as ToRef>::Ref, <T2 as ToRef>::Ref, <T3 as ToRef>::Ref, <T4 as ToRef>::Ref), mem: &M, out: &mut Vec<Segment>) {
        self.0.pinned(&r.0, mem, out);
        self.1.pinned(&r.1, mem, out);
        self.2.pinned(&r.2, mem, out);
        self.3.pinned(&r.3, mem, out);
        assert(pieces_of(out@) =~= pieces_of(old(out)@) + self.pins(*r, mem.image()));
    }
}

impl<T1: FromRef, T2: FromRef, T3: FromRef, T4: FromRef> FromRef for (T1, T2, T3, T4) {
    open spec fn decoded(r: (<T1 as ToRef>::Ref, <T2 as ToRef>::Ref, <T3 as ToRef>::Ref, <T4 as ToRef>::Ref), img: Image) -> Option<(<T1 as DeepView>::V, <T2 as DeepView>::V, <T3 as DeepView>::V, <T4 as DeepView>::V)> {
        match (<T1 as FromRef>::decoded(r.0, img), <T2 as FromRef>::decoded(r.1, img), <T3 as FromRef>::decoded(r.2, img), <T4 as FromRef>::decoded(r.3, img)) {
            (Some(v0), Some(v1), Some(v2), Some(v3)) => Some((v0, v1, v2, v3)),
            _ => None,
        }
    }

    proof fn lemma_round_trip(&self, r: (<T1 as ToRef>::Ref, <T2 as ToRef>::Ref, <T3 as ToRef>::Ref, <T4 as ToRef>::Ref), img: Image, lo: int, hi: int) {
        self.0.lemma_round_trip(r.0, img, lo, hi);
        self.1.lemma_round_trip(r.1, img, lo, hi);
        self.2.lemma_round_trip(r.2, img, lo, hi);
        self.3.lemma_round_trip(r.3, img, lo, hi);
    }

    fn from_ref<M: MemoryRead>(r: &(<T1 as ToRef>::Ref, <T2 as ToRef>::Ref, <T3 as ToRef>::Ref, <T4 as ToRef>::Ref), mem: &M) -> (o: Option<Self>) {
        let v0 = match <T1 as FromRef>::from_ref(&r.0, mem) {
            Some(v) => v,
            None => {
                return None;
            },
        };
        let v1 = match <T2 as FromRef>::from_ref(&r.1, mem) {
            Some(v) => v,
            None => {
                return None;
            },
        };
        let v2 = match <T3 as FromRef>::from_ref(&r.2, mem) {
            Some(v) => v,
            None => {
                return None;
            },
        };
        let v3 = match <T4 as FromRef>::from_ref(&r.3, mem) {
            Some(v) => v,
            None => {
                return None;
            },
        };
        Some((v0, v1, v2, v3))
    }
}

impl<T1: ToRef, T2: ToRef, T3: ToRef, T4: ToRef, T5: ToRef> ToRef for (T1, T2, T3, T4, T5) {
    type Ref = (<T1 as ToRef>::Ref, <T2 as ToRef>::Ref, <T3 as ToRef>::Ref, <T4 as ToRef>::Ref, <T5 as ToRef>::Ref);

    open spec fn mem_type() -> MemType {
        MemType::Primitive.spec_max(<T1 as ToRef>::mem_type()).spec_max(<T2 as ToRef>::mem_type()).spec_max(<T3 as ToRef>::mem_type()).spec_max(<T4 as ToRef>::mem_type()).spec_max(<T5 as ToRef>::mem_type())
    }

    open spec fn size(&self) -> nat {
        self.0.size() + self.1.size() + self.2.size() + self.3.size() + self.4.size()
    }

    open spec fn views(&self, r: (<T1 as ToRef>::Ref, <T2 as ToRef>::Ref, <T3 as ToRef>::Ref, <T4 as ToRef>::Ref, <T5 as ToRef>::Ref), img: Image, lo: int, hi: int, deep: bool) -> bool {
        &&& self.0.views(r.0, img, lo, hi, deep)
        &&& self.1.views(r.1, img, lo, hi, deep)
        &&& self.2.views(r.2, img, lo, hi, deep)
        &&& self.3.views(r.3, img, lo, hi, deep)
        &&& self.4.views(r.4, img, lo, hi, deep)
    }

    open spec fn flat(&self) -> (<T1 as ToRef>::Ref, <T2 as ToRef>::Ref, <T3 as ToRef>::Ref, <T4 as ToRef>::Ref, <T5 as ToRef>::Ref) {
        (self.0.flat(), self.1.flat(), self.2.flat(), self.3.flat(), self.4.flat())
    }

    open spec fn pins(&self, r: (<T1 as ToRef>::Ref, <T2 as ToRef>::Ref, <T3 as ToRef>::Ref, <T4 as ToRef>::Ref, <T5 as ToRef>::Ref), img: Image) -> Seq<Piece> {
        self.0.pins(r.0, img) + self.1.pins(r.1, img) + self.2.pins(r.2, img) + self.3.pins(r.3, img) + self.4.pins(r.4, img)
    }

    proof fn lemma_flat(&self) {
        lemma_max_parts(MemType::Primitive.spec_max(<T1 as ToRef>::mem_type()).spec_max(<T2 as ToRef>::mem_type()).spec_max(<T3 as ToRef>::mem_type()).spec_max(<T4 as ToRef>::mem_type()), <T5 as ToRef>::mem_type());
        lemma_max_parts(MemType::Primitive.spec_max(<T1 as ToRef>::mem_type()).spec_max(<T2 as ToRef>::mem_type()).spec_max(<T3 as ToRef>::mem_type()), <T4 as ToRef>::mem_type());
        lemma_max_parts(MemType::Primitive.spec_max(<T1 as ToRef>::mem_type()).spec_max(<T2 as ToRef>::mem_type()), <T3 as ToRef>::mem_type());
        lemma_max_parts(MemType::Primitive.spec_max(<T1 as ToRef>::mem_type()), <T2 as ToRef>::mem_type());
        lemma_max_parts(MemType::Primitive, <T1 as ToRef>::mem_type());
        self.0.lemma_flat();
        self.1.lemma_flat();
        self.2.lemma_flat();
        self.3.lemma_flat();
        self.4.lemma_flat();
    }

    proof fn lemma_primitive(&self, r: (<T1 as ToRef>::Ref, <T2 as ToRef>::Ref, <T3 as ToRef>::Ref, <T4 as ToRef>::Ref, <T5 as ToRef>::Ref), img: Image, lo: int, hi: int, deep: bool) {
        lemma_max_parts(MemType::Primitive.spec_max(<T1 as ToRef>::mem_type()).spec_max(<T2 as ToRef>::mem_type()).spec_max(<T3 as ToRef>::mem_type()).spec_max(<T4 as ToRef>::mem_type()), <T5 as ToRef>::mem_type());
        lemma_max_parts(MemType::Primitive.spec_max(<T1 as ToRef>::mem_type()).spec_max(<T2 as ToRef>::mem_type()).spec_max(<T3 as ToRef>::mem_type()), <T4 as ToRef>::mem_type());
        lemma_max_parts(MemType::Primitive.spec_max(<T1 as ToRef>::mem_type()).spec_max(<T2 as ToRef>::mem_type()), <T3 as ToRef>::mem_type());
        lemma_max_parts(MemType::Primitive.spec_max(<T1 as ToRef>::mem_type()), <T2 as ToRef>::mem_type());
        lemma_max_parts(MemType::Primitive, <T1 as ToRef>::mem_type());
        self.0.lemma_primitive(r.0, img, lo, hi, deep);
        self.1.lemma_primitive(r.1, img, lo, hi, deep);
        self.2.lemma_primitive(r.2, img, lo, hi, deep);
        self.3.lemma_primitive(r.3, img, lo, hi, deep);
        self.4.lemma_primitive(r.4, img, lo, hi, deep);
        if Self::mem_type() == MemType::Primitive {
            assert(self.pins(r, img) =~= Seq::<Piece>::empty());
        }
    }

    proof fn lemma_deepen(&self, r: (<T1 as ToRef>::Ref, <T2 as ToRef>::Ref, <T3 as ToRef>::Ref, <T4 as ToRef>::Ref, <T5 as ToRef>::Ref), img: Image, other: Image, lo: int, hi: int) {
        lemma_holds_all_concat(other, self.0.pins(r.0, img) + self.1.pins(r.1, img) + self.2.pins(r.2, img) + self.3.pins(r.3, img), self.4.pins(r.4, img));
        lemma_holds_all_concat(other, self.0.pins(r.0, img) + self.1.pins(r.1, img) + self.2.pins(r.2, img), self.3.pins(r.3, img));
        lemma_holds_all_concat(other, self.0.pins(r.0, img) + self.1.pins(r.1, img), self.2.pins(r.2, img));
        lemma_holds_all_concat(other, self.0.pins(r.0, img), self.1.pins(r.1, img));
        self.0.lemma_deepen(r.0, img, other, lo, hi);
        self.1.lemma_deepen(r.1, img, other, lo, hi);
        self.2.lemma_deepen(r.2, img, other, lo, hi);
        self.3.lemma_deepen(r.3, img, other, lo, hi);
        self.4.lemma_deepen(r.4, img, other, lo, hi);
    }

    proof fn lemma_frame(&self, r: (<T1 as ToRef>::Ref, <T2 as ToRef>::Ref, <T3 as ToRef>::Ref, <T4 as ToRef>::Ref, <T5 as ToRef>::Ref), img: Image, other: Image, lo: int, hi: int, deep: bool) {
        self.0.lemma_frame(r.0, img, other, lo, hi, deep);
        self.1.lemma_frame(r.1, img, other, lo, hi, deep);
        self.2.lemma_frame(r.2, img, other, lo, hi, deep);
        self.3.lemma_frame(r.3, img, other, lo, hi, deep);
        self.4.lemma_frame(r.4, img, other, lo, hi, deep);
    }

    proof fn lemma_widen(
        &self,
        r: (<T1 as ToRef>::Ref, <T2 as ToRef>::Ref, <T3 as ToRef>::Ref, <T4 as ToRef>::Ref, <T5 as ToRef>::Ref),
        img: Image,
        lo: int,
        hi: int,
        wide_lo: int,
        wide_hi: int,
        deep: bool,
    ) {
        self.0.lemma_widen(r.0, img, lo, hi, wide_lo, wide_hi, deep);
        self.1.lemma_widen(r.1, img, lo, hi, wide_lo, wide_hi, deep);
        self.2.lemma_widen(r.2, img, lo, hi, wide_lo, wide_hi, deep);
        self.3.lemma_widen(r.3, img, lo, hi, wide_lo, wide_hi, deep);
        self.4.lemma_widen(r.4, img, lo, hi, wide_lo, wide_hi, deep);
    }

    fn mem_type_of() -> (t: MemType) {
        MemType::Primitive.max(<T1 as ToRef>::mem_type_of()).max(<T2 as ToRef>::mem_type_of()).max(<T3 as ToRef>::mem_type_of()).max(<T4 as ToRef>::mem_type_of()).max(<T5 as ToRef>::mem_type_of())
    }

    fn to_size(&self, acc: &mut usize) {
        self.0.to_size(acc);
        self.1.to_size(acc);
        self.2.to_size(acc);
        self.3.to_size(acc);
        self.4.to_size(acc);
    }

    fn checked_size(&self, acc: usize) -> (sum: Option<usize>) {
        let sum0 = acc;
        let sum1 = match self.0.checked_size(sum0) {
            Some(next) => next,
            None => {
                return None;
            },
        };
        let sum2 = match self.1.checked_size(sum1) {
            Some(next) => next,
            None => {
                return None;
            },
        };
        let sum3 = match self.2.checked_size(sum2) {
            Some(next) => next,
            None => {
                return None;
            },
        };
        let sum4 = match self.3.checked_size(sum3) {
            Some(next) => next,
            None => {
                return None;
            },
        };
        let sum5 = match self.4.checked_size(sum4) {
            Some(next) => next,
            None => {
                return None;
            },
        };
        Some(sum5)
    }

    fn to_ref(&self, writer: &mut Writer) -> (r: (<T1 as ToRef>::Ref, <T2 as ToRef>::Ref, <T3 as ToRef>::Ref, <T4 as ToRef>::Ref, <T5 as ToRef>::Ref)) {
        let ghost base = writer.base() as int;
        let ghost w0 = *writer;
        proof {
            writer.lemma_bounds();
            lemma_keeps_same(writer.arena(), writer.cursor());
            lemma_max_parts(MemType::Primitive.spec_max(<T1 as ToRef>::mem_type()).spec_max(<T2 as ToRef>::mem_type()).spec_max(<T3 as ToRef>::mem_type()).spec_max(<T4 as ToRef>::mem_type()), <T5 as ToRef>::mem_type());
            lemma_max_parts(MemType::Primitive.spec_max(<T1 as ToRef>::mem_type()).spec_max(<T2 as ToRef>::mem_type()).spec_max(<T3 as ToRef>::mem_type()), <T4 as ToRef>::mem_type());
            lemma_max_parts(MemType::Primitive.spec_max(<T1 as ToRef>::mem_type()).spec_max(<T2 as ToRef>::mem_type()), <T3 as ToRef>::mem_type());
            lemma_max_parts(MemType::Primitive.spec_max(<T1 as ToRef>::mem_type()), <T2 as ToRef>::mem_type());
            lemma_max_parts(MemType::Primitive, <T1 as ToRef>::mem_type());
        }
        let f0 = self.0.to_ref(writer);
        let ghost w1 = *writer;
        proof {
            writer.lemma_bounds();
        }
        let f1 = self.1.to_ref(writer);
        let ghost w2 = *writer;
        proof {
            writer.lemma_bounds();
        }
        let f2 = self.2.to_ref(writer);
        let ghost w3 = *writer;
        proof {
            writer.lemma_bounds();
        }
        let f3 = self.3.to_ref(writer);
        let ghost w4 = *writer;
        proof {
            writer.lemma_bounds();
        }
        let f4 = self.4.to_ref(writer);
        let ghost w5 = *writer;
        proof {
            writer.lemma_bounds();
        }
        proof {
            lemma_keeps_trans(w3.arena(), w4.arena(), w5.arena(), w3.cursor(), w4.cursor());
            lemma_keeps_trans(w2.arena(), w3.arena(), w5.arena(), w2.cursor(), w3.cursor());
            lemma_keeps_trans(w1.arena(), w2.arena(), w5.arena(), w1.cursor(), w2.cursor());
            lemma_keeps_trans(w0.arena(), w1.arena(), w5.arena(), w0.cursor(), w1.cursor());
            lemma_view_stays(&self.0, f0, w1, w5, base + w0.cursor(), base + w1.cursor());
            lemma_view_stays(&self.1, f1, w2, w5, base + w1.cursor(), base + w2.cursor());
            lemma_view_stays(&self.2, f2, w3, w5, base + w2.cursor(), base + w3.cursor());
            lemma_view_stays(&self.3, f3, w4, w5, base + w3.cursor(), base + w4.cursor());
            self.0.lemma_widen(f0, w5.image(), base + w0.cursor(), base + w1.cursor(), base + w0.cursor(), base + w5.cursor(), false);
            self.1.lemma_widen(f1, w5.image(), base + w1.cursor(), base + w2.cursor(), base + w0.cursor(), base + w5.cursor(), false);
            self.2.lemma_widen(f2, w5.image(), base + w2.cursor(), base + w3.cursor(), base + w0.cursor(), base + w5.cursor(), false);
            self.3.lemma_widen(f3, w5.image(), base + w3.cursor(), base + w4.cursor(), base + w0.cursor(), base + w5.cursor(), false);
            self.4.lemma_widen(f4, w5.image(), base + w4.cursor(), base + w5.cursor(), base + w0.cursor(), base + w5.cursor(), false);
        }
        (f0, f1, f2, f3, f4)
    }

    fn pinned<M: MemoryRead>(&self, r: &(<T1 as ToRef>::Ref, <T2 as ToRef>::Ref, <T3 as ToRef>::Ref, <T4 as ToRef>::Ref, <T5 as ToRef>::Ref), mem: &M, out: &mut Vec<Segment>) {
        self.0.pinned(&r.0, mem, out);
        self.1.pinned(&r.1, mem, out);
        self.2.pinned(&r.2, mem, out);
        self.3.pinned(&r.3, mem, out);
        self.4.pinned(&r.4, mem, out);
        assert(pieces_of(out@) =~= pieces_of(old(out)@) + self.pins(*r, mem.image()));
    }
}

impl<T1: FromRef, T2: FromRef, T3: FromRef, T4: FromRef, T5: FromRef> FromRef for (T1, T2, T3, T4, T5) {
    open spec fn decoded(r: (<T1 as ToRef>::Ref, <T2 as ToRef>::Ref, <T3 as ToRef>::Ref, <T4 as ToRef>::Ref, <T5 as ToRef>::Ref), img: Image) -> Option<(<T1 as DeepView>::V, <T2 as DeepView>::V, <T3 as DeepView>::V, <T4 as DeepView>::V, <T5 as DeepView>::V)> {
        match (<T1 as FromRef>::decoded(r.0, img), <T2 as FromRef>::decoded(r.1, img), <T3 as FromRef>::decoded(r.2, img), <T4 as FromRef>::decoded(r.3, img), <T5 as FromRef>::decoded(r.4, img)) {
            (Some(v0), Some(v1), Some(v2), Some(v3), Some(v4)) => Some((v0, v1, v2, v3, v4)),
            _ => None,
        }
    }

    proof fn lemma_round_trip(&self, r: (<T1 as ToRef>::Ref, <T2 as ToRef>::Ref, <T3 as ToRef>::Ref, <T4 as ToRef>::Ref, <T5 as ToRef>::Ref), img: Image, lo: int, hi: int) {
        self.0.lemma_round_trip(r.0, img, lo, hi);
        self.1.lemma_round_trip(r.1, img, lo, hi);
        self.2.lemma_round_trip(r.2, img, lo, hi);
        self.3.lemma_round_trip(r.3, img, lo, hi);
        self.4.lemma_round_trip(r.4, img, lo, hi);
    }

    fn from_ref<M: MemoryRead>(r: &(<T1 as ToRef>::Ref, <T2 as ToRef>::Ref, <T3 as ToRef>::Ref, <T4 as ToRef>::Ref, <T5 as ToRef>::Ref), mem: &M) -> (o: Option<Self>) {
        let v0 = match <T1 as FromRef>::from_ref(&r.0, mem) {
            Some(v) => v,
            None => {
                return None;
            },
        };
        let v1 = match <T2 as FromRef>::from_ref(&r.1, mem) {
            Some(v) => v,
            None => {
                return None;
            },
        };
        let v2 = match <T3 as FromRef>::from_ref(&r.2, mem) {
            Some(v) => v,
            None => {
                return None;
            },
        };
        let v3 = match <T4 as FromRef>::from_ref(&r.3, mem) {
            Some(v) => v,
            None => {
                return None;
            },
        };
        let v4 = match <T5 as FromRef>::from_ref(&r.4, mem) {
            Some(v) => v,
            None => {
                return None;
            },
        };
        Some((v0, v1, v2, v3, v4))
    }
}

impl<T1: ToRef, T2: ToRef, T3: ToRef, T4: ToRef, T5: ToRef, T6: ToRef> ToRef for (T1, T2, T3, T4, T5, T6) {
    type Ref = (<T1 as ToRef>::Ref, <T2 as ToRef>::Ref, <T3 as ToRef>::Ref, <T4 as ToRef>::Ref, <T5 as ToRef>::Ref, <T6 as ToRef>::Ref);

    open spec fn mem_type() -> MemType {
        MemType::Primitive.spec_max(<T1 as ToRef>::mem_type()).spec_max(<T2 as ToRef>::mem_type()).spec_max(<T3 as ToRef>::mem_type()).spec_max(<T4 as ToRef>::mem_type()).spec_max(<T5 as ToRef>::mem_type()).spec_max(<T6 as ToRef>::mem_type())
    }

    open spec fn size(&self) -> nat {
        self.0.size() + self.1.size() + self.2.size() + self.3.size() + self.4.size() + self.5.size()
    }

    open spec fn views(&self, r: (<T1 as ToRef>::Ref, <T2 as ToRef>::Ref, <T3 as ToRef>::Ref, <T4 as ToRef>::Ref, <T5 as ToRef>::Ref, <T6 as ToRef>::Ref), img: Image, lo: int, hi: int, deep: bool) -> bool {
        &&& self.0.views(r.0, img, lo, hi, deep)
        &&& self.1.views(r.1, img, lo, hi, deep)
        &&& self.2.views(r.2, img, lo, hi, deep)
        &&& self.3.views(r.3, img, lo, hi, deep)
        &&& self.4.views(r.4, img, lo, hi, deep)
        &&& self.5.views(r.5, img, lo, hi, deep)
    }

    open spec fn flat(&self) -> (<T1 as ToRef>::Ref, <T2 as ToRef>::Ref, <T3 as ToRef>::Ref, <T4 as ToRef>::Ref, <T5 as ToRef>::Ref, <T6 as ToRef>::Ref) {
        (self.0.flat(), self.1.flat(), self.2.flat(), self.3.flat(), self.4.flat(), self.5.flat())
    }

    open spec fn pins(&self, r: (<T1 as ToRef>::Ref, <T2 as ToRef>::Ref, <T3 as ToRef>::Ref, <T4 as ToRef>::Ref, <T5 as ToRef>::Ref, <T6 as ToRef>::Ref), img: Image) -> Seq<Piece> {
        self.0.pins(r.0, img) + self.1.pins(r.1, img) + self.2.pins(r.2, img) + self.3.pins(r.3, img) + self.4.pins(r.4, img) + self.5.pins(r.5, img)
    }

    proof fn lemma_flat(&self) {
        lemma_max_parts(MemType::Primitive.spec_max(<T1 as ToRef>::mem_type()).spec_max(<T2 as ToRef>::mem_type()).spec_max(<T3 as ToRef>::mem_type()).spec_max(<T4 as ToRef>::mem_type()).spec_max(<T5 as ToRef>::mem_type()), <T6 as ToRef>::mem_type());
        lemma_max_parts(MemType::Primitive.spec_max(<T1 as ToRef>::mem_type()).spec_max(<T2 as ToRef>::mem_type()).spec_max(<T3 as ToRef>::mem_type()).spec_max(<T4 as ToRef>::mem_type()), <T5 as ToRef>::mem_type());
        lemma_max_parts(MemType::Primitive.spec_max(<T1 as ToRef>::mem_type()).spec_max(<T2 as ToRef>::mem_type()).spec_max(<T3 as ToRef>::mem_type()), <T4 as ToRef>::mem_type());
        lemma_max_parts(MemType::Primitive.spec_max(<T1 as ToRef>::mem_type()).spec_max(<T2 as ToRef>::mem_type()), <T3 as ToRef>::mem_type());
        lemma_max_parts(MemType::Primitive.spec_max(<T1 as ToRef>::mem_type()), <T2 as ToRef>::mem_type());
        lemma_max_parts(MemType::Primitive, <T1 as ToRef>::mem_type());
        self.0.lemma_flat();
        self.1.lemma_flat();
        self.2.lemma_flat();
        self.3.lemma_flat();
        self.4.lemma_flat();
        self.5.lemma_flat();
    }

    proof fn lemma_primitive(&self, r: (<T1 as ToRef>::Ref, <T2 as ToRef>::Ref, <T3 as ToRef>::Ref, <T4 as ToRef>::Ref, <T5 as ToRef>::Ref, <T6 as ToRef>::Ref), img: Image, lo: int, hi: int, deep: bool) {
        lemma_max_parts(MemType::Primitive.spec_max(<T1 as ToRef>::mem_type()).spec_max(<T2 as ToRef>::mem_type()).spec_max(<T3 as ToRef>::mem_type()).spec_max(<T4 as ToRef>::mem_type()).spec_max(<T5 as ToRef>::mem_type()), <T6 as ToRef>::mem_type());
        lemma_max_parts(MemType::Primitive.spec_max(<T1 as ToRef>::mem_type()).spec_max(<T2 as ToRef>::mem_type()).spec_max(<T3 as ToRef>::mem_type()).spec_max(<T4 as ToRef>::mem_type()), <T5 as ToRef>::mem_type());
        lemma_max_parts(MemType::Primitive.spec_max(<T1 as ToRef>::mem_type()).spec_max(<T2 as ToRef>::mem_type()).spec_max(<T3 as ToRef>::mem_type()), <T4 as ToRef>::mem_type());
        lemma_max_parts(MemType::Primitive.spec_max(<T1 as ToRef>::mem_type()).spec_max(<T2 as ToRef>::mem_type()), <T3 as ToRef>::mem_type());
        lemma_max_parts(MemType::Primitive.spec_max(<T1 as ToRef>::mem_type()), <T2 as ToRef>::mem_type());
        lemma_max_parts(MemType::Primitive, <T1 as ToRef>::mem_type());
        self.0.lemma_primitive(r.0, img, lo, hi, deep);
        self.1.lemma_primitive(r.1, img, lo, hi, deep);
        self.2.lemma_primitive(r.2, img, lo, hi, deep);
        self.3.lemma_primitive(r.3, img, lo, hi, deep);
        self.4.lemma_primitive(r.4, img, lo, hi, deep);
        self.5.lemma_primitive(r.5, img, lo, hi, deep);
        if Self::mem_type() == MemType::Primitive {
            assert(self.pins(r, img) =~= Seq::<Piece>::empty());
        }
    }

    proof fn lemma_deepen(&self, r: (<T1 as ToRef>::Ref, <T2 as ToRef>::Ref, <T3 as ToRef>::Ref, <T4 as ToRef>::Ref, <T5 as ToRef>::Ref, <T6 as ToRef>::Ref), img: Image, other: Image, lo: int, hi: int) {
        lemma_holds_all_concat(other, self.0.pins(r.0, img) + self.1.pins(r.1, img) + self.2.pins(r.2, img) + self.3.pins(r.3, img) + self.4.pins(r.4, img), self.5.pins(r.5, img));
        lemma_holds_all_concat(other, self.0.pins(r.0, img) + self.1.pins(r.1, img) + self.2.pins(r.2, img) + self.3.pins(r.3, img), self.4.pins(r.4, img));
        lemma_holds_all_concat(other, self.0.pins(r.0, img) + self.1.pins(r.1, img) + self.2.pins(r.2, img), self.3.pins(r.3, img));
        lemma_holds_all_concat(other, self.0.pins(r.0, img) + self.1.pins(r.1, img), self.2.pins(r.2, img));
        lemma_holds_all_concat(other, self.0.pins(r.0, img), self.1.pins(r.1, img));
        self.0.lemma_deepen(r.0, img, other, lo, hi);
        self.1.lemma_deepen(r.1, img, other, lo, hi);
        self.2.lemma_deepen(r.2, img, other, lo, hi);
        self.3.lemma_deepen(r.3, img, other, lo, hi);
        self.4.lemma_deepen(r.4, img, other, lo, hi);
        self.5.lemma_deepen(r.5, img, other, lo, hi);
    }

    proof fn lemma_frame(&self, r: (<T1 as ToRef>::Ref, <T2 as ToRef>::Ref, <T3 as ToRef>::Ref, <T4 as ToRef>::Ref, <T5 as ToRef>::Ref, <T6 as ToRef>::Ref), img: Image, other: Image, lo: int, hi: int, deep: bool) {
        self.0.lemma_frame(r.0, img, other, lo, hi, deep);
        self.1.lemma_frame(r.1, img, other, lo, hi, deep);
        self.2.lemma_frame(r.2, img, other, lo, hi, deep);
        self.3.lemma_frame(r.3, img, other, lo, hi, deep);
        self.4.lemma_frame(r.4, img, other, lo, hi, deep);
        self.5.lemma_frame(r.5, img, other, lo, hi, deep);
    }

    proof fn lemma_widen(
        &self,
        r: (<T1 as ToRef>::Ref, <T2 as ToRef>::Ref, <T3 as ToRef>::Ref, <T4 as ToRef>::Ref, <T5 as ToRef>::Ref, <T6 as ToRef>::Ref),
        img: Image,
        lo: int,
        hi: int,
        wide_lo: int,
        wide_hi: int,
        deep: bool,
    ) {
        self.0.lemma_widen(r.0, img, lo, hi, wide_lo, wide_hi, deep);
        self.1.lemma_widen(r.1, img, lo, hi, wide_lo, wide_hi, deep);
        self.2.lemma_widen(r.2, img, lo, hi, wide_lo, wide_hi, deep);
        self.3.lemma_widen(r.3, img, lo, hi, wide_lo, wide_hi, deep);
        self.4.lemma_widen(r.4, img, lo, hi, wide_lo, wide_hi, deep);
        self.5.lemma_widen(r.5, img, lo, hi, wide_lo, wide_hi, deep);
    }

    fn mem_type_of() -> (t: MemType) {
        MemType::Primitive.max(<T1 as ToRef>::mem_type_of()).max(<T2 as ToRef>::mem_type_of()).max(<T3 as ToRef>::mem_type_of()).max(<T4 as ToRef>::mem_type_of()).max(<T5 as ToRef>::mem_type_of()).max(<T6 as ToRef>::mem_type_of())
    }

    fn to_size(&self, acc: &mut usize) {
        self.0.to_size(acc);
        self.1.to_size(acc);
        self.2.to_size(acc);
        self.3.to_size(acc);
        self.4.to_size(acc);
        self.5.to_size(acc);
    }

    fn checked_size(&self, acc: usize) -> (sum: Option<usize>) {
        let sum0 = acc;
        let sum1 = match self.0.checked_size(sum0) {
            Some(next) => next,
            None => {
                return None;
            },
        };
        let sum2 = match self.1.checked_size(sum1) {
            Some(next) => next,
            None => {
                return None;
            },
        };
        let sum3 = match self.2.checked_size(sum2) {
            Some(next) => next,
            None => {
                return None;
            },
        };
        let sum4 = match self.3.checked_size(sum3) {
            Some(next) => next,
            None => {
                return None;
            },
        };
        let sum5 = match self.4.checked_size(sum4) {
            Some(next) => next,
            None => {
                return None;
            },
        };
        let sum6 = match self.5.checked_size(sum5) {
            Some(next) => next,
            None => {
                return None;
            },
        };
        Some(sum6)
    }

    fn to_ref(&self, writer: &mut Writer) -> (r: (<T1 as ToRef>::Ref, <T2 as ToRef>::Ref, <T3 as ToRef>::Ref, <T4 as ToRef>::Ref, <T5 as ToRef>::Ref, <T6 as ToRef>::Ref)) {
        let ghost base = writer.base() as int;
        let ghost w0 = *writer;
        proof {
            writer.lemma_bounds();
            lemma_keeps_same(writer.arena(), writer.cursor());
            lemma_max_parts(MemType::Primitive.spec_max(<T1 as ToRef>::mem_type()).spec_max(<T2 as ToRef>::mem_type()).spec_max(<T3 as ToRef>::mem_type()).spec_max(<T4 as ToRef>::mem_type()).spec_max(<T5 as ToRef>::mem_type()), <T6 as ToRef>::mem_type());
            lemma_max_parts(MemType::Primitive.spec_max(<T1 as ToRef>::mem_type()).spec_max(<T2 as ToRef>::mem_type()).spec_max(<T3 as ToRef>::mem_type()).spec_max(<T4 as ToRef>::mem_type()), <T5 as ToRef>::mem_type());
            lemma_max_parts(MemType::Primitive.spec_max(<T1 as ToRef>::mem_type()).spec_max(<T2 as ToRef>::mem_type()).spec_max(<T3 as ToRef>::mem_type()), <T4 as ToRef>::mem_type());
            lemma_max_parts(MemType::Primitive.spec_max(<T1 as ToRef>::mem_type()).spec_max(<T2 as ToRef>::mem_type()), <T3 as ToRef>::mem_type());
            lemma_max_parts(MemType::Primitive.spec_max(<T1 as ToRef>::mem_type()), <T2 as ToRef>::mem_type());
            lemma_max_parts(MemType::Primitive, <T1 as ToRef>::mem_type());
        }
        let f0 = self.0.to_ref(writer);
        let ghost w1 = *writer;
        proof {
            writer.lemma_bounds();
        }
        let f1 = self.1.to_ref(writer);
        let ghost w2 = *writer;
        proof {
            writer.lemma_bounds();
        }
        let f2 = self.2.to_ref(writer);
        let ghost w3 = *writer;
        proof {
            writer.lemma_bounds();
        }
        let f3 = self.3.to_ref(writer);
        let ghost w4 = *writer;
        proof {
            writer.lemma_bounds();
        }
        let f4 = self.4.to_ref(writer);
        let ghost w5 = *writer;
        proof {
            writer.lemma_bounds();
        }
        let f5 = self.5.to_ref(writer);
        let ghost w6 = *writer;
        proof {
            writer.lemma_bounds();
        }
        proof {
            lemma_keeps_trans(w4.arena(), w5.arena(), w6.arena(), w4.cursor(), w5.cursor());
            lemma_keeps_trans(w3.arena(), w4.arena(), w6.arena(), w3.cursor(), w4.cursor());
            lemma_keeps_trans(w2.arena(), w3.arena(), w6.arena(), w2.cursor(), w3.cursor());
            lemma_keeps_trans(w1.arena(), w2.arena(), w6.arena(), w1.cursor(), w2.cursor());
            lemma_keeps_trans(w0.arena(), w1.arena(), w6.arena(), w0.cursor(), w1.cursor());
            lemma_view_stays(&self.0, f0, w1, w6, base + w0.cursor(), base + w1.cursor());
            lemma_view_stays(&self.1, f1, w2, w6, base + w1.cursor(), base + w2.cursor());
            lemma_view_stays(&self.2, f2, w3, w6, base + w2.cursor(), base + w3.cursor());
            lemma_view_stays(&self.3, f3, w4, w6, base + w3.cursor(), base + w4.cursor());
            lemma_view_stays(&self.4, f4, w5, w6, base + w4.cursor(), base + w5.cursor());
            self.0.lemma_widen(f0, w6.image(), base + w0.cursor(), base + w1.cursor(), base + w0.cursor(), base + w6.cursor(), false);
            self.1.lemma_widen(f1, w6.image(), base + w1.cursor(), base + w2.cursor(), base + w0.cursor(), base + w6.cursor(), false);
            self.2.lemma_widen(f2, w6.image(), base + w2.cursor(), base + w3.cursor(), base + w0.cursor(), base + w6.cursor(), false);
            self.3.lemma_widen(f3, w6.image(), base + w3.cursor(), base + w4.cursor(), base + w0.cursor(), base + w6.cursor(), false);
            self.4.lemma_widen(f4, w6.image(), base + w4.cursor(), base + w5.cursor(), base + w0.cursor(), base + w6.cursor(), false);
            self.5.lemma_widen(f5, w6.image(), base + w5.cursor(), base + w6.cursor(), base + w0.cursor(), base + w6.cursor(), false);
        }
        (f0, f1, f2, f3, f4, f5)
    }

    fn pinned<M: MemoryRead>(&self, r: &(<T1 as ToRef>::Ref, <T2 as ToRef>::Ref, <T3 as ToRef>::Ref, <T4 as ToRef>::Ref, <T5 as ToRef>::Ref, <T6 as ToRef>::Ref), mem: &M, out: &mut Vec<Segment>) {
        self.0.pinned(&r.0, mem, out);
        self.1.pinned(&r.1, mem, out);
        self.2.pinned(&r.2, mem, out);
        self.3.pinned(&r.3, mem, out);
        self.4.pinned(&r.4, mem, out);
        self.5.pinned(&r.5, mem, out);
        assert(pieces_of(out@) =~= pieces_of(old(out)@) + self.pins(*r, mem.image()));
    }
}

impl<T1: FromRef, T2: FromRef, T3: FromRef, T4: FromRef, T5: FromRef, T6: FromRef> FromRef for (T1, T2, T3, T4, T5, T6) {
    open spec fn decoded(r: (<T1 as ToRef>::Ref, <T2 as ToRef>::Ref, <T3 as ToRef>::Ref, <T4 as ToRef>::Ref, <T5 as ToRef>::Ref, <T6 as ToRef>::Ref), img: Image) -> Option<(<T1 as DeepView>::V, <T2 as DeepView>::V, <T3 as DeepView>::V, <T4 as DeepView>::V, <T5 as DeepView>::V, <T6 as DeepView>::V)> {
        match (<T1 as FromRef>::decoded(r.0, img), <T2 as FromRef>::decoded(r.1, img), <T3 as FromRef>::decoded(r.2, img), <T4 as FromRef>::decoded(r.3, img), <T5 as FromRef>::decoded(r.4, img), <T6 as FromRef>::decoded(r.5, img)) {
            (Some(v0), Some(v1), Some(v2), Some(v3), Some(v4), Some(v5)) => Some((v0, v1, v2, v3, v4, v5)),
            _ => None,
        }
    }

    proof fn lemma_round_trip(&self, r: (<T1 as ToRef>::Ref, <T2 as ToRef>::Ref, <T3 as ToRef>::Ref, <T4 as ToRef>::Ref, <T5 as ToRef>::Ref, <T6 as ToRef>::Ref), img: Image, lo: int, hi: int) {
        self.0.lemma_round_trip(r.0, img, lo, hi);
        self.1.lemma_round_trip(r.1, img, lo, hi);
        self.2.lemma_round_trip(r.2, img, lo, hi);
        self.3.lemma_round_trip(r.3, img, lo, hi);
        self.4.lemma_round_trip(r.4, img, lo, hi);
        self.5.lemma_round_trip(r.5, img, lo, hi);
    }

    fn from_ref<M: MemoryRead>(r: &(<T1 as ToRef>::Ref, <T2 as ToRef>::Ref, <T3 as ToRef>::Ref, <T4 as ToRef>::Ref, <T5 as ToRef>::Ref, <T6 as ToRef>::Ref), mem: &M) -> (o: Option<Self>) {
        let v0 = match <T1 as FromRef>::from_ref(&r.0, mem) {
            Some(v) => v,
            None => {
                return None;
            },
        };
        let v1 = match <T2 as FromRef>::from_ref(&r.1, mem) {
            Some(v) => v,
            None => {
                return None;
            },
        };
        let v2 = match <T3 as FromRef>::from_ref(&r.2, mem) {
            Some(v) => v,
            None => {
                return None;
            },
        };
        let v3 = match <T4 as FromRef>::from_ref(&r.3, mem) {
            Some(v) => v,
            None => {
                return None;
            },
        };
        let v4 = match <T5 as FromRef>::from_ref(&r.4, mem) {
            Some(v) => v,
            None => {
                return None;
            },
        };
        let v5 = match <T6 as FromRef>::from_ref(&r.5, mem) {
            Some(v) => v,
            None => {
                return None;
            },
        };
        Some((v0, v1, v2, v3, v4, v5))
    }
}

impl<T1: ToRef, T2: ToRef, T3: ToRef, T4: ToRef, T5: ToRef, T6: ToRef, T7: ToRef> ToRef for (T1, T2, T3, T4, T5, T6, T7) {
    type Ref = (<T1 as ToRef>::Ref, <T2 as ToRef>::Ref, <T3 as ToRef>::Ref, <T4 as ToRef>::Ref, <T5 as ToRef>::Ref, <T6 as ToRef>::Ref, <T7 as ToRef>::Ref);

    open spec fn mem_type() -> MemType {
        MemType::Primitive.spec_max(<T1 as ToRef>::mem_type()).spec_max(<T2 as ToRef>::mem_type()).spec_max(<T3 as ToRef>::mem_type()).spec_max(<T4 as ToRef>::mem_type()).spec_max(<T5 as ToRef>::mem_type()).spec_max(<T6 as ToRef>::mem_type()).spec_max(<T7 as ToRef>::mem_type())
    }

    open spec fn size(&self) -> nat {
        self.0.size() + self.1.size() + self.2.size() + self.3.size() + self.4.size() + self.5.size() + self.6.size()
    }

    open spec fn views(&self, r: (<T1 as ToRef>::Ref, <T2 as ToRef>::Ref, <T3 as ToRef>::Ref, <T4 as ToRef>::Ref, <T5 as ToRef>::Ref, <T6 as ToRef>::Ref, <T7 as ToRef>::Ref), img: Image, lo: int, hi: int, deep: bool) -> bool {
        &&& self.0.views(r.0, img, lo, hi, deep)
        &&& self.1.views(r.1, img, lo, hi, deep)
        &&& self.2.views(r.2, img, lo, hi, deep)
        &&& self.3.views(r.3, img, lo, hi, deep)
        &&& self.4.views(r.4, img, lo, hi, deep)
        &&& self.5.views(r.5, img, lo, hi, deep)
        &&& self.6.views(r.6, img, lo, hi, deep)
    }

    open spec fn flat(&self) -> (<T1 as ToRef>::Ref, <T2 as ToRef>::Ref, <T3 as ToRef>::Ref, <T4 as ToRef>::Ref, <T5 as ToRef>::Ref, <T6 as ToRef>::Ref, <T7 as ToRef>::Ref) {
        (self.0.flat(), self.1.flat(), self.2.flat(), self.3.flat(), self.4.flat(), self.5.flat(), self.6.flat())
    }

    open spec fn pins(&self, r: (<T1 as ToRef>::Ref, <T2 as ToRef>::Ref, <T3 as ToRef>::Ref, <T4 as ToRef>::Ref, <T5 as ToRef>::Ref, <T6 as ToRef>::Ref, <T7 as ToRef>::Ref), img: Image) -> Seq<Piece> {
        self.0.pins(r.0, img) + self.1.pins(r.1, img) + self.2.pins(r.2, img) + self.3.pins(r.3, img) + self.4.pins(r.4, img) + self.5.pins(r.5, img) + self.6.pins(r.6, img)
    }

    proof fn lemma_flat(&self) {
        lemma_max_parts(MemType::Primitive.spec_max(<T1 as ToRef>::mem_type()).spec_max(<T2 as ToRef>::mem_type()).spec_max(<T3 as ToRef>::mem_type()).spec_max(<T4 as ToRef>::mem_type()).spec_max(<T5 as ToRef>::mem_type()).spec_max(<T6 as ToRef>::mem_type()), <T7 as ToRef>::mem_type());
        lemma_max_parts(MemType::Primitive.spec_max(<T1 as ToRef>::mem_type()).spec_max(<T2 as ToRef>::mem_type()).spec_max(<T3 as ToRef>::mem_type()).spec_max(<T4 as ToRef>::mem_type()).spec_max(<T5 as ToRef>::mem_type()), <T6 as ToRef>::mem_type());
        lemma_max_parts(MemType::Primitive.spec_max(<T1 as ToRef>::mem_type()).spec_max(<T2 as ToRef>::mem_type()).spec_max(<T3 as ToRef>::mem_type()).spec_max(<T4 as ToRef>::mem_type()), <T5 as ToRef>::mem_type());
        lemma_max_parts(MemType::Primitive.spec_max(<T1 as ToRef>::mem_type()).spec_max(<T2 as ToRef>::mem_type()).spec_max(<T3 as ToRef>::mem_type()), <T4 as ToRef>::mem_type());
        lemma_max_parts(MemType::Primitive.spec_max(<T1 as ToRef>::mem_type()).spec_max(<T2 as ToRef>::mem_type()), <T3 as ToRef>::mem_type());
        lemma_max_parts(MemType::Primitive.spec_max(<T1 as ToRef>::mem_type()), <T2 as ToRef>::mem_type());
        lemma_max_parts(MemType::Primitive, <T1 as ToRef>::mem_type());
        self.0.lemma_flat();
        self.1.lemma_flat();
        self.2.lemma_flat();
        self.3.lemma_flat();
        self.4.lemma_flat();
        self.5.lemma_flat();
        self.6.lemma_flat();
    }

    proof fn lemma_primitive(&self, r: (<T1 as ToRef>::Ref, <T2 as ToRef>::Ref, <T3 as ToRef>::Ref, <T4 as ToRef>::Ref, <T5 as ToRef>::Ref, <T6 as ToRef>::Ref, <T7 as ToRef>::Ref), img: Image, lo: int, hi: int, deep: bool) {
        lemma_max_parts(MemType::Primitive.spec_max(<T1 as ToRef>::mem_type()).spec_max(<T2 as ToRef>::mem_type()).spec_max(<T3 as ToRef>::mem_type()).spec_max(<T4 as ToRef>::mem_type()).spec_max(<T5 as ToRef>::mem_type()).spec_max(<T6 as ToRef>::mem_type()), <T7 as ToRef>::mem_type());
        lemma_max_parts(MemType::Primitive.spec_max(<T1 as ToRef>::mem_type()).spec_max(<T2 as ToRef>::mem_type()).spec_max(<T3 as ToRef>::mem_type()).spec_max(<T4 as ToRef>::mem_type()).spec_max(<T5 as ToRef>::mem_type()), <T6 as ToRef>::mem_type());
        lemma_max_parts(MemType::Primitive.spec_max(<T1 as ToRef>::mem_type()).spec_max(<T2 as ToRef>::mem_type()).spec_max(<T3 as ToRef>::mem_type()).spec_max(<T4 as ToRef>::mem_type()), <T5 as ToRef>::mem_type());
        lemma_max_parts(MemType::Primitive.spec_max(<T1 as ToRef>::mem_type()).spec_max(<T2 as ToRef>::mem_type()).spec_max(<T3 as ToRef>::mem_type()), <T4 as ToRef>::mem_type());
        lemma_max_parts(MemType::Primitive.spec_max(<T1 as ToRef>::mem_type()).spec_max(<T2 as ToRef>::mem_type()), <T3 as ToRef>::mem_type());
        lemma_max_parts(MemType::Primitive.spec_max(<T1 as ToRef>::mem_type()), <T2 as ToRef>::mem_type());
        lemma_max_parts(MemType::Primitive, <T1 as ToRef>::mem_type());
        self.0.lemma_primitive(r.0, img, lo, hi, deep);
        self.1.lemma_primitive(r.1, img, lo, hi, deep);
        self.2.lemma_primitive(r.2, img, lo, hi, deep);
        self.3.lemma_primitive(r.3, img, lo, hi, deep);
        self.4.lemma_primitive(r.4, img, lo, hi, deep);
        self.5.lemma_primitive(r.5, img, lo, hi, deep);
        self.6.lemma_primitive(r.6, img, lo, hi, deep);
        if Self::mem_type() == MemType::Primitive {
            assert(self.pins(r, img) =~= Seq::<Piece>::empty());
        }
    }

    proof fn lemma_deepen(&self, r: (<T1 as ToRef>::Ref, <T2 as ToRef>::Ref, <T3 as ToRef>::Ref, <T4 as ToRef>::Ref, <T5 as ToRef>::Ref, <T6 as ToRef>::Ref, <T7 as ToRef>::Ref), img: Image, other: Image, lo: int, hi: int) {
        lemma_holds_all_concat(other, self.0.pins(r.0, img) + self.1.pins(r.1, img) + self.2.pins(r.2, img) + self.3.pins(r.3, img) + self.4.pins(r.4, img) + self.5.pins(r.5, img), self.6.pins(r.6, img));
        lemma_holds_all_concat(other, self.0.pins(r.0, img) + self.1.pins(r.1, img) + self.2.pins(r.2, img) + self.3.pins(r.3, img) + self.4.pins(r.4, img), self.5.pins(r.5, img));
        lemma_holds_all_concat(other, self.0.pins(r.0, img) + self.1.pins(r.1, img) + self.2.pins(r.2, img) + self.3.pins(r.3, img), self.4.pins(r.4, img));
        lemma_holds_all_concat(other, self.0.pins(r.0, img) + self.1.pins(r.1, img) + self.2.pins(r.2, img), self.3.pins(r.3, img));
        lemma_holds_all_concat(other, self.0.pins(r.0, img) + self.1.pins(r.1, img), self.2.pins(r.2, img));
        lemma_holds_all_concat(other, self.0.pins(r.0, img), self.1.pins(r.1, img));
        self.0.lemma_deepen(r.0, img, other, lo, hi);
        self.1.lemma_deepen(r.1, img, other, lo, hi);
        self.2.lemma_deepen(r.2, img, other, lo, hi);
        self.3.lemma_deepen(r.3, img, other, lo, hi);
        self.4.lemma_deepen(r.4, img, other, lo, hi);
        self.5.lemma_deepen(r.5, img, other, lo, hi);
        self.6.lemma_deepen(r.6, img, other, lo, hi);
    }

    proof fn lemma_frame(&self, r: (<T1 as ToRef>::Ref, <T2 as ToRef>::Ref, <T3 as ToRef>::Ref, <T4 as ToRef>::Ref, <T5 as ToRef>::Ref, <T6 as ToRef>::Ref, <T7 as ToRef>::Ref), img: Image, other: Image, lo: int, hi: int, deep: bool) {
        self.0.lemma_frame(r.0, img, other, lo, hi, deep);
        self.1.lemma_frame(r.1, img, other, lo, hi, deep);
        self.2.lemma_frame(r.2, img, other, lo, hi, deep);
        self.3.lemma_frame(r.3, img, other, lo, hi, deep);
        self.4.lemma_frame(r.4, img, other, lo, hi, deep);
        self.5.lemma_frame(r.5, img, other, lo, hi, deep);
        self.6.lemma_frame(r.6, img, other, lo, hi, deep);
    }

    proof fn lemma_widen(
        &self,
        r: (<T1 as ToRef>::Ref, <T2 as ToRef>::Ref, <T3 as ToRef>::Ref, <T4 as ToRef>::Ref, <T5 as ToRef>::Ref, <T6 as ToRef>::Ref, <T7 as ToRef>::Ref),
        img: Image,
        lo: int,
        hi: int,
        wide_lo: int,
        wide_hi: int,
        deep: bool,
    ) {
        self.0.lemma_widen(r.0, img, lo, hi, wide_lo, wide_hi, deep);
        self.1.lemma_widen(r.1, img, lo, hi, wide_lo, wide_hi, deep);
        self.2.lemma_widen(r.2, img, lo, hi, wide_lo, wide_hi, deep);
        self.3.lemma_widen(r.3, img, lo, hi, wide_lo, wide_hi, deep);
        self.4.lemma_widen(r.4, img, lo, hi, wide_lo, wide_hi, deep);
        self.5.lemma_widen(r.5, img, lo, hi, wide_lo, wide_hi, deep);
        self.6.lemma_widen(r.6, img, lo, hi, wide_lo, wide_hi, deep);
    }

    fn mem_type_of() -> (t: MemType) {
        MemType::Primitive.max(<T1 as ToRef>::mem_type_of()).max(<T2 as ToRef>::mem_type_of()).max(<T3 as ToRef>::mem_type_of()).max(<T4 as ToRef>::mem_type_of()).max(<T5 as ToRef>::mem_type_of()).max(<T6 as ToRef>::mem_type_of()).max(<T7 as ToRef>::mem_type_of())
    }

    fn to_size(&self, acc: &mut usize) {
        self.0.to_size(acc);
        self.1.to_size(acc);
        self.2.to_size(acc);
        self.3.to_size(acc);
        self.4.to_size(acc);
        self.5.to_size(acc);
        self.6.to_size(acc);
    }

    fn checked_size(&self, acc: usize) -> (sum: Option<usize>) {
        let sum0 = acc;
        let sum1 = match self.0.checked_size(sum0) {
            Some(next) => next,
            None => {
                return None;
            },
        };
        let sum2 = match self.1.checked_size(sum1) {
            Some(next) => next,
            None => {
                return None;
            },
        };
        let sum3 = match self.2.checked_size(sum2) {
            Some(next) => next,
            None => {
                return None;
            },
        };
        let sum4 = match self.3.checked_size(sum3) {
            Some(next) => next,
            None => {
                return None;
            },
        };
        let sum5 = match self.4.checked_size(sum4) {
            Some(next) => next,
            None => {
                return None;
            },
        };
        let sum6 = match self.5.checked_size(sum5) {
            Some(next) => next,
            None => {
                return None;
            },
        };
        let sum7 = match self.6.checked_size(sum6) {
            Some(next) => next,
            None => {
                return None;
            },
        };
        Some(sum7)
    }

    fn to_ref(&self, writer: &mut Writer) -> (r: (<T1 as ToRef>::Ref, <T2 as ToRef>::Ref, <T3 as ToRef>::Ref, <T4 as ToRef>::Ref, <T5 as ToRef>::Ref, <T6 as ToRef>::Ref, <T7 as ToRef>::Ref)) {
        let ghost base = writer.base() as int;
        let ghost w0 = *writer;
        proof {
            writer.lemma_bounds();
            lemma_keeps_same(writer.arena(), writer.cursor());
            lemma_max_parts(MemType::Primitive.spec_max(<T1 as ToRef>::mem_type()).spec_max(<T2 as ToRef>::mem_type()).spec_max(<T3 as ToRef>::mem_type()).spec_max(<T4 as ToRef>::mem_type()).spec_max(<T5 as ToRef>::mem_type()).spec_max(<T6 as ToRef>::mem_type()), <T7 as ToRef>::mem_type());
            lemma_max_parts(MemType::Primitive.spec_max(<T1 as ToRef>::mem_type()).spec_max(<T2 as ToRef>::mem_type()).spec_max(<T3 as ToRef>::mem_type()).spec_max(<T4 as ToRef>::mem_type()).spec_max(<T5 as ToRef>::mem_type()), <T6 as ToRef>::mem_type());
            lemma_max_parts(MemType::Primitive.spec_max(<T1 as ToRef>::mem_type()).spec_max(<T2 as ToRef>::mem_type()).spec_max(<T3 as ToRef>::mem_type()).spec_max(<T4 as ToRef>::mem_type()), <T5 as ToRef>::mem_type());
            lemma_max_parts(MemType::Primitive.spec_max(<T1 as ToRef>::mem_type()).spec_max(<T2 as ToRef>::mem_type()).spec_max(<T3 as ToRef>::mem_type()), <T4 as ToRef>::mem_type());
            lemma_max_parts(MemType::Primitive.spec_max(<T1 as ToRef>::mem_type()).spec_max(<T2 as ToRef>::mem_type()), <T3 as ToRef>::mem_type());
            lemma_max_parts(MemType::Primitive.spec_max(<T1 as ToRef>::mem_type()), <T2 as ToRef>::mem_type());
            lemma_max_parts(MemType::Primitive, <T1 as ToRef>::mem_type());
        }
        let f0 = self.0.to_ref(writer);
        let ghost w1 = *writer;
        proof {
            writer.lemma_bounds();
        }
        let f1 = self.1.to_ref(writer);
        let ghost w2 = *writer;
        proof {
            writer.lemma_bounds();
        }
        let f2 = self.2.to_ref(writer);
        let ghost w3 = *writer;
        proof {
            writer.lemma_bounds();
        }
        let f3 = self.3.to_ref(writer);
        let ghost w4 = *writer;
        proof {
            writer.lemma_bounds();
        }
        let f4 = self.4.to_ref(writer);
        let ghost w5 = *writer;
        proof {
            writer.lemma_bounds();
        }
        let f5 = self.5.to_ref(writer);
        let ghost w6 = *writer;
        proof {
            writer.lemma_bounds();
        }
        let f6 = self.6.to_ref(writer);
        let ghost w7 = *writer;
        proof {
            writer.lemma_bounds();
        }
        proof {
            lemma_keeps_trans(w5.arena(), w6.arena(), w7.arena(), w5.cursor(), w6.cursor());
            lemma_keeps_trans(w4.arena(), w5.arena(), w7.arena(), w4.cursor(), w5.cursor());
            lemma_keeps_trans(w3.arena(), w4.arena(), w7.arena(), w3.cursor(), w4.cursor());
            lemma_keeps_trans(w2.arena(), w3.arena(), w7.arena(), w2.cursor(), w3.cursor());
            lemma_keeps_trans(w1.arena(), w2.arena(), w7.arena(), w1.cursor(), w2.cursor());
            lemma_keeps_trans(w0.arena(), w1.arena(), w7.arena(), w0.cursor(), w1.cursor());
            lemma_view_stays(&self.0, f0, w1, w7, base + w0.cursor(), base + w1.cursor());
            lemma_view_stays(&self.1, f1, w2, w7, base + w1.cursor(), base + w2.cursor());
            lemma_view_stays(&self.2, f2, w3, w7, base + w2.cursor(), base + w3.cursor());
            lemma_view_stays(&self.3, f3, w4, w7, base + w3.cursor(), base + w4.cursor());
            lemma_view_stays(&self.4, f4, w5, w7, base + w4.cursor(), base + w5.cursor());
            lemma_view_stays(&self.5, f5, w6, w7, base + w5.cursor(), base + w6.cursor());
            self.0.lemma_widen(f0, w7.image(), base + w0.cursor(), base + w1.cursor(), base + w0.cursor(), base + w7.cursor(), false);
            self.1.lemma_widen(f1, w7.image(), base + w1.cursor(), base + w2.cursor(), base + w0.cursor(), base + w7.cursor(), false);
            self.2.lemma_widen(f2, w7.image(), base + w2.cursor(), base + w3.cursor(), base + w0.cursor(), base + w7.cursor(), false);
            self.3.lemma_widen(f3, w7.image(), base + w3.cursor(), base + w4.cursor(), base + w0.cursor(), base + w7.cursor(), false);
            self.4.lemma_widen(f4, w7.image(), base + w4.cursor(), base + w5.cursor(), base + w0.cursor(), base + w7.cursor(), false);
            self.5.lemma_widen(f5, w7.image(), base + w5.cursor(), base + w6.cursor(), base + w0.cursor(), base + w7.cursor(), false);
            self.6.lemma_widen(f6, w7.image(), base + w6.cursor(), base + w7.cursor(), base + w0.cursor(), base + w7.cursor(), false);
        }
        (f0, f1, f2, f3, f4, f5, f6)
    }

    fn pinned<M: MemoryRead>(&self, r: &(<T1 as ToRef>::Ref, <T2 as ToRef>::Ref, <T3 as ToRef>::Ref, <T4 as ToRef>::Ref, <T5 as ToRef>::Ref, <T6 as ToRef>::Ref, <T7 as ToRef>::Ref), mem: &M, out: &mut Vec<Segment>) {
        self.0.pinned(&r.0, mem, out);
        self.1.pinned(&r.1, mem, out);
        self.2.pinned(&r.2, mem, out);
        self.3.pinned(&r.3, mem, out);
        self.4.pinned(&r.4, mem, out);
        self.5.pinned(&r.5, mem, out);
        self.6.pinned(&r.6, mem, out);
        assert(pieces_of(out@) =~= pieces_of(old(out)@) + self.pins(*r, mem.image()));
    }
}

impl<T1: FromRef, T2: FromRef, T3: FromRef, T4: FromRef, T5: FromRef, T6: FromRef, T7: FromRef> FromRef for (T1, T2, T3, T4, T5, T6, T7) {
    open spec fn decoded(r: (<T1 as ToRef>::Ref, <T2 as ToRef>::Ref, <T3 as ToRef>::Ref, <T4 as ToRef>::Ref, <T5 as ToRef>::Ref, <T6 as ToRef>::Ref, <T7 as ToRef>::Ref), img: Image) -> Option<(<T1 as DeepView>::V, <T2 as DeepView>::V, <T3 as DeepView>::V, <T4 as DeepView>::V, <T5 as DeepView>::V, <T6 as DeepView>::V, <T7 as DeepView>::V)> {
        match (<T1 as FromRef>::decoded(r.0, img), <T2 as FromRef>::decoded(r.1, img), <T3 as FromRef>::decoded(r.2, img), <T4 as FromRef>::decoded(r.3, img), <T5 as FromRef>::decoded(r.4, img), <T6 as FromRef>::decoded(r.5, img), <T7 as FromRef>::decoded(r.6, img)) {
            (Some(v0), Some(v1), Some(v2), Some(v3), Some(v4), Some(v5), Some(v6)) => Some((v0, v1, v2, v3, v4, v5, v6)),
            _ => None,
        }
    }

    proof fn lemma_round_trip(&self, r: (<T1 as ToRef>::Ref, <T2 as ToRef>::Ref, <T3 as ToRef>::Ref, <T4 as ToRef>::Ref, <T5 as ToRef>::Ref, <T6 as ToRef>::Ref, <T7 as ToRef>::Ref), img: Image, lo: int, hi: int) {
        self.0.lemma_round_trip(r.0, img, lo, hi);
        self.1.lemma_round_trip(r.1, img, lo, hi);
        self.2.lemma_round_trip(r.2, img, lo, hi);
        self.3.lemma_round_trip(r.3, img, lo, hi);
        self.4.lemma_round_trip(r.4, img, lo, hi);
        self.5.lemma_round_trip(r.5, img, lo, hi);
        self.6.lemma_round_trip(r.6, img, lo, hi);
    }

    fn from_ref<M: MemoryRead>(r: &(<T1 as ToRef>::Ref, <T2 as ToRef>::Ref, <T3 as ToRef>::Ref, <T4 as ToRef>::Ref, <T5 as ToRef>::Ref, <T6 as ToRef>::Ref, <T7 as ToRef>::Ref), mem: &M) -> (o: Option<Self>) {
        let v0 = match <T1 as FromRef>::from_ref(&r.0, mem) {
            Some(v) => v,
            None => {
                return None;
            },
        };
        let v1 = match <T2 as FromRef>::from_ref(&r.1, mem) {
            Some(v) => v,
            None => {
                return None;
            },
        };
        let v2 = match <T3 as FromRef>::from_ref(&r.2, mem) {
            Some(v) => v,
            None => {
                return None;
            },
        };
        let v3 = match <T4 as FromRef>::from_ref(&r.3, mem) {
            Some(v) => v,
            None => {
                return None;
            },
        };
        let v4 = match <T5 as FromRef>::from_ref(&r.4, mem) {
            Some(v) => v,
            None => {
                return None;
            },
        };
        let v5 = match <T6 as FromRef>::from_ref(&r.5, mem) {
            Some(v) => v,
            None => {
                return None;
            },
        };
        let v6 = match <T7 as FromRef>::from_ref(&r.6, mem) {
            Some(v) => v,
            None => {
                return None;
            },
        };
        Some((v0, v1, v2, v3, v4, v5, v6))
    }
}

impl<T1: ToRef, T2: ToRef, T3: ToRef, T4: ToRef, T5: ToRef, T6: ToRef, T7: ToRef, T8: ToRef> ToRef for (T1, T2, T3, T4, T5, T6, T7, T8) {
    type Ref = (<T1 as ToRef>::Ref, <T2 as ToRef>::Ref, <T3 as ToRef>::Ref, <T4 as ToRef>::Ref, <T5 as ToRef>::Ref, <T6 as ToRef>::Ref, <T7 as ToRef>::Ref, <T8 as ToRef>::Ref);

    open spec fn mem_type() -> MemType {
        MemType::Primitive.spec_max(<T1 as ToRef>::mem_type()).spec_max(<T2 as ToRef>::mem_type()).spec_max(<T3 as ToRef>::mem_type()).spec_max(<T4 as ToRef>::mem_type()).spec_max(<T5 as ToRef>::mem_type()).spec_max(<T6 as ToRef>::mem_type()).spec_max(<T7 as ToRef>::mem_type()).spec_max(<T8 as ToRef>::mem_type())
    }

    open spec fn size(&self) -> nat {
        self.0.size() + self.1.size() + self.2.size() + self.3.size() + self.4.size() + self.5.size() + self.6.size() + self.7.size()
    }

    open spec fn views(&self, r: (<T1 as ToRef>::Ref, <T2 as ToRef>::Ref, <T3 as ToRef>::Ref, <T4 as ToRef>::Ref, <T5 as ToRef>::Ref, <T6 as ToRef>::Ref, <T7 as ToRef>::Ref, <T8 as ToRef>::Ref), img: Image, lo: int, hi: int, deep: bool) -> bool {
        &&& self.0.views(r.0, img, lo, hi, deep)
        &&& self.1.views(r.1, img, lo, hi, deep)
        &&& self.2.views(r.2, img, lo, hi, deep)
        &&& self.3.views(r.3, img, lo, hi, deep)
        &&& self.4.views(r.4, img, lo, hi, deep)
        &&& self.5.views(r.5, img, lo, hi, deep)
        &&& self.6.views(r.6, img, lo, hi, deep)
        &&& self.7.views(r.7, img, lo, hi, deep)
    }

    open spec fn flat(&self) -> (<T1 as ToRef>::Ref, <T2 as ToRef>::Ref, <T3 as ToRef>::Ref, <T4 as ToRef>::Ref, <T5 as ToRef>::Ref, <T6 as ToRef>::Ref, <T7 as ToRef>::Ref, <T8 as ToRef>::Ref) {
        (self.0.flat(), self.1.flat(), self.2.flat(), self.3.flat(), self.4.flat(), self.5.flat(), self.6.flat(), self.7.flat())
    }

    open spec fn pins(&self, r: (<T1 as ToRef>::Ref, <T2 as ToRef>::Ref, <T3 as ToRef>::Ref, <T4 as ToRef>::Ref, <T5 as ToRef>::Ref, <T6 as ToRef>::Ref, <T7 as ToRef>::Ref, <T8 as ToRef>::Ref), img: Image) -> Seq<Piece> {
        self.0.pins(r.0, img) + self.1.pins(r.1, img) + self.2.pins(r.2, img) + self.3.pins(r.3, img) + self.4.pins(r.4, img) + self.5.pins(r.5, img) + self.6.pins(r.6, img) + self.7.pins(r.7, img)
    }

    proof fn lemma_flat(&self) {
        lemma_max_parts(MemType::Primitive.spec_max(<T1 as ToRef>::mem_type()).spec_max(<T2 as ToRef>::mem_type()).spec_max(<T3 as ToRef>::mem_type()).spec_max(<T4 as ToRef>::mem_type()).spec_max(<T5 as ToRef>::mem_type()).spec_max(<T6 as ToRef>::mem_type()).spec_max(<T7 as ToRef>::mem_type()), <T8 as ToRef>::mem_type());
        lemma_max_parts(MemType::Primitive.spec_max(<T1 as ToRef>::mem_type()).spec_max(<T2 as ToRef>::mem_type()).spec_max(<T3 as ToRef>::mem_type()).spec_max(<T4 as ToRef>::mem_type()).spec_max(<T5 as ToRef>::mem_type()).spec_max(<T6 as ToRef>::mem_type()), <T7 as ToRef>::mem_type());
        lemma_max_parts(MemType::Primitive.spec_max(<T1 as ToRef>::mem_type()).spec_max(<T2 as ToRef>::mem_type()).spec_max(<T3 as ToRef>::mem_type()).spec_max(<T4 as ToRef>::mem_type()).spec_max(<T5 as ToRef>::mem_type()), <T6 as ToRef>::mem_type());
        lemma_max_parts(MemType::Primitive.spec_max(<T1 as ToRef>::mem_type()).spec_max(<T2 as ToRef>::mem_type()).spec_max(<T3 as ToRef>::mem_type()).spec_max(<T4 as ToRef>::mem_type()), <T5 as ToRef>::mem_type());
        lemma_max_parts(MemType::Primitive.spec_max(<T1 as ToRef>::mem_type()).spec_max(<T2 as ToRef>::mem_type()).spec_max(<T3 as ToRef>::mem_type()), <T4 as ToRef>::mem_type());
        lemma_max_parts(MemType::Primitive.spec_max(<T1 as ToRef>::mem_type()).spec_max(<T2 as ToRef>::mem_type()), <T3 as ToRef>::mem_type());
        lemma_max_parts(MemType::Primitive.spec_max(<T1 as ToRef>::mem_type()), <T2 as ToRef>::mem_type());
        lemma_max_parts(MemType::Primitive, <T1 as ToRef>::mem_type());
        self.0.lemma_flat();
        self.1.lemma_flat();
        self.2.lemma_flat();
        self.3.lemma_flat();
        self.4.lemma_flat();
        self.5.lemma_flat();
        self.6.lemma_flat();
        self.7.lemma_flat();
    }

    proof fn lemma_primitive(&self, r: (<T1 as ToRef>::Ref, <T2 as ToRef>::Ref, <T3 as ToRef>::Ref, <T4 as ToRef>::Ref, <T5 as ToRef>::Ref, <T6 as ToRef>::Ref, <T7 as ToRef>::Ref, <T8 as ToRef>::Ref), img: Image, lo: int, hi: int, deep: bool) {
        lemma_max_parts(MemType::Primitive.spec_max(<T1 as ToRef>::mem_type()).spec_max(<T2 as ToRef>::mem_type()).spec_max(<T3 as ToRef>::mem_type()).spec_max(<T4 as ToRef>::mem_type()).spec_max(<T5 as ToRef>::mem_type()).spec_max(<T6 as ToRef>::mem_type()).spec_max(<T7 as ToRef>::mem_type()), <T8 as ToRef>::mem_type());
        lemma_max_parts(MemType::Primitive.spec_max(<T1 as ToRef>::mem_type()).spec_max(<T2 as ToRef>::mem_type()).spec_max(<T3 as ToRef>::mem_type()).spec_max(<T4 as ToRef>::mem_type()).spec_max(<T5 as ToRef>::mem_type()).spec_max(<T6 as ToRef>::mem_type()), <T7 as ToRef>::mem_type());
        lemma_max_parts(MemType::Primitive.spec_max(<T1 as ToRef>::mem_type()).spec_max(<T2 as ToRef>::mem_type()).spec_max(<T3 as ToRef>::mem_type()).spec_max(<T4 as ToRef>::mem_type()).spec_max(<T5 as ToRef>::mem_type()), <T6 as ToRef>::mem_type());
        lemma_max_parts(MemType::Primitive.spec_max(<T1 as ToRef>::mem_type()).spec_max(<T2 as ToRef>::mem_type()).spec_max(<T3 as ToRef>::mem_type()).spec_max(<T4 as ToRef>::mem_type()), <T5 as ToRef>::mem_type());
        lemma_max_parts(MemType::Primitive.spec_max(<T1 as ToRef>::mem_type()).spec_max(<T2 as ToRef>::mem_type()).spec_max(<T3 as ToRef>::mem_type()), <T4 as ToRef>::mem_type());
        lemma_max_parts(MemType::Primitive.spec_max(<T1 as ToRef>::mem_type()).spec_max(<T2 as ToRef>::mem_type()), <T3 as ToRef>::mem_type());
        lemma_max_parts(MemType::Primitive.spec_max(<T1 as ToRef>::mem_type()), <T2 as ToRef>::mem_type());
        lemma_max_parts(MemType::Primitive, <T1 as ToRef>::mem_type());
        self.0.lemma_primitive(r.0, img, lo, hi, deep);
        self.1.lemma_primitive(r.1, img, lo, hi, deep);
        self.2.lemma_primitive(r.2, img, lo, hi, deep);
        self.3.lemma_primitive(r.3, img, lo, hi, deep);
        self.4.lemma_primitive(r.4, img, lo, hi, deep);
        self.5.lemma_primitive(r.5, img, lo, hi, deep);
        self.6.lemma_primitive(r.6, img, lo, hi, deep);
        self.7.lemma_primitive(r.7, img, lo, hi, deep);
        if Self::mem_type() == MemType::Primitive {
            assert(self.pins(r, img) =~= Seq::<Piece>::empty());
        }
    }

    proof fn lemma_deepen(&self, r: (<T1 as ToRef>::Ref, <T2 as ToRef>::Ref, <T3 as ToRef>::Ref, <T4 as ToRef>::Ref, <T5 as ToRef>::Ref, <T6 as ToRef>::Ref, <T7 as ToRef>::Ref, <T8 as ToRef>::Ref), img: Image, other: Image, lo: int, hi: int) {
        lemma_holds_all_concat(other, self.0.pins(r.0, img) + self.1.pins(r.1, img) + self.2.pins(r.2, img) + self.3.pins(r.3, img) + self.4.pins(r.4, img) + self.5.pins(r.5, img) + self.6.pins(r.6, img), self.7.pins(r.7, img));
        lemma_holds_all_concat(other, self.0.pins(r.0, img) + self.1.pins(r.1, img) + self.2.pins(r.2, img) + self.3.pins(r.3, img) + self.4.pins(r.4, img) + self.5.pins(r.5, img), self.6.pins(r.6, img));
        lemma_holds_all_concat(other, self.0.pins(r.0, img) + self.1.pins(r.1, img) + self.2.pins(r.2, img) + self.3.pins(r.3, img) + self.4.pins(r.4, img), self.5.pins(r.5, img));
        lemma_holds_all_concat(other, self.0.pins(r.0, img) + self.1.pins(r.1, img) + self.2.pins(r.2, img) + self.3.pins(r.3, img), self.4.pins(r.4, img));
        lemma_holds_all_concat(other, self.0.pins(r.0, img) + self.1.pins(r.1, img) + self.2.pins(r.2, img), self.3.pins(r.3, img));
        lemma_holds_all_concat(other, self.0.pins(r.0, img) + self.1.pins(r.1, img), self.2.pins(r.2, img));
        lemma_holds_all_concat(other, self.0.pins(r.0, img), self.1.pins(r.1, img));
        self.0.lemma_deepen(r.0, img, other, lo, hi);
        self.1.lemma_deepen(r.1, img, other, lo, hi);
        self.2.lemma_deepen(r.2, img, other, lo, hi);
        self.3.lemma_deepen(r.3, img, other, lo, hi);
        self.4.lemma_deepen(r.4, img, other, lo, hi);
        self.5.lemma_deepen(r.5, img, other, lo, hi);
        self.6.lemma_deepen(r.6, img, other, lo, hi);
        self.7.lemma_deepen(r.7, img, other, lo, hi);
    }

    proof fn lemma_frame(&self, r: (<T1 as ToRef>::Ref, <T2 as ToRef>::Ref, <T3 as ToRef>::Ref, <T4 as ToRef>::Ref, <T5 as ToRef>::Ref, <T6 as ToRef>::Ref, <T7 as ToRef>::Ref, <T8 as ToRef>::Ref), img: Image, other: Image, lo: int, hi: int, deep: bool) {
        self.0.lemma_frame(r.0, img, other, lo, hi, deep);
        self.1.lemma_frame(r.1, img, other, lo, hi, deep);
        self.2.lemma_frame(r.2, img, other, lo, hi, deep);
        self.3.lemma_frame(r.3, img, other, lo, hi, deep);
        self.4.lemma_frame(r.4, img, other, lo, hi, deep);
        self.5.lemma_frame(r.5, img, other, lo, hi, deep);
        self.6.lemma_frame(r.6, img, other, lo, hi, deep);
        self.7.lemma_frame(r.7, img, other, lo, hi, deep);
    }

    proof fn lemma_widen(
        &self,
        r: (<T1 as ToRef>::Ref, <T2 as ToRef>::Ref, <T3 as ToRef>::Ref, <T4 as ToRef>::Ref, <T5 as ToRef>::Ref, <T6 as ToRef>::Ref, <T7 as ToRef>::Ref, <T8 as ToRef>::Ref),
        img: Image,
        lo: int,
        hi: int,
        wide_lo: int,
        wide_hi: int,
        deep: bool,
    ) {
        self.0.lemma_widen(r.0, img, lo, hi, wide_lo, wide_hi, deep);
        self.1.lemma_widen(r.1, img, lo, hi, wide_lo, wide_hi, deep);
        self.2.lemma_widen(r.2, img, lo, hi, wide_lo, wide_hi, deep);
        self.3.lemma_widen(r.3, img, lo, hi, wide_lo, wide_hi, deep);
        self.4.lemma_widen(r.4, img, lo, hi, wide_lo, wide_hi, deep);
        self.5.lemma_widen(r.5, img, lo, hi, wide_lo, wide_hi, deep);
        self.6.lemma_widen(r.6, img, lo, hi, wide_lo, wide_hi, deep);
        self.7.lemma_widen(r.7, img, lo, hi, wide_lo, wide_hi, deep);
    }

    fn mem_type_of() -> (t: MemType) {
        MemType::Primitive.max(<T1 as ToRef>::mem_type_of()).max(<T2 as ToRef>::mem_type_of()).max(<T3 as ToRef>::mem_type_of()).max(<T4 as ToRef>::mem_type_of()).max(<T5 as ToRef>::mem_type_of()).max(<T6 as ToRef>::mem_type_of()).max(<T7 as ToRef>::mem_type_of()).max(<T8 as ToRef>::mem_type_of())
    }

    fn to_size(&self, acc: &mut usize) {
        self.0.to_size(acc);
        self.1.to_size(acc);
        self.2.to_size(acc);
        self.3.to_size(acc);
        self.4.to_size(acc);
        self.5.to_size(acc);
        self.6.to_size(acc);
        self.7.to_size(acc);
    }

    fn checked_size(&self, acc: usize) -> (sum: Option<usize>) {
        let sum0 = acc;
        let sum1 = match self.0.checked_size(sum0) {
            Some(next) => next,
            None => {
                return None;
            },
        };
        let sum2 = match self.1.checked_size(sum1) {
            Some(next) => next,
            None => {
                return None;
            },
        };
        let sum3 = match self.2.checked_size(sum2) {
            Some(next) => next,
            None => {
                return None;
            },
        };
        let sum4 = match self.3.checked_size(sum3) {
            Some(next) => next,
            None => {
                return None;
            },
        };
        let sum5 = match self.4.checked_size(sum4) {
            Some(next) => next,
            None => {
                return None;
            },
        };
        let sum6 = match self.5.checked_size(sum5) {
            Some(next) => next,
            None => {
                return None;
            },
        };
        let sum7 = match self.6.checked_size(sum6) {
            Some(next) => next,
            None => {
                return None;
            },
        };
        let sum8 = match self.7.checked_size(sum7) {
            Some(next) => next,
            None => {
                return None;
            },
        };
        Some(sum8)
    }

    fn to_ref(&self, writer: &mut Writer) -> (r: (<T1 as ToRef>::Ref, <T2 as ToRef>::Ref, <T3 as ToRef>::Ref, <T4 as ToRef>::Ref, <T5 as ToRef>::Ref, <T6 as ToRef>::Ref, <T7 as ToRef>::Ref, <T8 as ToRef>::Ref)) {
        let ghost base = writer.base() as int;
        let ghost w0 = *writer;
        proof {
            writer.lemma_bounds();
            lemma_keeps_same(writer.arena(), writer.cursor());
            lemma_max_parts(MemType::Primitive.spec_max(<T1 as ToRef>::mem_type()).spec_max(<T2 as ToRef>::mem_type()).spec_max(<T3 as ToRef>::mem_type()).spec_max(<T4 as ToRef>::mem_type()).spec_max(<T5 as ToRef>::mem_type()).spec_max(<T6 as ToRef>::mem_type()).spec_max(<T7 as ToRef>::mem_type()), <T8 as ToRef>::mem_type());
            lemma_max_parts(MemType::Primitive.spec_max(<T1 as ToRef>::mem_type()).spec_max(<T2 as ToRef>::mem_type()).spec_max(<T3 as ToRef>::mem_type()).spec_max(<T4 as ToRef>::mem_type()).spec_max(<T5 as ToRef>::mem_type()).spec_max(<T6 as ToRef>::mem_type()), <T7 as ToRef>::mem_type());
            lemma_max_parts(MemType::Primitive.spec_max(<T1 as ToRef>::mem_type()).spec_max(<T2 as ToRef>::mem_type()).spec_max(<T3 as ToRef>::mem_type()).spec_max(<T4 as ToRef>::mem_type()).spec_max(<T5 as ToRef>::mem_type()), <T6 as ToRef>::mem_type());
            lemma_max_parts(MemType::Primitive.spec_max(<T1 as ToRef>::mem_type()).spec_max(<T2 as ToRef>::mem_type()).spec_max(<T3 as ToRef>::mem_type()).spec_max(<T4 as ToRef>::mem_type()), <T5 as ToRef>::mem_type());
            lemma_max_parts(MemType::Primitive.spec_max(<T1 as ToRef>::mem_type()).spec_max(<T2 as ToRef>::mem_type()).spec_max(<T3 as ToRef>::mem_type()), <T4 as ToRef>::mem_type());
            lemma_max_parts(MemType::Primitive.spec_max(<T1 as ToRef>::mem_type()).spec_max(<T2 as ToRef>::mem_type()), <T3 as ToRef>::mem_type());
            lemma_max_parts(MemType::Primitive.spec_max(<T1 as ToRef>::mem_type()), <T2 as ToRef>::mem_type());
            lemma_max_parts(MemType::Primitive, <T1 as ToRef>::mem_type());
        }
        let f0 = self.0.to_ref(writer);
        let ghost w1 = *writer;
        proof {
            writer.lemma_bounds();
        }
        let f1 = self.1.to_ref(writer);
        let ghost w2 = *writer;
        proof {
            writer.lemma_bounds();
        }
        let f2 = self.2.to_ref(writer);
        let ghost w3 = *writer;
        proof {
            writer.lemma_bounds();
        }
        let f3 = self.3.to_ref(writer);
        let ghost w4 = *writer;
        proof {
            writer.lemma_bounds();
        }
        let f4 = self.4.to_ref(writer);
        let ghost w5 = *writer;
        proof {
            writer.lemma_bounds();
        }
        let f5 = self.5.to_ref(writer);
        let ghost w6 = *writer;
        proof {
            writer.lemma_bounds();
        }
        let f6 = self.6.to_ref(writer);
        let ghost w7 = *writer;
        proof {
            writer.lemma_bounds();
        }
        let f7 = self.7.to_ref(writer);
        let ghost w8 = *writer;
        proof {
            writer.lemma_bounds();
        }
        proof {
            lemma_keeps_trans(w6.arena(), w7.arena(), w8.arena(), w6.cursor(), w7.cursor());
            lemma_keeps_trans(w5.arena(), w6.arena(), w8.arena(), w5.cursor(), w6.cursor());
            lemma_keeps_trans(w4.arena(), w5.arena(), w8.arena(), w4.cursor(), w5.cursor());
            lemma_keeps_trans(w3.arena(), w4.arena(), w8.arena(), w3.cursor(), w4.cursor());
            lemma_keeps_trans(w2.arena(), w3.arena(), w8.arena(), w2.cursor(), w3.cursor());
            lemma_keeps_trans(w1.arena(), w2.arena(), w8.arena(), w1.cursor(), w2.cursor());
            lemma_keeps_trans(w0.arena(), w1.arena(), w8.arena(), w0.cursor(), w1.cursor());
            lemma_view_stays(&self.0, f0, w1, w8, base + w0.cursor(), base + w1.cursor());
            lemma_view_stays(&self.1, f1, w2, w8, base + w1.cursor(), base + w2.cursor());
            lemma_view_stays(&self.2, f2, w3, w8, base + w2.cursor(), base + w3.cursor());
            lemma_view_stays(&self.3, f3, w4, w8, base + w3.cursor(), base + w4.cursor());
            lemma_view_stays(&self.4, f4, w5, w8, base + w4.cursor(), base + w5.cursor());
            lemma_view_stays(&self.5, f5, w6, w8, base + w5.cursor(), base + w6.cursor());
            lemma_view_stays(&self.6, f6, w7, w8, base + w6.cursor(), base + w7.cursor());
            self.0.lemma_widen(f0, w8.image(), base + w0.cursor(), base + w1.cursor(), base + w0.cursor(), base + w8.cursor(), false);
            self.1.lemma_widen(f1, w8.image(), base + w1.cursor(), base + w2.cursor(), base + w0.cursor(), base + w8.cursor(), false);
            self.2.lemma_widen(f2, w8.image(), base + w2.cursor(), base + w3.cursor(), base + w0.cursor(), base + w8.cursor(), false);
            self.3.lemma_widen(f3, w8.image(), base + w3.cursor(), base + w4.cursor(), base + w0.cursor(), base + w8.cursor(), false);
            self.4.lemma_widen(f4, w8.image(), base + w4.cursor(), base + w5.cursor(), base + w0.cursor(), base + w8.cursor(), false);
            self.5.lemma_widen(f5, w8.image(), base + w5.cursor(), base + w6.cursor(), base + w0.cursor(), base + w8.cursor(), false);
            self.6.lemma_widen(f6, w8.image(), base + w6.cursor(), base + w7.cursor(), base + w0.cursor(), base + w8.cursor(), false);
            self.7.lemma_widen(f7, w8.image(), base + w7.cursor(), base + w8.cursor(), base + w0.cursor(), base + w8.cursor(), false);
        }
        (f0, f1, f2, f3, f4, f5, f6, f7)
    }

    fn pinned<M: MemoryRead>(&self, r: &(<T1 as ToRef>::Ref, <T2 as ToRef>::Ref, <T3 as ToRef>::Ref, <T4 as ToRef>::Ref, <T5 as ToRef>::Ref, <T6 as ToRef>::Ref, <T7 as ToRef>::Ref, <T8 as ToRef>::Ref), mem: &M, out: &mut Vec<Segment>) {
        self.0.pinned(&r.0, mem, out);
        self.1.pinned(&r.1, mem, out);
        self.2.pinned(&r.2, mem, out);
        self.3.pinned(&r.3, mem, out);
        self.4.pinned(&r.4, mem, out);
        self.5.pinned(&r.5, mem, out);
        self.6.pinned(&r.6, mem, out);
        self.7.pinned(&r.7, mem, out);
        assert(pieces_of(out@) =~= pieces_of(old(out)@) + self.pins(*r, mem.image()));
    }
}

impl<T1: FromRef, T2: FromRef, T3: FromRef, T4: FromRef, T5: FromRef, T6: FromRef, T7: FromRef, T8: FromRef> FromRef for (T1, T2, T3, T4, T5, T6, T7, T8) {
    open spec fn decoded(r: (<T1 as ToRef>::Ref, <T2 as ToRef>::Ref, <T3 as ToRef>::Ref, <T4 as ToRef>::Ref, <T5 as ToRef>::Ref, <T6 as ToRef>::Ref, <T7 as ToRef>::Ref, <T8 as ToRef>::Ref), img: Image) -> Option<(<T1 as DeepView>::V, <T2 as DeepView>::V, <T3 as DeepView>::V, <T4 as DeepView>::V, <T5 as DeepView>::V, <T6 as DeepView>::V, <T7 as DeepView>::V, <T8 as DeepView>::V)> {
        match (<T1 as FromRef>::decoded(r.0, img), <T2 as FromRef>::decoded(r.1, img), <T3 as FromRef>::decoded(r.2, img), <T4 as FromRef>::decoded(r.3, img), <T5 as FromRef>::decoded(r.4, img), <T6 as FromRef>::decoded(r.5, img), <T7 as FromRef>::decoded(r.6, img), <T8 as FromRef>::decoded(r.7, img)) {
            (Some(v0), Some(v1), Some(v2), Some(v3), Some(v4), Some(v5), Some(v6), Some(v7)) => Some((v0, v1, v2, v3, v4, v5, v6, v7)),
            _ => None,
        }
    }

    proof fn lemma_round_trip(&self, r: (<T1 as ToRef>::Ref, <T2 as ToRef>::Ref, <T3 as ToRef>::Ref, <T4 as ToRef>::Ref, <T5 as ToRef>::Ref, <T6 as ToRef>::Ref, <T7 as ToRef>::Ref, <T8 as ToRef>::Ref), img: Image, lo: int, hi: int) {
        self.0.lemma_round_trip(r.0, img, lo, hi);
        self.1.lemma_round_trip(r.1, img, lo, hi);
        self.2.lemma_round_trip(r.2, img, lo, hi);
        self.3.lemma_round_trip(r.3, img, lo, hi);
        self.4.lemma_round_trip(r.4, img, lo, hi);
        self.5.lemma_round_trip(r.5, img, lo, hi);
        self.6.lemma_round_trip(r.6, img, lo, hi);
        self.7.lemma_round_trip(r.7, img, lo, hi);
    }

    fn from_ref<M: MemoryRead>(r: &(<T1 as ToRef>::Ref, <T2 as ToRef>::Ref, <T3 as ToRef>::Ref, <T4 as ToRef>::Ref, <T5 as ToRef>::Ref, <T6 as ToRef>::Ref, <T7 as ToRef>::Ref, <T8 as ToRef>::Ref), mem: &M) -> (o: Option<Self>) {
        let v0 = match <T1 as FromRef>::from_ref(&r.0, mem) {
            Some(v) => v,
            None => {
                return None;
            },
        };
        let v1 = match <T2 as FromRef>::from_ref(&r.1, mem) {
            Some(v) => v,
            None => {
                return None;
            },
        };
        let v2 = match <T3 as FromRef>::from_ref(&r.2, mem) {
            Some(v) => v,
            None => {
                return None;
            },
        };
        let v3 = match <T4 as FromRef>::from_ref(&r.3, mem) {
            Some(v) => v,
            None => {
                return None;
            },
        };
        let v4 = match <T5 as FromRef>::from_ref(&r.4, mem) {
            Some(v) => v,
            None => {
                return None;
            },
        };
        let v5 = match <T6 as FromRef>::from_ref(&r.5, mem) {
            Some(v) => v,
            None => {
                return None;
            },
        };
        let v6 = match <T7 as FromRef>::from_ref(&r.6, mem) {
            Some(v) => v,
            None => {
                return None;
            },
        };
        let v7 = match <T8 as FromRef>::from_ref(&r.7, mem) {
            Some(v) => v,
            None => {
                return None;
            },
        };
        Some((v0, v1, v2, v3, v4, v5, v6, v7))
    }
}

impl<T1: ToRef, T2: ToRef, T3: ToRef, T4: ToRef, T5: ToRef, T6: ToRef, T7: ToRef, T8: ToRef, T9: ToRef> ToRef for (T1, T2, T3, T4, T5, T6, T7, T8, T9) {
    type Ref = (<T1 as ToRef>::Ref, <T2 as ToRef>::Ref, <T3 as ToRef>::Ref, <T4 as ToRef>::Ref, <T5 as ToRef>::Ref, <T6 as ToRef>::Ref, <T7 as ToRef>::Ref, <T8 as ToRef>::Ref, <T9 as ToRef>::Ref);

    open spec fn mem_type() -> MemType {
        MemType::Primitive.spec_max(<T1 as ToRef>::mem_type()).spec_max(<T2 as ToRef>::mem_type()).spec_max(<T3 as ToRef>::mem_type()).spec_max(<T4 as ToRef>::mem_type()).spec_max(<T5 as ToRef>::mem_type()).spec_max(<T6 as ToRef>::mem_type()).spec_max(<T7 as ToRef>::mem_type()).spec_max(<T8 as ToRef>::mem_type()).spec_max(<T9 as ToRef>::mem_type())
    }

    open spec fn size(&self) -> nat {
        self.0.size() + self.1.size() + self.2.size() + self.3.size() + self.4.size() + self.5.size() + self.6.size() + self.7.size() + self.8.size()
    }

    open spec fn views(&self, r: (<T1 as ToRef>::Ref, <T2 as ToRef>::Ref, <T3 as ToRef>::Ref, <T4 as ToRef>::Ref, <T5 as ToRef>::Ref, <T6 as ToRef>::Ref, <T7 as ToRef>::Ref, <T8 as ToRef>::Ref, <T9 as ToRef>::Ref), img: Image, lo: int, hi: int, deep: bool) -> bool {
        &&& self.0.views(r.0, img, lo, hi, deep)
        &&& self.1.views(r.1, img, lo, hi, deep)
        &&& self.2.views(r.2, img, lo, hi, deep)
        &&& self.3.views(r.3, img, lo, hi, deep)
        &&& self.4.views(r.4, img, lo, hi, deep)
        &&& self.5.views(r.5, img, lo, hi, deep)
        &&& self.6.views(r.6, img, lo, hi, deep)
        &&& self.7.views(r.7, img, lo, hi, deep)
        &&& self.8.views(r.8, img, lo, hi, deep)
    }

    open spec fn flat(&self) -> (<T1 as ToRef>::Ref, <T2 as ToRef>::Ref, <T3 as ToRef>::Ref, <T4 as ToRef>::Ref, <T5 as ToRef>::Ref, <T6 as ToRef>::Ref, <T7 as ToRef>::Ref, <T8 as ToRef>::Ref, <T9 as ToRef>::Ref) {
        (self.0.flat(), self.1.flat(), self.2.flat(), self.3.flat(), self.4.flat(), self.5.flat(), self.6.flat(), self.7.flat(), self.8.flat())
    }

    open spec fn pins(&self, r: (<T1 as ToRef>::Ref, <T2 as ToRef>::Ref, <T3 as ToRef>::Ref, <T4 as ToRef>::Ref, <T5 as ToRef>::Ref, <T6 as ToRef>::Ref, <T7 as ToRef>::Ref, <T8 as ToRef>::Ref, <T9 as ToRef>::Ref), img: Image) -> Seq<Piece> {
        self.0.pins(r.0, img) + self.1.pins(r.1, img) + self.2.pins(r.2, img) + self.3.pins(r.3, img) + self.4.pins(r.4, img) + self.5.pins(r.5, img) + self.6.pins(r.6, img) + self.7.pins(r.7, img) + self.8.pins(r.8, img)
    }

    proof fn lemma_flat(&self) {
        lemma_max_parts(MemType::Primitive.spec_max(<T1 as ToRef>::mem_type()).spec_max(<T2 as ToRef>::mem_type()).spec_max(<T3 as ToRef>::mem_type()).spec_max(<T4 as ToRef>::mem_type()).spec_max(<T5 as ToRef>::mem_type()).spec_max(<T6 as ToRef>::mem_type()).spec_max(<T7 as ToRef>::mem_type()).spec_max(<T8 as ToRef>::mem_type()), <T9 as ToRef>::mem_type());
        lemma_max_parts(MemType::Primitive.spec_max(<T1 as ToRef>::mem_type()).spec_max(<T2 as ToRef>::mem_type()).spec_max(<T3 as ToRef>::mem_type()).spec_max(<T4 as ToRef>::mem_type()).spec_max(<T5 as ToRef>::mem_type()).spec_max(<T6 as ToRef>::mem_type()).spec_max(<T7 as ToRef>::mem_type()), <T8 as ToRef>::mem_type());
        lemma_max_parts(MemType::Primitive.spec_max(<T1 as ToRef>::mem_type()).spec_max(<T2 as ToRef>::mem_type()).spec_max(<T3 as ToRef>::mem_type()).spec_max(<T4 as ToRef>::mem_type()).spec_max(<T5 as ToRef>::mem_type()).spec_max(<T6 as ToRef>::mem_type()), <T7 as ToRef>::mem_type());
        lemma_max_parts(MemType::Primitive.spec_max(<T1 as ToRef>::mem_type()).spec_max(<T2 as ToRef>::mem_type()).spec_max(<T3 as ToRef>::mem_type()).spec_max(<T4 as ToRef>::mem_type()).spec_max(<T5 as ToRef>::mem_type()), <T6 as ToRef>::mem_type());
        lemma_max_parts(MemType::Primitive.spec_max(<T1 as ToRef>::mem_type()).spec_max(<T2 as ToRef>::mem_type()).spec_max(<T3 as ToRef>::mem_type()).spec_max(<T4 as ToRef>::mem_type()), <T5 as ToRef>::mem_type());
        lemma_max_parts(MemType::Primitive.spec_max(<T1 as ToRef>::mem_type()).spec_max(<T2 as ToRef>::mem_type()).spec_max(<T3 as ToRef>::mem_type()), <T4 as ToRef>::mem_type());
        lemma_max_parts(MemType::Primitive.spec_max(<T1 as ToRef>::mem_type()).spec_max(<T2 as ToRef>::mem_type()), <T3 as ToRef>::mem_type());
        lemma_max_parts(MemType::Primitive.spec_max(<T1 as ToRef>::mem_type()), <T2 as ToRef>::mem_type());
        lemma_max_parts(MemType::Primitive, <T1 as ToRef>::mem_type());
        self.0.lemma_flat();
        self.1.lemma_flat();
        self.2.lemma_flat();
        self.3.lemma_flat();
        self.4.lemma_flat();
        self.5.lemma_flat();
        self.6.lemma_flat();
        self.7.lemma_flat();
        self.8.lemma_flat();
    }

    proof fn lemma_primitive(&self, r: (<T1 as ToRef>::Ref, <T2 as ToRef>::Ref, <T3 as ToRef>::Ref, <T4 as ToRef>::Ref, <T5 as ToRef>::Ref, <T6 as ToRef>::Ref, <T7 as ToRef>::Ref, <T8 as ToRef>::Ref, <T9 as ToRef>::Ref), img: Image, lo: int, hi: int, deep: bool) {
        lemma_max_parts(MemType::Primitive.spec_max(<T1 as ToRef>::mem_type()).spec_max(<T2 as ToRef>::mem_type()).spec_max(<T3 as ToRef>::mem_type()).spec_max(<T4 as ToRef>::mem_type()).spec_max(<T5 as ToRef>::mem_type()).spec_max(<T6 as ToRef>::mem_type()).spec_max(<T7 as ToRef>::mem_type()).spec_max(<T8 as ToRef>::mem_type()), <T9 as ToRef>::mem_type());
        lemma_max_parts(MemType::Primitive.spec_max(<T1 as ToRef>::mem_type()).spec_max(<T2 as ToRef>::mem_type()).spec_max(<T3 as ToRef>::mem_type()).spec_max(<T4 as ToRef>::mem_type()).spec_max(<T5 as ToRef>::mem_type()).spec_max(<T6 as ToRef>::mem_type()).spec_max(<T7 as ToRef>::mem_type()), <T8 as ToRef>::mem_type());
        lemma_max_parts(MemType::Primitive.spec_max(<T1 as ToRef>::mem_type()).spec_max(<T2 as ToRef>::mem_type()).spec_max(<T3 as ToRef>::mem_type()).spec_max(<T4 as ToRef>::mem_type()).spec_max(<T5 as ToRef>::mem_type()).spec_max(<T6 as ToRef>::mem_type()), <T7 as ToRef>::mem_type());
        lemma_max_parts(MemType::Primitive.spec_max(<T1 as ToRef>::mem_type()).spec_max(<T2 as ToRef>::mem_type()).spec_max(<T3 as ToRef>::mem_type()).spec_max(<T4 as ToRef>::mem_type()).spec_max(<T5 as ToRef>::mem_type()), <T6 as ToRef>::mem_type());
        lemma_max_parts(MemType::Primitive.spec_max(<T1 as ToRef>::mem_type()).spec_max(<T2 as ToRef>::mem_type()).spec_max(<T3 as ToRef>::mem_type()).spec_max(<T4 as ToRef>::mem_type()), <T5 as ToRef>::mem_type());
        lemma_max_parts(MemType::Primitive.spec_max(<T1 as ToRef>::mem_type()).spec_max(<T2 as ToRef>::mem_type()).spec_max(<T3 as ToRef>::mem_type()), <T4 as ToRef>::mem_type());
        lemma_max_parts(MemType::Primitive.spec_max(<T1 as ToRef>::mem_type()).spec_max(<T2 as ToRef>::mem_type()), <T3 as ToRef>::mem_type());
        lemma_max_parts(MemType::Primitive.spec_max(<T1 as ToRef>::mem_type()), <T2 as ToRef>::mem_type());
        lemma_max_parts(MemType::Primitive, <T1 as ToRef>::mem_type());
        self.0.lemma_primitive(r.0, img, lo, hi, deep);
        self.1.lemma_primitive(r.1, img, lo, hi, deep);
        self.2.lemma_primitive(r.2, img, lo, hi, deep);
        self.3.lemma_primitive(r.3, img, lo, hi, deep);
        self.4.lemma_primitive(r.4, img, lo, hi, deep);
        self.5.lemma_primitive(r.5, img, lo, hi, deep);
        self.6.lemma_primitive(r.6, img, lo, hi, deep);
        self.7.lemma_primitive(r.7, img, lo, hi, deep);
        self.8.lemma_primitive(r.8, img, lo, hi, deep);
        if Self::mem_type() == MemType::Primitive {
            assert(self.pins(r, img) =~= Seq::<Piece>::empty());
        }
    }

    proof fn lemma_deepen(&self, r: (<T1 as ToRef>::Ref, <T2 as ToRef>::Ref, <T3 as ToRef>::Ref, <T4 as ToRef>::Ref, <T5 as ToRef>::Ref, <T6 as ToRef>::Ref, <T7 as ToRef>::Ref, <T8 as ToRef>::Ref, <T9 as ToRef>::Ref), img: Image, other: Image, lo: int, hi: int) {
        lemma_holds_all_concat(other, self.0.pins(r.0, img) + self.1.pins(r.1, img) + self.2.pins(r.2, img) + self.3.pins(r.3, img) + self.4.pins(r.4, img) + self.5.pins(r.5, img) + self.6.pins(r.6, img) + self.7.pins(r.7, img), self.8.pins(r.8, img));
        lemma_holds_all_concat(other, self.0.pins(r.0, img) + self.1.pins(r.1, img) + self.2.pins(r.2, img) + self.3.pins(r.3, img) + self.4.pins(r.4, img) + self.5.pins(r.5, img) + self.6.pins(r.6, img), self.7.pins(r.7, img));
        lemma_holds_all_concat(other, self.0.pins(r.0, img) + self.1.pins(r.1, img) + self.2.pins(r.2, img) + self.3.pins(r.3, img) + self.4.pins(r.4, img) + self.5.pins(r.5, img), self.6.pins(r.6, img));
        lemma_holds_all_concat(other, self.0.pins(r.0, img) + self.1.pins(r.1, img) + self.2.pins(r.2, img) + self.3.pins(r.3, img) + self.4.pins(r.4, img), self.5.pins(r.5, img));
        lemma_holds_all_concat(other, self.0.pins(r.0, img) + self.1.pins(r.1, img) + self.2.pins(r.2, img) + self.3.pins(r.3, img), self.4.pins(r.4, img));
        lemma_holds_all_concat(other, self.0.pins(r.0, img) + self.1.pins(r.1, img) + self.2.pins(r.2, img), self.3.pins(r.3, img));
        lemma_holds_all_concat(other, self.0.pins(r.0, img) + self.1.pins(r.1, img), self.2.pins(r.2, img));
        lemma_holds_all_concat(other, self.0.pins(r.0, img), self.1.pins(r.1, img));
        self.0.lemma_deepen(r.0, img, other, lo, hi);
        self.1.lemma_deepen(r.1, img, other, lo, hi);
        self.2.lemma_deepen(r.2, img, other, lo, hi);
        self.3.lemma_deepen(r.3, img, other, lo, hi);
        self.4.lemma_deepen(r.4, img, other, lo, hi);
        self.5.lemma_deepen(r.5, img, other, lo, hi);
        self.6.lemma_deepen(r.6, img, other, lo, hi);
        self.7.lemma_deepen(r.7, img, other, lo, hi);
        self.8.lemma_deepen(r.8, img, other, lo, hi);
    }

    proof fn lemma_frame(&self, r: (<T1 as ToRef>::Ref, <T2 as ToRef>::Ref, <T3 as ToRef>::Ref, <T4 as ToRef>::Ref, <T5 as ToRef>::Ref, <T6 as ToRef>::Ref, <T7 as ToRef>::Ref, <T8 as ToRef>::Ref, <T9 as ToRef>::Ref), img: Image, other: Image, lo: int, hi: int, deep: bool) {
        self.0.lemma_frame(r.0, img, other, lo, hi, deep);
        self.1.lemma_frame(r.1, img, other, lo, hi, deep);
        self.2.lemma_frame(r.2, img, other, lo, hi, deep);
        self.3.lemma_frame(r.3, img, other, lo, hi, deep);
        self.4.lemma_frame(r.4, img, other, lo, hi, deep);
        self.5.lemma_frame(r.5, img, other, lo, hi, deep);
        self.6.lemma_frame(r.6, img, other, lo, hi, deep);
        self.7.lemma_frame(r.7, img, other, lo, hi, deep);
        self.8.lemma_frame(r.8, img, other, lo, hi, deep);
    }

    proof fn lemma_widen(
        &self,
        r: (<T1 as ToRef>::Ref, <T2 as ToRef>::Ref, <T3 as ToRef>::Ref, <T4 as ToRef>::Ref, <T5 as ToRef>::Ref, <T6 as ToRef>::Ref, <T7 as ToRef>::Ref, <T8 as ToRef>::Ref, <T9 as ToRef>::Ref),
        img: Image,
        lo: int,
        hi: int,
        wide_lo: int,
        wide_hi: int,
        deep: bool,
    ) {
        self.0.lemma_widen(r.0, img, lo, hi, wide_lo, wide_hi, deep);
        self.1.lemma_widen(r.1, img, lo, hi, wide_lo, wide_hi, deep);
        self.2.lemma_widen(r.2, img, lo, hi, wide_lo, wide_hi, deep);
        self.3.lemma_widen(r.3, img, lo, hi, wide_lo, wide_hi, deep);
        self.4.lemma_widen(r.4, img, lo, hi, wide_lo, wide_hi, deep);
        self.5.lemma_widen(r.5, img, lo, hi, wide_lo, wide_hi, deep);
        self.6.lemma_widen(r.6, img, lo, hi, wide_lo, wide_hi, deep);
        self.7.lemma_widen(r.7, img, lo, hi, wide_lo, wide_hi, deep);
        self.8.lemma_widen(r.8, img, lo, hi, wide_lo, wide_hi, deep);
    }

    fn mem_type_of() -> (t: MemType) {
        MemType::Primitive.max(<T1 as ToRef>::mem_type_of()).max(<T2 as ToRef>::mem_type_of()).max(<T3 as ToRef>::mem_type_of()).max(<T4 as ToRef>::mem_type_of()).max(<T5 as ToRef>::mem_type_of()).max(<T6 as ToRef>::mem_type_of()).max(<T7 as ToRef>::mem_type_of()).max(<T8 as ToRef>::mem_type_of()).max(<T9 as ToRef>::mem_type_of())
    }

    fn to_size(&self, acc: &mut usize) {
        self.0.to_size(acc);
        self.1.to_size(acc);
        self.2.to_size(acc);
        self.3.to_size(acc);
        self.4.to_size(acc);
        self.5.to_size(acc);
        self.6.to_size(acc);
        self.7.to_size(acc);
        self.8.to_size(acc);
    }

    fn checked_size(&self, acc: usize) -> (sum: Option<usize>) {
        let sum0 = acc;
        let sum1 = match self.0.checked_size(sum0) {
            Some(next) => next,
            None => {
                return None;
            },
        };
        let sum2 = match self.1.checked_size(sum1) {
            Some(next) => next,
            None => {
                return None;
            },
        };
        let sum3 = match self.2.checked_size(sum2) {
            Some(next) => next,
            None => {
                return None;
            },
        };
        let sum4 = match self.3.checked_size(sum3) {
            Some(next) => next,
            None => {
                return None;
            },
        };
        let sum5 = match self.4.checked_size(sum4) {
            Some(next) => next,
            None => {
                return None;
            },
        };
        let sum6 = match self.5.checked_size(sum5) {
            Some(next) => next,
            None => {
                return None;
            },
        };
        let sum7 = match self.6.checked_size(sum6) {
            Some(next) => next,
            None => {
                return None;
            },
        };
        let sum8 = match self.7.checked_size(sum7) {
            Some(next) => next,
            None => {
                return None;
            },
        };
        let sum9 = match self.8.checked_size(sum8) {
            Some(next) => next,
            None => {
                return None;
            },
        };
        Some(sum9)
    }

    fn to_ref(&self, writer: &mut Writer) -> (r: (<T1 as ToRef>::Ref, <T2 as ToRef>::Ref, <T3 as ToRef>::Ref, <T4 as ToRef>::Ref, <T5 as ToRef>::Ref, <T6 as ToRef>::Ref, <T7 as ToRef>::Ref, <T8 as ToRef>::Ref, <T9 as ToRef>::Ref)) {
        let ghost base = writer.base() as int;
        let ghost w0 = *writer;
        proof {
            writer.lemma_bounds();
            lemma_keeps_same(writer.arena(), writer.cursor());
            lemma_max_parts(MemType::Primitive.spec_max(<T1 as ToRef>::mem_type()).spec_max(<T2 as ToRef>::mem_type()).spec_max(<T3 as ToRef>::mem_type()).spec_max(<T4 as ToRef>::mem_type()).spec_max(<T5 as ToRef>::mem_type()).spec_max(<T6 as ToRef>::mem_type()).spec_max(<T7 as ToRef>::mem_type()).spec_max(<T8 as ToRef>::mem_type()), <T9 as ToRef>::mem_type());
            lemma_max_parts(MemType::Primitive.spec_max(<T1 as ToRef>::mem_type()).spec_max(<T2 as ToRef>::mem_type()).spec_max(<T3 as ToRef>::mem_type()).spec_max(<T4 as ToRef>::mem_type()).spec_max(<T5 as ToRef>::mem_type()).spec_max(<T6 as ToRef>::mem_type()).spec_max(<T7 as ToRef>::mem_type()), <T8 as ToRef>::mem_type());
            lemma_max_parts(MemType::Primitive.spec_max(<T1 as ToRef>::mem_type()).spec_max(<T2 as ToRef>::mem_type()).spec_max(<T3 as ToRef>::mem_type()).spec_max(<T4 as ToRef>::mem_type()).spec_max(<T5 as ToRef>::mem_type()).spec_max(<T6 as ToRef>::mem_type()), <T7 as ToRef>::mem_type());
            lemma_max_parts(MemType::Primitive.spec_max(<T1 as ToRef>::mem_type()).spec_max(<T2 as ToRef>::mem_type()).spec_max(<T3 as ToRef>::mem_type()).spec_max(<T4 as ToRef>::mem_type()).spec_max(<T5 as ToRef>::mem_type()), <T6 as ToRef>::mem_type());
            lemma_max_parts(MemType::Primitive.spec_max(<T1 as ToRef>::mem_type()).spec_max(<T2 as ToRef>::mem_type()).spec_max(<T3 as ToRef>::mem_type()).spec_max(<T4 as ToRef>::mem_type()), <T5 as ToRef>::mem_type());
            lemma_max_parts(MemType::Primitive.spec_max(<T1 as ToRef>::mem_type()).spec_max(<T2 as ToRef>::mem_type()).spec_max(<T3 as ToRef>::mem_type()), <T4 as ToRef>::mem_type());
            lemma_max_parts(MemType::Primitive.spec_max(<T1 as ToRef>::mem_type()).spec_max(<T2 as ToRef>::mem_type()), <T3 as ToRef>::mem_type());
            lemma_max_parts(MemType::Primitive.spec_max(<T1 as ToRef>::mem_type()), <T2 as ToRef>::mem_type());
            lemma_max_parts(MemType::Primitive, <T1 as ToRef>::mem_type());
        }
        let f0 = self.0.to_ref(writer);
        let ghost w1 = *writer;
        proof {
            writer.lemma_bounds();
        }
        let f1 = self.1.to_ref(writer);
        let ghost w2 = *writer;
        proof {
            writer.lemma_bounds();
        }
        let f2 = self.2.to_ref(writer);
        let ghost w3 = *writer;
        proof {
            writer.lemma_bounds();
        }
        let f3 = self.3.to_ref(writer);
        let ghost w4 = *writer;
        proof {
            writer.lemma_bounds();
        }
        let f4 = self.4.to_ref(writer);
        let ghost w5 = *writer;
        proof {
            writer.lemma_bounds();
        }
        let f5 = self.5.to_ref(writer);
        let ghost w6 = *writer;
        proof {
            writer.lemma_bounds();
        }
        let f6 = self.6.to_ref(writer);
        let ghost w7 = *writer;
        proof {
            writer.lemma_bounds();
        }
        let f7 = self.7.to_ref(writer);
        let ghost w8 = *writer;
        proof {
            writer.lemma_bounds();
        }
        let f8 = self.8.to_ref(writer);
        let ghost w9 = *writer;
        proof {
            writer.lemma_bounds();
        }
        proof {
            lemma_keeps_trans(w7.arena(), w8.arena(), w9.arena(), w7.cursor(), w8.cursor());
            lemma_keeps_trans(w6.arena(), w7.arena(), w9.arena(), w6.cursor(), w7.cursor());
            lemma_keeps_trans(w5.arena(), w6.arena(), w9.arena(), w5.cursor(), w6.cursor());
            lemma_keeps_trans(w4.arena(), w5.arena(), w9.arena(), w4.cursor(), w5.cursor());
            lemma_keeps_trans(w3.arena(), w4.arena(), w9.arena(), w3.cursor(), w4.cursor());
            lemma_keeps_trans(w2.arena(), w3.arena(), w9.arena(), w2.cursor(), w3.cursor());
            lemma_keeps_trans(w1.arena(), w2.arena(), w9.arena(), w1.cursor(), w2.cursor());
            lemma_keeps_trans(w0.arena(), w1.arena(), w9.arena(), w0.cursor(), w1.cursor());
            lemma_view_stays(&self.0, f0, w1, w9, base + w0.cursor(), base + w1.cursor());
            lemma_view_stays(&self.1, f1, w2, w9, base + w1.cursor(), base + w2.cursor());
            lemma_view_stays(&self.2, f2, w3, w9, base + w2.cursor(), base + w3.cursor());
            lemma_view_stays(&self.3, f3, w4, w9, base + w3.cursor(), base + w4.cursor());
            lemma_view_stays(&self.4, f4, w5, w9, base + w4.cursor(), base + w5.cursor());
            lemma_view_stays(&self.5, f5, w6, w9, base + w5.cursor(), base + w6.cursor());
            lemma_view_stays(&self.6, f6, w7, w9, base + w6.cursor(), base + w7.cursor());
            lemma_view_stays(&self.7, f7, w8, w9, base + w7.cursor(), base + w8.cursor());
            self.0.lemma_widen(f0, w9.image(), base + w0.cursor(), base + w1.cursor(), base + w0.cursor(), base + w9.cursor(), false);
            self.1.lemma_widen(f1, w9.image(), base + w1.cursor(), base + w2.cursor(), base + w0.cursor(), base + w9.cursor(), false);
            self.2.lemma_widen(f2, w9.image(), base + w2.cursor(), base + w3.cursor(), base + w0.cursor(), base + w9.cursor(), false);
            self.3.lemma_widen(f3, w9.image(), base + w3.cursor(), base + w4.cursor(), base + w0.cursor(), base + w9.cursor(), false);
            self.4.lemma_widen(f4, w9.image(), base + w4.cursor(), base + w5.cursor(), base + w0.cursor(), base + w9.cursor(), false);
            self.5.lemma_widen(f5, w9.image(), base + w5.cursor(), base + w6.cursor(), base + w0.cursor(), base + w9.cursor(), false);
            self.6.lemma_widen(f6, w9.image(), base + w6.cursor(), base + w7.cursor(), base + w0.cursor(), base + w9.cursor(), false);
            self.7.lemma_widen(f7, w9.image(), base + w7.cursor(), base + w8.cursor(), base + w0.cursor(), base + w9.cursor(), false);
            self.8.lemma_widen(f8, w9.image(), base + w8.cursor(), base + w9.cursor(), base + w0.cursor(), base + w9.cursor(), false);
        }
        (f0, f1, f2, f3, f4, f5, f6, f7, f8)
    }

    fn pinned<M: MemoryRead>(&self, r: &(<T1 as ToRef>::Ref, <T2 as ToRef>::Ref, <T3 as ToRef>::Ref, <T4 as ToRef>::Ref, <T5 as ToRef>::Ref, <T6 as ToRef>::Ref, <T7 as ToRef>::Ref, <T8 as ToRef>::Ref, <T9 as ToRef>::Ref), mem: &M, out: &mut Vec<Segment>) {
        self.0.pinned(&r.0, mem, out);
        self.1.pinned(&r.1, mem, out);
        self.2.pinned(&r.2, mem, out);
        self.3.pinned(&r.3, mem, out);
        self.4.pinned(&r.4, mem, out);
        self.5.pinned(&r.5, mem, out);
        self.6.pinned(&r.6, mem, out);
        self.7.pinned(&r.7, mem, out);
        self.8.pinned(&r.8, mem, out);
        assert(pieces_of(out@) =~= pieces_of(old(out)@) + self.pins(*r, mem.image()));
    }
}

impl<T1: FromRef, T2: FromRef, T3: FromRef, T4: FromRef, T5: FromRef, T6: FromRef, T7: FromRef, T8: FromRef, T9: FromRef> FromRef for (T1, T2, T3, T4, T5, T6, T7, T8, T9) {
    open spec fn decoded(r: (<T1 as ToRef>::Ref, <T2 as ToRef>::Ref, <T3 as ToRef>::Ref, <T4 as ToRef>::Ref, <T5 as ToRef>::Ref, <T6 as ToRef>::Ref, <T7 as ToRef>::Ref, <T8 as ToRef>::Ref, <T9 as ToRef>::Ref), img: Image) -> Option<(<T1 as DeepView>::V, <T2 as DeepView>::V, <T3 as DeepView>::V, <T4 as DeepView>::V, <T5 as DeepView>::V, <T6 as DeepView>::V, <T7 as DeepView>::V, <T8 as DeepView>::V, <T9 as DeepView>::V)> {
        match (<T1 as FromRef>::decoded(r.0, img), <T2 as FromRef>::decoded(r.1, img), <T3 as FromRef>::decoded(r.2, img), <T4 as FromRef>::decoded(r.3, img), <T5 as FromRef>::decoded(r.4, img), <T6 as FromRef>::decoded(r.5, img), <T7 as FromRef>::decoded(r.6, img), <T8 as FromRef>::decoded(r.7, img), <T9 as FromRef>::decoded(r.8, img)) {
            (Some(v0), Some(v1), Some(v2), Some(v3), Some(v4), Some(v5), Some(v6), Some(v7), Some(v8)) => Some((v0, v1, v2, v3, v4, v5, v6, v7, v8)),
            _ => None,
        }
    }

    proof fn lemma_round_trip(&self, r: (<T1 as ToRef>::Ref, <T2 as ToRef>::Ref, <T3 as ToRef>::Ref, <T4 as ToRef>::Ref, <T5 as ToRef>::Ref, <T6 as ToRef>::Ref, <T7 as ToRef>::Ref, <T8 as ToRef>::Ref, <T9 as ToRef>::Ref), img: Image, lo: int, hi: int) {
        self.0.lemma_round_trip(r.0, img, lo, hi);
        self.1.lemma_round_trip(r.1, img, lo, hi);
        self.2.lemma_round_trip(r.2, img, lo, hi);
        self.3.lemma_round_trip(r.3, img, lo, hi);
        self.4.lemma_round_trip(r.4, img, lo, hi);
        self.5.lemma_round_trip(r.5, img, lo, hi);
        self.6.lemma_round_trip(r.6, img, lo, hi);
        self.7.lemma_round_trip(r.7, img, lo, hi);
        self.8.lemma_round_trip(r.8, img, lo, hi);
    }

    fn from_ref<M: MemoryRead>(r: &(<T1 as ToRef>::Ref, <T2 as ToRef>::Ref, <T3 as ToRef>::Ref, <T4 as ToRef>::Ref, <T5 as ToRef>::Ref, <T6 as ToRef>::Ref, <T7 as ToRef>::Ref, <T8 as ToRef>::Ref, <T9 as ToRef>::Ref), mem: &M) -> (o: Option<Self>) {
        let v0 = match <T1 as FromRef>::from_ref(&r.0, mem) {
            Some(v) => v,
            None => {
                return None;
            },
        };
        let v1 = match <T2 as FromRef>::from_ref(&r.1, mem) {
            Some(v) => v,
            None => {
                return None;
            },
        };
        let v2 = match <T3 as FromRef>::from_ref(&r.2, mem) {
            Some(v) => v,
            None => {
                return None;
            },
        };
        let v3 = match <T4 as FromRef>::from_ref(&r.3, mem) {
            Some(v) => v,
            None => {
                return None;
            },
        };
        let v4 = match <T5 as FromRef>::from_ref(&r.4, mem) {
            Some(v) => v,
            None => {
                return None;
            },
        };
        let v5 = match <T6 as FromRef>::from_ref(&r.5, mem) {
            Some(v) => v,
            None => {
                return None;
            },
        };
        let v6 = match <T7 as FromRef>::from_ref(&r.6, mem) {
            Some(v) => v,
            None => {
                return None;
            },
        };
        let v7 = match <T8 as FromRef>::from_ref(&r.7, mem) {
            Some(v) => v,
            None => {
                return None;
            },
        };
        let v8 = match <T9 as FromRef>::from_ref(&r.8, mem) {
            Some(v) => v,
            None => {
                return None;
            },
        };
        Some((v0, v1, v2, v3, v4, v5, v6, v7, v8))
    }
}

impl<T1: ToRef, T2: ToRef, T3: ToRef, T4: ToRef, T5: ToRef, T6: ToRef, T7: ToRef, T8: ToRef, T9: ToRef, T10: ToRef> ToRef for (T1, T2, T3, T4, T5, T6, T7, T8, T9, T10) {
    type Ref = (<T1 as ToRef>::Ref, <T2 as ToRef>::Ref, <T3 as ToRef>::Ref, <T4 as ToRef>::Ref, <T5 as ToRef>::Ref, <T6 as ToRef>::Ref, <T7 as ToRef>::Ref, <T8 as ToRef>::Ref, <T9 as ToRef>::Ref, <T10 as ToRef>::Ref);

    open spec fn mem_type() -> MemType {
        MemType::Primitive.spec_max(<T1 as ToRef>::mem_type()).spec_max(<T2 as ToRef>::mem_type()).spec_max(<T3 as ToRef>::mem_type()).spec_max(<T4 as ToRef>::mem_type()).spec_max(<T5 as ToRef>::mem_type()).spec_max(<T6 as ToRef>::mem_type()).spec_max(<T7 as ToRef>::mem_type()).spec_max(<T8 as ToRef>::mem_type()).spec_max(<T9 as ToRef>::mem_type()).spec_max(<T10 as ToRef>::mem_type())
    }

    open spec fn size(&self) -> nat {
        self.0.size() + self.1.size() + self.2.size() + self.3.size() + self.4.size() + self.5.size() + self.6.size() + self.7.size() + self.8.size() + self.9.size()
    }

    open spec fn views(&self, r: (<T1 as ToRef>::Ref, <T2 as ToRef>::Ref, <T3 as ToRef>::Ref, <T4 as ToRef>::Ref, <T5 as ToRef>::Ref, <T6 as ToRef>::Ref, <T7 as ToRef>::Ref, <T8 as ToRef>::Ref, <T9 as ToRef>::Ref, <T10 as ToRef>::Ref), img: Image, lo: int, hi: int, deep: bool) -> bool {
        &&& self.0.views(r.0, img, lo, hi, deep)
        &&& self.1.views(r.1, img, lo, hi, deep)
        &&& self.2.views(r.2, img, lo, hi, deep)
        &&& self.3.views(r.3, img, lo, hi, deep)
        &&& self.4.views(r.4, img, lo, hi, deep)
        &&& self.5.views(r.5, img, lo, hi, deep)
        &&& self.6.views(r.6, img, lo, hi, deep)
        &&& self.7.views(r.7, img, lo, hi, deep)
        &&& self.8.views(r.8, img, lo, hi, deep)
        &&& self.9.views(r.9, img, lo, hi, deep)
    }

    open spec fn flat(&self) -> (<T1 as ToRef>::Ref, <T2 as ToRef>::Ref, <T3 as ToRef>::Ref, <T4 as ToRef>::Ref, <T5 as ToRef>::Ref, <T6 as ToRef>::Ref, <T7 as ToRef>::Ref, <T8 as ToRef>::Ref, <T9 as ToRef>::Ref, <T10 as ToRef>::Ref) {
        (self.0.flat(), self.1.flat(), self.2.flat(), self.3.flat(), self.4.flat(), self.5.flat(), self.6.flat(), self.7.flat(), self.8.flat(), self.9.flat())
    }

    open spec fn pins(&self, r: (<T1 as ToRef>::Ref, <T2 as ToRef>::Ref, <T3 as ToRef>::Ref, <T4 as ToRef>::Ref, <T5 as ToRef>::Ref, <T6 as ToRef>::Ref, <T7 as ToRef>::Ref, <T8 as ToRef>::Ref, <T9 as ToRef>::Ref, <T10 as ToRef>::Ref), img: Image) -> Seq<Piece> {
        self.0.pins(r.0, img) + self.1.pins(r.1, img) + self.2.pins(r.2, img) + self.3.pins(r.3, img) + self.4.pins(r.4, img) + self.5.pins(r.5, img) + self.6.pins(r.6, img) + self.7.pins(r.7, img) + self.8.pins(r.8, img) + self.9.pins(r.9, img)
    }

    proof fn lemma_flat(&self) {
        lemma_max_parts(MemType::Primitive.spec_max(<T1 as ToRef>::mem_type()).spec_max(<T2 as ToRef>::mem_type()).spec_max(<T3 as ToRef>::mem_type()).spec_max(<T4 as ToRef>::mem_type()).spec_max(<T5 as ToRef>::mem_type()).spec_max(<T6 as ToRef>::mem_type()).spec_max(<T7 as ToRef>::mem_type()).spec_max(<T8 as ToRef>::mem_type()).spec_max(<T9 as ToRef>::mem_type()), <T10 as ToRef>::mem_type());
        lemma_max_parts(MemType::Primitive.spec_max(<T1 as ToRef>::mem_type()).spec_max(<T2 as ToRef>::mem_type()).spec_max(<T3 as ToRef>::mem_type()).spec_max(<T4 as ToRef>::mem_type()).spec_max(<T5 as ToRef>::mem_type()).spec_max(<T6 as ToRef>::mem_type()).spec_max(<T7 as ToRef>::mem_type()).spec_max(<T8 as ToRef>::mem_type()), <T9 as ToRef>::mem_type());
        lemma_max_parts(MemType::Primitive.spec_max(<T1 as ToRef>::mem_type()).spec_max(<T2 as ToRef>::mem_type()).spec_max(<T3 as ToRef>::mem_type()).spec_max(<T4 as ToRef>::mem_type()).spec_max(<T5 as ToRef>::mem_type()).spec_max(<T6 as ToRef>::mem_type()).spec_max(<T7 as ToRef>::mem_type()), <T8 as ToRef>::mem_type());
        lemma_max_parts(MemType::Primitive.spec_max(<T1 as ToRef>::mem_type()).spec_max(<T2 as ToRef>::mem_type()).spec_max(<T3 as ToRef>::mem_type()).spec_max(<T4 as ToRef>::mem_type()).spec_max(<T5 as ToRef>::mem_type()).spec_max(<T6 as ToRef>::mem_type()), <T7 as ToRef>::mem_type());
        lemma_max_parts(MemType::Primitive.spec_max(<T1 as ToRef>::mem_type()).spec_max(<T2 as ToRef>::mem_type()).spec_max(<T3 as ToRef>::mem_type()).spec_max(<T4 as ToRef>::mem_type()).spec_max(<T5 as ToRef>::mem_type()), <T6 as ToRef>::mem_type());
        lemma_max_parts(MemType::Primitive.spec_max(<T1 as ToRef>::mem_type()).spec_max(<T2 as ToRef>::mem_type()).spec_max(<T3 as ToRef>::mem_type()).spec_max(<T4 as ToRef>::mem_type()), <T5 as ToRef>::mem_type());
        lemma_max_parts(MemType::Primitive.spec_max(<T1 as ToRef>::mem_type()).spec_max(<T2 as ToRef>::mem_type()).spec_max(<T3 as ToRef>::mem_type()), <T4 as ToRef>::mem_type());
        lemma_max_parts(MemType::Primitive.spec_max(<T1 as ToRef>::mem_type()).spec_max(<T2 as ToRef>::mem_type()), <T3 as ToRef>::mem_type());
        lemma_max_parts(MemType::Primitive.spec_max(<T1 as ToRef>::mem_type()), <T2 as ToRef>::mem_type());
        lemma_max_parts(MemType::Primitive, <T1 as ToRef>::mem_type());
        self.0.lemma_flat();
        self.1.lemma_flat();
        self.2.lemma_flat();
        self.3.lemma_flat();
        self.4.lemma_flat();
        self.5.lemma_flat();
        self.6.lemma_flat();
        self.7.lemma_flat();
        self.8.lemma_flat();
        self.9.lemma_flat();
    }

    proof fn lemma_primitive(&self, r: (<T1 as ToRef>::Ref, <T2 as ToRef>::Ref, <T3 as ToRef>::Ref, <T4 as ToRef>::Ref, <T5 as ToRef>::Ref, <T6 as ToRef>::Ref, <T7 as ToRef>::Ref, <T8 as ToRef>::Ref, <T9 as ToRef>::Ref, <T10 as ToRef>::Ref), img: Image, lo: int, hi: int, deep: bool) {
        lemma_max_parts(MemType::Primitive.spec_max(<T1 as ToRef>::mem_type()).spec_max(<T2 as ToRef>::mem_type()).spec_max(<T3 as ToRef>::mem_type()).spec_max(<T4 as ToRef>::mem_type()).spec_max(<T5 as ToRef>::mem_type()).spec_max(<T6 as ToRef>::mem_type()).spec_max(<T7 as ToRef>::mem_type()).spec_max(<T8 as ToRef>::mem_type()).spec_max(<T9 as ToRef>::mem_type()), <T10 as ToRef>::mem_type());
        lemma_max_parts(MemType::Primitive.spec_max(<T1 as ToRef>::mem_type()).spec_max(<T2 as ToRef>::mem_type()).spec_max(<T3 as ToRef>::mem_type()).spec_max(<T4 as ToRef>::mem_type()).spec_max(<T5 as ToRef>::mem_type()).spec_max(<T6 as ToRef>::mem_type()).spec_max(<T7 as ToRef>::mem_type()).spec_max(<T8 as ToRef>::mem_type()), <T9 as ToRef>::mem_type());
        lemma_max_parts(MemType::Primitive.spec_max(<T1 as ToRef>::mem_type()).spec_max(<T2 as ToRef>::mem_type()).spec_max(<T3 as ToRef>::mem_type()).spec_max(<T4 as ToRef>::mem_type()).spec_max(<T5 as ToRef>::mem_type()).spec_max(<T6 as ToRef>::mem_type()).spec_max(<T7 as ToRef>::mem_type()), <T8 as ToRef>::mem_type());
        lemma_max_parts(MemType::Primitive.spec_max(<T1 as ToRef>::mem_type()).spec_max(<T2 as ToRef>::mem_type()).spec_max(<T3 as ToRef>::mem_type()).spec_max(<T4 as ToRef>::mem_type()).spec_max(<T5 as ToRef>::mem_type()).spec_max(<T6 as ToRef>::mem_type()), <T7 as ToRef>::mem_type());
        lemma_max_parts(MemType::Primitive.spec_max(<T1 as ToRef>::mem_type()).spec_max(<T2 as ToRef>::mem_type()).spec_max(<T3 as ToRef>::mem_type()).spec_max(<T4 as ToRef>::mem_type()).spec_max(<T5 as ToRef>::mem_type()), <T6 as ToRef>::mem_type());
        lemma_max_parts(MemType::Primitive.spec_max(<T1 as ToRef>::mem_type()).spec_max(<T2 as ToRef>::mem_type()).spec_max(<T3 as ToRef>::mem_type()).spec_max(<T4 as ToRef>::mem_type()), <T5 as ToRef>::mem_type());
        lemma_max_parts(MemType::Primitive.spec_max(<T1 as ToRef>::mem_type()).spec_max(<T2 as ToRef>::mem_type()).spec_max(<T3 as ToRef>::mem_type()), <T4 as ToRef>::mem_type());
        lemma_max_parts(MemType::Primitive.spec_max(<T1 as ToRef>::mem_type()).spec_max(<T2 as ToRef>::mem_type()), <T3 as ToRef>::mem_type());
        lemma_max_parts(MemType::Primitive.spec_max(<T1 as ToRef>::mem_type()), <T2 as ToRef>::mem_type());
        lemma_max_parts(MemType::Primitive, <T1 as ToRef>::mem_type());
        self.0.lemma_primitive(r.0, img, lo, hi, deep);
        self.1.lemma_primitive(r.1, img, lo, hi, deep);
        self.2.lemma_primitive(r.2, img, lo, hi, deep);
        self.3.lemma_primitive(r.3, img, lo, hi, deep);
        self.4.lemma_primitive(r.4, img, lo, hi, deep);
        self.5.lemma_primitive(r.5, img, lo, hi, deep);
        self.6.lemma_primitive(r.6, img, lo, hi, deep);
        self.7.lemma_primitive(r.7, img, lo, hi, deep);
        self.8.lemma_primitive(r.8, img, lo, hi, deep);
        self.9.lemma_primitive(r.9, img, lo, hi, deep);
        if Self::mem_type() == MemType::Primitive {
            assert(self.pins(r, img) =~= Seq::<Piece>::empty());
        }
    }

    proof fn lemma_deepen(&self, r: (<T1 as ToRef>::Ref, <T2 as ToRef>::Ref, <T3 as ToRef>::Ref, <T4 as ToRef>::Ref, <T5 as ToRef>::Ref, <T6 as ToRef>::Ref, <T7 as ToRef>::Ref, <T8 as ToRef>::Ref, <T9 as ToRef>::Ref, <T10 as ToRef>::Ref), img: Image, other: Image, lo: int, hi: int) {
        lemma_holds_all_concat(other, self.0.pins(r.0, img) + self.1.pins(r.1, img) + self.2.pins(r.2, img) + self.3.pins(r.3, img) + self.4.pins(r.4, img) + self.5.pins(r.5, img) + self.6.pins(r.6, img) + self.7.pins(r.7, img) + self.8.pins(r.8, img), self.9.pins(r.9, img));
        lemma_holds_all_concat(other, self.0.pins(r.0, img) + self.1.pins(r.1, img) + self.2.pins(r.2, img) + self.3.pins(r.3, img) + self.4.pins(r.4, img) + self.5.pins(r.5, img) + self.6.pins(r.6, img) + self.7.pins(r.7, img), self.8.pins(r.8, img));
        lemma_holds_all_concat(other, self.0.pins(r.0, img) + self.1.pins(r.1, img) + self.2.pins(r.2, img) + self.3.pins(r.3, img) + self.4.pins(r.4, img) + self.5.pins(r.5, img) + self.6.pins(r.6, img), self.7.pins(r.7, img));
        lemma_holds_all_concat(other, self.0.pins(r.0, img) + self.1.pins(r.1, img) + self.2.pins(r.2, img) + self.3.pins(r.3, img) + self.4.pins(r.4, img) + self.5.pins(r.5, img), self.6.pins(r.6, img));
        lemma_holds_all_concat(other, self.0.pins(r.0, img) + self.1.pins(r.1, img) + self.2.pins(r.2, img) + self.3.pins(r.3, img) + self.4.pins(r.4, img), self.5.pins(r.5, img));
        lemma_holds_all_concat(other, self.0.pins(r.0, img) + self.1.pins(r.1, img) + self.2.pins(r.2, img) + self.3.pins(r.3, img), self.4.pins(r.4, img));
        lemma_holds_all_concat(other, self.0.pins(r.0, img) + self.1.pins(r.1, img) + self.2.pins(r.2, img), self.3.pins(r.3, img));
        lemma_holds_all_concat(other, self.0.pins(r.0, img) + self.1.pins(r.1, img), self.2.pins(r.2, img));
        lemma_holds_all_concat(other, self.0.pins(r.0, img), self.1.pins(r.1, img));
        self.0.lemma_deepen(r.0, img, other, lo, hi);
        self.1.lemma_deepen(r.1, img, other, lo, hi);
        self.2.lemma_deepen(r.2, img, other, lo, hi);
        self.3.lemma_deepen(r.3, img, other, lo, hi);
        self.4.lemma_deepen(r.4, img, other, lo, hi);
        self.5.lemma_deepen(r.5, img, other, lo, hi);
        self.6.lemma_deepen(r.6, img, other, lo, hi);
        self.7.lemma_deepen(r.7, img, other, lo, hi);
        self.8.lemma_deepen(r.8, img, other, lo, hi);
        self.9.lemma_deepen(r.9, img, other, lo, hi);
    }

    proof fn lemma_frame(&self, r: (<T1 as ToRef>::Ref, <T2 as ToRef>::Ref, <T3 as ToRef>::Ref, <T4 as ToRef>::Ref, <T5 as ToRef>::Ref, <T6 as ToRef>::Ref, <T7 as ToRef>::Ref, <T8 as ToRef>::Ref, <T9 as ToRef>::Ref, <T10 as ToRef>::Ref), img: Image, other: Image, lo: int, hi: int, deep: bool) {
        self.0.lemma_frame(r.0, img, other, lo, hi, deep);
        self.1.lemma_frame(r.1, img, other, lo, hi, deep);
        self.2.lemma_frame(r.2, img, other, lo, hi, deep);
        self.3.lemma_frame(r.3, img, other, lo, hi, deep);
        self.4.lemma_frame(r.4, img, other, lo, hi, deep);
        self.5.lemma_frame(r.5, img, other, lo, hi, deep);
        self.6.lemma_frame(r.6, img, other, lo, hi, deep);
        self.7.lemma_frame(r.7, img, other, lo, hi, deep);
        self.8.lemma_frame(r.8, img, other, lo, hi, deep);
        self.9.lemma_frame(r.9, img, other, lo, hi, deep);
    }

    proof fn lemma_widen(
        &self,
        r: (<T1 as ToRef>::Ref, <T2 as ToRef>::Ref, <T3 as ToRef>::Ref, <T4 as ToRef>::Ref, <T5 as ToRef>::Ref, <T6 as ToRef>::Ref, <T7 as ToRef>::Ref, <T8 as ToRef>::Ref, <T9 as ToRef>::Ref, <T10 as ToRef>::Ref),
        img: Image,
        lo: int,
        hi: int,
        wide_lo: int,
        wide_hi: int,
        deep: bool,
    ) {
        self.0.lemma_widen(r.0, img, lo, hi, wide_lo, wide_hi, deep);
        self.1.lemma_widen(r.1, img, lo, hi, wide_lo, wide_hi, deep);
        self.2.lemma_widen(r.2, img, lo, hi, wide_lo, wide_hi, deep);
        self.3.lemma_widen(r.3, img, lo, hi, wide_lo, wide_hi, deep);
        self.4.lemma_widen(r.4, img, lo, hi, wide_lo, wide_hi, deep);
        self.5.lemma_widen(r.5, img, lo, hi, wide_lo, wide_hi, deep);
        self.6.lemma_widen(r.6, img, lo, hi, wide_lo, wide_hi, deep);
        self.7.lemma_widen(r.7, img, lo, hi, wide_lo, wide_hi, deep);
        self.8.lemma_widen(r.8, img, lo, hi, wide_lo, wide_hi, deep);
        self.9.lemma_widen(r.9, img, lo, hi, wide_lo, wide_hi, deep);
    }

    fn mem_type_of() -> (t: MemType) {
        MemType::Primitive.max(<T1 as ToRef>::mem_type_of()).max(<T2 as ToRef>::mem_type_of()).max(<T3 as ToRef>::mem_type_of()).max(<T4 as ToRef>::mem_type_of()).max(<T5 as ToRef>::mem_type_of()).max(<T6 as ToRef>::mem_type_of()).max(<T7 as ToRef>::mem_type_of()).max(<T8 as ToRef>::mem_type_of()).max(<T9 as ToRef>::mem_type_of()).max(<T10 as ToRef>::mem_type_of())
    }

    fn to_size(&self, acc: &mut usize) {
        self.0.to_size(acc);
        self.1.to_size(acc);
        self.2.to_size(acc);
        self.3.to_size(acc);
        self.4.to_size(acc);
        self.5.to_size(acc);
        self.6.to_size(acc);
        self.7.to_size(acc);
        self.8.to_size(acc);
        self.9.to_size(acc);
    }

    fn checked_size(&self, acc: usize) -> (sum: Option<usize>) {
        let sum0 = acc;
        let sum1 = match self.0.checked_size(sum0) {
            Some(next) => next,
            None => {
                return None;
            },
        };
        let sum2 = match self.1.checked_size(sum1) {
            Some(next) => next,
            None => {
                return None;
            },
        };
        let sum3 = match self.2.checked_size(sum2) {
            Some(next) => next,
            None => {
                return None;
            },
        };
        let sum4 = match self.3.checked_size(sum3) {
            Some(next) => next,
            None => {
                return None;
            },
        };
        let sum5 = match self.4.checked_size(sum4) {
            Some(next) => next,
            None => {
                return None;
            },
        };
        let sum6 = match self.5.checked_size(sum5) {
            Some(next) => next,
            None => {
                return None;
            },
        };
        let sum7 = match self.6.checked_size(sum6) {
            Some(next) => next,
            None => {
                return None;
            },
        };
        let sum8 = match self.7.checked_size(sum7) {
            Some(next) => next,
            None => {
                return None;
            },
        };
        let sum9 = match self.8.checked_size(sum8) {
            Some(next) => next,
            None => {
                return None;
            },
        };
        let sum10 = match self.9.checked_size(sum9) {
            Some(next) => next,
            None => {
                return None;
            },
        };
        Some(sum10)
    }

    fn to_ref(&self, writer: &mut Writer) -> (r: (<T1 as ToRef>::Ref, <T2 as ToRef>::Ref, <T3 as ToRef>::Ref, <T4 as ToRef>::Ref, <T5 as ToRef>::Ref, <T6 as ToRef>::Ref, <T7 as ToRef>::Ref, <T8 as ToRef>::Ref, <T9 as ToRef>::Ref, <T10 as ToRef>::Ref)) {
        let ghost base = writer.base() as int;
        let ghost w0 = *writer;
        proof {
            writer.lemma_bounds();
            lemma_keeps_same(writer.arena(), writer.cursor());
            lemma_max_parts(MemType::Primitive.spec_max(<T1 as ToRef>::mem_type()).spec_max(<T2 as ToRef>::mem_type()).spec_max(<T3 as ToRef>::mem_type()).spec_max(<T4 as ToRef>::mem_type()).spec_max(<T5 as ToRef>::mem_type()).spec_max(<T6 as ToRef>::mem_type()).spec_max(<T7 as ToRef>::mem_type()).spec_max(<T8 as ToRef>::mem_type()).spec_max(<T9 as ToRef>::mem_type()), <T10 as ToRef>::mem_type());
            lemma_max_parts(MemType::Primitive.spec_max(<T1 as ToRef>::mem_type()).spec_max(<T2 as ToRef>::mem_type()).spec_max(<T3 as ToRef>::mem_type()).spec_max(<T4 as ToRef>::mem_type()).spec_max(<T5 as ToRef>::mem_type()).spec_max(<T6 as ToRef>::mem_type()).spec_max(<T7 as ToRef>::mem_type()).spec_max(<T8 as ToRef>::mem_type()), <T9 as ToRef>::mem_type());
            lemma_max_parts(MemType::Primitive.spec_max(<T1 as ToRef>::mem_type()).spec_max(<T2 as ToRef>::mem_type()).spec_max(<T3 as ToRef>::mem_type()).spec_max(<T4 as ToRef>::mem_type()).spec_max(<T5 as ToRef>::mem_type()).spec_max(<T6 as ToRef>::mem_type()).spec_max(<T7 as ToRef>::mem_type()), <T8 as ToRef>::mem_type());
            lemma_max_parts(MemType::Primitive.spec_max(<T1 as ToRef>::mem_type()).spec_max(<T2 as ToRef>::mem_type()).spec_max(<T3 as ToRef>::mem_type()).spec_max(<T4 as ToRef>::mem_type()).spec_max(<T5 as ToRef>::mem_type()).spec_max(<T6 as ToRef>::mem_type()), <T7 as ToRef>::mem_type());
            lemma_max_parts(MemType::Primitive.spec_max(<T1 as ToRef>::mem_type()).spec_max(<T2 as ToRef>::mem_type()).spec_max(<T3 as ToRef>::mem_type()).spec_max(<T4 as ToRef>::mem_type()).spec_max(<T5 as ToRef>::mem_type()), <T6 as ToRef>::mem_type());
            lemma_max_parts(MemType::Primitive.spec_max(<T1 as ToRef>::mem_type()).spec_max(<T2 as ToRef>::mem_type()).spec_max(<T3 as ToRef>::mem_type()).spec_max(<T4 as ToRef>::mem_type()), <T5 as ToRef>::mem_type());
            lemma_max_parts(MemType::Primitive.spec_max(<T1 as ToRef>::mem_type()).spec_max(<T2 as ToRef>::mem_type()).spec_max(<T3 as ToRef>::mem_type()), <T4 as ToRef>::mem_type());
            lemma_max_parts(MemType::Primitive.spec_max(<T1 as ToRef>::mem_type()).spec_max(<T2 as ToRef>::mem_type()), <T3 as ToRef>::mem_type());
            lemma_max_parts(MemType::Primitive.spec_max(<T1 as ToRef>::mem_type()), <T2 as ToRef>::mem_type());
            lemma_max_parts(MemType::Primitive, <T1 as ToRef>::mem_type());
        }
        let f0 = self.0.to_ref(writer);
        let ghost w1 = *writer;
        proof {
            writer.lemma_bounds();
        }
        let f1 = self.1.to_ref(writer);
        let ghost w2 = *writer;
        proof {
            writer.lemma_bounds();
        }
        let f2 = self.2.to_ref(writer);
        let ghost w3 = *writer;
        proof {
            writer.lemma_bounds();
        }
        let f3 = self.3.to_ref(writer);
        let ghost w4 = *writer;
        proof {
            writer.lemma_bounds();
        }
        let f4 = self.4.to_ref(writer);
        let ghost w5 = *writer;
        proof {
            writer.lemma_bounds();
        }
        let f5 = self.5.to_ref(writer);
        let ghost w6 = *writer;
        proof {
            writer.lemma_bounds();
        }
        let f6 = self.6.to_ref(writer);
        let ghost w7 = *writer;
        proof {
            writer.lemma_bounds();
        }
        let f7 = self.7.to_ref(writer);
        let ghost w8 = *writer;
        proof {
            writer.lemma_bounds();
        }
        let f8 = self.8.to_ref(writer);
        let ghost w9 = *writer;
        proof {
            writer.lemma_bounds();
        }
        let f9 = self.9.to_ref(writer);
        let ghost w10 = *writer;
        proof {
            writer.lemma_bounds();
        }
        proof {
            lemma_keeps_trans(w8.arena(), w9.arena(), w10.arena(), w8.cursor(), w9.cursor());
            lemma_keeps_trans(w7.arena(), w8.arena(), w10.arena(), w7.cursor(), w8.cursor());
            lemma_keeps_trans(w6.arena(), w7.arena(), w10.arena(), w6.cursor(), w7.cursor());
            lemma_keeps_trans(w5.arena(), w6.arena(), w10.arena(), w5.cursor(), w6.cursor());
            lemma_keeps_trans(w4.arena(), w5.arena(), w10.arena(), w4.cursor(), w5.cursor());
            lemma_keeps_trans(w3.arena(), w4.arena(), w10.arena(), w3.cursor(), w4.cursor());
            lemma_keeps_trans(w2.arena(), w3.arena(), w10.arena(), w2.cursor(), w3.cursor());
            lemma_keeps_trans(w1.arena(), w2.arena(), w10.arena(), w1.cursor(), w2.cursor());
            lemma_keeps_trans(w0.arena(), w1.arena(), w10.arena(), w0.cursor(), w1.cursor());
            lemma_view_stays(&self.0, f0, w1, w10, base + w0.cursor(), base + w1.cursor());
            lemma_view_stays(&self.1, f1, w2, w10, base + w1.cursor(), base + w2.cursor());
            lemma_view_stays(&self.2, f2, w3, w10, base + w2.cursor(), base + w3.cursor());
            lemma_view_stays(&self.3, f3, w4, w10, base + w3.cursor(), base + w4.cursor());
            lemma_view_stays(&self.4, f4, w5, w10, base + w4.cursor(), base + w5.cursor());
            lemma_view_stays(&self.5, f5, w6, w10, base + w5.cursor(), base + w6.cursor());
            lemma_view_stays(&self.6, f6, w7, w10, base + w6.cursor(), base + w7.cursor());
            lemma_view_stays(&self.7, f7, w8, w10, base + w7.cursor(), base + w8.cursor());
            lemma_view_stays(&self.8, f8, w9, w10, base + w8.cursor(), base + w9.cursor());
            self.0.lemma_widen(f0, w10.image(), base + w0.cursor(), base + w1.cursor(), base + w0.cursor(), base + w10.cursor(), false);
            self.1.lemma_widen(f1, w10.image(), base + w1.cursor(), base + w2.cursor(), base + w0.cursor(), base + w10.cursor(), false);
            self.2.lemma_widen(f2, w10.image(), base + w2.cursor(), base + w3.cursor(), base + w0.cursor(), base + w10.cursor(), false);
            self.3.lemma_widen(f3, w10.image(), base + w3.cursor(), base + w4.cursor(), base + w0.cursor(), base + w10.cursor(), false);
            self.4.lemma_widen(f4, w10.image(), base + w4.cursor(), base + w5.cursor(), base + w0.cursor(), base + w10.cursor(), false);
            self.5.lemma_widen(f5, w10.image(), base + w5.cursor(), base + w6.cursor(), base + w0.cursor(), base + w10.cursor(), false);
            self.6.lemma_widen(f6, w10.image(), base + w6.cursor(), base + w7.cursor(), base + w0.cursor(), base + w10.cursor(), false);
            self.7.lemma_widen(f7, w10.image(), base + w7.cursor(), base + w8.cursor(), base + w0.cursor(), base + w10.cursor(), false);
            self.8.lemma_widen(f8, w10.image(), base + w8.cursor(), base + w9.cursor(), base + w0.cursor(), base + w10.cursor(), false);
            self.9.lemma_widen(f9, w10.image(), base + w9.cursor(), base + w10.cursor(), base + w0.cursor(), base + w10.cursor(), false);
        }
        (f0, f1, f2, f3, f4, f5, f6, f7, f8, f9)
    }

    fn pinned<M: MemoryRead>(&self, r: &(<T1 as ToRef>::Ref, <T2 as ToRef>::Ref, <T3 as ToRef>::Ref, <T4 as ToRef>::Ref, <T5 as ToRef>::Ref, <T6 as ToRef>::Ref, <T7 as ToRef>::Ref, <T8 as ToRef>::Ref, <T9 as ToRef>::Ref, <T10 as ToRef>::Ref), mem: &M, out: &mut Vec<Segment>) {
        self.0.pinned(&r.0, mem, out);
        self.1.pinned(&r.1, mem, out);
        self.2.pinned(&r.2, mem, out);
        self.3.pinned(&r.3, mem, out);
        self.4.pinned(&r.4, mem, out);
        self.5.pinned(&r.5, mem, out);
        self.6.pinned(&r.6, mem, out);
        self.7.pinned(&r.7, mem, out);
        self.8.pinned(&r.8, mem, out);
        self.9.pinned(&r.9, mem, out);
        assert(pieces_of(out@) =~= pieces_of(old(out)@) + self.pins(*r, mem.image()));
    }
}

impl<T1: FromRef, T2: FromRef, T3: FromRef, T4: FromRef, T5: FromRef, T6: FromRef, T7: FromRef, T8: FromRef, T9: FromRef, T10: FromRef> FromRef for (T1, T2, T3, T4, T5, T6, T7, T8, T9, T10) {
    open spec fn decoded(r: (<T1 as ToRef>::Ref, <T2 as ToRef>::Ref, <T3 as ToRef>::Ref, <T4 as ToRef>::Ref, <T5 as ToRef>::Ref, <T6 as ToRef>::Ref, <T7 as ToRef>::Ref, <T8 as ToRef>::Ref, <T9 as ToRef>::Ref, <T10 as ToRef>::Ref), img: Image) -> Option<(<T1 as DeepView>::V, <T2 as DeepView>::V, <T3 as DeepView>::V, <T4 as DeepView>::V, <T5 as DeepView>::V, <T6 as DeepView>::V, <T7 as DeepView>::V, <T8 as DeepView>::V, <T9 as DeepView>::V, <T10 as DeepView>::V)> {
        match (<T1 as FromRef>::decoded(r.0, img), <T2 as FromRef>::decoded(r.1, img), <T3 as FromRef>::decoded(r.2, img), <T4 as FromRef>::decoded(r.3, img), <T5 as FromRef>::decoded(r.4, img), <T6 as FromRef>::decoded(r.5, img), <T7 as FromRef>::decoded(r.6, img), <T8 as FromRef>::decoded(r.7, img), <T9 as FromRef>::decoded(r.8, img), <T10 as FromRef>::decoded(r.9, img)) {
            (Some(v0), Some(v1), Some(v2), Some(v3), Some(v4), Some(v5), Some(v6), Some(v7), Some(v8), Some(v9)) => Some((v0, v1, v2, v3, v4, v5, v6, v7, v8, v9)),
            _ => None,
        }
    }

    proof fn lemma_round_trip(&self, r: (<T1 as ToRef>::Ref, <T2 as ToRef>::Ref, <T3 as ToRef>::Ref, <T4 as ToRef>::Ref, <T5 as ToRef>::Ref, <T6 as ToRef>::Ref, <T7 as ToRef>::Ref, <T8 as ToRef>::Ref, <T9 as ToRef>::Ref, <T10 as ToRef>::Ref), img: Image, lo: int, hi: int) {
        self.0.lemma_round_trip(r.0, img, lo, hi);
        self.1.lemma_round_trip(r.1, img, lo, hi);
        self.2.lemma_round_trip(r.2, img, lo, hi);
        self.3.lemma_round_trip(r.3, img, lo, hi);
        self.4.lemma_round_trip(r.4, img, lo, hi);
        self.5.lemma_round_trip(r.5, img, lo, hi);
        self.6.lemma_round_trip(r.6, img, lo, hi);
        self.7.lemma_round_trip(r.7, img, lo, hi);
        self.8.lemma_round_trip(r.8, img, lo, hi);
        self.9.lemma_round_trip(r.9, img, lo, hi);
    }

    fn from_ref<M: MemoryRead>(r: &(<T1 as ToRef>::Ref, <T2 as ToRef>::Ref, <T3 as ToRef>::Ref, <T4 as ToRef>::Ref, <T5 as ToRef>::Ref, <T6 as ToRef>::Ref, <T7 as ToRef>::Ref, <T8 as ToRef>::Ref, <T9 as ToRef>::Ref, <T10 as ToRef>::Ref), mem: &M) -> (o: Option<Self>) {
        let v0 = match <T1 as FromRef>::from_ref(&r.0, mem) {
            Some(v) => v,
            None => {
                return None;
            },
        };
        let v1 = match <T2 as FromRef>::from_ref(&r.1, mem) {
            Some(v) => v,
            None => {
                return None;
            },
        };
        let v2 = match <T3 as FromRef>::from_ref(&r.2, mem) {
            Some(v) => v,
            None => {
                return None;
            },
        };
        let v3 = match <T4 as FromRef>::from_ref(&r.3, mem) {
            Some(v) => v,
            None => {
                return None;
            },
        };
        let v4 = match <T5 as FromRef>::from_ref(&r.4, mem) {
            Some(v) => v,
            None => {
                return None;
            },
        };
        let v5 = match <T6 as FromRef>::from_ref(&r.5, mem) {
            Some(v) => v,
            None => {
                return None;
            },
        };
        let v6 = match <T7 as FromRef>::from_ref(&r.6, mem) {
            Some(v) => v,
            None => {
                return None;
            },
        };
        let v7 = match <T8 as FromRef>::from_ref(&r.7, mem) {
            Some(v) => v,
            None => {
                return None;
            },
        };
        let v8 = match <T9 as FromRef>::from_ref(&r.8, mem) {
            Some(v) => v,
            None => {
                return None;
            },
        };
        let v9 = match <T10 as FromRef>::from_ref(&r.9, mem) {
            Some(v) => v,
            None => {
                return None;
            },
        };
        Some((v0, v1, v2, v3, v4, v5, v6, v7, v8, v9))
    }
}

impl<T1: ToRef, T2: ToRef, T3: ToRef, T4: ToRef, T5: ToRef, T6: ToRef, T7: ToRef, T8: ToRef, T9: ToRef, T10: ToRef, T11: ToRef> ToRef for (T1, T2, T3, T4, T5, T6, T7, T8, T9, T10, T11) {
    type Ref = (<T1 as ToRef>::Ref, <T2 as ToRef>::Ref, <T3 as ToRef>::Ref, <T4 as ToRef>::Ref, <T5 as ToRef>::Ref, <T6 as ToRef>::Ref, <T7 as ToRef>::Ref, <T8 as ToRef>::Ref, <T9 as ToRef>::Ref, <T10 as ToRef>::Ref, <T11 as ToRef>::Ref);

    open spec fn mem_type() -> MemType {
        MemType::Primitive.spec_max(<T1 as ToRef>::mem_type()).spec_max(<T2 as ToRef>::mem_type()).spec_max(<T3 as ToRef>::mem_type()).spec_max(<T4 as ToRef>::mem_type()).spec_max(<T5 as ToRef>::mem_type()).spec_max(<T6 as ToRef>::mem_type()).spec_max(<T7 as ToRef>::mem_type()).spec_max(<T8 as ToRef>::mem_type()).spec_max(<T9 as ToRef>::mem_type()).spec_max(<T10 as ToRef>::mem_type()).spec_max(<T11 as ToRef>::mem_type())
    }

    open spec fn size(&self) -> nat {
        self.0.size() + self.1.size() + self.2.size() + self.3.size() + self.4.size() + self.5.size() + self.6.size() + self.7.size() + self.8.size() + self.9.size() + self.10.size()
    }

    open spec fn views(&self, r: (<T1 as ToRef>::Ref, <T2 as ToRef>::Ref, <T3 as ToRef>::Ref, <T4 as ToRef>::Ref, <T5 as ToRef>::Ref, <T6 as ToRef>::Ref, <T7 as ToRef>::Ref, <T8 as ToRef>::Ref, <T9 as ToRef>::Ref, <T10 as ToRef>::Ref, <T11 as ToRef>::Ref), img: Image, lo: int, hi: int, deep: bool) -> bool {
        &&& self.0.views(r.0, img, lo, hi, deep)
        &&& self.1.views(r.1, img, lo, hi, deep)
        &&& self.2.views(r.2, img, lo, hi, deep)
        &&& self.3.views(r.3, img, lo, hi, deep)
        &&& self.4.views(r.4, img, lo, hi, deep)
        &&& self.5.views(r.5, img, lo, hi, deep)
        &&& self.6.views(r.6, img, lo, hi, deep)
        &&& self.7.views(r.7, img, lo, hi, deep)
        &&& self.8.views(r.8, img, lo, hi, deep)
        &&& self.9.views(r.9, img, lo, hi, deep)
        &&& self.10.views(r.10, img, lo, hi, deep)
    }

    open spec fn flat(&self) -> (<T1 as ToRef>::Ref, <T2 as ToRef>::Ref, <T3 as ToRef>::Ref, <T4 as ToRef>::Ref, <T5 as ToRef>::Ref, <T6 as ToRef>::Ref, <T7 as ToRef>::Ref, <T8 as ToRef>::Ref, <T9 as ToRef>::Ref, <T10 as ToRef>::Ref, <T11 as ToRef>::Ref) {
        (self.0.flat(), self.1.flat(), self.2.flat(), self.3.flat(), self.4.flat(), self.5.flat(), self.6.flat(), self.7.flat(), self.8.flat(), self.9.flat(), self.10.flat())
    }

    open spec fn pins(&self, r: (<T1 as ToRef>::Ref, <T2 as ToRef>::Ref, <T3 as ToRef>::Ref, <T4 as ToRef>::Ref, <T5 as ToRef>::Ref, <T6 as ToRef>::Ref, <T7 as ToRef>::Ref, <T8 as ToRef>::Ref, <T9 as ToRef>::Ref, <T10 as ToRef>::Ref, <T11 as ToRef>::Ref), img: Image) -> Seq<Piece> {
        self.0.pins(r.0, img) + self.1.pins(r.1, img) + self.2.pins(r.2, img) + self.3.pins(r.3, img) + self.4.pins(r.4, img) + self.5.pins(r.5, img) + self.6.pins(r.6, img) + self.7.pins(r.7, img) + self.8.pins(r.8, img) + self.9.pins(r.9, img) + self.10.pins(r.10, img)
    }

    proof fn lemma_flat(&self) {
        lemma_max_parts(MemType::Primitive.spec_max(<T1 as ToRef>::mem_type()).spec_max(<T2 as ToRef>::mem_type()).spec_max(<T3 as ToRef>::mem_type()).spec_max(<T4 as ToRef>::mem_type()).spec_max(<T5 as ToRef>::mem_type()).spec_max(<T6 as ToRef>::mem_type()).spec_max(<T7 as ToRef>::mem_type()).spec_max(<T8 as ToRef>::mem_type()).spec_max(<T9 as ToRef>::mem_type()).spec_max(<T10 as ToRef>::mem_type()), <T11 as ToRef>::mem_type());
        lemma_max_parts(MemType::Primitive.spec_max(<T1 as ToRef>::mem_type()).spec_max(<T2 as ToRef>::mem_type()).spec_max(<T3 as ToRef>::mem_type()).spec_max(<T4 as ToRef>::mem_type()).spec_max(<T5 as ToRef>::mem_type()).spec_max(<T6 as ToRef>::mem_type()).spec_max(<T7 as ToRef>::mem_type()).spec_max(<T8 as ToRef>::mem_type()).spec_max(<T9 as ToRef>::mem_type()), <T10 as ToRef>::mem_type());
        lemma_max_parts(MemType::Primitive.spec_max(<T1 as ToRef>::mem_type()).spec_max(<T2 as ToRef>::mem_type()).spec_max(<T3 as ToRef>::mem_type()).spec_max(<T4 as ToRef>::mem_type()).spec_max(<T5 as ToRef>::mem_type()).spec_max(<T6 as ToRef>::mem_type()).spec_max(<T7 as ToRef>::mem_type()).spec_max(<T8 as ToRef>::mem_type()), <T9 as ToRef>::mem_type());
        lemma_max_parts(MemType::Primitive.spec_max(<T1 as ToRef>::mem_type()).spec_max(<T2 as ToRef>::mem_type()).spec_max(<T3 as ToRef>::mem_type()).spec_max(<T4 as ToRef>::mem_type()).spec_max(<T5 as ToRef>::mem_type()).spec_max(<T6 as ToRef>::mem_type()).spec_max(<T7 as ToRef>::mem_type()), <T8 as ToRef>::mem_type());
        lemma_max_parts(MemType::Primitive.spec_max(<T1 as ToRef>::mem_type()).spec_max(<T2 as ToRef>::mem_type()).spec_max(<T3 as ToRef>::mem_type()).spec_max(<T4 as ToRef>::mem_type()).spec_max(<T5 as ToRef>::mem_type()).spec_max(<T6 as ToRef>::mem_type()), <T7 as ToRef>::mem_type());
        lemma_max_parts(MemType::Primitive.spec_max(<T1 as ToRef>::mem_type()).spec_max(<T2 as ToRef>::mem_type()).spec_max(<T3 as ToRef>::mem_type()).spec_max(<T4 as ToRef>::mem_type()).spec_max(<T5 as ToRef>::mem_type()), <T6 as ToRef>::mem_type());
        lemma_max_parts(MemType::Primitive.spec_max(<T1 as ToRef>::mem_type()).spec_max(<T2 as ToRef>::mem_type()).spec_max(<T3 as ToRef>::mem_type()).spec_max(<T4 as ToRef>::mem_type()), <T5 as ToRef>::mem_type());
        lemma_max_parts(MemType::Primitive.spec_max(<T1 as ToRef>::mem_type()).spec_max(<T2 as ToRef>::mem_type()).spec_max(<T3 as ToRef>::mem_type()), <T4 as ToRef>::mem_type());
        lemma_max_parts(MemType::Primitive.spec_max(<T1 as ToRef>::mem_type()).spec_max(<T2 as ToRef>::mem_type()), <T3 as ToRef>::mem_type());
        lemma_max_parts(MemType::Primitive.spec_max(<T1 as ToRef>::mem_type()), <T2 as ToRef>::mem_type());
        lemma_max_parts(MemType::Primitive, <T1 as ToRef>::mem_type());
        self.0.lemma_flat();
        self.1.lemma_flat();
        self.2.lemma_flat();
        self.3.lemma_flat();
        self.4.lemma_flat();
        self.5.lemma_flat();
        self.6.lemma_flat();
        self.7.lemma_flat();
        self.8.lemma_flat();
        self.9.lemma_flat();
        self.10.lemma_flat();
    }

    proof fn lemma_primitive(&self, r: (<T1 as ToRef>::Ref, <T2 as ToRef>::Ref, <T3 as ToRef>::Ref, <T4 as ToRef>::Ref, <T5 as ToRef>::Ref, <T6 as ToRef>::Ref, <T7 as ToRef>::Ref, <T8 as ToRef>::Ref, <T9 as ToRef>::Ref, <T10 as ToRef>::Ref, <T11 as ToRef>::Ref), img: Image, lo: int, hi: int, deep: bool) {
        lemma_max_parts(MemType::Primitive.spec_max(<T1 as ToRef>::mem_type()).spec_max(<T2 as ToRef>::mem_type()).spec_max(<T3 as ToRef>::mem_type()).spec_max(<T4 as ToRef>::mem_type()).spec_max(<T5 as ToRef>::mem_type()).spec_max(<T6 as ToRef>::mem_type()).spec_max(<T7 as ToRef>::mem_type()).spec_max(<T8 as ToRef>::mem_type()).spec_max(<T9 as ToRef>::mem_type()).spec_max(<T10 as ToRef>::mem_type()), <T11 as ToRef>::mem_type());
        lemma_max_parts(MemType::Primitive.spec_max(<T1 as ToRef>::mem_type()).spec_max(<T2 as ToRef>::mem_type()).spec_max(<T3 as ToRef>::mem_type()).spec_max(<T4 as ToRef>::mem_type()).spec_max(<T5 as ToRef>::mem_type()).spec_max(<T6 as ToRef>::mem_type()).spec_max(<T7 as ToRef>::mem_type()).spec_max(<T8 as ToRef>::mem_type()).spec_max(<T9 as ToRef>::mem_type()), <T10 as ToRef>::mem_type());
        lemma_max_parts(MemType::Primitive.spec_max(<T1 as ToRef>::mem_type()).spec_max(<T2 as ToRef>::mem_type()).spec_max(<T3 as ToRef>::mem_type()).spec_max(<T4 as ToRef>::mem_type()).spec_max(<T5 as ToRef>::mem_type()).spec_max(<T6 as ToRef>::mem_type()).spec_max(<T7 as ToRef>::mem_type()).spec_max(<T8 as ToRef>::mem_type()), <T9 as ToRef>::mem_type());
        lemma_max_parts(MemType::Primitive.spec_max(<T1 as ToRef>::mem_type()).spec_max(<T2 as ToRef>::mem_type()).spec_max(<T3 as ToRef>::mem_type()).spec_max(<T4 as ToRef>::mem_type()).spec_max(<T5 as ToRef>::mem_type()).spec_max(<T6 as ToRef>::mem_type()).spec_max(<T7 as ToRef>::mem_type()), <T8 as ToRef>::mem_type());
        lemma_max_parts(MemType::Primitive.spec_max(<T1 as ToRef>::mem_type()).spec_max(<T2 as ToRef>::mem_type()).spec_max(<T3 as ToRef>::mem_type()).spec_max(<T4 as ToRef>::mem_type()).spec_max(<T5 as ToRef>::mem_type()).spec_max(<T6 as ToRef>::mem_type()), <T7 as ToRef>::mem_type());
        lemma_max_parts(MemType::Primitive.spec_max(<T1 as ToRef>::mem_type()).spec_max(<T2 as ToRef>::mem_type()).spec_max(<T3 as ToRef>::mem_type()).spec_max(<T4 as ToRef>::mem_type()).spec_max(<T5 as ToRef>::mem_type()), <T6 as ToRef>::mem_type());
        lemma_max_parts(MemType::Primitive.spec_max(<T1 as ToRef>::mem_type()).spec_max(<T2 as ToRef>::mem_type()).spec_max(<T3 as ToRef>::mem_type()).spec_max(<T4 as ToRef>::mem_type()), <T5 as ToRef>::mem_type());
        lemma_max_parts(MemType::Primitive.spec_max(<T1 as ToRef>::mem_type()).spec_max(<T2 as ToRef>::mem_type()).spec_max(<T3 as ToRef>::mem_type()), <T4 as ToRef>::mem_type());
        lemma_max_parts(MemType::Primitive.spec_max(<T1 as ToRef>::mem_type()).spec_max(<T2 as ToRef>::mem_type()), <T3 as ToRef>::mem_type());
        lemma_max_parts(MemType::Primitive.spec_max(<T1 as ToRef>::mem_type()), <T2 as ToRef>::mem_type());
        lemma_max_parts(MemType::Primitive, <T1 as ToRef>::mem_type());
        self.0.lemma_primitive(r.0, img, lo, hi, deep);
        self.1.lemma_primitive(r.1, img, lo, hi, deep);
        self.2.lemma_primitive(r.2, img, lo, hi, deep);
        self.3.lemma_primitive(r.3, img, lo, hi, deep);
        self.4.lemma_primitive(r.4, img, lo, hi, deep);
        self.5.lemma_primitive(r.5, img, lo, hi, deep);
        self.6.lemma_primitive(r.6, img, lo, hi, deep);
        self.7.lemma_primitive(r.7, img, lo, hi, deep);
        self.8.lemma_primitive(r.8, img, lo, hi, deep);
        self.9.lemma_primitive(r.9, img, lo, hi, deep);
        self.10.lemma_primitive(r.10, img, lo, hi, deep);
        if Self::mem_type() == MemType::Primitive {
            assert(self.pins(r, img) =~= Seq::<Piece>::empty());
        }
    }

    proof fn lemma_deepen(&self, r: (<T1 as ToRef>::Ref, <T2 as ToRef>::Ref, <T3 as ToRef>::Ref, <T4 as ToRef>::Ref, <T5 as ToRef>::Ref, <T6 as ToRef>::Ref, <T7 as ToRef>::Ref, <T8 as ToRef>::Ref, <T9 as ToRef>::Ref, <T10 as ToRef>::Ref, <T11 as ToRef>::Ref), img: Image, other: Image, lo: int, hi: int) {
        lemma_holds_all_concat(other, self.0.pins(r.0, img) + self.1.pins(r.1, img) + self.2.pins(r.2, img) + self.3.pins(r.3, img) + self.4.pins(r.4, img) + self.5.pins(r.5, img) + self.6.pins(r.6, img) + self.7.pins(r.7, img) + self.8.pins(r.8, img) + self.9.pins(r.9, img), self.10.pins(r.10, img));
        lemma_holds_all_concat(other, self.0.pins(r.0, img) + self.1.pins(r.1, img) + self.2.pins(r.2, img) + self.3.pins(r.3, img) + self.4.pins(r.4, img) + self.5.pins(r.5, img) + self.6.pins(r.6, img) + self.7.pins(r.7, img) + self.8.pins(r.8, img), self.9.pins(r.9, img));
        lemma_holds_all_concat(other, self.0.pins(r.0, img) + self.1.pins(r.1, img) + self.2.pins(r.2, img) + self.3.pins(r.3, img) + self.4.pins(r.4, img) + self.5.pins(r.5, img) + self.6.pins(r.6, img) + self.7.pins(r.7, img), self.8.pins(r.8, img));
        lemma_holds_all_concat(other, self.0.pins(r.0, img) + self.1.pins(r.1, img) + self.2.pins(r.2, img) + self.3.pins(r.3, img) + self.4.pins(r.4, img) + self.5.pins(r.5, img) + self.6.pins(r.6, img), self.7.pins(r.7, img));
        lemma_holds_all_concat(other, self.0.pins(r.0, img) + self.1.pins(r.1, img) + self.2.pins(r.2, img) + self.3.pins(r.3, img) + self.4.pins(r.4, img) + self.5.pins(r.5, img), self.6.pins(r.6, img));
        lemma_holds_all_concat(other, self.0.pins(r.0, img) + self.1.pins(r.1, img) + self.2.pins(r.2, img) + self.3.pins(r.3, img) + self.4.pins(r.4, img), self.5.pins(r.5, img));
        lemma_holds_all_concat(other, self.0.pins(r.0, img) + self.1.pins(r.1, img) + self.2.pins(r.2, img) + self.3.pins(r.3, img), self.4.pins(r.4, img));
        lemma_holds_all_concat(other, self.0.pins(r.0, img) + self.1.pins(r.1, img) + self.2.pins(r.2, img), self.3.pins(r.3, img));
        lemma_holds_all_concat(other, self.0.pins(r.0, img) + self.1.pins(r.1, img), self.2.pins(r.2, img));
        lemma_holds_all_concat(other, self.0.pins(r.0, img), self.1.pins(r.1, img));
        self.0.lemma_deepen(r.0, img, other, lo, hi);
        self.1.lemma_deepen(r.1, img, other, lo, hi);
        self.2.lemma_deepen(r.2, img, other, lo, hi);
        self.3.lemma_deepen(r.3, img, other, lo, hi);
        self.4.lemma_deepen(r.4, img, other, lo, hi);
        self.5.lemma_deepen(r.5, img, other, lo, hi);
        self.6.lemma_deepen(r.6, img, other, lo, hi);
        self.7.lemma_deepen(r.7, img, other, lo, hi);
        self.8.lemma_deepen(r.8, img, other, lo, hi);
        self.9.lemma_deepen(r.9, img, other, lo, hi);
        self.10.lemma_deepen(r.10, img, other, lo, hi);
    }

    proof fn lemma_frame(&self, r: (<T1 as ToRef>::Ref, <T2 as ToRef>::Ref, <T3 as ToRef>::Ref, <T4 as ToRef>::Ref, <T5 as ToRef>::Ref, <T6 as ToRef>::Ref, <T7 as ToRef>::Ref, <T8 as ToRef>::Ref, <T9 as ToRef>::Ref, <T10 as ToRef>::Ref, <T11 as ToRef>::Ref), img: Image, other: Image, lo: int, hi: int, deep: bool) {
        self.0.lemma_frame(r.0, img, other, lo, hi, deep);
        self.1.lemma_frame(r.1, img, other, lo, hi, deep);
        self.2.lemma_frame(r.2, img, other, lo, hi, deep);
        self.3.lemma_frame(r.3, img, other, lo, hi, deep);
        self.4.lemma_frame(r.4, img, other, lo, hi, deep);
        self.5.lemma_frame(r.5, img, other, lo, hi, deep);
        self.6.lemma_frame(r.6, img, other, lo, hi, deep);
        self.7.lemma_frame(r.7, img, other, lo, hi, deep);
        self.8.lemma_frame(r.8, img, other, lo, hi, deep);
        self.9.lemma_frame(r.9, img, other, lo, hi, deep);
        self.10.lemma_frame(r.10, img, other, lo, hi, deep);
    }

    proof fn lemma_widen(
        &self,
        r: (<T1 as ToRef>::Ref, <T2 as ToRef>::Ref, <T3 as ToRef>::Ref, <T4 as ToRef>::Ref, <T5 as ToRef>::Ref, <T6 as ToRef>::Ref, <T7 as ToRef>::Ref, <T8 as ToRef>::Ref, <T9 as ToRef>::Ref, <T10 as ToRef>::Ref, <T11 as ToRef>::Ref),
        img: Image,
        lo: int,
        hi: int,
        wide_lo: int,
        wide_hi: int,
        deep: bool,
    ) {
        self.0.lemma_widen(r.0, img, lo, hi, wide_lo, wide_hi, deep);
        self.1.lemma_widen(r.1, img, lo, hi, wide_lo, wide_hi, deep);
        self.2.lemma_widen(r.2, img, lo, hi, wide_lo, wide_hi, deep);
        self.3.lemma_widen(r.3, img, lo, hi, wide_lo, wide_hi, deep);
        self.4.lemma_widen(r.4, img, lo, hi, wide_lo, wide_hi, deep);
        self.5.lemma_widen(r.5, img, lo, hi, wide_lo, wide_hi, deep);
        self.6.lemma_widen(r.6, img, lo, hi, wide_lo, wide_hi, deep);
        self.7.lemma_widen(r.7, img, lo, hi, wide_lo, wide_hi, deep);
        self.8.lemma_widen(r.8, img, lo, hi, wide_lo, wide_hi, deep);
        self.9.lemma_widen(r.9, img, lo, hi, wide_lo, wide_hi, deep);
        self.10.lemma_widen(r.10, img, lo, hi, wide_lo, wide_hi, deep);
    }

    fn mem_type_of() -> (t: MemType) {
        MemType::Primitive.max(<T1 as ToRef>::mem_type_of()).max(<T2 as ToRef>::mem_type_of()).max(<T3 as ToRef>::mem_type_of()).max(<T4 as ToRef>::mem_type_of()).max(<T5 as ToRef>::mem_type_of()).max(<T6 as ToRef>::mem_type_of()).max(<T7 as ToRef>::mem_type_of()).max(<T8 as ToRef>::mem_type_of()).max(<T9 as ToRef>::mem_type_of()).max(<T10 as ToRef>::mem_type_of()).max(<T11 as ToRef>::mem_type_of())
    }

    fn to_size(&self, acc: &mut usize) {
        self.0.to_size(acc);
        self.1.to_size(acc);
        self.2.to_size(acc);
        self.3.to_size(acc);
        self.4.to_size(acc);
        self.5.to_size(acc);
        self.6.to_size(acc);
        self.7.to_size(acc);
        self.8.to_size(acc);
        self.9.to_size(acc);
        self.10.to_size(acc);
    }

    fn checked_size(&self, acc: usize) -> (sum: Option<usize>) {
        let sum0 = acc;
        let sum1 = match self.0.checked_size(sum0) {
            Some(next) => next,
            None => {
                return None;
            },
        };
        let sum2 = match self.1.checked_size(sum1) {
            Some(next) => next,
            None => {
                return None;
            },
        };
        let sum3 = match self.2.checked_size(sum2) {
            Some(next) => next,
            None => {
                return None;
            },
        };
        let sum4 = match self.3.checked_size(sum3) {
            Some(next) => next,
            None => {
                return None;
            },
        };
        let sum5 = match self.4.checked_size(sum4) {
            Some(next) => next,
            None => {
                return None;
            },
        };
        let sum6 = match self.5.checked_size(sum5) {
            Some(next) => next,
            None => {
                return None;
            },
        };
        let sum7 = match self.6.checked_size(sum6) {
            Some(next) => next,
            None => {
                return None;
            },
        };
        let sum8 = match self.7.checked_size(sum7) {
            Some(next) => next,
            None => {
                return None;
            },
        };
        let sum9 = match self.8.checked_size(sum8) {
            Some(next) => next,
            None => {
                return None;
            },
        };
        let sum10 = match self.9.checked_size(sum9) {
            Some(next) => next,
            None => {
                return None;
            },
        };
        let sum11 = match self.10.checked_size(sum10) {
            Some(next) => next,
            None => {
                return None;
            },
        };
        Some(sum11)
    }

    fn to_ref(&self, writer: &mut Writer) -> (r: (<T1 as ToRef>::Ref, <T2 as ToRef>::Ref, <T3 as ToRef>::Ref, <T4 as ToRef>::Ref, <T5 as ToRef>::Ref, <T6 as ToRef>::Ref, <T7 as ToRef>::Ref, <T8 as ToRef>::Ref, <T9 as ToRef>::Ref, <T10 as ToRef>::Ref, <T11 as ToRef>::Ref)) {
        let ghost base = writer.base() as int;
        let ghost w0 = *writer;
        proof {
            writer.lemma_bounds();
            lemma_keeps_same(writer.arena(), writer.cursor());
            lemma_max_parts(MemType::Primitive.spec_max(<T1 as ToRef>::mem_type()).spec_max(<T2 as ToRef>::mem_type()).spec_max(<T3 as ToRef>::mem_type()).spec_max(<T4 as ToRef>::mem_type()).spec_max(<T5 as ToRef>::mem_type()).spec_max(<T6 as ToRef>::mem_type()).spec_max(<T7 as ToRef>::mem_type()).spec_max(<T8 as ToRef>::mem_type()).spec_max(<T9 as ToRef>::mem_type()).spec_max(<T10 as ToRef>::mem_type()), <T11 as ToRef>::mem_type());
            lemma_max_parts(MemType::Primitive.spec_max(<T1 as ToRef>::mem_type()).spec_max(<T2 as ToRef>::mem_type()).spec_max(<T3 as ToRef>::mem_type()).spec_max(<T4 as ToRef>::mem_type()).spec_max(<T5 as ToRef>::mem_type()).spec_max(<T6 as ToRef>::mem_type()).spec_max(<T7 as ToRef>::mem_type()).spec_max(<T8 as ToRef>::mem_type()).spec_max(<T9 as ToRef>::mem_type()), <T10 as ToRef>::mem_type());
            lemma_max_parts(MemType::Primitive.spec_max(<T1 as ToRef>::mem_type()).spec_max(<T2 as ToRef>::mem_type()).spec_max(<T3 as ToRef>::mem_type()).spec_max(<T4 as ToRef>::mem_type()).spec_max(<T5 as ToRef>::mem_type()).spec_max(<T6 as ToRef>::mem_type()).spec_max(<T7 as ToRef>::mem_type()).spec_max(<T8 as ToRef>::mem_type()), <T9 as ToRef>::mem_type());
            lemma_max_parts(MemType::Primitive.spec_max(<T1 as ToRef>::mem_type()).spec_max(<T2 as ToRef>::mem_type()).spec_max(<T3 as ToRef>::mem_type()).spec_max(<T4 as ToRef>::mem_type()).spec_max(<T5 as ToRef>::mem_type()).spec_max(<T6 as ToRef>::mem_type()).spec_max(<T7 as ToRef>::mem_type()), <T8 as ToRef>::mem_type());
            lemma_max_parts(MemType::Primitive.spec_max(<T1 as ToRef>::mem_type()).spec_max(<T2 as ToRef>::mem_type()).spec_max(<T3 as ToRef>::mem_type()).spec_max(<T4 as ToRef>::mem_type()).spec_max(<T5 as ToRef>::mem_type()).spec_max(<T6 as ToRef>::mem_type()), <T7 as ToRef>::mem_type());
            lemma_max_parts(MemType::Primitive.spec_max(<T1 as ToRef>::mem_type()).spec_max(<T2 as ToRef>::mem_type()).spec_max(<T3 as ToRef>::mem_type()).spec_max(<T4 as ToRef>::mem_type()).spec_max(<T5 as ToRef>::mem_type()), <T6 as ToRef>::mem_type());
            lemma_max_parts(MemType::Primitive.spec_max(<T1 as ToRef>::mem_type()).spec_max(<T2 as ToRef>::mem_type()).spec_max(<T3 as ToRef>::mem_type()).spec_max(<T4 as ToRef>::mem_type()), <T5 as ToRef>::mem_type());
            lemma_max_parts(MemType::Primitive.spec_max(<T1 as ToRef>::mem_type()).spec_max(<T2 as ToRef>::mem_type()).spec_max(<T3 as ToRef>::mem_type()), <T4 as ToRef>::mem_type());
            lemma_max_parts(MemType::Primitive.spec_max(<T1 as ToRef>::mem_type()).spec_max(<T2 as ToRef>::mem_type()), <T3 as ToRef>::mem_type());
            lemma_max_parts(MemType::Primitive.spec_max(<T1 as ToRef>::mem_type()), <T2 as ToRef>::mem_type());
            lemma_max_parts(MemType::Primitive, <T1 as ToRef>::mem_type());
        }
        let f0 = self.0.to_ref(writer);
        let ghost w1 = *writer;
        proof {
            writer.lemma_bounds();
        }
        let f1 = self.1.to_ref(writer);
        let ghost w2 = *writer;
        proof {
            writer.lemma_bounds();
        }
        let f2 = self.2.to_ref(writer);
        let ghost w3 = *writer;
        proof {
            writer.lemma_bounds();
        }
        let f3 = self.3.to_ref(writer);
        let ghost w4 = *writer;
        proof {
            writer.lemma_bounds();
        }
        let f4 = self.4.to_ref(writer);
        let ghost w5 = *writer;
        proof {
            writer.lemma_bounds();
        }
        let f5 = self.5.to_ref(writer);
        let ghost w6 = *writer;
        proof {
            writer.lemma_bounds();
        }
        let f6 = self.6.to_ref(writer);
        let ghost w7 = *writer;
        proof {
            writer.lemma_bounds();
        }
        let f7 = self.7.to_ref(writer);
        let ghost w8 = *writer;
        proof {
            writer.lemma_bounds();
        }
        let f8 = self.8.to_ref(writer);
        let ghost w9 = *writer;
        proof {
            writer.lemma_bounds();
        }
        let f9 = self.9.to_ref(writer);
        let ghost w10 = *writer;
        proof {
            writer.lemma_bounds();
        }
        let f10 = self.10.to_ref(writer);
        let ghost w11 = *writer;
        proof {
            writer.lemma_bounds();
        }
        proof {
            lemma_keeps_trans(w9.arena(), w10.arena(), w11.arena(), w9.cursor(), w10.cursor());
            lemma_keeps_trans(w8.arena(), w9.arena(), w11.arena(), w8.cursor(), w9.cursor());
            lemma_keeps_trans(w7.arena(), w8.arena(), w11.arena(), w7.cursor(), w8.cursor());
            lemma_keeps_trans(w6.arena(), w7.arena(), w11.arena(), w6.cursor(), w7.cursor());
            lemma_keeps_trans(w5.arena(), w6.arena(), w11.arena(), w5.cursor(), w6.cursor());
            lemma_keeps_trans(w4.arena(), w5.arena(), w11.arena(), w4.cursor(), w5.cursor());
            lemma_keeps_trans(w3.arena(), w4.arena(), w11.arena(), w3.cursor(), w4.cursor());
            lemma_keeps_trans(w2.arena(), w3.arena(), w11.arena(), w2.cursor(), w3.cursor());
            lemma_keeps_trans(w1.arena(), w2.arena(), w11.arena(), w1.cursor(), w2.cursor());
            lemma_keeps_trans(w0.arena(), w1.arena(), w11.arena(), w0.cursor(), w1.cursor());
            lemma_view_stays(&self.0, f0, w1, w11, base + w0.cursor(), base + w1.cursor());
            lemma_view_stays(&self.1, f1, w2, w11, base + w1.cursor(), base + w2.cursor());
            lemma_view_stays(&self.2, f2, w3, w11, base + w2.cursor(), base + w3.cursor());
            lemma_view_stays(&self.3, f3, w4, w11, base + w3.cursor(), base + w4.cursor());
            lemma_view_stays(&self.4, f4, w5, w11, base + w4.cursor(), base + w5.cursor());
            lemma_view_stays(&self.5, f5, w6, w11, base + w5.cursor(), base + w6.cursor());
            lemma_view_stays(&self.6, f6, w7, w11, base + w6.cursor(), base + w7.cursor());
            lemma_view_stays(&self.7, f7, w8, w11, base + w7.cursor(), base + w8.cursor());
            lemma_view_stays(&self.8, f8, w9, w11, base + w8.cursor(), base + w9.cursor());
            lemma_view_stays(&self.9, f9, w10, w11, base + w9.cursor(), base + w10.cursor());
            self.0.lemma_widen(f0, w11.image(), base + w0.cursor(), base + w1.cursor(), base + w0.cursor(), base + w11.cursor(), false);
            self.1.lemma_widen(f1, w11.image(), base + w1.cursor(), base + w2.cursor(), base + w0.cursor(), base + w11.cursor(), false);
            self.2.lemma_widen(f2, w11.image(), base + w2.cursor(), base + w3.cursor(), base + w0.cursor(), base + w11.cursor(), false);
            self.3.lemma_widen(f3, w11.image(), base + w3.cursor(), base + w4.cursor(), base + w0.cursor(), base + w11.cursor(), false);
            self.4.lemma_widen(f4, w11.image(), base + w4.cursor(), base + w5.cursor(), base + w0.cursor(), base + w11.cursor(), false);
            self.5.lemma_widen(f5, w11.image(), base + w5.cursor(), base + w6.cursor(), base + w0.cursor(), base + w11.cursor(), false);
            self.6.lemma_widen(f6, w11.image(), base + w6.cursor(), base + w7.cursor(), base + w0.cursor(), base + w11.cursor(), false);
            self.7.lemma_widen(f7, w11.image(), base + w7.cursor(), base + w8.cursor(), base + w0.cursor(), base + w11.cursor(), false);
            self.8.lemma_widen(f8, w11.image(), base + w8.cursor(), base + w9.cursor(), base + w0.cursor(), base + w11.cursor(), false);
            self.9.lemma_widen(f9, w11.image(), base + w9.cursor(), base + w10.cursor(), base + w0.cursor(), base + w11.cursor(), false);
            self.10.lemma_widen(f10, w11.image(), base + w10.cursor(), base + w11.cursor(), base + w0.cursor(), base + w11.cursor(), false);
        }
        (f0, f1, f2, f3, f4, f5, f6, f7, f8, f9, f10)
    }

    fn pinned<M: MemoryRead>(&self, r: &(<T1 as ToRef>::Ref, <T2 as ToRef>::Ref, <T3 as ToRef>::Ref, <T4 as ToRef>::Ref, <T5 as ToRef>::Ref, <T6 as ToRef>::Ref, <T7 as ToRef>::Ref, <T8 as ToRef>::Ref, <T9 as ToRef>::Ref, <T10 as ToRef>::Ref, <T11 as ToRef>::Ref), mem: &M, out: &mut Vec<Segment>) {
        self.0.pinned(&r.0, mem, out);
        self.1.pinned(&r.1, mem, out);
        self.2.pinned(&r.2, mem, out);
        self.3.pinned(&r.3, mem, out);
        self.4.pinned(&r.4, mem, out);
        self.5.pinned(&r.5, mem, out);
        self.6.pinned(&r.6, mem, out);
        self.7.pinned(&r.7, mem, out);
        self.8.pinned(&r.8, mem, out);
        self.9.pinned(&r.9, mem, out);
        self.10.pinned(&r.10, mem, out);
        assert(pieces_of(out@) =~= pieces_of(old(out)@) + self.pins(*r, mem.image()));
    }
}

impl<T1: FromRef, T2: FromRef, T3: FromRef, T4: FromRef, T5: FromRef, T6: FromRef, T7: FromRef, T8: FromRef, T9: FromRef, T10: FromRef, T11: FromRef> FromRef for (T1, T2, T3, T4, T5, T6, T7, T8, T9, T10, T11) {
    open spec fn decoded(r: (<T1 as ToRef>::Ref, <T2 as ToRef>::Ref, <T3 as ToRef>::Ref, <T4 as ToRef>::Ref, <T5 as ToRef>::Ref, <T6 as ToRef>::Ref, <T7 as ToRef>::Ref, <T8 as ToRef>::Ref, <T9 as ToRef>::Ref, <T10 as ToRef>::Ref, <T11 as ToRef>::Ref), img: Image) -> Option<(<T1 as DeepView>::V, <T2 as DeepView>::V, <T3 as DeepView>::V, <T4 as DeepView>::V, <T5 as DeepView>::V, <T6 as DeepView>::V, <T7 as DeepView>::V, <T8 as DeepView>::V, <T9 as DeepView>::V, <T10 as DeepView>::V, <T11 as DeepView>::V)> {
        match (<T1 as FromRef>::decoded(r.0, img), <T2 as FromRef>::decoded(r.1, img), <T3 as FromRef>::decoded(r.2, img), <T4 as FromRef>::decoded(r.3, img), <T5 as FromRef>::decoded(r.4, img), <T6 as FromRef>::decoded(r.5, img), <T7 as FromRef>::decoded(r.6, img), <T8 as FromRef>::decoded(r.7, img), <T9 as FromRef>::decoded(r.8, img), <T10 as FromRef>::decoded(r.9, img), <T11 as FromRef>::decoded(r.10, img)) {
            (Some(v0), Some(v1), Some(v2), Some(v3), Some(v4), Some(v5), Some(v6), Some(v7), Some(v8), Some(v9), Some(v10)) => Some((v0, v1, v2, v3, v4, v5, v6, v7, v8, v9, v10)),
            _ => None,
        }
    }

    proof fn lemma_round_trip(&self, r: (<T1 as ToRef>::Ref, <T2 as ToRef>::Ref, <T3 as ToRef>::Ref, <T4 as ToRef>::Ref, <T5 as ToRef>::Ref, <T6 as ToRef>::Ref, <T7 as ToRef>::Ref, <T8 as ToRef>::Ref, <T9 as ToRef>::Ref, <T10 as ToRef>::Ref, <T11 as ToRef>::Ref), img: Image, lo: int, hi: int) {
        self.0.lemma_round_trip(r.0, img, lo, hi);
        self.1.lemma_round_trip(r.1, img, lo, hi);
        self.2.lemma_round_trip(r.2, img, lo, hi);
        self.3.lemma_round_trip(r.3, img, lo, hi);
        self.4.lemma_round_trip(r.4, img, lo, hi);
        self.5.lemma_round_trip(r.5, img, lo, hi);
        self.6.lemma_round_trip(r.6, img, lo, hi);
        self.7.lemma_round_trip(r.7, img, lo, hi);
        self.8.lemma_round_trip(r.8, img, lo, hi);
        self.9.lemma_round_trip(r.9, img, lo, hi);
        self.10.lemma_round_trip(r.10, img, lo, hi);
    }

    fn from_ref<M: MemoryRead>(r: &(<T1 as ToRef>::Ref, <T2 as ToRef>::Ref, <T3 as ToRef>::Ref, <T4 as ToRef>::Ref, <T5 as ToRef>::Ref, <T6 as ToRef>::Ref, <T7 as ToRef>::Ref, <T8 as ToRef>::Ref, <T9 as ToRef>::Ref, <T10 as ToRef>::Ref, <T11 as ToRef>::Ref), mem: &M) -> (o: Option<Self>) {
        let v0 = match <T1 as FromRef>::from_ref(&r.0, mem) {
            Some(v) => v,
            None => {
                return None;
            },
        };
        let v1 = match <T2 as FromRef>::from_ref(&r.1, mem) {
            Some(v) => v,
            None => {
                return None;
            },
        };
        let v2 = match <T3 as FromRef>::from_ref(&r.2, mem) {
            Some(v) => v,
            None => {
                return None;
            },
        };
        let v3 = match <T4 as FromRef>::from_ref(&r.3, mem) {
            Some(v) => v,
            None => {
                return None;
            },
        };
        let v4 = match <T5 as FromRef>::from_ref(&r.4, mem) {
            Some(v) => v,
            None => {
                return None;
            },
        };
        let v5 = match <T6 as FromRef>::from_ref(&r.5, mem) {
            Some(v) => v,
            None => {
                return None;
            },
        };
        let v6 = match <T7 as FromRef>::from_ref(&r.6, mem) {
            Some(v) => v,
            None => {
                return None;
            },
        };
        let v7 = match <T8 as FromRef>::from_ref(&r.7, mem) {
            Some(v) => v,
            None => {
                return None;
            },
        };
        let v8 = match <T9 as FromRef>::from_ref(&r.8, mem) {
            Some(v) => v,
            None => {
                return None;
            },
        };
        let v9 = match <T10 as FromRef>::from_ref(&r.9, mem) {
            Some(v) => v,
            None => {
                return None;
            },
        };
        let v10 = match <T11 as FromRef>::from_ref(&r.10, mem) {
            Some(v) => v,
            None => {
                return None;
            },
        };
        Some((v0, v1, v2, v3, v4, v5, v6, v7, v8, v9, v10))
    }
}

impl<T1: ToRef, T2: ToRef, T3: ToRef, T4: ToRef, T5: ToRef, T6: ToRef, T7: ToRef, T8: ToRef, T9: ToRef, T10: ToRef, T11: ToRef, T12: ToRef> ToRef for (T1, T2, T3, T4, T5, T6, T7, T8, T9, T10, T11, T12) {
    type Ref = (<T1 as ToRef>::Ref, <T2 as ToRef>::Ref, <T3 as ToRef>::Ref, <T4 as ToRef>::Ref, <T5 as ToRef>::Ref, <T6 as ToRef>::Ref, <T7 as ToRef>::Ref, <T8 as ToRef>::Ref, <T9 as ToRef>::Ref, <T10 as ToRef>::Ref, <T11 as ToRef>::Ref, <T12 as ToRef>::Ref);

    open spec fn mem_type() -> MemType {
        MemType::Primitive.spec_max(<T1 as ToRef>::mem_type()).spec_max(<T2 as ToRef>::mem_type()).spec_max(<T3 as ToRef>::mem_type()).spec_max(<T4 as ToRef>::mem_type()).spec_max(<T5 as ToRef>::mem_type()).spec_max(<T6 as ToRef>::mem_type()).spec_max(<T7 as ToRef>::mem_type()).spec_max(<T8 as ToRef>::mem_type()).spec_max(<T9 as ToRef>::mem_type()).spec_max(<T10 as ToRef>::mem_type()).spec_max(<T11 as ToRef>::mem_type()).spec_max(<T12 as ToRef>::mem_type())
    }

    open spec fn size(&self) -> nat {
        self.0.size() + self.1.size() + self.2.size() + self.3.size() + self.4.size() + self.5.size() + self.6.size() + self.7.size() + self.8.size() + self.9.size() + self.10.size() + self.11.size()
    }

    open spec fn views(&self, r: (<T1 as ToRef>::Ref, <T2 as ToRef>::Ref, <T3 as ToRef>::Ref, <T4 as ToRef>::Ref, <T5 as ToRef>::Ref, <T6 as ToRef>::Ref, <T7 as ToRef>::Ref, <T8 as ToRef>::Ref, <T9 as ToRef>::Ref, <T10 as ToRef>::Ref, <T11 as ToRef>::Ref, <T12 as ToRef>::Ref), img: Image, lo: int, hi: int, deep: bool) -> bool {
        &&& self.0.views(r.0, img, lo, hi, deep)
        &&& self.1.views(r.1, img, lo, hi, deep)
        &&& self.2.views(r.2, img, lo, hi, deep)
        &&& self.3.views(r.3, img, lo, hi, deep)
        &&& self.4.views(r.4, img, lo, hi, deep)
        &&& self.5.views(r.5, img, lo, hi, deep)
        &&& self.6.views(r.6, img, lo, hi, deep)
        &&& self.7.views(r.7, img, lo, hi, deep)
        &&& self.8.views(r.8, img, lo, hi, deep)
        &&& self.9.views(r.9, img, lo, hi, deep)
        &&& self.10.views(r.10, img, lo, hi, deep)
        &&& self.11.views(r.11, img, lo, hi, deep)
    }

    open spec fn flat(&self) -> (<T1 as ToRef>::Ref, <T2 as ToRef>::Ref, <T3 as ToRef>::Ref, <T4 as ToRef>::Ref, <T5 as ToRef>::Ref, <T6 as ToRef>::Ref, <T7 as ToRef>::Ref, <T8 as ToRef>::Ref, <T9 as ToRef>::Ref, <T10 as ToRef>::Ref, <T11 as ToRef>::Ref, <T12 as ToRef>::Ref) {
        (self.0.flat(), self.1.flat(), self.2.flat(), self.3.flat(), self.4.flat(), self.5.flat(), self.6.flat(), self.7.flat(), self.8.flat(), self.9.flat(), self.10.flat(), self.11.flat())
    }

    open spec fn pins(&self, r: (<T1 as ToRef>::Ref, <T2 as ToRef>::Ref, <T3 as ToRef>::Ref, <T4 as ToRef>::Ref, <T5 as ToRef>::Ref, <T6 as ToRef>::Ref, <T7 as ToRef>::Ref, <T8 as ToRef>::Ref, <T9 as ToRef>::Ref, <T10 as ToRef>::Ref, <T11 as ToRef>::Ref, <T12 as ToRef>::Ref), img: Image) -> Seq<Piece> {
        self.0.pins(r.0, img) + self.1.pins(r.1, img) + self.2.pins(r.2, img) + self.3.pins(r.3, img) + self.4.pins(r.4, img) + self.5.pins(r.5, img) + self.6.pins(r.6, img) + self.7.pins(r.7, img) + self.8.pins(r.8, img) + self.9.pins(r.9, img) + self.10.pins(r.10, img) + self.11.pins(r.11, img)
    }

    proof fn lemma_flat(&self) {
        lemma_max_parts(MemType::Primitive.spec_max(<T1 as ToRef>::mem_type()).spec_max(<T2 as ToRef>::mem_type()).spec_max(<T3 as ToRef>::mem_type()).spec_max(<T4 as ToRef>::mem_type()).spec_max(<T5 as ToRef>::mem_type()).spec_max(<T6 as ToRef>::mem_type()).spec_max(<T7 as ToRef>::mem_type()).spec_max(<T8 as ToRef>::mem_type()).spec_max(<T9 as ToRef>::mem_type()).spec_max(<T10 as ToRef>::mem_type()).spec_max(<T11 as ToRef>::mem_type()), <T12 as ToRef>::mem_type());
        lemma_max_parts(MemType::Primitive.spec_max(<T1 as ToRef>::mem_type()).spec_max(<T2 as ToRef>::mem_type()).spec_max(<T3 as ToRef>::mem_type()).spec_max(<T4 as ToRef>::mem_type()).spec_max(<T5 as ToRef>::mem_type()).spec_max(<T6 as ToRef>::mem_type()).spec_max(<T7 as ToRef>::mem_type()).spec_max(<T8 as ToRef>::mem_type()).spec_max(<T9 as ToRef>::mem_type()).spec_max(<T10 as ToRef>::mem_type()), <T11 as ToRef>::mem_type());
        lemma_max_parts(MemType::Primitive.spec_max(<T1 as ToRef>::mem_type()).spec_max(<T2 as ToRef>::mem_type()).spec_max(<T3 as ToRef>::mem_type()).spec_max(<T4 as ToRef>::mem_type()).spec_max(<T5 as ToRef>::mem_type()).spec_max(<T6 as ToRef>::mem_type()).spec_max(<T7 as ToRef>::mem_type()).spec_max(<T8 as ToRef>::mem_type()).spec_max(<T9 as ToRef>::mem_type()), <T10 as ToRef>::mem_type());
        lemma_max_parts(MemType::Primitive.spec_max(<T1 as ToRef>::mem_type()).spec_max(<T2 as ToRef>::mem_type()).spec_max(<T3 as ToRef>::mem_type()).spec_max(<T4 as ToRef>::mem_type()).spec_max(<T5 as ToRef>::mem_type()).spec_max(<T6 as ToRef>::mem_type()).spec_max(<T7 as ToRef>::mem_type()).spec_max(<T8 as ToRef>::mem_type()), <T9 as ToRef>::mem_type());
        lemma_max_parts(MemType::Primitive.spec_max(<T1 as ToRef>::mem_type()).spec_max(<T2 as ToRef>::mem_type()).spec_max(<T3 as ToRef>::mem_type()).spec_max(<T4 as ToRef>::mem_type()).spec_max(<T5 as ToRef>::mem_type()).spec_max(<T6 as ToRef>::mem_type()).spec_max(<T7 as ToRef>::mem_type()), <T8 as ToRef>::mem_type());
        lemma_max_parts(MemType::Primitive.spec_max(<T1 as ToRef>::mem_type()).spec_max(<T2 as ToRef>::mem_type()).spec_max(<T3 as ToRef>::mem_type()).spec_max(<T4 as ToRef>::mem_type()).spec_max(<T5 as ToRef>::mem_type()).spec_max(<T6 as ToRef>::mem_type()), <T7 as ToRef>::mem_type());
        lemma_max_parts(MemType::Primitive.spec_max(<T1 as ToRef>::mem_type()).spec_max(<T2 as ToRef>::mem_type()).spec_max(<T3 as ToRef>::mem_type()).spec_max(<T4 as ToRef>::mem_type()).spec_max(<T5 as ToRef>::mem_type()), <T6 as ToRef>::mem_type());
        lemma_max_parts(MemType::Primitive.spec_max(<T1 as ToRef>::mem_type()).spec_max(<T2 as ToRef>::mem_type()).spec_max(<T3 as ToRef>::mem_type()).spec_max(<T4 as ToRef>::mem_type()), <T5 as ToRef>::mem_type());
        lemma_max_parts(MemType::Primitive.spec_max(<T1 as ToRef>::mem_type()).spec_max(<T2 as ToRef>::mem_type()).spec_max(<T3 as ToRef>::mem_type()), <T4 as ToRef>::mem_type());
        lemma_max_parts(MemType::Primitive.spec_max(<T1 as ToRef>::mem_type()).spec_max(<T2 as ToRef>::mem_type()), <T3 as ToRef>::mem_type());
        lemma_max_parts(MemType::Primitive.spec_max(<T1 as ToRef>::mem_type()), <T2 as ToRef>::mem_type());
        lemma_max_parts(MemType::Primitive, <T1 as ToRef>::mem_type());
        self.0.lemma_flat();
        self.1.lemma_flat();
        self.2.lemma_flat();
        self.3.lemma_flat();
        self.4.lemma_flat();
        self.5.lemma_flat();
        self.6.lemma_flat();
        self.7.lemma_flat();
        self.8.lemma_flat();
        self.9.lemma_flat();
        self.10.lemma_flat();
        self.11.lemma_flat();
    }

    proof fn lemma_primitive(&self, r: (<T1 as ToRef>::Ref, <T2 as ToRef>::Ref, <T3 as ToRef>::Ref, <T4 as ToRef>::Ref, <T5 as ToRef>::Ref, <T6 as ToRef>::Ref, <T7 as ToRef>::Ref, <T8 as ToRef>::Ref, <T9 as ToRef>::Ref, <T10 as ToRef>::Ref, <T11 as ToRef>::Ref, <T12 as ToRef>::Ref), img: Image, lo: int, hi: int, deep: bool) {
        lemma_max_parts(MemType::Primitive.spec_max(<T1 as ToRef>::mem_type()).spec_max(<T2 as ToRef>::mem_type()).spec_max(<T3 as ToRef>::mem_type()).spec_max(<T4 as ToRef>::mem_type()).spec_max(<T5 as ToRef>::mem_type()).spec_max(<T6 as ToRef>::mem_type()).spec_max(<T7 as ToRef>::mem_type()).spec_max(<T8 as ToRef>::mem_type()).spec_max(<T9 as ToRef>::mem_type()).spec_max(<T10 as ToRef>::mem_type()).spec_max(<T11 as ToRef>::mem_type()), <T12 as ToRef>::mem_type());
        lemma_max_parts(MemType::Primitive.spec_max(<T1 as ToRef>::mem_type()).spec_max(<T2 as ToRef>::mem_type()).spec_max(<T3 as ToRef>::mem_type()).spec_max(<T4 as ToRef>::mem_type()).spec_max(<T5 as ToRef>::mem_type()).spec_max(<T6 as ToRef>::mem_type()).spec_max(<T7 as ToRef>::mem_type()).spec_max(<T8 as ToRef>::mem_type()).spec_max(<T9 as ToRef>::mem_type()).spec_max(<T10 as ToRef>::mem_type()), <T11 as ToRef>::mem_type());
        lemma_max_parts(MemType::Primitive.spec_max(<T1 as ToRef>::mem_type()).spec_max(<T2 as ToRef>::mem_type()).spec_max(<T3 as ToRef>::mem_type()).spec_max(<T4 as ToRef>::mem_type()).spec_max(<T5 as ToRef>::mem_type()).spec_max(<T6 as ToRef>::mem_type()).spec_max(<T7 as ToRef>::mem_type()).spec_max(<T8 as ToRef>::mem_type()).spec_max(<T9 as ToRef>::mem_type()), <T10 as ToRef>::mem_type());
        lemma_max_parts(MemType::Primitive.spec_max(<T1 as ToRef>::mem_type()).spec_max(<T2 as ToRef>::mem_type()).spec_max(<T3 as ToRef>::mem_type()).spec_max(<T4 as ToRef>::mem_type()).spec_max(<T5 as ToRef>::mem_type()).spec_max(<T6 as ToRef>::mem_type()).spec_max(<T7 as ToRef>::mem_type()).spec_max(<T8 as ToRef>::mem_type()), <T9 as ToRef>::mem_type());
        lemma_max_parts(MemType::Primitive.spec_max(<T1 as ToRef>::mem_type()).spec_max(<T2 as ToRef>::mem_type()).spec_max(<T3 as ToRef>::mem_type()).spec_max(<T4 as ToRef>::mem_type()).spec_max(<T5 as ToRef>::mem_type()).spec_max(<T6 as ToRef>::mem_type()).spec_max(<T7 as ToRef>::mem_type()), <T8 as ToRef>::mem_type());
        lemma_max_parts(MemType::Primitive.spec_max(<T1 as ToRef>::mem_type()).spec_max(<T2 as ToRef>::mem_type()).spec_max(<T3 as ToRef>::mem_type()).spec_max(<T4 as ToRef>::mem_type()).spec_max(<T5 as ToRef>::mem_type()).spec_max(<T6 as ToRef>::mem_type()), <T7 as ToRef>::mem_type());
        lemma_max_parts(MemType::Primitive.spec_max(<T1 as ToRef>::mem_type()).spec_max(<T2 as ToRef>::mem_type()).spec_max(<T3 as ToRef>::mem_type()).spec_max(<T4 as ToRef>::mem_type()).spec_max(<T5 as ToRef>::mem_type()), <T6 as ToRef>::mem_type());
        lemma_max_parts(MemType::Primitive.spec_max(<T1 as ToRef>::mem_type()).spec_max(<T2 as ToRef>::mem_type()).spec_max(<T3 as ToRef>::mem_type()).spec_max(<T4 as ToRef>::mem_type()), <T5 as ToRef>::mem_type());
        lemma_max_parts(MemType::Primitive.spec_max(<T1 as ToRef>::mem_type()).spec_max(<T2 as ToRef>::mem_type()).spec_max(<T3 as ToRef>::mem_type()), <T4 as ToRef>::mem_type());
        lemma_max_parts(MemType::Primitive.spec_max(<T1 as ToRef>::mem_type()).spec_max(<T2 as ToRef>::mem_type()), <T3 as ToRef>::mem_type());
        lemma_max_parts(MemType::Primitive.spec_max(<T1 as ToRef>::mem_type()), <T2 as ToRef>::mem_type());
        lemma_max_parts(MemType::Primitive, <T1 as ToRef>::mem_type());
        self.0.lemma_primitive(r.0, img, lo, hi, deep);
        self.1.lemma_primitive(r.1, img, lo, hi, deep);
        self.2.lemma_primitive(r.2, img, lo, hi, deep);
        self.3.lemma_primitive(r.3, img, lo, hi, deep);
        self.4.lemma_primitive(r.4, img, lo, hi, deep);
        self.5.lemma_primitive(r.5, img, lo, hi, deep);
        self.6.lemma_primitive(r.6, img, lo, hi, deep);
        self.7.lemma_primitive(r.7, img, lo, hi, deep);
        self.8.lemma_primitive(r.8, img, lo, hi, deep);
        self.9.lemma_primitive(r.9, img, lo, hi, deep);
        self.10.lemma_primitive(r.10, img, lo, hi, deep);
        self.11.lemma_primitive(r.11, img, lo, hi, deep);
        if Self::mem_type() == MemType::Primitive {
            assert(self.pins(r, img) =~= Seq::<Piece>::empty());
        }
    }

    proof fn lemma_deepen(&self, r: (<T1 as ToRef>::Ref, <T2 as ToRef>::Ref, <T3 as ToRef>::Ref, <T4 as ToRef>::Ref, <T5 as ToRef>::Ref, <T6 as ToRef>::Ref, <T7 as ToRef>::Ref, <T8 as ToRef>::Ref, <T9 as ToRef>::Ref, <T10 as ToRef>::Ref, <T11 as ToRef>::Ref, <T12 as ToRef>::Ref), img: Image, other: Image, lo: int, hi: int) {
        lemma_holds_all_concat(other, self.0.pins(r.0, img) + self.1.pins(r.1, img) + self.2.pins(r.2, img) + self.3.pins(r.3, img) + self.4.pins(r.4, img) + self.5.pins(r.5, img) + self.6.pins(r.6, img) + self.7.pins(r.7, img) + self.8.pins(r.8, img) + self.9.pins(r.9, img) + self.10.pins(r.10, img), self.11.pins(r.11, img));
        lemma_holds_all_concat(other, self.0.pins(r.0, img) + self.1.pins(r.1, img) + self.2.pins(r.2, img) + self.3.pins(r.3, img) + self.4.pins(r.4, img) + self.5.pins(r.5, img) + self.6.pins(r.6, img) + self.7.pins(r.7, img) + self.8.pins(r.8, img) + self.9.pins(r.9, img), self.10.pins(r.10, img));
        lemma_holds_all_concat(other, self.0.pins(r.0, img) + self.1.pins(r.1, img) + self.2.pins(r.2, img) + self.3.pins(r.3, img) + self.4.pins(r.4, img) + self.5.pins(r.5, img) + self.6.pins(r.6, img) + self.7.pins(r.7, img) + self.8.pins(r.8, img), self.9.pins(r.9, img));
        lemma_holds_all_concat(other, self.0.pins(r.0, img) + self.1.pins(r.1, img) + self.2.pins(r.2, img) + self.3.pins(r.3, img) + self.4.pins(r.4, img) + self.5.pins(r.5, img) + self.6.pins(r.6, img) + self.7.pins(r.7, img), self.8.pins(r.8, img));
        lemma_holds_all_concat(other, self.0.pins(r.0, img) + self.1.pins(r.1, img) + self.2.pins(r.2, img) + self.3.pins(r.3, img) + self.4.pins(r.4, img) + self.5.pins(r.5, img) + self.6.pins(r.6, img), self.7.pins(r.7, img));
        lemma_holds_all_concat(other, self.0.pins(r.0, img) + self.1.pins(r.1, img) + self.2.pins(r.2, img) + self.3.pins(r.3, img) + self.4.pins(r.4, img) + self.5.pins(r.5, img), self.6.pins(r.6, img));
        lemma_holds_all_concat(other, self.0.pins(r.0, img) + self.1.pins(r.1, img) + self.2.pins(r.2, img) + self.3.pins(r.3, img) + self.4.pins(r.4, img), self.5.pins(r.5, img));
        lemma_holds_all_concat(other, self.0.pins(r.0, img) + self.1.pins(r.1, img) + self.2.pins(r.2, img) + self.3.pins(r.3, img), self.4.pins(r.4, img));
        lemma_holds_all_concat(other, self.0.pins(r.0, img) + self.1.pins(r.1, img) + self.2.pins(r.2, img), self.3.pins(r.3, img));
        lemma_holds_all_concat(other, self.0.pins(r.0, img) + self.1.pins(r.1, img), self.2.pins(r.2, img));
        lemma_holds_all_concat(other, self.0.pins(r.0, img), self.1.pins(r.1, img));
        self.0.lemma_deepen(r.0, img, other, lo, hi);
        self.1.lemma_deepen(r.1, img, other, lo, hi);
        self.2.lemma_deepen(r.2, img, other, lo, hi);
        self.3.lemma_deepen(r.3, img, other, lo, hi);
        self.4.lemma_deepen(r.4, img, other, lo, hi);
        self.5.lemma_deepen(r.5, img, other, lo, hi);
        self.6.lemma_deepen(r.6, img, other, lo, hi);
        self.7.lemma_deepen(r.7, img, other, lo, hi);
        self.8.lemma_deepen(r.8, img, other, lo, hi);
        self.9.lemma_deepen(r.9, img, other, lo, hi);
        self.10.lemma_deepen(r.10, img, other, lo, hi);
        self.11.lemma_deepen(r.11, img, other, lo, hi);
    }

    proof fn lemma_frame(&self, r: (<T1 as ToRef>::Ref, <T2 as ToRef>::Ref, <T3 as ToRef>::Ref, <T4 as ToRef>::Ref, <T5 as ToRef>::Ref, <T6 as ToRef>::Ref, <T7 as ToRef>::Ref, <T8 as ToRef>::Ref, <T9 as ToRef>::Ref, <T10 as ToRef>::Ref, <T11 as ToRef>::Ref, <T12 as ToRef>::Ref), img: Image, other: Image, lo: int, hi: int, deep: bool) {
        self.0.lemma_frame(r.0, img, other, lo, hi, deep);
        self.1.lemma_frame(r.1, img, other, lo, hi, deep);
        self.2.lemma_frame(r.2, img, other, lo, hi, deep);
        self.3.lemma_frame(r.3, img, other, lo, hi, deep);
        self.4.lemma_frame(r.4, img, other, lo, hi, deep);
        self.5.lemma_frame(r.5, img, other, lo, hi, deep);
        self.6.lemma_frame(r.6, img, other, lo, hi, deep);
        self.7.lemma_frame(r.7, img, other, lo, hi, deep);
        self.8.lemma_frame(r.8, img, other, lo, hi, deep);
        self.9.lemma_frame(r.9, img, other, lo, hi, deep);
        self.10.lemma_frame(r.10, img, other, lo, hi, deep);
        self.11.lemma_frame(r.11, img, other, lo, hi, deep);
    }

    proof fn lemma_widen(
        &self,
        r: (<T1 as ToRef>::Ref, <T2 as ToRef>::Ref, <T3 as ToRef>::Ref, <T4 as ToRef>::Ref, <T5 as ToRef>::Ref, <T6 as ToRef>::Ref, <T7 as ToRef>::Ref, <T8 as ToRef>::Ref, <T9 as ToRef>::Ref, <T10 as ToRef>::Ref, <T11 as ToRef>::Ref, <T12 as ToRef>::Ref),
        img: Image,
        lo: int,
        hi: int,
        wide_lo: int,
        wide_hi: int,
        deep: bool,
    ) {
        self.0.lemma_widen(r.0, img, lo, hi, wide_lo, wide_hi, deep);
        self.1.lemma_widen(r.1, img, lo, hi, wide_lo, wide_hi, deep);
        self.2.lemma_widen(r.2, img, lo, hi, wide_lo, wide_hi, deep);
        self.3.lemma_widen(r.3, img, lo, hi, wide_lo, wide_hi, deep);
        self.4.lemma_widen(r.4, img, lo, hi, wide_lo, wide_hi, deep);
        self.5.lemma_widen(r.5, img, lo, hi, wide_lo, wide_hi, deep);
        self.6.lemma_widen(r.6, img, lo, hi, wide_lo, wide_hi, deep);
        self.7.lemma_widen(r.7, img, lo, hi, wide_lo, wide_hi, deep);
        self.8.lemma_widen(r.8, img, lo, hi, wide_lo, wide_hi, deep);
        self.9.lemma_widen(r.9, img, lo, hi, wide_lo, wide_hi, deep);
        self.10.lemma_widen(r.10, img, lo, hi, wide_lo, wide_hi, deep);
        self.11.lemma_widen(r.11, img, lo, hi, wide_lo, wide_hi, deep);
    }

    fn mem_type_of() -> (t: MemType) {
        MemType::Primitive.max(<T1 as ToRef>::mem_type_of()).max(<T2 as ToRef>::mem_type_of()).max(<T3 as ToRef>::mem_type_of()).max(<T4 as ToRef>::mem_type_of()).max(<T5 as ToRef>::mem_type_of()).max(<T6 as ToRef>::mem_type_of()).max(<T7 as ToRef>::mem_type_of()).max(<T8 as ToRef>::mem_type_of()).max(<T9 as ToRef>::mem_type_of()).max(<T10 as ToRef>::mem_type_of()).max(<T11 as ToRef>::mem_type_of()).max(<T12 as ToRef>::mem_type_of())
    }

    fn to_size(&self, acc: &mut usize) {
        self.0.to_size(acc);
        self.1.to_size(acc);
        self.2.to_size(acc);
        self.3.to_size(acc);
        self.4.to_size(acc);
        self.5.to_size(acc);
        self.6.to_size(acc);
        self.7.to_size(acc);
        self.8.to_size(acc);
        self.9.to_size(acc);
        self.10.to_size(acc);
        self.11.to_size(acc);
    }

    fn checked_size(&self, acc: usize) -> (sum: Option<usize>) {
        let sum0 = acc;
        let sum1 = match self.0.checked_size(sum0) {
            Some(next) => next,
            None => {
                return None;
            },
        };
        let sum2 = match self.1.checked_size(sum1) {
            Some(next) => next,
            None => {
                return None;
            },
        };
        let sum3 = match self.2.checked_size(sum2) {
            Some(next) => next,
            None => {
                return None;
            },
        };
        let sum4 = match self.3.checked_size(sum3) {
            Some(next) => next,
            None => {
                return None;
            },
        };
        let sum5 = match self.4.checked_size(sum4) {
            Some(next) => next,
            None => {
                return None;
            },
        };
        let sum6 = match self.5.checked_size(sum5) {
            Some(next) => next,
            None => {
                return None;
            },
        };
        let sum7 = match self.6.checked_size(sum6) {
            Some(next) => next,
            None => {
                return None;
            },
        };
        let sum8 = match self.7.checked_size(sum7) {
            Some(next) => next,
            None => {
                return None;
            },
        };
        let sum9 = match self.8.checked_size(sum8) {
            Some(next) => next,
            None => {
                return None;
            },
        };
        let sum10 = match self.9.checked_size(sum9) {
            Some(next) => next,
            None => {
                return None;
            },
        };
        let sum11 = match self.10.checked_size(sum10) {
            Some(next) => next,
            None => {
                return None;
            },
        };
        let sum12 = match self.11.checked_size(sum11) {
            Some(next) => next,
            None => {
                return None;
            },
        };
        Some(sum12)
    }

    fn to_ref(&self, writer: &mut Writer) -> (r: (<T1 as ToRef>::Ref, <T2 as ToRef>::Ref, <T3 as ToRef>::Ref, <T4 as ToRef>::Ref, <T5 as ToRef>::Ref, <T6 as ToRef>::Ref, <T7 as ToRef>::Ref, <T8 as ToRef>::Ref, <T9 as ToRef>::Ref, <T10 as ToRef>::Ref, <T11 as ToRef>::Ref, <T12 as ToRef>::Ref)) {
        let ghost base = writer.base() as int;
        let ghost w0 = *writer;
        proof {
            writer.lemma_bounds();
            lemma_keeps_same(writer.arena(), writer.cursor());
            lemma_max_parts(MemType::Primitive.spec_max(<T1 as ToRef>::mem_type()).spec_max(<T2 as ToRef>::mem_type()).spec_max(<T3 as ToRef>::mem_type()).spec_max(<T4 as ToRef>::mem_type()).spec_max(<T5 as ToRef>::mem_type()).spec_max(<T6 as ToRef>::mem_type()).spec_max(<T7 as ToRef>::mem_type()).spec_max(<T8 as ToRef>::mem_type()).spec_max(<T9 as ToRef>::mem_type()).spec_max(<T10 as ToRef>::mem_type()).spec_max(<T11 as ToRef>::mem_type()), <T12 as ToRef>::mem_type());
            lemma_max_parts(MemType::Primitive.spec_max(<T1 as ToRef>::mem_type()).spec_max(<T2 as ToRef>::mem_type()).spec_max(<T3 as ToRef>::mem_type()).spec_max(<T4 as ToRef>::mem_type()).spec_max(<T5 as ToRef>::mem_type()).spec_max(<T6 as ToRef>::mem_type()).spec_max(<T7 as ToRef>::mem_type()).spec_max(<T8 as ToRef>::mem_type()).spec_max(<T9 as ToRef>::mem_type()).spec_max(<T10 as ToRef>::mem_type()), <T11 as ToRef>::mem_type());
            lemma_max_parts(MemType::Primitive.spec_max(<T1 as ToRef>::mem_type()).spec_max(<T2 as ToRef>::mem_type()).spec_max(<T3 as ToRef>::mem_type()).spec_max(<T4 as ToRef>::mem_type()).spec_max(<T5 as ToRef>::mem_type()).spec_max(<T6 as ToRef>::mem_type()).spec_max(<T7 as ToRef>::mem_type()).spec_max(<T8 as ToRef>::mem_type()).spec_max(<T9 as ToRef>::mem_type()), <T10 as ToRef>::mem_type());
            lemma_max_parts(MemType::Primitive.spec_max(<T1 as ToRef>::mem_type()).spec_max(<T2 as ToRef>::mem_type()).spec_max(<T3 as ToRef>::mem_type()).spec_max(<T4 as ToRef>::mem_type()).spec_max(<T5 as ToRef>::mem_type()).spec_max(<T6 as ToRef>::mem_type()).spec_max(<T7 as ToRef>::mem_type()).spec_max(<T8 as ToRef>::mem_type()), <T9 as ToRef>::mem_type());
            lemma_max_parts(MemType::Primitive.spec_max(<T1 as ToRef>::mem_type()).spec_max(<T2 as ToRef>::mem_type()).spec_max(<T3 as ToRef>::mem_type()).spec_max(<T4 as ToRef>::mem_type()).spec_max(<T5 as ToRef>::mem_type()).spec_max(<T6 as ToRef>::mem_type()).spec_max(<T7 as ToRef>::mem_type()), <T8 as ToRef>::mem_type());
            lemma_max_parts(MemType::Primitive.spec_max(<T1 as ToRef>::mem_type()).spec_max(<T2 as ToRef>::mem_type()).spec_max(<T3 as ToRef>::mem_type()).spec_max(<T4 as ToRef>::mem_type()).spec_max(<T5 as ToRef>::mem_type()).spec_max(<T6 as ToRef>::mem_type()), <T7 as ToRef>::mem_type());
            lemma_max_parts(MemType::Primitive.spec_max(<T1 as ToRef>::mem_type()).spec_max(<T2 as ToRef>::mem_type()).spec_max(<T3 as ToRef>::mem_type()).spec_max(<T4 as ToRef>::mem_type()).spec_max(<T5 as ToRef>::mem_type()), <T6 as ToRef>::mem_type());
            lemma_max_parts(MemType::Primitive.spec_max(<T1 as ToRef>::mem_type()).spec_max(<T2 as ToRef>::mem_type()).spec_max(<T3 as ToRef>::mem_type()).spec_max(<T4 as ToRef>::mem_type()), <T5 as ToRef>::mem_type());
            lemma_max_parts(MemType::Primitive.spec_max(<T1 as ToRef>::mem_type()).spec_max(<T2 as ToRef>::mem_type()).spec_max(<T3 as ToRef>::mem_type()), <T4 as ToRef>::mem_type());
            lemma_max_parts(MemType::Primitive.spec_max(<T1 as ToRef>::mem_type()).spec_max(<T2 as ToRef>::mem_type()), <T3 as ToRef>::mem_type());
            lemma_max_parts(MemType::Primitive.spec_max(<T1 as ToRef>::mem_type()), <T2 as ToRef>::mem_type());
            lemma_max_parts(MemType::Primitive, <T1 as ToRef>::mem_type());
        }
        let f0 = self.0.to_ref(writer);
        let ghost w1 = *writer;
        proof {
            writer.lemma_bounds();
        }
        let f1 = self.1.to_ref(writer);
        let ghost w2 = *writer;
        proof {
            writer.lemma_bounds();
        }
        let f2 = self.2.to_ref(writer);
        let ghost w3 = *writer;
        proof {
            writer.lemma_bounds();
        }
        let f3 = self.3.to_ref(writer);
        let ghost w4 = *writer;
        proof {
            writer.lemma_bounds();
        }
        let f4 = self.4.to_ref(writer);
        let ghost w5 = *writer;
        proof {
            writer.lemma_bounds();
        }
        let f5 = self.5.to_ref(writer);
        let ghost w6 = *writer;
        proof {
            writer.lemma_bounds();
        }
        let f6 = self.6.to_ref(writer);
        let ghost w7 = *writer;
        proof {
            writer.lemma_bounds();
        }
        let f7 = self.7.to_ref(writer);
        let ghost w8 = *writer;
        proof {
            writer.lemma_bounds();
        }
        let f8 = self.8.to_ref(writer);
        let ghost w9 = *writer;
        proof {
            writer.lemma_bounds();
        }
        let f9 = self.9.to_ref(writer);
        let ghost w10 = *writer;
        proof {
            writer.lemma_bounds();
        }
        let f10 = self.10.to_ref(writer);
        let ghost w11 = *writer;
        proof {
            writer.lemma_bounds();
        }
        let f11 = self.11.to_ref(writer);
        let ghost w12 = *writer;
        proof {
            writer.lemma_bounds();
        }
        proof {
            lemma_keeps_trans(w10.arena(), w11.arena(), w12.arena(), w10.cursor(), w11.cursor());
            lemma_keeps_trans(w9.arena(), w10.arena(), w12.arena(), w9.cursor(), w10.cursor());
            lemma_keeps_trans(w8.arena(), w9.arena(), w12.arena(), w8.cursor(), w9.cursor());
            lemma_keeps_trans(w7.arena(), w8.arena(), w12.arena(), w7.cursor(), w8.cursor());
            lemma_keeps_trans(w6.arena(), w7.arena(), w12.arena(), w6.cursor(), w7.cursor());
            lemma_keeps_trans(w5.arena(), w6.arena(), w12.arena(), w5.cursor(), w6.cursor());
            lemma_keeps_trans(w4.arena(), w5.arena(), w12.arena(), w4.cursor(), w5.cursor());
            lemma_keeps_trans(w3.arena(), w4.arena(), w12.arena(), w3.cursor(), w4.cursor());
            lemma_keeps_trans(w2.arena(), w3.arena(), w12.arena(), w2.cursor(), w3.cursor());
            lemma_keeps_trans(w1.arena(), w2.arena(), w12.arena(), w1.cursor(), w2.cursor());
            lemma_keeps_trans(w0.arena(), w1.arena(), w12.arena(), w0.cursor(), w1.cursor());
            lemma_view_stays(&self.0, f0, w1, w12, base + w0.cursor(), base + w1.cursor());
            lemma_view_stays(&self.1, f1, w2, w12, base + w1.cursor(), base + w2.cursor());
            lemma_view_stays(&self.2, f2, w3, w12, base + w2.cursor(), base + w3.cursor());
            lemma_view_stays(&self.3, f3, w4, w12, base + w3.cursor(), base + w4.cursor());
            lemma_view_stays(&self.4, f4, w5, w12, base + w4.cursor(), base + w5.cursor());
            lemma_view_stays(&self.5, f5, w6, w12, base + w5.cursor(), base + w6.cursor());
            lemma_view_stays(&self.6, f6, w7, w12, base + w6.cursor(), base + w7.cursor());
            lemma_view_stays(&self.7, f7, w8, w12, base + w7.cursor(), base + w8.cursor());
            lemma_view_stays(&self.8, f8, w9, w12, base + w8.cursor(), base + w9.cursor());
            lemma_view_stays(&self.9, f9, w10, w12, base + w9.cursor(), base + w10.cursor());
            lemma_view_stays(&self.10, f10, w11, w12, base + w10.cursor(), base + w11.cursor());
            self.0.lemma_widen(f0, w12.image(), base + w0.cursor(), base + w1.cursor(), base + w0.cursor(), base + w12.cursor(), false);
            self.1.lemma_widen(f1, w12.image(), base + w1.cursor(), base + w2.cursor(), base + w0.cursor(), base + w12.cursor(), false);
            self.2.lemma_widen(f2, w12.image(), base + w2.cursor(), base + w3.cursor(), base + w0.cursor(), base + w12.cursor(), false);
            self.3.lemma_widen(f3, w12.image(), base + w3.cursor(), base + w4.cursor(), base + w0.cursor(), base + w12.cursor(), false);
            self.4.lemma_widen(f4, w12.image(), base + w4.cursor(), base + w5.cursor(), base + w0.cursor(), base + w12.cursor(), false);
            self.5.lemma_widen(f5, w12.image(), base + w5.cursor(), base + w6.cursor(), base + w0.cursor(), base + w12.cursor(), false);
            self.6.lemma_widen(f6, w12.image(), base + w6.cursor(), base + w7.cursor(), base + w0.cursor(), base + w12.cursor(), false);
            self.7.lemma_widen(f7, w12.image(), base + w7.cursor(), base + w8.cursor(), base + w0.cursor(), base + w12.cursor(), false);
            self.8.lemma_widen(f8, w12.image(), base + w8.cursor(), base + w9.cursor(), base + w0.cursor(), base + w12.cursor(), false);
            self.9.lemma_widen(f9, w12.image(), base + w9.cursor(), base + w10.cursor(), base + w0.cursor(), base + w12.cursor(), false);
            self.10.lemma_widen(f10, w12.image(), base + w10.cursor(), base + w11.cursor(), base + w0.cursor(), base + w12.cursor(), false);
            self.11.lemma_widen(f11, w12.image(), base + w11.cursor(), base + w12.cursor(), base + w0.cursor(), base + w12.cursor(), false);
        }
        (f0, f1, f2, f3, f4, f5, f6, f7, f8, f9, f10, f11)
    }

    fn pinned<M: MemoryRead>(&self, r: &(<T1 as ToRef>::Ref, <T2 as ToRef>::Ref, <T3 as ToRef>::Ref, <T4 as ToRef>::Ref, <T5 as ToRef>::Ref, <T6 as ToRef>::Ref, <T7 as ToRef>::Ref, <T8 as ToRef>::Ref, <T9 as ToRef>::Ref, <T10 as ToRef>::Ref, <T11 as ToRef>::Ref, <T12 as ToRef>::Ref), mem: &M, out: &mut Vec<Segment>) {
        self.0.pinned(&r.0, mem, out);
        self.1.pinned(&r.1, mem, out);
        self.2.pinned(&r.2, mem, out);
        self.3.pinned(&r.3, mem, out);
        self.4.pinned(&r.4, mem, out);
        self.5.pinned(&r.5, mem, out);
        self.6.pinned(&r.6, mem, out);
        self.7.pinned(&r.7, mem, out);
        self.8.pinned(&r.8, mem, out);
        self.9.pinned(&r.9, mem, out);
        self.10.pinned(&r.10, mem, out);
        self.11.pinned(&r.11, mem, out);
        assert(pieces_of(out@) =~= pieces_of(old(out)@) + self.pins(*r, mem.image()));
    }
}

impl<T1: FromRef, T2: FromRef, T3: FromRef, T4: FromRef, T5: FromRef, T6: FromRef, T7: FromRef, T8: FromRef, T9: FromRef, T10: FromRef, T11: FromRef, T12: FromRef> FromRef for (T1, T2, T3, T4, T5, T6, T7, T8, T9, T10, T11, T12) {
    open spec fn decoded(r: (<T1 as ToRef>::Ref, <T2 as ToRef>::Ref, <T3 as ToRef>::Ref, <T4 as ToRef>::Ref, <T5 as ToRef>::Ref, <T6 as ToRef>::Ref, <T7 as ToRef>::Ref, <T8 as ToRef>::Ref, <T9 as ToRef>::Ref, <T10 as ToRef>::Ref, <T11 as ToRef>::Ref, <T12 as ToRef>::Ref), img: Image) -> Option<(<T1 as DeepView>::V, <T2 as DeepView>::V, <T3 as DeepView>::V, <T4 as DeepView>::V, <T5 as DeepView>::V, <T6 as DeepView>::V, <T7 as DeepView>::V, <T8 as DeepView>::V, <T9 as DeepView>::V, <T10 as DeepView>::V, <T11 as DeepView>::V, <T12 as DeepView>::V)> {
        match (<T1 as FromRef>::decoded(r.0, img), <T2 as FromRef>::decoded(r.1, img), <T3 as FromRef>::decoded(r.2, img), <T4 as FromRef>::decoded(r.3, img), <T5 as FromRef>::decoded(r.4, img), <T6 as FromRef>::decoded(r.5, img), <T7 as FromRef>::decoded(r.6, img), <T8 as FromRef>::decoded(r.7, img), <T9 as FromRef>::decoded(r.8, img), <T10 as FromRef>::decoded(r.9, img), <T11 as FromRef>::decoded(r.10, img), <T12 as FromRef>::decoded(r.11, img)) {
            (Some(v0), Some(v1), Some(v2), Some(v3), Some(v4), Some(v5), Some(v6), Some(v7), Some(v8), Some(v9), Some(v10), Some(v11)) => Some((v0, v1, v2, v3, v4, v5, v6, v7, v8, v9, v10, v11)),
            _ => None,
        }
    }

    proof fn lemma_round_trip(&self, r: (<T1 as ToRef>::Ref, <T2 as ToRef>::Ref, <T3 as ToRef>::Ref, <T4 as ToRef>::Ref, <T5 as ToRef>::Ref, <T6 as ToRef>::Ref, <T7 as ToRef>::Ref, <T8 as ToRef>::Ref, <T9 as ToRef>::Ref, <T10 as ToRef>::Ref, <T11 as ToRef>::Ref, <T12 as ToRef>::Ref), img: Image, lo: int, hi: int) {
        self.0.lemma_round_trip(r.0, img, lo, hi);
        self.1.lemma_round_trip(r.1, img, lo, hi);
        self.2.lemma_round_trip(r.2, img, lo, hi);
        self.3.lemma_round_trip(r.3, img, lo, hi);
        self.4.lemma_round_trip(r.4, img, lo, hi);
        self.5.lemma_round_trip(r.5, img, lo, hi);
        self.6.lemma_round_trip(r.6, img, lo, hi);
        self.7.lemma_round_trip(r.7, img, lo, hi);
        self.8.lemma_round_trip(r.8, img, lo, hi);
        self.9.lemma_round_trip(r.9, img, lo, hi);
        self.10.lemma_round_trip(r.10, img, lo, hi);
        self.11.lemma_round_trip(r.11, img, lo, hi);
    }

    fn from_ref<M: MemoryRead>(r: &(<T1 as ToRef>::Ref, <T2 as ToRef>::Ref, <T3 as ToRef>::Ref, <T4 as ToRef>::Ref, <T5 as ToRef>::Ref, <T6 as ToRef>::Ref, <T7 as ToRef>::Ref, <T8 as ToRef>::Ref, <T9 as ToRef>::Ref, <T10 as ToRef>::Ref, <T11 as ToRef>::Ref, <T12 as ToRef>::Ref), mem: &M) -> (o: Option<Self>) {
        let v0 = match <T1 as FromRef>::from_ref(&r.0, mem) {
            Some(v) => v,
            None => {
                return None;
            },
        };
        let v1 = match <T2 as FromRef>::from_ref(&r.1, mem) {
            Some(v) => v,
            None => {
                return None;
            },
        };
        let v2 = match <T3 as FromRef>::from_ref(&r.2, mem) {
            Some(v) => v,
            None => {
                return None;
            },
        };
        let v3 = match <T4 as FromRef>::from_ref(&r.3, mem) {
            Some(v) => v,
            None => {
                return None;
            },
        };
        let v4 = match <T5 as FromRef>::from_ref(&r.4, mem) {
            Some(v) => v,
            None => {
                return None;
            },
        };
        let v5 = match <T6 as FromRef>::from_ref(&r.5, mem) {
            Some(v) => v,
            None => {
                return None;
            },
        };
        let v6 = match <T7 as FromRef>::from_ref(&r.6, mem) {
            Some(v) => v,
            None => {
                return None;
            },
        };
        let v7 = match <T8 as FromRef>::from_ref(&r.7, mem) {
            Some(v) => v,
            None => {
                return None;
            },
        };
        let v8 = match <T9 as FromRef>::from_ref(&r.8, mem) {
            Some(v) => v,
            None => {
                return None;
            },
        };
        let v9 = match <T10 as FromRef>::from_ref(&r.9, mem) {
            Some(v) => v,
            None => {
                return None;
            },
        };
        let v10 = match <T11 as FromRef>::from_ref(&r.10, mem) {
            Some(v) => v,
            None => {
                return None;
            },
        };
        let v11 = match <T12 as FromRef>::from_ref(&r.11, mem) {
            Some(v) => v,
            None => {
                return None;
            },
        };
        Some((v0, v1, v2, v3, v4, v5, v6, v7, v8, v9, v10, v11))
    }
}

impl<T1: ToRef, T2: ToRef, T3: ToRef, T4: ToRef, T5: ToRef, T6: ToRef, T7: ToRef, T8: ToRef, T9: ToRef, T10: ToRef, T11: ToRef, T12: ToRef, T13: ToRef> ToRef for (T1, T2, T3, T4, T5, T6, T7, T8, T9, T10, T11, T12, T13) {
    type Ref = (<T1 as ToRef>::Ref, <T2 as ToRef>::Ref, <T3 as ToRef>::Ref, <T4 as ToRef>::Ref, <T5 as ToRef>::Ref, <T6 as ToRef>::Ref, <T7 as ToRef>::Ref, <T8 as ToRef>::Ref, <T9 as ToRef>::Ref, <T10 as ToRef>::Ref, <T11 as ToRef>::Ref, <T12 as ToRef>::Ref, <T13 as ToRef>::Ref);

    open spec fn mem_type() -> MemType {
        MemType::Primitive.spec_max(<T1 as ToRef>::mem_type()).spec_max(<T2 as ToRef>::mem_type()).spec_max(<T3 as ToRef>::mem_type()).spec_max(<T4 as ToRef>::mem_type()).spec_max(<T5 as ToRef>::mem_type()).spec_max(<T6 as ToRef>::mem_type()).spec_max(<T7 as ToRef>::mem_type()).spec_max(<T8 as ToRef>::mem_type()).spec_max(<T9 as ToRef>::mem_type()).spec_max(<T10 as ToRef>::mem_type()).spec_max(<T11 as ToRef>::mem_type()).spec_max(<T12 as ToRef>::mem_type()).spec_max(<T13 as ToRef>::mem_type())
    }

    open spec fn size(&self) -> nat {
        self.0.size() + self.1.size() + self.2.size() + self.3.size() + self.4.size() + self.5.size() + self.6.size() + self.7.size() + self.8.size() + self.9.size() + self.10.size() + self.11.size() + self.12.size()
    }

    open spec fn views(&self, r: (<T1 as ToRef>::Ref, <T2 as ToRef>::Ref, <T3 as ToRef>::Ref, <T4 as ToRef>::Ref, <T5 as ToRef>::Ref, <T6 as ToRef>::Ref, <T7 as ToRef>::Ref, <T8 as ToRef>::Ref, <T9 as ToRef>::Ref, <T10 as ToRef>::Ref, <T11 as ToRef>::Ref, <T12 as ToRef>::Ref, <T13 as ToRef>::Ref), img: Image, lo: int, hi: int, deep: bool) -> bool {
        &&& self.0.views(r.0, img, lo, hi, deep)
        &&& self.1.views(r.1, img, lo, hi, deep)
        &&& self.2.views(r.2, img, lo, hi, deep)
        &&& self.3.views(r.3, img, lo, hi, deep)
        &&& self.4.views(r.4, img, lo, hi, deep)
        &&& self.5.views(r.5, img, lo, hi, deep)
        &&& self.6.views(r.6, img, lo, hi, deep)
        &&& self.7.views(r.7, img, lo, hi, deep)
        &&& self.8.views(r.8, img, lo, hi, deep)
        &&& self.9.views(r.9, img, lo, hi, deep)
        &&& self.10.views(r.10, img, lo, hi, deep)
        &&& self.11.views(r.11, img, lo, hi, deep)
        &&& self.12.views(r.12, img, lo, hi, deep)
    }

    open spec fn flat(&self) -> (<T1 as ToRef>::Ref, <T2 as ToRef>::Ref, <T3 as ToRef>::Ref, <T4 as ToRef>::Ref, <T5 as ToRef>::Ref, <T6 as ToRef>::Ref, <T7 as ToRef>::Ref, <T8 as ToRef>::Ref, <T9 as ToRef>::Ref, <T10 as ToRef>::Ref, <T11 as ToRef>::Ref, <T12 as ToRef>::Ref, <T13 as ToRef>::Ref) {
        (self.0.flat(), self.1.flat(), self.2.flat(), self.3.flat(), self.4.flat(), self.5.flat(), self.6.flat(), self.7.flat(), self.8.flat(), self.9.flat(), self.10.flat(), self.11.flat(), self.12.flat())
    }

    open spec fn pins(&self, r: (<T1 as ToRef>::Ref, <T2 as ToRef>::Ref, <T3 as ToRef>::Ref, <T4 as ToRef>::Ref, <T5 as ToRef>::Ref, <T6 as ToRef>::Ref, <T7 as ToRef>::Ref, <T8 as ToRef>::Ref, <T9 as ToRef>::Ref, <T10 as ToRef>::Ref, <T11 as ToRef>::Ref, <T12 as ToRef>::Ref, <T13 as ToRef>::Ref), img: Image) -> Seq<Piece> {
        self.0.pins(r.0, img) + self.1.pins(r.1, img) + self.2.pins(r.2, img) + self.3.pins(r.3, img) + self.4.pins(r.4, img) + self.5.pins(r.5, img) + self.6.pins(r.6, img) + self.7.pins(r.7, img) + self.8.pins(r.8, img) + self.9.pins(r.9, img) + self.10.pins(r.10, img) + self.11.pins(r.11, img) + self.12.pins(r.12, img)
    }

    proof fn lemma_flat(&self) {
        lemma_max_parts(MemType::Primitive.spec_max(<T1 as ToRef>::mem_type()).spec_max(<T2 as ToRef>::mem_type()).spec_max(<T3 as ToRef>::mem_type()).spec_max(<T4 as ToRef>::mem_type()).spec_max(<T5 as ToRef>::mem_type()).spec_max(<T6 as ToRef>::mem_type()).spec_max(<T7 as ToRef>::mem_type()).spec_max(<T8 as ToRef>::mem_type()).spec_max(<T9 as ToRef>::mem_type()).spec_max(<T10 as ToRef>::mem_type()).spec_max(<T11 as ToRef>::mem_type()).spec_max(<T12 as ToRef>::mem_type()), <T13 as ToRef>::mem_type());
        lemma_max_parts(MemType::Primitive.spec_max(<T1 as ToRef>::mem_type()).spec_max(<T2 as ToRef>::mem_type()).spec_max(<T3 as ToRef>::mem_type()).spec_max(<T4 as ToRef>::mem_type()).spec_max(<T5 as ToRef>::mem_type()).spec_max(<T6 as ToRef>::mem_type()).spec_max(<T7 as ToRef>::mem_type()).spec_max(<T8 as ToRef>::mem_type()).spec_max(<T9 as ToRef>::mem_type()).spec_max(<T10 as ToRef>::mem_type()).spec_max(<T11 as ToRef>::mem_type()), <T12 as ToRef>::mem_type());
        lemma_max_parts(MemType::Primitive.spec_max(<T1 as ToRef>::mem_type()).spec_max(<T2 as ToRef>::mem_type()).spec_max(<T3 as ToRef>::mem_type()).spec_max(<T4 as ToRef>::mem_type()).spec_max(<T5 as ToRef>::mem_type()).spec_max(<T6 as ToRef>::mem_type()).spec_max(<T7 as ToRef>::mem_type()).spec_max(<T8 as ToRef>::mem_type()).spec_max(<T9 as ToRef>::mem_type()).spec_max(<T10 as ToRef>::mem_type()), <T11 as ToRef>::mem_type());
        lemma_max_parts(MemType::Primitive.spec_max(<T1 as ToRef>::mem_type()).spec_max(<T2 as ToRef>::mem_type()).spec_max(<T3 as ToRef>::mem_type()).spec_max(<T4 as ToRef>::mem_type()).spec_max(<T5 as ToRef>::mem_type()).spec_max(<T6 as ToRef>::mem_type()).spec_max(<T7 as ToRef>::mem_type()).spec_max(<T8 as ToRef>::mem_type()).spec_max(<T9 as ToRef>::mem_type()), <T10 as ToRef>::mem_type());
        lemma_max_parts(MemType::Primitive.spec_max(<T1 as ToRef>::mem_type()).spec_max(<T2 as ToRef>::mem_type()).spec_max(<T3 as ToRef>::mem_type()).spec_max(<T4 as ToRef>::mem_type()).spec_max(<T5 as ToRef>::mem_type()).spec_max(<T6 as ToRef>::mem_type()).spec_max(<T7 as ToRef>::mem_type()).spec_max(<T8 as ToRef>::mem_type()), <T9 as ToRef>::mem_type());
        lemma_max_parts(MemType::Primitive.spec_max(<T1 as ToRef>::mem_type()).spec_max(<T2 as ToRef>::mem_type()).spec_max(<T3 as ToRef>::mem_type()).spec_max(<T4 as ToRef>::mem_type()).spec_max(<T5 as ToRef>::mem_type()).spec_max(<T6 as ToRef>::mem_type()).spec_max(<T7 as ToRef>::mem_type()), <T8 as ToRef>::mem_type());
        lemma_max_parts(MemType::Primitive.spec_max(<T1 as ToRef>::mem_type()).spec_max(<T2 as ToRef>::mem_type()).spec_max(<T3 as ToRef>::mem_type()).spec_max(<T4 as ToRef>::mem_type()).spec_max(<T5 as ToRef>::mem_type()).spec_max(<T6 as ToRef>::mem_type()), <T7 as ToRef>::mem_type());
        lemma_max_parts(MemType::Primitive.spec_max(<T1 as ToRef>::mem_type()).spec_max(<T2 as ToRef>::mem_type()).spec_max(<T3 as ToRef>::mem_type()).spec_max(<T4 as ToRef>::mem_type()).spec_max(<T5 as ToRef>::mem_type()), <T6 as ToRef>::mem_type());
        lemma_max_parts(MemType::Primitive.spec_max(<T1 as ToRef>::mem_type()).spec_max(<T2 as ToRef>::mem_type()).spec_max(<T3 as ToRef>::mem_type()).spec_max(<T4 as ToRef>::mem_type()), <T5 as ToRef>::mem_type());
        lemma_max_parts(MemType::Primitive.spec_max(<T1 as ToRef>::mem_type()).spec_max(<T2 as ToRef>::mem_type()).spec_max(<T3 as ToRef>::mem_type()), <T4 as ToRef>::mem_type());
        lemma_max_parts(MemType::Primitive.spec_max(<T1 as ToRef>::mem_type()).spec_max(<T2 as ToRef>::mem_type()), <T3 as ToRef>::mem_type());
        lemma_max_parts(MemType::Primitive.spec_max(<T1 as ToRef>::mem_type()), <T2 as ToRef>::mem_type());
        lemma_max_parts(MemType::Primitive, <T1 as ToRef>::mem_type());
        self.0.lemma_flat();
        self.1.lemma_flat();
        self.2.lemma_flat();
        self.3.lemma_flat();
        self.4.lemma_flat();
        self.5.lemma_flat();
        self.6.lemma_flat();
        self.7.lemma_flat();
        self.8.lemma_flat();
        self.9.lemma_flat();
        self.10.lemma_flat();
        self.11.lemma_flat();
        self.12.lemma_flat();
    }

    proof fn lemma_primitive(&self, r: (<T1 as ToRef>::Ref, <T2 as ToRef>::Ref, <T3 as ToRef>::Ref, <T4 as ToRef>::Ref, <T5 as ToRef>::Ref, <T6 as ToRef>::Ref, <T7 as ToRef>::Ref, <T8 as ToRef>::Ref, <T9 as ToRef>::Ref, <T10 as ToRef>::Ref, <T11 as ToRef>::Ref, <T12 as ToRef>::Ref, <T13 as ToRef>::Ref), img: Image, lo: int, hi: int, deep: bool) {
        lemma_max_parts(MemType::Primitive.spec_max(<T1 as ToRef>::mem_type()).spec_max(<T2 as ToRef>::mem_type()).spec_max(<T3 as ToRef>::mem_type()).spec_max(<T4 as ToRef>::mem_type()).spec_max(<T5 as ToRef>::mem_type()).spec_max(<T6 as ToRef>::mem_type()).spec_max(<T7 as ToRef>::mem_type()).spec_max(<T8 as ToRef>::mem_type()).spec_max(<T9 as ToRef>::mem_type()).spec_max(<T10 as ToRef>::mem_type()).spec_max(<T11 as ToRef>::mem_type()).spec_max(<T12 as ToRef>::mem_type()), <T13 as ToRef>::mem_type());
        lemma_max_parts(MemType::Primitive.spec_max(<T1 as ToRef>::mem_type()).spec_max(<T2 as ToRef>::mem_type()).spec_max(<T3 as ToRef>::mem_type()).spec_max(<T4 as ToRef>::mem_type()).spec_max(<T5 as ToRef>::mem_type()).spec_max(<T6 as ToRef>::mem_type()).spec_max(<T7 as ToRef>::mem_type()).spec_max(<T8 as ToRef>::mem_type()).spec_max(<T9 as ToRef>::mem_type()).spec_max(<T10 as ToRef>::mem_type()).spec_max(<T11 as ToRef>::mem_type()), <T12 as ToRef>::mem_type());
        lemma_max_parts(MemType::Primitive.spec_max(<T1 as ToRef>::mem_type()).spec_max(<T2 as ToRef>::mem_type()).spec_max(<T3 as ToRef>::mem_type()).spec_max(<T4 as ToRef>::mem_type()).spec_max(<T5 as ToRef>::mem_type()).spec_max(<T6 as ToRef>::mem_type()).spec_max(<T7 as ToRef>::mem_type()).spec_max(<T8 as ToRef>::mem_type()).spec_max(<T9 as ToRef>::mem_type()).spec_max(<T10 as ToRef>::mem_type()), <T11 as ToRef>::mem_type());
        lemma_max_parts(MemType::Primitive.spec_max(<T1 as ToRef>::mem_type()).spec_max(<T2 as ToRef>::mem_type()).spec_max(<T3 as ToRef>::mem_type()).spec_max(<T4 as ToRef>::mem_type()).spec_max(<T5 as ToRef>::mem_type()).spec_max(<T6 as ToRef>::mem_type()).spec_max(<T7 as ToRef>::mem_type()).spec_max(<T8 as ToRef>::mem_type()).spec_max(<T9 as ToRef>::mem_type()), <T10 as ToRef>::mem_type());
        lemma_max_parts(MemType::Primitive.spec_max(<T1 as ToRef>::mem_type()).spec_max(<T2 as ToRef>::mem_type()).spec_max(<T3 as ToRef>::mem_type()).spec_max(<T4 as ToRef>::mem_type()).spec_max(<T5 as ToRef>::mem_type()).spec_max(<T6 as ToRef>::mem_type()).spec_max(<T7 as ToRef>::mem_type()).spec_max(<T8 as ToRef>::mem_type()), <T9 as ToRef>::mem_type());
        lemma_max_parts(MemType::Primitive.spec_max(<T1 as ToRef>::mem_type()).spec_max(<T2 as ToRef>::mem_type()).spec_max(<T3 as ToRef>::mem_type()).spec_max(<T4 as ToRef>::mem_type()).spec_max(<T5 as ToRef>::mem_type()).spec_max(<T6 as ToRef>::mem_type()).spec_max(<T7 as ToRef>::mem_type()), <T8 as ToRef>::mem_type());
        lemma_max_parts(MemType::Primitive.spec_max(<T1 as ToRef>::mem_type()).spec_max(<T2 as ToRef>::mem_type()).spec_max(<T3 as ToRef>::mem_type()).spec_max(<T4 as ToRef>::mem_type()).spec_max(<T5 as ToRef>::mem_type()).spec_max(<T6 as ToRef>::mem_type()), <T7 as ToRef>::mem_type());
        lemma_max_parts(MemType::Primitive.spec_max(<T1 as ToRef>::mem_type()).spec_max(<T2 as ToRef>::mem_type()).spec_max(<T3 as ToRef>::mem_type()).spec_max(<T4 as ToRef>::mem_type()).spec_max(<T5 as ToRef>::mem_type()), <T6 as ToRef>::mem_type());
        lemma_max_parts(MemType::Primitive.spec_max(<T1 as ToRef>::mem_type()).spec_max(<T2 as ToRef>::mem_type()).spec_max(<T3 as ToRef>::mem_type()).spec_max(<T4 as ToRef>::mem_type()), <T5 as ToRef>::mem_type());
        lemma_max_parts(MemType::Primitive.spec_max(<T1 as ToRef>::mem_type()).spec_max(<T2 as ToRef>::mem_type()).spec_max(<T3 as ToRef>::mem_type()), <T4 as ToRef>::mem_type());
        lemma_max_parts(MemType::Primitive.spec_max(<T1 as ToRef>::mem_type()).spec_max(<T2 as ToRef>::mem_type()), <T3 as ToRef>::mem_type());
        lemma_max_parts(MemType::Primitive.spec_max(<T1 as ToRef>::mem_type()), <T2 as ToRef>::mem_type());
        lemma_max_parts(MemType::Primitive, <T1 as ToRef>::mem_type());
        self.0.lemma_primitive(r.0, img, lo, hi, deep);
        self.1.lemma_primitive(r.1, img, lo, hi, deep);
        self.2.lemma_primitive(r.2, img, lo, hi, deep);
        self.3.lemma_primitive(r.3, img, lo, hi, deep);
        self.4.lemma_primitive(r.4, img, lo, hi, deep);
        self.5.lemma_primitive(r.5, img, lo, hi, deep);
        self.6.lemma_primitive(r.6, img, lo, hi, deep);
        self.7.lemma_primitive(r.7, img, lo, hi, deep);
        self.8.lemma_primitive(r.8, img, lo, hi, deep);
        self.9.lemma_primitive(r.9, img, lo, hi, deep);
        self.10.lemma_primitive(r.10, img, lo, hi, deep);
        self.11.lemma_primitive(r.11, img, lo, hi, deep);
        self.12.lemma_primitive(r.12, img, lo, hi, deep);
        if Self::mem_type() == MemType::Primitive {
            assert(self.pins(r, img) =~= Seq::<Piece>::empty());
        }
    }

    proof fn lemma_deepen(&self, r: (<T1 as ToRef>::Ref, <T2 as ToRef>::Ref, <T3 as ToRef>::Ref, <T4 as ToRef>::Ref, <T5 as ToRef>::Ref, <T6 as ToRef>::Ref, <T7 as ToRef>::Ref, <T8 as ToRef>::Ref, <T9 as ToRef>::Ref, <T10 as ToRef>::Ref, <T11 as ToRef>::Ref, <T12 as ToRef>::Ref, <T13 as ToRef>::Ref), img: Image, other: Image, lo: int, hi: int) {
        lemma_holds_all_concat(other, self.0.pins(r.0, img) + self.1.pins(r.1, img) + self.2.pins(r.2, img) + self.3.pins(r.3, img) + self.4.pins(r.4, img) + self.5.pins(r.5, img) + self.6.pins(r.6, img) + self.7.pins(r.7, img) + self.8.pins(r.8, img) + self.9.pins(r.9, img) + self.10.pins(r.10, img) + self.11.pins(r.11, img), self.12.pins(r.12, img));
        lemma_holds_all_concat(other, self.0.pins(r.0, img) + self.1.pins(r.1, img) + self.2.pins(r.2, img) + self.3.pins(r.3, img) + self.4.pins(r.4, img) + self.5.pins(r.5, img) + self.6.pins(r.6, img) + self.7.pins(r.7, img) + self.8.pins(r.8, img) + self.9.pins(r.9, img) + self.10.pins(r.10, img), self.11.pins(r.11, img));
        lemma_holds_all_concat(other, self.0.pins(r.0, img) + self.1.pins(r.1, img) + self.2.pins(r.2, img) + self.3.pins(r.3, img) + self.4.pins(r.4, img) + self.5.pins(r.5, img) + self.6.pins(r.6, img) + self.7.pins(r.7, img) + self.8.pins(r.8, img) + self.9.pins(r.9, img), self.10.pins(r.10, img));
        lemma_holds_all_concat(other, self.0.pins(r.0, img) + self.1.pins(r.1, img) + self.2.pins(r.2, img) + self.3.pins(r.3, img) + self.4.pins(r.4, img) + self.5.pins(r.5, img) + self.6.pins(r.6, img) + self.7.pins(r.7, img) + self.8.pins(r.8, img), self.9.pins(r.9, img));
        lemma_holds_all_concat(other, self.0.pins(r.0, img) + self.1.pins(r.1, img) + self.2.pins(r.2, img) + self.3.pins(r.3, img) + self.4.pins(r.4, img) + self.5.pins(r.5, img) + self.6.pins(r.6, img) + self.7.pins(r.7, img), self.8.pins(r.8, img));
        lemma_holds_all_concat(other, self.0.pins(r.0, img) + self.1.pins(r.1, img) + self.2.pins(r.2, img) + self.3.pins(r.3, img) + self.4.pins(r.4, img) + self.5.pins(r.5, img) + self.6.pins(r.6, img), self.7.pins(r.7, img));
        lemma_holds_all_concat(other, self.0.pins(r.0, img) + self.1.pins(r.1, img) + self.2.pins(r.2, img) + self.3.pins(r.3, img) + self.4.pins(r.4, img) + self.5.pins(r.5, img), self.6.pins(r.6, img));
        lemma_holds_all_concat(other, self.0.pins(r.0, img) + self.1.pins(r.1, img) + self.2.pins(r.2, img) + self.3.pins(r.3, img) + self.4.pins(r.4, img), self.5.pins(r.5, img));
        lemma_holds_all_concat(other, self.0.pins(r.0, img) + self.1.pins(r.1, img) + self.2.pins(r.2, img) + self.3.pins(r.3, img), self.4.pins(r.4, img));
        lemma_holds_all_concat(other, self.0.pins(r.0, img) + self.1.pins(r.1, img) + self.2.pins(r.2, img), self.3.pins(r.3, img));
        lemma_holds_all_concat(other, self.0.pins(r.0, img) + self.1.pins(r.1, img), self.2.pins(r.2, img));
        lemma_holds_all_concat(other, self.0.pins(r.0, img), self.1.pins(r.1, img));
        self.0.lemma_deepen(r.0, img, other, lo, hi);
        self.1.lemma_deepen(r.1, img, other, lo, hi);
        self.2.lemma_deepen(r.2, img, other, lo, hi);
        self.3.lemma_deepen(r.3, img, other, lo, hi);
        self.4.lemma_deepen(r.4, img, other, lo, hi);
        self.5.lemma_deepen(r.5, img, other, lo, hi);
        self.6.lemma_deepen(r.6, img, other, lo, hi);
        self.7.lemma_deepen(r.7, img, other, lo, hi);
        self.8.lemma_deepen(r.8, img, other, lo, hi);
        self.9.lemma_deepen(r.9, img, other, lo, hi);
        self.10.lemma_deepen(r.10, img, other, lo, hi);
        self.11.lemma_deepen(r.11, img, other, lo, hi);
        self.12.lemma_deepen(r.12, img, other, lo, hi);
    }

    proof fn lemma_frame(&self, r: (<T1 as ToRef>::Ref, <T2 as ToRef>::Ref, <T3 as ToRef>::Ref, <T4 as ToRef>::Ref, <T5 as ToRef>::Ref, <T6 as ToRef>::Ref, <T7 as ToRef>::Ref, <T8 as ToRef>::Ref, <T9 as ToRef>::Ref, <T10 as ToRef>::Ref, <T11 as ToRef>::Ref, <T12 as ToRef>::Ref, <T13 as ToRef>::Ref), img: Image, other: Image, lo: int, hi: int, deep: bool) {
        self.0.lemma_frame(r.0, img, other, lo, hi, deep);
        self.1.lemma_frame(r.1, img, other, lo, hi, deep);
        self.2.lemma_frame(r.2, img, other, lo, hi, deep);
        self.3.lemma_frame(r.3, img, other, lo, hi, deep);
        self.4.lemma_frame(r.4, img, other, lo, hi, deep);
        self.5.lemma_frame(r.5, img, other, lo, hi, deep);
        self.6.lemma_frame(r.6, img, other, lo, hi, deep);
        self.7.lemma_frame(r.7, img, other, lo, hi, deep);
        self.8.lemma_frame(r.8, img, other, lo, hi, deep);
        self.9.lemma_frame(r.9, img, other, lo, hi, deep);
        self.10.lemma_frame(r.10, img, other, lo, hi, deep);
        self.11.lemma_frame(r.11, img, other, lo, hi, deep);
        self.12.lemma_frame(r.12, img, other, lo, hi, deep);
    }

    proof fn lemma_widen(
        &self,
        r: (<T1 as ToRef>::Ref, <T2 as ToRef>::Ref, <T3 as ToRef>::Ref, <T4 as ToRef>::Ref, <T5 as ToRef>::Ref, <T6 as ToRef>::Ref, <T7 as ToRef>::Ref, <T8 as ToRef>::Ref, <T9 as ToRef>::Ref, <T10 as ToRef>::Ref, <T11 as ToRef>::Ref, <T12 as ToRef>::Ref, <T13 as ToRef>::Ref),
        img: Image,
        lo: int,
        hi: int,
        wide_lo: int,
        wide_hi: int,
        deep: bool,
    ) {
        self.0.lemma_widen(r.0, img, lo, hi, wide_lo, wide_hi, deep);
        self.1.lemma_widen(r.1, img, lo, hi, wide_lo, wide_hi, deep);
        self.2.lemma_widen(r.2, img, lo, hi, wide_lo, wide_hi, deep);
        self.3.lemma_widen(r.3, img, lo, hi, wide_lo, wide_hi, deep);
        self.4.lemma_widen(r.4, img, lo, hi, wide_lo, wide_hi, deep);
        self.5.lemma_widen(r.5, img, lo, hi, wide_lo, wide_hi, deep);
        self.6.lemma_widen(r.6, img, lo, hi, wide_lo, wide_hi, deep);
        self.7.lemma_widen(r.7, img, lo, hi, wide_lo, wide_hi, deep);
        self.8.lemma_widen(r.8, img, lo, hi, wide_lo, wide_hi, deep);
        self.9.lemma_widen(r.9, img, lo, hi, wide_lo, wide_hi, deep);
        self.10.lemma_widen(r.10, img, lo, hi, wide_lo, wide_hi, deep);
        self.11.lemma_widen(r.11, img, lo, hi, wide_lo, wide_hi, deep);
        self.12.lemma_widen(r.12, img, lo, hi, wide_lo, wide_hi, deep);
    }

    fn mem_type_of() -> (t: MemType) {
        MemType::Primitive.max(<T1 as ToRef>::mem_type_of()).max(<T2 as ToRef>::mem_type_of()).max(<T3 as ToRef>::mem_type_of()).max(<T4 as ToRef>::mem_type_of()).max(<T5 as ToRef>::mem_type_of()).max(<T6 as ToRef>::mem_type_of()).max(<T7 as ToRef>::mem_type_of()).max(<T8 as ToRef>::mem_type_of()).max(<T9 as ToRef>::mem_type_of()).max(<T10 as ToRef>::mem_type_of()).max(<T11 as ToRef>::mem_type_of()).max(<T12 as ToRef>::mem_type_of()).max(<T13 as ToRef>::mem_type_of())
    }

    fn to_size(&self, acc: &mut usize) {
        self.0.to_size(acc);
        self.1.to_size(acc);
        self.2.to_size(acc);
        self.3.to_size(acc);
        self.4.to_size(acc);
        self.5.to_size(acc);
        self.6.to_size(acc);
        self.7.to_size(acc);
        self.8.to_size(acc);
        self.9.to_size(acc);
        self.10.to_size(acc);
        self.11.to_size(acc);
        self.12.to_size(acc);
    }

    fn checked_size(&self, acc: usize) -> (sum: Option<usize>) {
        let sum0 = acc;
        let sum1 = match self.0.checked_size(sum0) {
            Some(next) => next,
            None => {
                return None;
            },
        };
        let sum2 = match self.1.checked_size(sum1) {
            Some(next) => next,
            None => {
                return None;
            },
        };
        let sum3 = match self.2.checked_size(sum2) {
            Some(next) => next,
            None => {
                return None;
            },
        };
        let sum4 = match self.3.checked_size(sum3) {
            Some(next) => next,
            None => {
                return None;
            },
        };
        let sum5 = match self.4.checked_size(sum4) {
            Some(next) => next,
            None => {
                return None;
            },
        };
        let sum6 = match self.5.checked_size(sum5) {
            Some(next) => next,
            None => {
                return None;
            },
        };
        let sum7 = match self.6.checked_size(sum6) {
            Some(next) => next,
            None => {
                return None;
            },
        };
        let sum8 = match self.7.checked_size(sum7) {
            Some(next) => next,
            None => {
                return None;
            },
        };
        let sum9 = match self.8.checked_size(sum8) {
            Some(next) => next,
            None => {
                return None;
            },
        };
        let sum10 = match self.9.checked_size(sum9) {
            Some(next) => next,
            None => {
                return None;
            },
        };
        let sum11 = match self.10.checked_size(sum10) {
            Some(next) => next,
            None => {
                return None;
            },
        };
        let sum12 = match self.11.checked_size(sum11) {
            Some(next) => next,
            None => {
                return None;
            },
        };
        let sum13 = match self.12.checked_size(sum12) {
            Some(next) => next,
            None => {
                return None;
            },
        };
        Some(sum13)
    }

    fn to_ref(&self, writer: &mut Writer) -> (r: (<T1 as ToRef>::Ref, <T2 as ToRef>::Ref, <T3 as ToRef>::Ref, <T4 as ToRef>::Ref, <T5 as ToRef>::Ref, <T6 as ToRef>::Ref, <T7 as ToRef>::Ref, <T8 as ToRef>::Ref, <T9 as ToRef>::Ref, <T10 as ToRef>::Ref, <T11 as ToRef>::Ref, <T12 as ToRef>::Ref, <T13 as ToRef>::Ref)) {
        let ghost base = writer.base() as int;
        let ghost w0 = *writer;
        proof {
            writer.lemma_bounds();
            lemma_keeps_same(writer.arena(), writer.cursor());
            lemma_max_parts(MemType::Primitive.spec_max(<T1 as ToRef>::mem_type()).spec_max(<T2 as ToRef>::mem_type()).spec_max(<T3 as ToRef>::mem_type()).spec_max(<T4 as ToRef>::mem_type()).spec_max(<T5 as ToRef>::mem_type()).spec_max(<T6 as ToRef>::mem_type()).spec_max(<T7 as ToRef>::mem_type()).spec_max(<T8 as ToRef>::mem_type()).spec_max(<T9 as ToRef>::mem_type()).spec_max(<T10 as ToRef>::mem_type()).spec_max(<T11 as ToRef>::mem_type()).spec_max(<T12 as ToRef>::mem_type()), <T13 as ToRef>::mem_type());
            lemma_max_parts(MemType::Primitive.spec_max(<T1 as ToRef>::mem_type()).spec_max(<T2 as ToRef>::mem_type()).spec_max(<T3 as ToRef>::mem_type()).spec_max(<T4 as ToRef>::mem_type()).spec_max(<T5 as ToRef>::mem_type()).spec_max(<T6 as ToRef>::mem_type()).spec_max(<T7 as ToRef>::mem_type()).spec_max(<T8 as ToRef>::mem_type()).spec_max(<T9 as ToRef>::mem_type()).spec_max(<T10 as ToRef>::mem_type()).spec_max(<T11 as ToRef>::mem_type()), <T12 as ToRef>::mem_type());
            lemma_max_parts(MemType::Primitive.spec_max(<T1 as ToRef>::mem_type()).spec_max(<T2 as ToRef>::mem_type()).spec_max(<T3 as ToRef>::mem_type()).spec_max(<T4 as ToRef>::mem_type()).spec_max(<T5 as ToRef>::mem_type()).spec_max(<T6 as ToRef>::mem_type()).spec_max(<T7 as ToRef>::mem_type()).spec_max(<T8 as ToRef>::mem_type()).spec_max(<T9 as ToRef>::mem_type()).spec_max(<T10 as ToRef>::mem_type()), <T11 as ToRef>::mem_type());
            lemma_max_parts(MemType::Primitive.spec_max(<T1 as ToRef>::mem_type()).spec_max(<T2 as ToRef>::mem_type()).spec_max(<T3 as ToRef>::mem_type()).spec_max(<T4 as ToRef>::mem_type()).spec_max(<T5 as ToRef>::mem_type()).spec_max(<T6 as ToRef>::mem_type()).spec_max(<T7 as ToRef>::mem_type()).spec_max(<T8 as ToRef>::mem_type()).spec_max(<T9 as ToRef>::mem_type()), <T10 as ToRef>::mem_type());
            lemma_max_parts(MemType::Primitive.spec_max(<T1 as ToRef>::mem_type()).spec_max(<T2 as ToRef>::mem_type()).spec_max(<T3 as ToRef>::mem_type()).spec_max(<T4 as ToRef>::mem_type()).spec_max(<T5 as ToRef>::mem_type()).spec_max(<T6 as ToRef>::mem_type()).spec_max(<T7 as ToRef>::mem_type()).spec_max(<T8 as ToRef>::mem_type()), <T9 as ToRef>::mem_type());
            lemma_max_parts(MemType::Primitive.spec_max(<T1 as ToRef>::mem_type()).spec_max(<T2 as ToRef>::mem_type()).spec_max(<T3 as ToRef>::mem_type()).spec_max(<T4 as ToRef>::mem_type()).spec_max(<T5 as ToRef>::mem_type()).spec_max(<T6 as ToRef>::mem_type()).spec_max(<T7 as ToRef>::mem_type()), <T8 as ToRef>::mem_type());
            lemma_max_parts(MemType::Primitive.spec_max(<T1 as ToRef>::mem_type()).spec_max(<T2 as ToRef>::mem_type()).spec_max(<T3 as ToRef>::mem_type()).spec_max(<T4 as ToRef>::mem_type()).spec_max(<T5 as ToRef>::mem_type()).spec_max(<T6 as ToRef>::mem_type()), <T7 as ToRef>::mem_type());
            lemma_max_parts(MemType::Primitive.spec_max(<T1 as ToRef>::mem_type()).spec_max(<T2 as ToRef>::mem_type()).spec_max(<T3 as ToRef>::mem_type()).spec_max(<T4 as ToRef>::mem_type()).spec_max(<T5 as ToRef>::mem_type()), <T6 as ToRef>::mem_type());
            lemma_max_parts(MemType::Primitive.spec_max(<T1 as ToRef>::mem_type()).spec_max(<T2 as ToRef>::mem_type()).spec_max(<T3 as ToRef>::mem_type()).spec_max(<T4 as ToRef>::mem_type()), <T5 as ToRef>::mem_type());
            lemma_max_parts(MemType::Primitive.spec_max(<T1 as ToRef>::mem_type()).spec_max(<T2 as ToRef>::mem_type()).spec_max(<T3 as ToRef>::mem_type()), <T4 as ToRef>::mem_type());
            lemma_max_parts(MemType::Primitive.spec_max(<T1 as ToRef>::mem_type()).spec_max(<T2 as ToRef>::mem_type()), <T3 as ToRef>::mem_type());
            lemma_max_parts(MemType::Primitive.spec_max(<T1 as ToRef>::mem_type()), <T2 as ToRef>::mem_type());
            lemma_max_parts(MemType::Primitive, <T1 as ToRef>::mem_type());
        }
        let f0 = self.0.to_ref(writer);
        let ghost w1 = *writer;
        proof {
            writer.lemma_bounds();
        }
        let f1 = self.1.to_ref(writer);
        let ghost w2 = *writer;
        proof {
            writer.lemma_bounds();
        }
        let f2 = self.2.to_ref(writer);
        let ghost w3 = *writer;
        proof {
            writer.lemma_bounds();
        }
        let f3 = self.3.to_ref(writer);
        let ghost w4 = *writer;
        proof {
            writer.lemma_bounds();
        }
        let f4 = self.4.to_ref(writer);
        let ghost w5 = *writer;
        proof {
            writer.lemma_bounds();
        }
        let f5 = self.5.to_ref(writer);
        let ghost w6 = *writer;
        proof {
            writer.lemma_bounds();
        }
        let f6 = self.6.to_ref(writer);
        let ghost w7 = *writer;
        proof {
            writer.lemma_bounds();
        }
        let f7 = self.7.to_ref(writer);
        let ghost w8 = *writer;
        proof {
            writer.lemma_bounds();
        }
        let f8 = self.8.to_ref(writer);
        let ghost w9 = *writer;
        proof {
            writer.lemma_bounds();
        }
        let f9 = self.9.to_ref(writer);
        let ghost w10 = *writer;
        proof {
            writer.lemma_bounds();
        }
        let f10 = self.10.to_ref(writer);
        let ghost w11 = *writer;
        proof {
            writer.lemma_bounds();
        }
        let f11 = self.11.to_ref(writer);
        let ghost w12 = *writer;
        proof {
            writer.lemma_bounds();
        }
        let f12 = self.12.to_ref(writer);
        let ghost w13 = *writer;
        proof {
            writer.lemma_bounds();
        }
        proof {
            lemma_keeps_trans(w11.arena(), w12.arena(), w13.arena(), w11.cursor(), w12.cursor());
            lemma_keeps_trans(w10.arena(), w11.arena(), w13.arena(), w10.cursor(), w11.cursor());
            lemma_keeps_trans(w9.arena(), w10.arena(), w13.arena(), w9.cursor(), w10.cursor());
            lemma_keeps_trans(w8.arena(), w9.arena(), w13.arena(), w8.cursor(), w9.cursor());
            lemma_keeps_trans(w7.arena(), w8.arena(), w13.arena(), w7.cursor(), w8.cursor());
            lemma_keeps_trans(w6.arena(), w7.arena(), w13.arena(), w6.cursor(), w7.cursor());
            lemma_keeps_trans(w5.arena(), w6.arena(), w13.arena(), w5.cursor(), w6.cursor());
            lemma_keeps_trans(w4.arena(), w5.arena(), w13.arena(), w4.cursor(), w5.cursor());
            lemma_keeps_trans(w3.arena(), w4.arena(), w13.arena(), w3.cursor(), w4.cursor());
            lemma_keeps_trans(w2.arena(), w3.arena(), w13.arena(), w2.cursor(), w3.cursor());
            lemma_keeps_trans(w1.arena(), w2.arena(), w13.arena(), w1.cursor(), w2.cursor());
            lemma_keeps_trans(w0.arena(), w1.arena(), w13.arena(), w0.cursor(), w1.cursor());
            lemma_view_stays(&self.0, f0, w1, w13, base + w0.cursor(), base + w1.cursor());
            lemma_view_stays(&self.1, f1, w2, w13, base + w1.cursor(), base + w2.cursor());
            lemma_view_stays(&self.2, f2, w3, w13, base + w2.cursor(), base + w3.cursor());
            lemma_view_stays(&self.3, f3, w4, w13, base + w3.cursor(), base + w4.cursor());
            lemma_view_stays(&self.4, f4, w5, w13, base + w4.cursor(), base + w5.cursor());
            lemma_view_stays(&self.5, f5, w6, w13, base + w5.cursor(), base + w6.cursor());
            lemma_view_stays(&self.6, f6, w7, w13, base + w6.cursor(), base + w7.cursor());
            lemma_view_stays(&self.7, f7, w8, w13, base + w7.cursor(), base + w8.cursor());
            lemma_view_stays(&self.8, f8, w9, w13, base + w8.cursor(), base + w9.cursor());
            lemma_view_stays(&self.9, f9, w10, w13, base + w9.cursor(), base + w10.cursor());
            lemma_view_stays(&self.10, f10, w11, w13, base + w10.cursor(), base + w11.cursor());
            lemma_view_stays(&self.11, f11, w12, w13, base + w11.cursor(), base + w12.cursor());
            self.0.lemma_widen(f0, w13.image(), base + w0.cursor(), base + w1.cursor(), base + w0.cursor(), base + w13.cursor(), false);
            self.1.lemma_widen(f1, w13.image(), base + w1.cursor(), base + w2.cursor(), base + w0.cursor(), base + w13.cursor(), false);
            self.2.lemma_widen(f2, w13.image(), base + w2.cursor(), base + w3.cursor(), base + w0.cursor(), base + w13.cursor(), false);
            self.3.lemma_widen(f3, w13.image(), base + w3.cursor(), base + w4.cursor(), base + w0.cursor(), base + w13.cursor(), false);
            self.4.lemma_widen(f4, w13.image(), base + w4.cursor(), base + w5.cursor(), base + w0.cursor(), base + w13.cursor(), false);
            self.5.lemma_widen(f5, w13.image(), base + w5.cursor(), base + w6.cursor(), base + w0.cursor(), base + w13.cursor(), false);
            self.6.lemma_widen(f6, w13.image(), base + w6.cursor(), base + w7.cursor(), base + w0.cursor(), base + w13.cursor(), false);
            self.7.lemma_widen(f7, w13.image(), base + w7.cursor(), base + w8.cursor(), base + w0.cursor(), base + w13.cursor(), false);
            self.8.lemma_widen(f8, w13.image(), base + w8.cursor(), base + w9.cursor(), base + w0.cursor(), base + w13.cursor(), false);
            self.9.lemma_widen(f9, w13.image(), base + w9.cursor(), base + w10.cursor(), base + w0.cursor(), base + w13.cursor(), false);
            self.10.lemma_widen(f10, w13.image(), base + w10.cursor(), base + w11.cursor(), base + w0.cursor(), base + w13.cursor(), false);
            self.11.lemma_widen(f11, w13.image(), base + w11.cursor(), base + w12.cursor(), base + w0.cursor(), base + w13.cursor(), false);
            self.12.lemma_widen(f12, w13.image(), base + w12.cursor(), base + w13.cursor(), base + w0.cursor(), base + w13.cursor(), false);
        }
        (f0, f1, f2, f3, f4, f5, f6, f7, f8, f9, f10, f11, f12)
    }

    fn pinned<M: MemoryRead>(&self, r: &(<T1 as ToRef>::Ref, <T2 as ToRef>::Ref, <T3 as ToRef>::Ref, <T4 as ToRef>::Ref, <T5 as ToRef>::Ref, <T6 as ToRef>::Ref, <T7 as ToRef>::Ref, <T8 as ToRef>::Ref, <T9 as ToRef>::Ref, <T10 as ToRef>::Ref, <T11 as ToRef>::Ref, <T12 as ToRef>::Ref, <T13 as ToRef>::Ref), mem: &M, out: &mut Vec<Segment>) {
        self.0.pinned(&r.0, mem, out);
        self.1.pinned(&r.1, mem, out);
        self.2.pinned(&r.2, mem, out);
        self.3.pinned(&r.3, mem, out);
        self.4.pinned(&r.4, mem, out);
        self.5.pinned(&r.5, mem, out);
        self.6.pinned(&r.6, mem, out);
        self.7.pinned(&r.7, mem, out);
        self.8.pinned(&r.8, mem, out);
        self.9.pinned(&r.9, mem, out);
        self.10.pinned(&r.10, mem, out);
        self.11.pinned(&r.11, mem, out);
        self.12.pinned(&r.12, mem, out);
        assert(pieces_of(out@) =~= pieces_of(old(out)@) + self.pins(*r, mem.image()));
    }
}

impl<T1: ToRef, T2: ToRef, T3: ToRef, T4: ToRef, T5: ToRef, T6: ToRef, T7: ToRef, T8: ToRef, T9: ToRef, T10: ToRef, T11: ToRef, T12: ToRef, T13: ToRef, T14: ToRef> ToRef for (T1, T2, T3, T4, T5, T6, T7, T8, T9, T10, T11, T12, T13, T14) {
    type Ref = (<T1 as ToRef>::Ref, <T2 as ToRef>::Ref, <T3 as ToRef>::Ref, <T4 as ToRef>::Ref, <T5 as ToRef>::Ref, <T6 as ToRef>::Ref, <T7 as ToRef>::Ref, <T8 as ToRef>::Ref, <T9 as ToRef>::Ref, <T10 as ToRef>::Ref, <T11 as ToRef>::Ref, <T12 as ToRef>::Ref, <T13 as ToRef>::Ref, <T14 as ToRef>::Ref);

    open spec fn mem_type() -> MemType {
        MemType::Primitive.spec_max(<T1 as ToRef>::mem_type()).spec_max(<T2 as ToRef>::mem_type()).spec_max(<T3 as ToRef>::mem_type()).spec_max(<T4 as ToRef>::mem_type()).spec_max(<T5 as ToRef>::mem_type()).spec_max(<T6 as ToRef>::mem_type()).spec_max(<T7 as ToRef>::mem_type()).spec_max(<T8 as ToRef>::mem_type()).spec_max(<T9 as ToRef>::mem_type()).spec_max(<T10 as ToRef>::mem_type()).spec_max(<T11 as ToRef>::mem_type()).spec_max(<T12 as ToRef>::mem_type()).spec_max(<T13 as ToRef>::mem_type()).spec_max(<T14 as ToRef>::mem_type())
    }

    open spec fn size(&self) -> nat {
        self.0.size() + self.1.size() + self.2.size() + self.3.size() + self.4.size() + self.5.size() + self.6.size() + self.7.size() + self.8.size() + self.9.size() + self.10.size() + self.11.size() + self.12.size() + self.13.size()
    }

    open spec fn views(&self, r: (<T1 as ToRef>::Ref, <T2 as ToRef>::Ref, <T3 as ToRef>::Ref, <T4 as ToRef>::Ref, <T5 as ToRef>::Ref, <T6 as ToRef>::Ref, <T7 as ToRef>::Ref, <T8 as ToRef>::Ref, <T9 as ToRef>::Ref, <T10 as ToRef>::Ref, <T11 as ToRef>::Ref, <T12 as ToRef>::Ref, <T13 as ToRef>::Ref, <T14 as ToRef>::Ref), img: Image, lo: int, hi: int, deep: bool) -> bool {
        &&& self.0.views(r.0, img, lo, hi, deep)
        &&& self.1.views(r.1, img, lo, hi, deep)
        &&& self.2.views(r.2, img, lo, hi, deep)
        &&& self.3.views(r.3, img, lo, hi, deep)
        &&& self.4.views(r.4, img, lo, hi, deep)
        &&& self.5.views(r.5, img, lo, hi, deep)
        &&& self.6.views(r.6, img, lo, hi, deep)
        &&& self.7.views(r.7, img, lo, hi, deep)
        &&& self.8.views(r.8, img, lo, hi, deep)
        &&& self.9.views(r.9, img, lo, hi, deep)
        &&& self.10.views(r.10, img, lo, hi, deep)
        &&& self.11.views(r.11, img, lo, hi, deep)
        &&& self.12.views(r.12, img, lo, hi, deep)
        &&& self.13.views(r.13, img, lo, hi, deep)
    }

    open spec fn flat(&self) -> (<T1 as ToRef>::Ref, <T2 as ToRef>::Ref, <T3 as ToRef>::Ref, <T4 as ToRef>::Ref, <T5 as ToRef>::Ref, <T6 as ToRef>::Ref, <T7 as ToRef>::Ref, <T8 as ToRef>::Ref, <T9 as ToRef>::Ref, <T10 as ToRef>::Ref, <T11 as ToRef>::Ref, <T12 as ToRef>::Ref, <T13 as ToRef>::Ref, <T14 as ToRef>::Ref) {
        (self.0.flat(), self.1.flat(), self.2.flat(), self.3.flat(), self.4.flat(), self.5.flat(), self.6.flat(), self.7.flat(), self.8.flat(), self.9.flat(), self.10.flat(), self.11.flat(), self.12.flat(), self.13.flat())
    }

    open spec fn pins(&self, r: (<T1 as ToRef>::Ref, <T2 as ToRef>::Ref, <T3 as ToRef>::Ref, <T4 as ToRef>::Ref, <T5 as ToRef>::Ref, <T6 as ToRef>::Ref, <T7 as ToRef>::Ref, <T8 as ToRef>::Ref, <T9 as ToRef>::Ref, <T10 as ToRef>::Ref, <T11 as ToRef>::Ref, <T12 as ToRef>::Ref, <T13 as ToRef>::Ref, <T14 as ToRef>::Ref), img: Image) -> Seq<Piece> {
        self.0.pins(r.0, img) + self.1.pins(r.1, img) + self.2.pins(r.2, img) + self.3.pins(r.3, img) + self.4.pins(r.4, img) + self.5.pins(r.5, img) + self.6.pins(r.6, img) + self.7.pins(r.7, img) + self.8.pins(r.8, img) + self.9.pins(r.9, img) + self.10.pins(r.10, img) + self.11.pins(r.11, img) + self.12.pins(r.12, img) + self.13.pins(r.13, img)
    }

    proof fn lemma_flat(&self) {
        lemma_max_parts(MemType::Primitive.spec_max(<T1 as ToRef>::mem_type()).spec_max(<T2 as ToRef>::mem_type()).spec_max(<T3 as ToRef>::mem_type()).spec_max(<T4 as ToRef>::mem_type()).spec_max(<T5 as ToRef>::mem_type()).spec_max(<T6 as ToRef>::mem_type()).spec_max(<T7 as ToRef>::mem_type()).spec_max(<T8 as ToRef>::mem_type()).spec_max(<T9 as ToRef>::mem_type()).spec_max(<T10 as ToRef>::mem_type()).spec_max(<T11 as ToRef>::mem_type()).spec_max(<T12 as ToRef>::mem_type()).spec_max(<T13 as ToRef>::mem_type()), <T14 as ToRef>::mem_type());
        lemma_max_parts(MemType::Primitive.spec_max(<T1 as ToRef>::mem_type()).spec_max(<T2 as ToRef>::mem_type()).spec_max(<T3 as ToRef>::mem_type()).spec_max(<T4 as ToRef>::mem_type()).spec_max(<T5 as ToRef>::mem_type()).spec_max(<T6 as ToRef>::mem_type()).spec_max(<T7 as ToRef>::mem_type()).spec_max(<T8 as ToRef>::mem_type()).spec_max(<T9 as ToRef>::mem_type()).spec_max(<T10 as ToRef>::mem_type()).spec_max(<T11 as ToRef>::mem_type()).spec_max(<T12 as ToRef>::mem_type()), <T13 as ToRef>::mem_type());
        lemma_max_parts(MemType::Primitive.spec_max(<T1 as ToRef>::mem_type()).spec_max(<T2 as ToRef>::mem_type()).spec_max(<T3 as ToRef>::mem_type()).spec_max(<T4 as ToRef>::mem_type()).spec_max(<T5 as ToRef>::mem_type()).spec_max(<T6 as ToRef>::mem_type()).spec_max(<T7 as ToRef>::mem_type()).spec_max(<T8 as ToRef>::mem_type()).spec_max(<T9 as ToRef>::mem_type()).spec_max(<T10 as ToRef>::mem_type()).spec_max(<T11 as ToRef>::mem_type()), <T12 as ToRef>::mem_type());
        lemma_max_parts(MemType::Primitive.spec_max(<T1 as ToRef>::mem_type()).spec_max(<T2 as ToRef>::mem_type()).spec_max(<T3 as ToRef>::mem_type()).spec_max(<T4 as ToRef>::mem_type()).spec_max(<T5 as ToRef>::mem_type()).spec_max(<T6 as ToRef>::mem_type()).spec_max(<T7 as ToRef>::mem_type()).spec_max(<T8 as ToRef>::mem_type()).spec_max(<T9 as ToRef>::mem_type()).spec_max(<T10 as ToRef>::mem_type()), <T11 as ToRef>::mem_type());
        lemma_max_parts(MemType::Primitive.spec_max(<T1 as ToRef>::mem_type()).spec_max(<T2 as ToRef>::mem_type()).spec_max(<T3 as ToRef>::mem_type()).spec_max(<T4 as ToRef>::mem_type()).spec_max(<T5 as ToRef>::mem_type()).spec_max(<T6 as ToRef>::mem_type()).spec_max(<T7 as ToRef>::mem_type()).spec_max(<T8 as ToRef>::mem_type()).spec_max(<T9 as ToRef>::mem_type()), <T10 as ToRef>::mem_type());
        lemma_max_parts(MemType::Primitive.spec_max(<T1 as ToRef>::mem_type()).spec_max(<T2 as ToRef>::mem_type()).spec_max(<T3 as ToRef>::mem_type()).spec_max(<T4 as ToRef>::mem_type()).spec_max(<T5 as ToRef>::mem_type()).spec_max(<T6 as ToRef>::mem_type()).spec_max(<T7 as ToRef>::mem_type()).spec_max(<T8 as ToRef>::mem_type()), <T9 as ToRef>::mem_type());
        lemma_max_parts(MemType::Primitive.spec_max(<T1 as ToRef>::mem_type()).spec_max(<T2 as ToRef>::mem_type()).spec_max(<T3 as ToRef>::mem_type()).spec_max(<T4 as ToRef>::mem_type()).spec_max(<T5 as ToRef>::mem_type()).spec_max(<T6 as ToRef>::mem_type()).spec_max(<T7 as ToRef>::mem_type()), <T8 as ToRef>::mem_type());
        lemma_max_parts(MemType::Primitive.spec_max(<T1 as ToRef>::mem_type()).spec_max(<T2 as ToRef>::mem_type()).spec_max(<T3 as ToRef>::mem_type()).spec_max(<T4 as ToRef>::mem_type()).spec_max(<T5 as ToRef>::mem_type()).spec_max(<T6 as ToRef>::mem_type()), <T7 as ToRef>::mem_type());
        lemma_max_parts(MemType::Primitive.spec_max(<T1 as ToRef>::mem_type()).spec_max(<T2 as ToRef>::mem_type()).spec_max(<T3 as ToRef>::mem_type()).spec_max(<T4 as ToRef>::mem_type()).spec_max(<T5 as ToRef>::mem_type()), <T6 as ToRef>::mem_type());
        lemma_max_parts(MemType::Primitive.spec_max(<T1 as ToRef>::mem_type()).spec_max(<T2 as ToRef>::mem_type()).spec_max(<T3 as ToRef>::mem_type()).spec_max(<T4 as ToRef>::mem_type()), <T5 as ToRef>::mem_type());
        lemma_max_parts(MemType::Primitive.spec_max(<T1 as ToRef>::mem_type()).spec_max(<T2 as ToRef>::mem_type()).spec_max(<T3 as ToRef>::mem_type()), <T4 as ToRef>::mem_type());
        lemma_max_parts(MemType::Primitive.spec_max(<T1 as ToRef>::mem_type()).spec_max(<T2 as ToRef>::mem_type()), <T3 as ToRef>::mem_type());
        lemma_max_parts(MemType::Primitive.spec_max(<T1 as ToRef>::mem_type()), <T2 as ToRef>::mem_type());
        lemma_max_parts(MemType::Primitive, <T1 as ToRef>::mem_type());
        self.0.lemma_flat();
        self.1.lemma_flat();
        self.2.lemma_flat();
        self.3.lemma_flat();
        self.4.lemma_flat();
        self.5.lemma_flat();
        self.6.lemma_flat();
        self.7.lemma_flat();
        self.8.lemma_flat();
        self.9.lemma_flat();
        self.10.lemma_flat();
        self.11.lemma_flat();
        self.12.lemma_flat();
        self.13.lemma_flat();
    }

    proof fn lemma_primitive(&self, r: (<T1 as ToRef>::Ref, <T2 as ToRef>::Ref, <T3 as ToRef>::Ref, <T4 as ToRef>::Ref, <T5 as ToRef>::Ref, <T6 as ToRef>::Ref, <T7 as ToRef>::Ref, <T8 as ToRef>::Ref, <T9 as ToRef>::Ref, <T10 as ToRef>::Ref, <T11 as ToRef>::Ref, <T12 as ToRef>::Ref, <T13 as ToRef>::Ref, <T14 as ToRef>::Ref), img: Image, lo: int, hi: int, deep: bool) {
        lemma_max_parts(MemType::Primitive.spec_max(<T1 as ToRef>::mem_type()).spec_max(<T2 as ToRef>::mem_type()).spec_max(<T3 as ToRef>::mem_type()).spec_max(<T4 as ToRef>::mem_type()).spec_max(<T5 as ToRef>::mem_type()).spec_max(<T6 as ToRef>::mem_type()).spec_max(<T7 as ToRef>::mem_type()).spec_max(<T8 as ToRef>::mem_type()).spec_max(<T9 as ToRef>::mem_type()).spec_max(<T10 as ToRef>::mem_type()).spec_max(<T11 as ToRef>::mem_type()).spec_max(<T12 as ToRef>::mem_type()).spec_max(<T13 as ToRef>::mem_type()), <T14 as ToRef>::mem_type());
        lemma_max_parts(MemType::Primitive.spec_max(<T1 as ToRef>::mem_type()).spec_max(<T2 as ToRef>::mem_type()).spec_max(<T3 as ToRef>::mem_type()).spec_max(<T4 as ToRef>::mem_type()).spec_max(<T5 as ToRef>::mem_type()).spec_max(<T6 as ToRef>::mem_type()).spec_max(<T7 as ToRef>::mem_type()).spec_max(<T8 as ToRef>::mem_type()).spec_max(<T9 as ToRef>::mem_type()).spec_max(<T10 as ToRef>::mem_type()).spec_max(<T11 as ToRef>::mem_type()).spec_max(<T12 as ToRef>::mem_type()), <T13 as ToRef>::mem_type());
        lemma_max_parts(MemType::Primitive.spec_max(<T1 as ToRef>::mem_type()).spec_max(<T2 as ToRef>::mem_type()).spec_max(<T3 as ToRef>::mem_type()).spec_max(<T4 as ToRef>::mem_type()).spec_max(<T5 as ToRef>::mem_type()).spec_max(<T6 as ToRef>::mem_type()).spec_max(<T7 as ToRef>::mem_type()).spec_max(<T8 as ToRef>::mem_type()).spec_max(<T9 as ToRef>::mem_type()).spec_max(<T10 as ToRef>::mem_type()).spec_max(<T11 as ToRef>::mem_type()), <T12 as ToRef>::mem_type());
        lemma_max_parts(MemType::Primitive.spec_max(<T1 as ToRef>::mem_type()).spec_max(<T2 as ToRef>::mem_type()).spec_max(<T3 as ToRef>::mem_type()).spec_max(<T4 as ToRef>::mem_type()).spec_max(<T5 as ToRef>::mem_type()).spec_max(<T6 as ToRef>::mem_type()).spec_max(<T7 as ToRef>::mem_type()).spec_max(<T8 as ToRef>::mem_type()).spec_max(<T9 as ToRef>::mem_type()).spec_max(<T10 as ToRef>::mem_type()), <T11 as ToRef>::mem_type());
        lemma_max_parts(MemType::Primitive.spec_max(<T1 as ToRef>::mem_type()).spec_max(<T2 as ToRef>::mem_type()).spec_max(<T3 as ToRef>::mem_type()).spec_max(<T4 as ToRef>::mem_type()).spec_max(<T5 as ToRef>::mem_type()).spec_max(<T6 as ToRef>::mem_type()).spec_max(<T7 as ToRef>::mem_type()).spec_max(<T8 as ToRef>::mem_type()).spec_max(<T9 as ToRef>::mem_type()), <T10 as ToRef>::mem_type());
        lemma_max_parts(MemType::Primitive.spec_max(<T1 as ToRef>::mem_type()).spec_max(<T2 as ToRef>::mem_type()).spec_max(<T3 as ToRef>::mem_type()).spec_max(<T4 as ToRef>::mem_type()).spec_max(<T5 as ToRef>::mem_type()).spec_max(<T6 as ToRef>::mem_type()).spec_max(<T7 as ToRef>::mem_type()).spec_max(<T8 as ToRef>::mem_type()), <T9 as ToRef>::mem_type());
        lemma_max_parts(MemType::Primitive.spec_max(<T1 as ToRef>::mem_type()).spec_max(<T2 as ToRef>::mem_type()).spec_max(<T3 as ToRef>::mem_type()).spec_max(<T4 as ToRef>::mem_type()).spec_max(<T5 as ToRef>::mem_type()).spec_max(<T6 as ToRef>::mem_type()).spec_max(<T7 as ToRef>::mem_type()), <T8 as ToRef>::mem_type());
        lemma_max_parts(MemType::Primitive.spec_max(<T1 as ToRef>::mem_type()).spec_max(<T2 as ToRef>::mem_type()).spec_max(<T3 as ToRef>::mem_type()).spec_max(<T4 as ToRef>::mem_type()).spec_max(<T5 as ToRef>::mem_type()).spec_max(<T6 as ToRef>::mem_type()), <T7 as ToRef>::mem_type());
        lemma_max_parts(MemType::Primitive.spec_max(<T1 as ToRef>::mem_type()).spec_max(<T2 as ToRef>::mem_type()).spec_max(<T3 as ToRef>::mem_type()).spec_max(<T4 as ToRef>::mem_type()).spec_max(<T5 as ToRef>::mem_type()), <T6 as ToRef>::mem_type());
        lemma_max_parts(MemType::Primitive.spec_max(<T1 as ToRef>::mem_type()).spec_max(<T2 as ToRef>::mem_type()).spec_max(<T3 as ToRef>::mem_type()).spec_max(<T4 as ToRef>::mem_type()), <T5 as ToRef>::mem_type());
        lemma_max_parts(MemType::Primitive.spec_max(<T1 as ToRef>::mem_type()).spec_max(<T2 as ToRef>::mem_type()).spec_max(<T3 as ToRef>::mem_type()), <T4 as ToRef>::mem_type());
        lemma_max_parts(MemType::Primitive.spec_max(<T1 as ToRef>::mem_type()).spec_max(<T2 as ToRef>::mem_type()), <T3 as ToRef>::mem_type());
        lemma_max_parts(MemType::Primitive.spec_max(<T1 as ToRef>::mem_type()), <T2 as ToRef>::mem_type());
        lemma_max_parts(MemType::Primitive, <T1 as ToRef>::mem_type());
        self.0.lemma_primitive(r.0, img, lo, hi, deep);
        self.1.lemma_primitive(r.1, img, lo, hi, deep);
        self.2.lemma_primitive(r.2, img, lo, hi, deep);
        self.3.lemma_primitive(r.3, img, lo, hi, deep);
        self.4.lemma_primitive(r.4, img, lo, hi, deep);
        self.5.lemma_primitive(r.5, img, lo, hi, deep);
        self.6.lemma_primitive(r.6, img, lo, hi, deep);
        self.7.lemma_primitive(r.7, img, lo, hi, deep);
        self.8.lemma_primitive(r.8, img, lo, hi, deep);
        self.9.lemma_primitive(r.9, img, lo, hi, deep);
        self.10.lemma_primitive(r.10, img, lo, hi, deep);
        self.11.lemma_primitive(r.11, img, lo, hi, deep);
        self.12.lemma_primitive(r.12, img, lo, hi, deep);
        self.13.lemma_primitive(r.13, img, lo, hi, deep);
        if Self::mem_type() == MemType::Primitive {
            assert(self.pins(r, img) =~= Seq::<Piece>::empty());
        }
    }

    proof fn lemma_deepen(&self, r: (<T1 as ToRef>::Ref, <T2 as ToRef>::Ref, <T3 as ToRef>::Ref, <T4 as ToRef>::Ref, <T5 as ToRef>::Ref, <T6 as ToRef>::Ref, <T7 as ToRef>::Ref, <T8 as ToRef>::Ref, <T9 as ToRef>::Ref, <T10 as ToRef>::Ref, <T11 as ToRef>::Ref, <T12 as ToRef>::Ref, <T13 as ToRef>::Ref, <T14 as ToRef>::Ref), img: Image, other: Image, lo: int, hi: int) {
        lemma_holds_all_concat(other, self.0.pins(r.0, img) + self.1.pins(r.1, img) + self.2.pins(r.2, img) + self.3.pins(r.3, img) + self.4.pins(r.4, img) + self.5.pins(r.5, img) + self.6.pins(r.6, img) + self.7.pins(r.7, img) + self.8.pins(r.8, img) + self.9.pins(r.9, img) + self.10.pins(r.10, img) + self.11.pins(r.11, img) + self.12.pins(r.12, img), self.13.pins(r.13, img));
        lemma_holds_all_concat(other, self.0.pins(r.0, img) + self.1.pins(r.1, img) + self.2.pins(r.2, img) + self.3.pins(r.3, img) + self.4.pins(r.4, img) + self.5.pins(r.5, img) + self.6.pins(r.6, img) + self.7.pins(r.7, img) + self.8.pins(r.8, img) + self.9.pins(r.9, img) + self.10.pins(r.10, img) + self.11.pins(r.11, img), self.12.pins(r.12, img));
        lemma_holds_all_concat(other, self.0.pins(r.0, img) + self.1.pins(r.1, img) + self.2.pins(r.2, img) + self.3.pins(r.3, img) + self.4.pins(r.4, img) + self.5.pins(r.5, img) + self.6.pins(r.6, img) + self.7.pins(r.7, img) + self.8.pins(r.8, img) + self.9.pins(r.9, img) + self.10.pins(r.10, img), self.11.pins(r.11, img));
        lemma_holds_all_concat(other, self.0.pins(r.0, img) + self.1.pins(r.1, img) + self.2.pins(r.2, img) + self.3.pins(r.3, img) + self.4.pins(r.4, img) + self.5.pins(r.5, img) + self.6.pins(r.6, img) + self.7.pins(r.7, img) + self.8.pins(r.8, img) + self.9.pins(r.9, img), self.10.pins(r.10, img));
        lemma_holds_all_concat(other, self.0.pins(r.0, img) + self.1.pins(r.1, img) + self.2.pins(r.2, img) + self.3.pins(r.3, img) + self.4.pins(r.4, img) + self.5.pins(r.5, img) + self.6.pins(r.6, img) + self.7.pins(r.7, img) + self.8.pins(r.8, img), self.9.pins(r.9, img));
        lemma_holds_all_concat(other, self.0.pins(r.0, img) + self.1.pins(r.1, img) + self.2.pins(r.2, img) + self.3.pins(r.3, img) + self.4.pins(r.4, img) + self.5.pins(r.5, img) + self.6.pins(r.6, img) + self.7.pins(r.7, img), self.8.pins(r.8, img));
        lemma_holds_all_concat(other, self.0.pins(r.0, img) + self.1.pins(r.1, img) + self.2.pins(r.2, img) + self.3.pins(r.3, img) + self.4.pins(r.4, img) + self.5.pins(r.5, img) + self.6.pins(r.6, img), self.7.pins(r.7, img));
        lemma_holds_all_concat(other, self.0.pins(r.0, img) + self.1.pins(r.1, img) + self.2.pins(r.2, img) + self.3.pins(r.3, img) + self.4.pins(r.4, img) + self.5.pins(r.5, img), self.6.pins(r.6, img));
        lemma_holds_all_concat(other, self.0.pins(r.0, img) + self.1.pins(r.1, img) + self.2.pins(r.2, img) + self.3.pins(r.3, img) + self.4.pins(r.4, img), self.5.pins(r.5, img));
        lemma_holds_all_concat(other, self.0.pins(r.0, img) + self.1.pins(r.1, img) + self.2.pins(r.2, img) + self.3.pins(r.3, img), self.4.pins(r.4, img));
        lemma_holds_all_concat(other, self.0.pins(r.0, img) + self.1.pins(r.1, img) + self.2.pins(r.2, img), self.3.pins(r.3, img));
        lemma_holds_all_concat(other, self.0.pins(r.0, img) + self.1.pins(r.1, img), self.2.pins(r.2, img));
        lemma_holds_all_concat(other, self.0.pins(r.0, img), self.1.pins(r.1, img));
        self.0.lemma_deepen(r.0, img, other, lo, hi);
        self.1.lemma_deepen(r.1, img, other, lo, hi);
        self.2.lemma_deepen(r.2, img, other, lo, hi);
        self.3.lemma_deepen(r.3, img, other, lo, hi);
        self.4.lemma_deepen(r.4, img, other, lo, hi);
        self.5.lemma_deepen(r.5, img, other, lo, hi);
        self.6.lemma_deepen(r.6, img, other, lo, hi);
        self.7.lemma_deepen(r.7, img, other, lo, hi);
        self.8.lemma_deepen(r.8, img, other, lo, hi);
        self.9.lemma_deepen(r.9, img, other, lo, hi);
        self.10.lemma_deepen(r.10, img, other, lo, hi);
        self.11.lemma_deepen(r.11, img, other, lo, hi);
        self.12.lemma_deepen(r.12, img, other, lo, hi);
        self.13.lemma_deepen(r.13, img, other, lo, hi);
    }

    proof fn lemma_frame(&self, r: (<T1 as ToRef>::Ref, <T2 as ToRef>::Ref, <T3 as ToRef>::Ref, <T4 as ToRef>::Ref, <T5 as ToRef>::Ref, <T6 as ToRef>::Ref, <T7 as ToRef>::Ref, <T8 as ToRef>::Ref, <T9 as ToRef>::Ref, <T10 as ToRef>::Ref, <T11 as ToRef>::Ref, <T12 as ToRef>::Ref, <T13 as ToRef>::Ref, <T14 as ToRef>::Ref), img: Image, other: Image, lo: int, hi: int, deep: bool) {
        self.0.lemma_frame(r.0, img, other, lo, hi, deep);
        self.1.lemma_frame(r.1, img, other, lo, hi, deep);
        self.2.lemma_frame(r.2, img, other, lo, hi, deep);
        self.3.lemma_frame(r.3, img, other, lo, hi, deep);
        self.4.lemma_frame(r.4, img, other, lo, hi, deep);
        self.5.lemma_frame(r.5, img, other, lo, hi, deep);
        self.6.lemma_frame(r.6, img, other, lo, hi, deep);
        self.7.lemma_frame(r.7, img, other, lo, hi, deep);
        self.8.lemma_frame(r.8, img, other, lo, hi, deep);
        self.9.lemma_frame(r.9, img, other, lo, hi, deep);
        self.10.lemma_frame(r.10, img, other, lo, hi, deep);
        self.11.lemma_frame(r.11, img, other, lo, hi, deep);
        self.12.lemma_frame(r.12, img, other, lo, hi, deep);
        self.13.lemma_frame(r.13, img, other, lo, hi, deep);
    }

    proof fn lemma_widen(
        &self,
        r: (<T1 as ToRef>::Ref, <T2 as ToRef>::Ref, <T3 as ToRef>::Ref, <T4 as ToRef>::Ref, <T5 as ToRef>::Ref, <T6 as ToRef>::Ref, <T7 as ToRef>::Ref, <T8 as ToRef>::Ref, <T9 as ToRef>::Ref, <T10 as ToRef>::Ref, <T11 as ToRef>::Ref, <T12 as ToRef>::Ref, <T13 as ToRef>::Ref, <T14 as ToRef>::Ref),
        img: Image,
        lo: int,
        hi: int,
        wide_lo: int,
        wide_hi: int,
        deep: bool,
    ) {
        self.0.lemma_widen(r.0, img, lo, hi, wide_lo, wide_hi, deep);
        self.1.lemma_widen(r.1, img, lo, hi, wide_lo, wide_hi, deep);
        self.2.lemma_widen(r.2, img, lo, hi, wide_lo, wide_hi, deep);
        self.3.lemma_widen(r.3, img, lo, hi, wide_lo, wide_hi, deep);
        self.4.lemma_widen(r.4, img, lo, hi, wide_lo, wide_hi, deep);
        self.5.lemma_widen(r.5, img, lo, hi, wide_lo, wide_hi, deep);
        self.6.lemma_widen(r.6, img, lo, hi, wide_lo, wide_hi, deep);
        self.7.lemma_widen(r.7, img, lo, hi, wide_lo, wide_hi, deep);
        self.8.lemma_widen(r.8, img, lo, hi, wide_lo, wide_hi, deep);
        self.9.lemma_widen(r.9, img, lo, hi, wide_lo, wide_hi, deep);
        self.10.lemma_widen(r.10, img, lo, hi, wide_lo, wide_hi, deep);
        self.11.lemma_widen(r.11, img, lo, hi, wide_lo, wide_hi, deep);
        self.12.lemma_widen(r.12, img, lo, hi, wide_lo, wide_hi, deep);
        self.13.lemma_widen(r.13, img, lo, hi, wide_lo, wide_hi, deep);
    }

    fn mem_type_of() -> (t: MemType) {
        MemType::Primitive.max(<T1 as ToRef>::mem_type_of()).max(<T2 as ToRef>::mem_type_of()).max(<T3 as ToRef>::mem_type_of()).max(<T4 as ToRef>::mem_type_of()).max(<T5 as ToRef>::mem_type_of()).max(<T6 as ToRef>::mem_type_of()).max(<T7 as ToRef>::mem_type_of()).max(<T8 as ToRef>::mem_type_of()).max(<T9 as ToRef>::mem_type_of()).max(<T10 as ToRef>::mem_type_of()).max(<T11 as ToRef>::mem_type_of()).max(<T12 as ToRef>::mem_type_of()).max(<T13 as ToRef>::mem_type_of()).max(<T14 as ToRef>::mem_type_of())
    }

    fn to_size(&self, acc: &mut usize) {
        self.0.to_size(acc);
        self.1.to_size(acc);
        self.2.to_size(acc);
        self.3.to_size(acc);
        self.4.to_size(acc);
        self.5.to_size(acc);
        self.6.to_size(acc);
        self.7.to_size(acc);
        self.8.to_size(acc);
        self.9.to_size(acc);
        self.10.to_size(acc);
        self.11.to_size(acc);
        self.12.to_size(acc);
        self.13.to_size(acc);
    }

    fn checked_size(&self, acc: usize) -> (sum: Option<usize>) {
        let sum0 = acc;
        let sum1 = match self.0.checked_size(sum0) {
            Some(next) => next,
            None => {
                return None;
            },
        };
        let sum2 = match self.1.checked_size(sum1) {
            Some(next) => next,
            None => {
                return None;
            },
        };
        let sum3 = match self.2.checked_size(sum2) {
            Some(next) => next,
            None => {
                return None;
            },
        };
        let sum4 = match self.3.checked_size(sum3) {
            Some(next) => next,
            None => {
                return None;
            },
        };
        let sum5 = match self.4.checked_size(sum4) {
            Some(next) => next,
            None => {
                return None;
            },
        };
        let sum6 = match self.5.checked_size(sum5) {
            Some(next) => next,
            None => {
                return None;
            },
        };
        let sum7 = match self.6.checked_size(sum6) {
            Some(next) => next,
            None => {
                return None;
            },
        };
        let sum8 = match self.7.checked_size(sum7) {
            Some(next) => next,
            None => {
                return None;
            },
        };
        let sum9 = match self.8.checked_size(sum8) {
            Some(next) => next,
            None => {
                return None;
            },
        };
        let sum10 = match self.9.checked_size(sum9) {
            Some(next) => next,
            None => {
                return None;
            },
        };
        let sum11 = match self.10.checked_size(sum10) {
            Some(next) => next,
            None => {
                return None;
            },
        };
        let sum12 = match self.11.checked_size(sum11) {
            Some(next) => next,
            None => {
                return None;
            },
        };
        let sum13 = match self.12.checked_size(sum12) {
            Some(next) => next,
            None => {
                return None;
            },
        };
        let sum14 = match self.13.checked_size(sum13) {
            Some(next) => next,
            None => {
                return None;
            },
        };
        Some(sum14)
    }

    fn to_ref(&self, writer: &mut Writer) -> (r: (<T1 as ToRef>::Ref, <T2 as ToRef>::Ref, <T3 as ToRef>::Ref, <T4 as ToRef>::Ref, <T5 as ToRef>::Ref, <T6 as ToRef>::Ref, <T7 as ToRef>::Ref, <T8 as ToRef>::Ref, <T9 as ToRef>::Ref, <T10 as ToRef>::Ref, <T11 as ToRef>::Ref, <T12 as ToRef>::Ref, <T13 as ToRef>::Ref, <T14 as ToRef>::Ref)) {
        let ghost base = writer.base() as int;
        let ghost w0 = *writer;
        proof {
            writer.lemma_bounds();
            lemma_keeps_same(writer.arena(), writer.cursor());
            lemma_max_parts(MemType::Primitive.spec_max(<T1 as ToRef>::mem_type()).spec_max(<T2 as ToRef>::mem_type()).spec_max(<T3 as ToRef>::mem_type()).spec_max(<T4 as ToRef>::mem_type()).spec_max(<T5 as ToRef>::mem_type()).spec_max(<T6 as ToRef>::mem_type()).spec_max(<T7 as ToRef>::mem_type()).spec_max(<T8 as ToRef>::mem_type()).spec_max(<T9 as ToRef>::mem_type()).spec_max(<T10 as ToRef>::mem_type()).spec_max(<T11 as ToRef>::mem_type()).spec_max(<T12 as ToRef>::mem_type()).spec_max(<T13 as ToRef>::mem_type()), <T14 as ToRef>::mem_type());
            lemma_max_parts(MemType::Primitive.spec_max(<T1 as ToRef>::mem_type()).spec_max(<T2 as ToRef>::mem_type()).spec_max(<T3 as ToRef>::mem_type()).spec_max(<T4 as ToRef>::mem_type()).spec_max(<T5 as ToRef>::mem_type()).spec_max(<T6 as ToRef>::mem_type()).spec_max(<T7 as ToRef>::mem_type()).spec_max(<T8 as ToRef>::mem_type()).spec_max(<T9 as ToRef>::mem_type()).spec_max(<T10 as ToRef>::mem_type()).spec_max(<T11 as ToRef>::mem_type()).spec_max(<T12 as ToRef>::mem_type()), <T13 as ToRef>::mem_type());
            lemma_max_parts(MemType::Primitive.spec_max(<T1 as ToRef>::mem_type()).spec_max(<T2 as ToRef>::mem_type()).spec_max(<T3 as ToRef>::mem_type()).spec_max(<T4 as ToRef>::mem_type()).spec_max(<T5 as ToRef>::mem_type()).spec_max(<T6 as ToRef>::mem_type()).spec_max(<T7 as ToRef>::mem_type()).spec_max(<T8 as ToRef>::mem_type()).spec_max(<T9 as ToRef>::mem_type()).spec_max(<T10 as ToRef>::mem_type()).spec_max(<T11 as ToRef>::mem_type()), <T12 as ToRef>::mem_type());
            lemma_max_parts(MemType::Primitive.spec_max(<T1 as ToRef>::mem_type()).spec_max(<T2 as ToRef>::mem_type()).spec_max(<T3 as ToRef>::mem_type()).spec_max(<T4 as ToRef>::mem_type()).spec_max(<T5 as ToRef>::mem_type()).spec_max(<T6 as ToRef>::mem_type()).spec_max(<T7 as ToRef>::mem_type()).spec_max(<T8 as ToRef>::mem_type()).spec_max(<T9 as ToRef>::mem_type()).spec_max(<T10 as ToRef>::mem_type()), <T11 as ToRef>::mem_type());
            lemma_max_parts(MemType::Primitive.spec_max(<T1 as ToRef>::mem_type()).spec_max(<T2 as ToRef>::mem_type()).spec_max(<T3 as ToRef>::mem_type()).spec_max(<T4 as ToRef>::mem_type()).spec_max(<T5 as ToRef>::mem_type()).spec_max(<T6 as ToRef>::mem_type()).spec_max(<T7 as ToRef>::mem_type()).spec_max(<T8 as ToRef>::mem_type()).spec_max(<T9 as ToRef>::mem_type()), <T10 as ToRef>::mem_type());
            lemma_max_parts(MemType::Primitive.spec_max(<T1 as ToRef>::mem_type()).spec_max(<T2 as ToRef>::mem_type()).spec_max(<T3 as ToRef>::mem_type()).spec_max(<T4 as ToRef>::mem_type()).spec_max(<T5 as ToRef>::mem_type()).spec_max(<T6 as ToRef>::mem_type()).spec_max(<T7 as ToRef>::mem_type()).spec_max(<T8 as ToRef>::mem_type()), <T9 as ToRef>::mem_type());
            lemma_max_parts(MemType::Primitive.spec_max(<T1 as ToRef>::mem_type()).spec_max(<T2 as ToRef>::mem_type()).spec_max(<T3 as ToRef>::mem_type()).spec_max(<T4 as ToRef>::mem_type()).spec_max(<T5 as ToRef>::mem_type()).spec_max(<T6 as ToRef>::mem_type()).spec_max(<T7 as ToRef>::mem_type()), <T8 as ToRef>::mem_type());
            lemma_max_parts(MemType::Primitive.spec_max(<T1 as ToRef>::mem_type()).spec_max(<T2 as ToRef>::mem_type()).spec_max(<T3 as ToRef>::mem_type()).spec_max(<T4 as ToRef>::mem_type()).spec_max(<T5 as ToRef>::mem_type()).spec_max(<T6 as ToRef>::mem_type()), <T7 as ToRef>::mem_type());
            lemma_max_parts(MemType::Primitive.spec_max(<T1 as ToRef>::mem_type()).spec_max(<T2 as ToRef>::mem_type()).spec_max(<T3 as ToRef>::mem_type()).spec_max(<T4 as ToRef>::mem_type()).spec_max(<T5 as ToRef>::mem_type()), <T6 as ToRef>::mem_type());
            lemma_max_parts(MemType::Primitive.spec_max(<T1 as ToRef>::mem_type()).spec_max(<T2 as ToRef>::mem_type()).spec_max(<T3 as ToRef>::mem_type()).spec_max(<T4 as ToRef>::mem_type()), <T5 as ToRef>::mem_type());
            lemma_max_parts(MemType::Primitive.spec_max(<T1 as ToRef>::mem_type()).spec_max(<T2 as ToRef>::mem_type()).spec_max(<T3 as ToRef>::mem_type()), <T4 as ToRef>::mem_type());
            lemma_max_parts(MemType::Primitive.spec_max(<T1 as ToRef>::mem_type()).spec_max(<T2 as ToRef>::mem_type()), <T3 as ToRef>::mem_type());
            lemma_max_parts(MemType::Primitive.spec_max(<T1 as ToRef>::mem_type()), <T2 as ToRef>::mem_type());
            lemma_max_parts(MemType::Primitive, <T1 as ToRef>::mem_type());
        }
        let f0 = self.0.to_ref(writer);
        let ghost w1 = *writer;
        proof {
            writer.lemma_bounds();
        }
        let f1 = self.1.to_ref(writer);
        let ghost w2 = *writer;
        proof {
            writer.lemma_bounds();
        }
        let f2 = self.2.to_ref(writer);
        let ghost w3 = *writer;
        proof {
            writer.lemma_bounds();
        }
        let f3 = self.3.to_ref(writer);
        let ghost w4 = *writer;
        proof {
            writer.lemma_bounds();
        }
        let f4 = self.4.to_ref(writer);
        let ghost w5 = *writer;
        proof {
            writer.lemma_bounds();
        }
        let f5 = self.5.to_ref(writer);
        let ghost w6 = *writer;
        proof {
            writer.lemma_bounds();
        }
        let f6 = self.6.to_ref(writer);
        let ghost w7 = *writer;
        proof {
            writer.lemma_bounds();
        }
        let f7 = self.7.to_ref(writer);
        let ghost w8 = *writer;
        proof {
            writer.lemma_bounds();
        }
        let f8 = self.8.to_ref(writer);
        let ghost w9 = *writer;
        proof {
            writer.lemma_bounds();
        }
        let f9 = self.9.to_ref(writer);
        let ghost w10 = *writer;
        proof {
            writer.lemma_bounds();
        }
        let f10 = self.10.to_ref(writer);
        let ghost w11 = *writer;
        proof {
            writer.lemma_bounds();
        }
        let f11 = self.11.to_ref(writer);
        let ghost w12 = *writer;
        proof {
            writer.lemma_bounds();
        }
        let f12 = self.12.to_ref(writer);
        let ghost w13 = *writer;
        proof {
            writer.lemma_bounds();
        }
        let f13 = self.13.to_ref(writer);
        let ghost w14 = *writer;
        proof {
            writer.lemma_bounds();
        }
        proof {
            lemma_keeps_trans(w12.arena(), w13.arena(), w14.arena(), w12.cursor(), w13.cursor());
            lemma_keeps_trans(w11.arena(), w12.arena(), w14.arena(), w11.cursor(), w12.cursor());
            lemma_keeps_trans(w10.arena(), w11.arena(), w14.arena(), w10.cursor(), w11.cursor());
            lemma_keeps_trans(w9.arena(), w10.arena(), w14.arena(), w9.cursor(), w10.cursor());
            lemma_keeps_trans(w8.arena(), w9.arena(), w14.arena(), w8.cursor(), w9.cursor());
            lemma_keeps_trans(w7.arena(), w8.arena(), w14.arena(), w7.cursor(), w8.cursor());
            lemma_keeps_trans(w6.arena(), w7.arena(), w14.arena(), w6.cursor(), w7.cursor());
            lemma_keeps_trans(w5.arena(), w6.arena(), w14.arena(), w5.cursor(), w6.cursor());
            lemma_keeps_trans(w4.arena(), w5.arena(), w14.arena(), w4.cursor(), w5.cursor());
            lemma_keeps_trans(w3.arena(), w4.arena(), w14.arena(), w3.cursor(), w4.cursor());
            lemma_keeps_trans(w2.arena(), w3.arena(), w14.arena(), w2.cursor(), w3.cursor());
            lemma_keeps_trans(w1.arena(), w2.arena(), w14.arena(), w1.cursor(), w2.cursor());
            lemma_keeps_trans(w0.arena(), w1.arena(), w14.arena(), w0.cursor(), w1.cursor());
            lemma_view_stays(&self.0, f0, w1, w14, base + w0.cursor(), base + w1.cursor());
            lemma_view_stays(&self.1, f1, w2, w14, base + w1.cursor(), base + w2.cursor());
            lemma_view_stays(&self.2, f2, w3, w14, base + w2.cursor(), base + w3.cursor());
            lemma_view_stays(&self.3, f3, w4, w14, base + w3.cursor(), base + w4.cursor());
            lemma_view_stays(&self.4, f4, w5, w14, base + w4.cursor(), base + w5.cursor());
            lemma_view_stays(&self.5, f5, w6, w14, base + w5.cursor(), base + w6.cursor());
            lemma_view_stays(&self.6, f6, w7, w14, base + w6.cursor(), base + w7.cursor());
            lemma_view_stays(&self.7, f7, w8, w14, base + w7.cursor(), base + w8.cursor());
            lemma_view_stays(&self.8, f8, w9, w14, base + w8.cursor(), base + w9.cursor());
            lemma_view_stays(&self.9, f9, w10, w14, base + w9.cursor(), base + w10.cursor());
            lemma_view_stays(&self.10, f10, w11, w14, base + w10.cursor(), base + w11.cursor());
            lemma_view_stays(&self.11, f11, w12, w14, base + w11.cursor(), base + w12.cursor());
            lemma_view_stays(&self.12, f12, w13, w14, base + w12.cursor(), base + w13.cursor());
            self.0.lemma_widen(f0, w14.image(), base + w0.cursor(), base + w1.cursor(), base + w0.cursor(), base + w14.cursor(), false);
            self.1.lemma_widen(f1, w14.image(), base + w1.cursor(), base + w2.cursor(), base + w0.cursor(), base + w14.cursor(), false);
            self.2.lemma_widen(f2, w14.image(), base + w2.cursor(), base + w3.cursor(), base + w0.cursor(), base + w14.cursor(), false);
            self.3.lemma_widen(f3, w14.image(), base + w3.cursor(), base + w4.cursor(), base + w0.cursor(), base + w14.cursor(), false);
            self.4.lemma_widen(f4, w14.image(), base + w4.cursor(), base + w5.cursor(), base + w0.cursor(), base + w14.cursor(), false);
            self.5.lemma_widen(f5, w14.image(), base + w5.cursor(), base + w6.cursor(), base + w0.cursor(), base + w14.cursor(), false);
            self.6.lemma_widen(f6, w14.image(), base + w6.cursor(), base + w7.cursor(), base + w0.cursor(), base + w14.cursor(), false);
            self.7.lemma_widen(f7, w14.image(), base + w7.cursor(), base + w8.cursor(), base + w0.cursor(), base + w14.cursor(), false);
            self.8.lemma_widen(f8, w14.image(), base + w8.cursor(), base + w9.cursor(), base + w0.cursor(), base + w14.cursor(), false);
            self.9.lemma_widen(f9, w14.image(), base + w9.cursor(), base + w10.cursor(), base + w0.cursor(), base + w14.cursor(), false);
            self.10.lemma_widen(f10, w14.image(), base + w10.cursor(), base + w11.cursor(), base + w0.cursor(), base + w14.cursor(), false);
            self.11.lemma_widen(f11, w14.image(), base + w11.cursor(), base + w12.cursor(), base + w0.cursor(), base + w14.cursor(), false);
            self.12.lemma_widen(f12, w14.image(), base + w12.cursor(), base + w13.cursor(), base + w0.cursor(), base + w14.cursor(), false);
            self.13.lemma_widen(f13, w14.image(), base + w13.cursor(), base + w14.cursor(), base + w0.cursor(), base + w14.cursor(), false);
        }
        (f0, f1, f2, f3, f4, f5, f6, f7, f8, f9, f10, f11, f12, f13)
    }

    fn pinned<M: MemoryRead>(&self, r: &(<T1 as ToRef>::Ref, <T2 as ToRef>::Ref, <T3 as ToRef>::Ref, <T4 as ToRef>::Ref, <T5 as ToRef>::Ref, <T6 as ToRef>::Ref, <T7 as ToRef>::Ref, <T8 as ToRef>::Ref, <T9 as ToRef>::Ref, <T10 as ToRef>::Ref, <T11 as ToRef>::Ref, <T12 as ToRef>::Ref, <T13 as ToRef>::Ref, <T14 as ToRef>::Ref), mem: &M, out: &mut Vec<Segment>) {
        self.0.pinned(&r.0, mem, out);
        self.1.pinned(&r.1, mem, out);
        self.2.pinned(&r.2, mem, out);
        self.3.pinned(&r.3, mem, out);
        self.4.pinned(&r.4, mem, out);
        self.5.pinned(&r.5, mem, out);
        self.6.pinned(&r.6, mem, out);
        self.7.pinned(&r.7, mem, out);
        self.8.pinned(&r.8, mem, out);
        self.9.pinned(&r.9, mem, out);
        self.10.pinned(&r.10, mem, out);
        self.11.pinned(&r.11, mem, out);
        self.12.pinned(&r.12, mem, out);
        self.13.pinned(&r.13, mem, out);
        assert(pieces_of(out@) =~= pieces_of(old(out)@) + self.pins(*r, mem.image()));
    }
}

impl<T1: ToRef, T2: ToRef, T3: ToRef, T4: ToRef, T5: ToRef, T6: ToRef, T7: ToRef, T8: ToRef, T9: ToRef, T10: ToRef, T11: ToRef, T12: ToRef, T13: ToRef, T14: ToRef, T15: ToRef> ToRef for (T1, T2, T3, T4, T5, T6, T7, T8, T9, T10, T11, T12, T13, T14, T15) {
    type Ref = (<T1 as ToRef>::Ref, <T2 as ToRef>::Ref, <T3 as ToRef>::Ref, <T4 as ToRef>::Ref, <T5 as ToRef>::Ref, <T6 as ToRef>::Ref, <T7 as ToRef>::Ref, <T8 as ToRef>::Ref, <T9 as ToRef>::Ref, <T10 as ToRef>::Ref, <T11 as ToRef>::Ref, <T12 as ToRef>::Ref, <T13 as ToRef>::Ref, <T14 as ToRef>::Ref, <T15 as ToRef>::Ref);

    open spec fn mem_type() -> MemType {
        MemType::Primitive.spec_max(<T1 as ToRef>::mem_type()).spec_max(<T2 as ToRef>::mem_type()).spec_max(<T3 as ToRef>::mem_type()).spec_max(<T4 as ToRef>::mem_type()).spec_max(<T5 as ToRef>::mem_type()).spec_max(<T6 as ToRef>::mem_type()).spec_max(<T7 as ToRef>::mem_type()).spec_max(<T8 as ToRef>::mem_type()).spec_max(<T9 as ToRef>::mem_type()).spec_max(<T10 as ToRef>::mem_type()).spec_max(<T11 as ToRef>::mem_type()).spec_max(<T12 as ToRef>::mem_type()).spec_max(<T13 as ToRef>::mem_type()).spec_max(<T14 as ToRef>::mem_type()).spec_max(<T15 as ToRef>::mem_type())
    }

    open spec fn size(&self) -> nat {
        self.0.size() + self.1.size() + self.2.size() + self.3.size() + self.4.size() + self.5.size() + self.6.size() + self.7.size() + self.8.size() + self.9.size() + self.10.size() + self.11.size() + self.12.size() + self.13.size() + self.14.size()
    }

    open spec fn views(&self, r: (<T1 as ToRef>::Ref, <T2 as ToRef>::Ref, <T3 as ToRef>::Ref, <T4 as ToRef>::Ref, <T5 as ToRef>::Ref, <T6 as ToRef>::Ref, <T7 as ToRef>::Ref, <T8 as ToRef>::Ref, <T9 as ToRef>::Ref, <T10 as ToRef>::Ref, <T11 as ToRef>::Ref, <T12 as ToRef>::Ref, <T13 as ToRef>::Ref, <T14 as ToRef>::Ref, <T15 as ToRef>::Ref), img: Image, lo: int, hi: int, deep: bool) -> bool {
        &&& self.0.views(r.0, img, lo, hi, deep)
        &&& self.1.views(r.1, img, lo, hi, deep)
        &&& self.2.views(r.2, img, lo, hi, deep)
        &&& self.3.views(r.3, img, lo, hi, deep)
        &&& self.4.views(r.4, img, lo, hi, deep)
        &&& self.5.views(r.5, img, lo, hi, deep)
        &&& self.6.views(r.6, img, lo, hi, deep)
        &&& self.7.views(r.7, img, lo, hi, deep)
        &&& self.8.views(r.8, img, lo, hi, deep)
        &&& self.9.views(r.9, img, lo, hi, deep)
        &&& self.10.views(r.10, img, lo, hi, deep)
        &&& self.11.views(r.11, img, lo, hi, deep)
        &&& self.12.views(r.12, img, lo, hi, deep)
        &&& self.13.views(r.13, img, lo, hi, deep)
        &&& self.14.views(r.14, img, lo, hi, deep)
    }

    open spec fn flat(&self) -> (<T1 as ToRef>::Ref, <T2 as ToRef>::Ref, <T3 as ToRef>::Ref, <T4 as ToRef>::Ref, <T5 as ToRef>::Ref, <T6 as ToRef>::Ref, <T7 as ToRef>::Ref, <T8 as ToRef>::Ref, <T9 as ToRef>::Ref, <T10 as ToRef>::Ref, <T11 as ToRef>::Ref, <T12 as ToRef>::Ref, <T13 as ToRef>::Ref, <T14 as ToRef>::Ref, <T15 as ToRef>::Ref) {
        (self.0.flat(), self.1.flat(), self.2.flat(), self.3.flat(), self.4.flat(), self.5.flat(), self.6.flat(), self.7.flat(), self.8.flat(), self.9.flat(), self.10.flat(), self.11.flat(), self.12.flat(), self.13.flat(), self.14.flat())
    }

    open spec fn pins(&self, r: (<T1 as ToRef>::Ref, <T2 as ToRef>::Ref, <T3 as ToRef>::Ref, <T4 as ToRef>::Ref, <T5 as ToRef>::Ref, <T6 as ToRef>::Ref, <T7 as ToRef>::Ref, <T8 as ToRef>::Ref, <T9 as ToRef>::Ref, <T10 as ToRef>::Ref, <T11 as ToRef>::Ref, <T12 as ToRef>::Ref, <T13 as ToRef>::Ref, <T14 as ToRef>::Ref, <T15 as ToRef>::Ref), img: Image) -> Seq<Piece> {
        self.0.pins(r.0, img) + self.1.pins(r.1, img) + self.2.pins(r.2, img) + self.3.pins(r.3, img) + self.4.pins(r.4, img) + self.5.pins(r.5, img) + self.6.pins(r.6, img) + self.7.pins(r.7, img) + self.8.pins(r.8, img) + self.9.pins(r.9, img) + self.10.pins(r.10, img) + self.11.pins(r.11, img) + self.12.pins(r.12, img) + self.13.pins(r.13, img) + self.14.pins(r.14, img)
    }

    proof fn lemma_flat(&self) {
        lemma_max_parts(MemType::Primitive.spec_max(<T1 as ToRef>::mem_type()).spec_max(<T2 as ToRef>::mem_type()).spec_max(<T3 as ToRef>::mem_type()).spec_max(<T4 as ToRef>::mem_type()).spec_max(<T5 as ToRef>::mem_type()).spec_max(<T6 as ToRef>::mem_type()).spec_max(<T7 as ToRef>::mem_type()).spec_max(<T8 as ToRef>::mem_type()).spec_max(<T9 as ToRef>::mem_type()).spec_max(<T10 as ToRef>::mem_type()).spec_max(<T11 as ToRef>::mem_type()).spec_max(<T12 as ToRef>::mem_type()).spec_max(<T13 as ToRef>::mem_type()).spec_max(<T14 as ToRef>::mem_type()), <T15 as ToRef>::mem_type());
        lemma_max_parts(MemType::Primitive.spec_max(<T1 as ToRef>::mem_type()).spec_max(<T2 as ToRef>::mem_type()).spec_max(<T3 as ToRef>::mem_type()).spec_max(<T4 as ToRef>::mem_type()).spec_max(<T5 as ToRef>::mem_type()).spec_max(<T6 as ToRef>::mem_type()).spec_max(<T7 as ToRef>::mem_type()).spec_max(<T8 as ToRef>::mem_type()).spec_max(<T9 as ToRef>::mem_type()).spec_max(<T10 as ToRef>::mem_type()).spec_max(<T11 as ToRef>::mem_type()).spec_max(<T12 as ToRef>::mem_type()).spec_max(<T13 as ToRef>::mem_type()), <T14 as ToRef>::mem_type());
        lemma_max_parts(MemType::Primitive.spec_max(<T1 as ToRef>::mem_type()).spec_max(<T2 as ToRef>::mem_type()).spec_max(<T3 as ToRef>::mem_type()).spec_max(<T4 as ToRef>::mem_type()).spec_max(<T5 as ToRef>::mem_type()).spec_max(<T6 as ToRef>::mem_type()).spec_max(<T7 as ToRef>::mem_type()).spec_max(<T8 as ToRef>::mem_type()).spec_max(<T9 as ToRef>::mem_type()).spec_max(<T10 as ToRef>::mem_type()).spec_max(<T11 as ToRef>::mem_type()).spec_max(<T12 as ToRef>::mem_type()), <T13 as ToRef>::mem_type());
        lemma_max_parts(MemType::Primitive.spec_max(<T1 as ToRef>::mem_type()).spec_max(<T2 as ToRef>::mem_type()).spec_max(<T3 as ToRef>::mem_type()).spec_max(<T4 as ToRef>::mem_type()).spec_max(<T5 as ToRef>::mem_type()).spec_max(<T6 as ToRef>::mem_type()).spec_max(<T7 as ToRef>::mem_type()).spec_max(<T8 as ToRef>::mem_type()).spec_max(<T9 as ToRef>::mem_type()).spec_max(<T10 as ToRef>::mem_type()).spec_max(<T11 as ToRef>::mem_type()), <T12 as ToRef>::mem_type());
        lemma_max_parts(MemType::Primitive.spec_max(<T1 as ToRef>::mem_type()).spec_max(<T2 as ToRef>::mem_type()).spec_max(<T3 as ToRef>::mem_type()).spec_max(<T4 as ToRef>::mem_type()).spec_max(<T5 as ToRef>::mem_type()).spec_max(<T6 as ToRef>::mem_type()).spec_max(<T7 as ToRef>::mem_type()).spec_max(<T8 as ToRef>::mem_type()).spec_max(<T9 as ToRef>::mem_type()).spec_max(<T10 as ToRef>::mem_type()), <T11 as ToRef>::mem_type());
        lemma_max_parts(MemType::Primitive.spec_max(<T1 as ToRef>::mem_type()).spec_max(<T2 as ToRef>::mem_type()).spec_max(<T3 as ToRef>::mem_type()).spec_max(<T4 as ToRef>::mem_type()).spec_max(<T5 as ToRef>::mem_type()).spec_max(<T6 as ToRef>::mem_type()).spec_max(<T7 as ToRef>::mem_type()).spec_max(<T8 as ToRef>::mem_type()).spec_max(<T9 as ToRef>::mem_type()), <T10 as ToRef>::mem_type());
        lemma_max_parts(MemType::Primitive.spec_max(<T1 as ToRef>::mem_type()).spec_max(<T2 as ToRef>::mem_type()).spec_max(<T3 as ToRef>::mem_type()).spec_max(<T4 as ToRef>::mem_type()).spec_max(<T5 as ToRef>::mem_type()).spec_max(<T6 as ToRef>::mem_type()).spec_max(<T7 as ToRef>::mem_type()).spec_max(<T8 as ToRef>::mem_type()), <T9 as ToRef>::mem_type());
        lemma_max_parts(MemType::Primitive.spec_max(<T1 as ToRef>::mem_type()).spec_max(<T2 as ToRef>::mem_type()).spec_max(<T3 as ToRef>::mem_type()).spec_max(<T4 as ToRef>::mem_type()).spec_max(<T5 as ToRef>::mem_type()).spec_max(<T6 as ToRef>::mem_type()).spec_max(<T7 as ToRef>::mem_type()), <T8 as ToRef>::mem_type());
        lemma_max_parts(MemType::Primitive.spec_max(<T1 as ToRef>::mem_type()).spec_max(<T2 as ToRef>::mem_type()).spec_max(<T3 as ToRef>::mem_type()).spec_max(<T4 as ToRef>::mem_type()).spec_max(<T5 as ToRef>::mem_type()).spec_max(<T6 as ToRef>::mem_type()), <T7 as ToRef>::mem_type());
        lemma_max_parts(MemType::Primitive.spec_max(<T1 as ToRef>::mem_type()).spec_max(<T2 as ToRef>::mem_type()).spec_max(<T3 as ToRef>::mem_type()).spec_max(<T4 as ToRef>::mem_type()).spec_max(<T5 as ToRef>::mem_type()), <T6 as ToRef>::mem_type());
        lemma_max_parts(MemType::Primitive.spec_max(<T1 as ToRef>::mem_type()).spec_max(<T2 as ToRef>::mem_type()).spec_max(<T3 as ToRef>::mem_type()).spec_max(<T4 as ToRef>::mem_type()), <T5 as ToRef>::mem_type());
        lemma_max_parts(MemType::Primitive.spec_max(<T1 as ToRef>::mem_type()).spec_max(<T2 as ToRef>::mem_type()).spec_max(<T3 as ToRef>::mem_type()), <T4 as ToRef>::mem_type());
        lemma_max_parts(MemType::Primitive.spec_max(<T1 as ToRef>::mem_type()).spec_max(<T2 as ToRef>::mem_type()), <T3 as ToRef>::mem_type());
        lemma_max_parts(MemType::Primitive.spec_max(<T1 as ToRef>::mem_type()), <T2 as ToRef>::mem_type());
        lemma_max_parts(MemType::Primitive, <T1 as ToRef>::mem_type());
        self.0.lemma_flat();
        self.1.lemma_flat();
        self.2.lemma_flat();
        self.3.lemma_flat();
        self.4.lemma_flat();
        self.5.lemma_flat();
        self.6.lemma_flat();
        self.7.lemma_flat();
        self.8.lemma_flat();
        self.9.lemma_flat();
        self.10.lemma_flat();
        self.11.lemma_flat();
        self.12.lemma_flat();
        self.13.lemma_flat();
        self.14.lemma_flat();
    }

    proof fn lemma_primitive(&self, r: (<T1 as ToRef>::Ref, <T2 as ToRef>::Ref, <T3 as ToRef>::Ref, <T4 as ToRef>::Ref, <T5 as ToRef>::Ref, <T6 as ToRef>::Ref, <T7 as ToRef>::Ref, <T8 as ToRef>::Ref, <T9 as ToRef>::Ref, <T10 as ToRef>::Ref, <T11 as ToRef>::Ref, <T12 as ToRef>::Ref, <T13 as ToRef>::Ref, <T14 as ToRef>::Ref, <T15 as ToRef>::Ref), img: Image, lo: int, hi: int, deep: bool) {
        lemma_max_parts(MemType::Primitive.spec_max(<T1 as ToRef>::mem_type()).spec_max(<T2 as ToRef>::mem_type()).spec_max(<T3 as ToRef>::mem_type()).spec_max(<T4 as ToRef>::mem_type()).spec_max(<T5 as ToRef>::mem_type()).spec_max(<T6 as ToRef>::mem_type()).spec_max(<T7 as ToRef>::mem_type()).spec_max(<T8 as ToRef>::mem_type()).spec_max(<T9 as ToRef>::mem_type()).spec_max(<T10 as ToRef>::mem_type()).spec_max(<T11 as ToRef>::mem_type()).spec_max(<T12 as ToRef>::mem_type()).spec_max(<T13 as ToRef>::mem_type()).spec_max(<T14 as ToRef>::mem_type()), <T15 as ToRef>::mem_type());
        lemma_max_parts(MemType::Primitive.spec_max(<T1 as ToRef>::mem_type()).spec_max(<T2 as ToRef>::mem_type()).spec_max(<T3 as ToRef>::mem_type()).spec_max(<T4 as ToRef>::mem_type()).spec_max(<T5 as ToRef>::mem_type()).spec_max(<T6 as ToRef>::mem_type()).spec_max(<T7 as ToRef>::mem_type()).spec_max(<T8 as ToRef>::mem_type()).spec_max(<T9 as ToRef>::mem_type()).spec_max(<T10 as ToRef>::mem_type()).spec_max(<T11 as ToRef>::mem_type()).spec_max(<T12 as ToRef>::mem_type()).spec_max(<T13 as ToRef>::mem_type()), <T14 as ToRef>::mem_type());
        lemma_max_parts(MemType::Primitive.spec_max(<T1 as ToRef>::mem_type()).spec_max(<T2 as ToRef>::mem_type()).spec_max(<T3 as ToRef>::mem_type()).spec_max(<T4 as ToRef>::mem_type()).spec_max(<T5 as ToRef>::mem_type()).spec_max(<T6 as ToRef>::mem_type()).spec_max(<T7 as ToRef>::mem_type()).spec_max(<T8 as ToRef>::mem_type()).spec_max(<T9 as ToRef>::mem_type()).spec_max(<T10 as ToRef>::mem_type()).spec_max(<T11 as ToRef>::mem_type()).spec_max(<T12 as ToRef>::mem_type()), <T13 as ToRef>::mem_type());
        lemma_max_parts(MemType::Primitive.spec_max(<T1 as ToRef>::mem_type()).spec_max(<T2 as ToRef>::mem_type()).spec_max(<T3 as ToRef>::mem_type()).spec_max(<T4 as ToRef>::mem_type()).spec_max(<T5 as ToRef>::mem_type()).spec_max(<T6 as ToRef>::mem_type()).spec_max(<T7 as ToRef>::mem_type()).spec_max(<T8 as ToRef>::mem_type()).spec_max(<T9 as ToRef>::mem_type()).spec_max(<T10 as ToRef>::mem_type()).spec_max(<T11 as ToRef>::mem_type()), <T12 as ToRef>::mem_type());
        lemma_max_parts(MemType::Primitive.spec_max(<T1 as ToRef>::mem_type()).spec_max(<T2 as ToRef>::mem_type()).spec_max(<T3 as ToRef>::mem_type()).spec_max(<T4 as ToRef>::mem_type()).spec_max(<T5 as ToRef>::mem_type()).spec_max(<T6 as ToRef>::mem_type()).spec_max(<T7 as ToRef>::mem_type()).spec_max(<T8 as ToRef>::mem_type()).spec_max(<T9 as ToRef>::mem_type()).spec_max(<T10 as ToRef>::mem_type()), <T11 as ToRef>::mem_type());
        lemma_max_parts(MemType::Primitive.spec_max(<T1 as ToRef>::mem_type()).spec_max(<T2 as ToRef>::mem_type()).spec_max(<T3 as ToRef>::mem_type()).spec_max(<T4 as ToRef>::mem_type()).spec_max(<T5 as ToRef>::mem_type()).spec_max(<T6 as ToRef>::mem_type()).spec_max(<T7 as ToRef>::mem_type()).spec_max(<T8 as ToRef>::mem_type()).spec_max(<T9 as ToRef>::mem_type()), <T10 as ToRef>::mem_type());
        lemma_max_parts(MemType::Primitive.spec_max(<T1 as ToRef>::mem_type()).spec_max(<T2 as ToRef>::mem_type()).spec_max(<T3 as ToRef>::mem_type()).spec_max(<T4 as ToRef>::mem_type()).spec_max(<T5 as ToRef>::mem_type()).spec_max(<T6 as ToRef>::mem_type()).spec_max(<T7 as ToRef>::mem_type()).spec_max(<T8 as ToRef>::mem_type()), <T9 as ToRef>::mem_type());
        lemma_max_parts(MemType::Primitive.spec_max(<T1 as ToRef>::mem_type()).spec_max(<T2 as ToRef>::mem_type()).spec_max(<T3 as ToRef>::mem_type()).spec_max(<T4 as ToRef>::mem_type()).spec_max(<T5 as ToRef>::mem_type()).spec_max(<T6 as ToRef>::mem_type()).spec_max(<T7 as ToRef>::mem_type()), <T8 as ToRef>::mem_type());
        lemma_max_parts(MemType::Primitive.spec_max(<T1 as ToRef>::mem_type()).spec_max(<T2 as ToRef>::mem_type()).spec_max(<T3 as ToRef>::mem_type()).spec_max(<T4 as ToRef>::mem_type()).spec_max(<T5 as ToRef>::mem_type()).spec_max(<T6 as ToRef>::mem_type()), <T7 as ToRef>::mem_type());
        lemma_max_parts(MemType::Primitive.spec_max(<T1 as ToRef>::mem_type()).spec_max(<T2 as ToRef>::mem_type()).spec_max(<T3 as ToRef>::mem_type()).spec_max(<T4 as ToRef>::mem_type()).spec_max(<T5 as ToRef>::mem_type()), <T6 as ToRef>::mem_type());
        lemma_max_parts(MemType::Primitive.spec_max(<T1 as ToRef>::mem_type()).spec_max(<T2 as ToRef>::mem_type()).spec_max(<T3 as ToRef>::mem_type()).spec_max(<T4 as ToRef>::mem_type()), <T5 as ToRef>::mem_type());
        lemma_max_parts(MemType::Primitive.spec_max(<T1 as ToRef>::mem_type()).spec_max(<T2 as ToRef>::mem_type()).spec_max(<T3 as ToRef>::mem_type()), <T4 as ToRef>::mem_type());
        lemma_max_parts(MemType::Primitive.spec_max(<T1 as ToRef>::mem_type()).spec_max(<T2 as ToRef>::mem_type()), <T3 as ToRef>::mem_type());
        lemma_max_parts(MemType::Primitive.spec_max(<T1 as ToRef>::mem_type()), <T2 as ToRef>::mem_type());
        lemma_max_parts(MemType::Primitive, <T1 as ToRef>::mem_type());
        self.0.lemma_primitive(r.0, img, lo, hi, deep);
        self.1.lemma_primitive(r.1, img, lo, hi, deep);
        self.2.lemma_primitive(r.2, img, lo, hi, deep);
        self.3.lemma_primitive(r.3, img, lo, hi, deep);
        self.4.lemma_primitive(r.4, img, lo, hi, deep);
        self.5.lemma_primitive(r.5, img, lo, hi, deep);
        self.6.lemma_primitive(r.6, img, lo, hi, deep);
        self.7.lemma_primitive(r.7, img, lo, hi, deep);
        self.8.lemma_primitive(r.8, img, lo, hi, deep);
        self.9.lemma_primitive(r.9, img, lo, hi, deep);
        self.10.lemma_primitive(r.10, img, lo, hi, deep);
        self.11.lemma_primitive(r.11, img, lo, hi, deep);
        self.12.lemma_primitive(r.12, img, lo, hi, deep);
        self.13.lemma_primitive(r.13, img, lo, hi, deep);
        self.14.lemma_primitive(r.14, img, lo, hi, deep);
        if Self::mem_type() == MemType::Primitive {
            assert(self.pins(r, img) =~= Seq::<Piece>::empty());
        }
    }

    proof fn lemma_deepen(&self, r: (<T1 as ToRef>::Ref, <T2 as ToRef>::Ref, <T3 as ToRef>::Ref, <T4 as ToRef>::Ref, <T5 as ToRef>::Ref, <T6 as ToRef>::Ref, <T7 as ToRef>::Ref, <T8 as ToRef>::Ref, <T9 as ToRef>::Ref, <T10 as ToRef>::Ref, <T11 as ToRef>::Ref, <T12 as ToRef>::Ref, <T13 as ToRef>::Ref, <T14 as ToRef>::Ref, <T15 as ToRef>::Ref), img: Image, other: Image, lo: int, hi: int) {
        lemma_holds_all_concat(other, self.0.pins(r.0, img) + self.1.pins(r.1, img) + self.2.pins(r.2, img) + self.3.pins(r.3, img) + self.4.pins(r.4, img) + self.5.pins(r.5, img) + self.6.pins(r.6, img) + self.7.pins(r.7, img) + self.8.pins(r.8, img) + self.9.pins(r.9, img) + self.10.pins(r.10, img) + self.11.pins(r.11, img) + self.12.pins(r.12, img) + self.13.pins(r.13, img), self.14.pins(r.14, img));
        lemma_holds_all_concat(other, self.0.pins(r.0, img) + self.1.pins(r.1, img) + self.2.pins(r.2, img) + self.3.pins(r.3, img) + self.4.pins(r.4, img) + self.5.pins(r.5, img) + self.6.pins(r.6, img) + self.7.pins(r.7, img) + self.8.pins(r.8, img) + self.9.pins(r.9, img) + self.10.pins(r.10, img) + self.11.pins(r.11, img) + self.12.pins(r.12, img), self.13.pins(r.13, img));
        lemma_holds_all_concat(other, self.0.pins(r.0, img) + self.1.pins(r.1, img) + self.2.pins(r.2, img) + self.3.pins(r.3, img) + self.4.pins(r.4, img) + self.5.pins(r.5, img) + self.6.pins(r.6, img) + self.7.pins(r.7, img) + self.8.pins(r.8, img) + self.9.pins(r.9, img) + self.10.pins(r.10, img) + self.11.pins(r.11, img), self.12.pins(r.12, img));
        lemma_holds_all_concat(other, self.0.pins(r.0, img) + self.1.pins(r.1, img) + self.2.pins(r.2, img) + self.3.pins(r.3, img) + self.4.pins(r.4, img) + self.5.pins(r.5, img) + self.6.pins(r.6, img) + self.7.pins(r.7, img) + self.8.pins(r.8, img) + self.9.pins(r.9, img) + self.10.pins(r.10, img), self.11.pins(r.11, img));
        lemma_holds_all_concat(other, self.0.pins(r.0, img) + self.1.pins(r.1, img) + self.2.pins(r.2, img) + self.3.pins(r.3, img) + self.4.pins(r.4, img) + self.5.pins(r.5, img) + self.6.pins(r.6, img) + self.7.pins(r.7, img) + self.8.pins(r.8, img) + self.9.pins(r.9, img), self.10.pins(r.10, img));
        lemma_holds_all_concat(other, self.0.pins(r.0, img) + self.1.pins(r.1, img) + self.2.pins(r.2, img) + self.3.pins(r.3, img) + self.4.pins(r.4, img) + self.5.pins(r.5, img) + self.6.pins(r.6, img) + self.7.pins(r.7, img) + self.8.pins(r.8, img), self.9.pins(r.9, img));
        lemma_holds_all_concat(other, self.0.pins(r.0, img) + self.1.pins(r.1, img) + self.2.pins(r.2, img) + self.3.pins(r.3, img) + self.4.pins(r.4, img) + self.5.pins(r.5, img) + self.6.pins(r.6, img) + self.7.pins(r.7, img), self.8.pins(r.8, img));
        lemma_holds_all_concat(other, self.0.pins(r.0, img) + self.1.pins(r.1, img) + self.2.pins(r.2, img) + self.3.pins(r.3, img) + self.4.pins(r.4, img) + self.5.pins(r.5, img) + self.6.pins(r.6, img), self.7.pins(r.7, img));
        lemma_holds_all_concat(other, self.0.pins(r.0, img) + self.1.pins(r.1, img) + self.2.pins(r.2, img) + self.3.pins(r.3, img) + self.4.pins(r.4, img) + self.5.pins(r.5, img), self.6.pins(r.6, img));
        lemma_holds_all_concat(other, self.0.pins(r.0, img) + self.1.pins(r.1, img) + self.2.pins(r.2, img) + self.3.pins(r.3, img) + self.4.pins(r.4, img), self.5.pins(r.5, img));
        lemma_holds_all_concat(other, self.0.pins(r.0, img) + self.1.pins(r.1, img) + self.2.pins(r.2, img) + self.3.pins(r.3, img), self.4.pins(r.4, img));
        lemma_holds_all_concat(other, self.0.pins(r.0, img) + self.1.pins(r.1, img) + self.2.pins(r.2, img), self.3.pins(r.3, img));
        lemma_holds_all_concat(other, self.0.pins(r.0, img) + self.1.pins(r.1, img), self.2.pins(r.2, img));
        lemma_holds_all_concat(other, self.0.pins(r.0, img), self.1.pins(r.1, img));
        self.0.lemma_deepen(r.0, img, other, lo, hi);
        self.1.lemma_deepen(r.1, img, other, lo, hi);
        self.2.lemma_deepen(r.2, img, other, lo, hi);
        self.3.lemma_deepen(r.3, img, other, lo, hi);
        self.4.lemma_deepen(r.4, img, other, lo, hi);
        self.5.lemma_deepen(r.5, img, other, lo, hi);
        self.6.lemma_deepen(r.6, img, other, lo, hi);
        self.7.lemma_deepen(r.7, img, other, lo, hi);
        self.8.lemma_deepen(r.8, img, other, lo, hi);
        self.9.lemma_deepen(r.9, img, other, lo, hi);
        self.10.lemma_deepen(r.10, img, other, lo, hi);
        self.11.lemma_deepen(r.11, img, other, lo, hi);
        self.12.lemma_deepen(r.12, img, other, lo, hi);
        self.13.lemma_deepen(r.13, img, other, lo, hi);
        self.14.lemma_deepen(r.14, img, other, lo, hi);
    }

    proof fn lemma_frame(&self, r: (<T1 as ToRef>::Ref, <T2 as ToRef>::Ref, <T3 as ToRef>::Ref, <T4 as ToRef>::Ref, <T5 as ToRef>::Ref, <T6 as ToRef>::Ref, <T7 as ToRef>::Ref, <T8 as ToRef>::Ref, <T9 as ToRef>::Ref, <T10 as ToRef>::Ref, <T11 as ToRef>::Ref, <T12 as ToRef>::Ref, <T13 as ToRef>::Ref, <T14 as ToRef>::Ref, <T15 as ToRef>::Ref), img: Image, other: Image, lo: int, hi: int, deep: bool) {
        self.0.lemma_frame(r.0, img, other, lo, hi, deep);
        self.1.lemma_frame(r.1, img, other, lo, hi, deep);
        self.2.lemma_frame(r.2, img, other, lo, hi, deep);
        self.3.lemma_frame(r.3, img, other, lo, hi, deep);
        self.4.lemma_frame(r.4, img, other, lo, hi, deep);
        self.5.lemma_frame(r.5, img, other, lo, hi, deep);
        self.6.lemma_frame(r.6, img, other, lo, hi, deep);
        self.7.lemma_frame(r.7, img, other, lo, hi, deep);
        self.8.lemma_frame(r.8, img, other, lo, hi, deep);
        self.9.lemma_frame(r.9, img, other, lo, hi, deep);
        self.10.lemma_frame(r.10, img, other, lo, hi, deep);
        self.11.lemma_frame(r.11, img, other, lo, hi, deep);
        self.12.lemma_frame(r.12, img, other, lo, hi, deep);
        self.13.lemma_frame(r.13, img, other, lo, hi, deep);
        self.14.lemma_frame(r.14, img, other, lo, hi, deep);
    }

    proof fn lemma_widen(
        &self,
        r: (<T1 as ToRef>::Ref, <T2 as ToRef>::Ref, <T3 as ToRef>::Ref, <T4 as ToRef>::Ref, <T5 as ToRef>::Ref, <T6 as ToRef>::Ref, <T7 as ToRef>::Ref, <T8 as ToRef>::Ref, <T9 as ToRef>::Ref, <T10 as ToRef>::Ref, <T11 as ToRef>::Ref, <T12 as ToRef>::Ref, <T13 as ToRef>::Ref, <T14 as ToRef>::Ref, <T15 as ToRef>::Ref),
        img: Image,
        lo: int,
        hi: int,
        wide_lo: int,
        wide_hi: int,
        deep: bool,
    ) {
        self.0.lemma_widen(r.0, img, lo, hi, wide_lo, wide_hi, deep);
        self.1.lemma_widen(r.1, img, lo, hi, wide_lo, wide_hi, deep);
        self.2.lemma_widen(r.2, img, lo, hi, wide_lo, wide_hi, deep);
        self.3.lemma_widen(r.3, img, lo, hi, wide_lo, wide_hi, deep);
        self.4.lemma_widen(r.4, img, lo, hi, wide_lo, wide_hi, deep);
        self.5.lemma_widen(r.5, img, lo, hi, wide_lo, wide_hi, deep);
        self.6.lemma_widen(r.6, img, lo, hi, wide_lo, wide_hi, deep);
        self.7.lemma_widen(r.7, img, lo, hi, wide_lo, wide_hi, deep);
        self.8.lemma_widen(r.8, img, lo, hi, wide_lo, wide_hi, deep);
        self.9.lemma_widen(r.9, img, lo, hi, wide_lo, wide_hi, deep);
        self.10.lemma_widen(r.10, img, lo, hi, wide_lo, wide_hi, deep);
        self.11.lemma_widen(r.11, img, lo, hi, wide_lo, wide_hi, deep);
        self.12.lemma_widen(r.12, img, lo, hi, wide_lo, wide_hi, deep);
        self.13.lemma_widen(r.13, img, lo, hi, wide_lo, wide_hi, deep);
        self.14.lemma_widen(r.14, img, lo, hi, wide_lo, wide_hi, deep);
    }

    fn mem_type_of() -> (t: MemType) {
        MemType::Primitive.max(<T1 as ToRef>::mem_type_of()).max(<T2 as ToRef>::mem_type_of()).max(<T3 as ToRef>::mem_type_of()).max(<T4 as ToRef>::mem_type_of()).max(<T5 as ToRef>::mem_type_of()).max(<T6 as ToRef>::mem_type_of()).max(<T7 as ToRef>::mem_type_of()).max(<T8 as ToRef>::mem_type_of()).max(<T9 as ToRef>::mem_type_of()).max(<T10 as ToRef>::mem_type_of()).max(<T11 as ToRef>::mem_type_of()).max(<T12 as ToRef>::mem_type_of()).max(<T13 as ToRef>::mem_type_of()).max(<T14 as ToRef>::mem_type_of()).max(<T15 as ToRef>::mem_type_of())
    }

    fn to_size(&self, acc: &mut usize) {
        self.0.to_size(acc);
        self.1.to_size(acc);
        self.2.to_size(acc);
        self.3.to_size(acc);
        self.4.to_size(acc);
        self.5.to_size(acc);
        self.6.to_size(acc);
        self.7.to_size(acc);
        self.8.to_size(acc);
        self.9.to_size(acc);
        self.10.to_size(acc);
        self.11.to_size(acc);
        self.12.to_size(acc);
        self.13.to_size(acc);
        self.14.to_size(acc);
    }

    fn checked_size(&self, acc: usize) -> (sum: Option<usize>) {
        let sum0 = acc;
        let sum1 = match self.0.checked_size(sum0) {
            Some(next) => next,
            None => {
                return None;
            },
        };
        let sum2 = match self.1.checked_size(sum1) {
            Some(next) => next,
            None => {
                return None;
            },
        };
        let sum3 = match self.2.checked_size(sum2) {
            Some(next) => next,
            None => {
                return None;
            },
        };
        let sum4 = match self.3.checked_size(sum3) {
            Some(next) => next,
            None => {
                return None;
            },
        };
        let sum5 = match self.4.checked_size(sum4) {
            Some(next) => next,
            None => {
                return None;
            },
        };
        let sum6 = match self.5.checked_size(sum5) {
            Some(next) => next,
            None => {
                return None;
            },
        };
        let sum7 = match self.6.checked_size(sum6) {
            Some(next) => next,
            None => {
                return None;
            },
        };
        let sum8 = match self.7.checked_size(sum7) {
            Some(next) => next,
            None => {
                return None;
            },
        };
        let sum9 = match self.8.checked_size(sum8) {
            Some(next) => next,
            None => {
                return None;
            },
        };
        let sum10 = match self.9.checked_size(sum9) {
            Some(next) => next,
            None => {
                return None;
            },
        };
        let sum11 = match self.10.checked_size(sum10) {
            Some(next) => next,
            None => {
                return None;
            },
        };
        let sum12 = match self.11.checked_size(sum11) {
            Some(next) => next,
            None => {
                return None;
            },
        };
        let sum13 = match self.12.checked_size(sum12) {
            Some(next) => next,
            None => {
                return None;
            },
        };
        let sum14 = match self.13.checked_size(sum13) {
            Some(next) => next,
            None => {
                return None;
            },
        };
        let sum15 = match self.14.checked_size(sum14) {
            Some(next) => next,
            None => {
                return None;
            },
        };
        Some(sum15)
    }

    fn to_ref(&self, writer: &mut Writer) -> (r: (<T1 as ToRef>::Ref, <T2 as ToRef>::Ref, <T3 as ToRef>::Ref, <T4 as ToRef>::Ref, <T5 as ToRef>::Ref, <T6 as ToRef>::Ref, <T7 as ToRef>::Ref, <T8 as ToRef>::Ref, <T9 as ToRef>::Ref, <T10 as ToRef>::Ref, <T11 as ToRef>::Ref, <T12 as ToRef>::Ref, <T13 as ToRef>::Ref, <T14 as ToRef>::Ref, <T15 as ToRef>::Ref)) {
        let ghost base = writer.base() as int;
        let ghost w0 = *writer;
        proof {
            writer.lemma_bounds();
            lemma_keeps_same(writer.arena(), writer.cursor());
            lemma_max_parts(MemType::Primitive.spec_max(<T1 as ToRef>::mem_type()).spec_max(<T2 as ToRef>::mem_type()).spec_max(<T3 as ToRef>::mem_type()).spec_max(<T4 as ToRef>::mem_type()).spec_max(<T5 as ToRef>::mem_type()).spec_max(<T6 as ToRef>::mem_type()).spec_max(<T7 as ToRef>::mem_type()).spec_max(<T8 as ToRef>::mem_type()).spec_max(<T9 as ToRef>::mem_type()).spec_max(<T10 as ToRef>::mem_type()).spec_max(<T11 as ToRef>::mem_type()).spec_max(<T12 as ToRef>::mem_type()).spec_max(<T13 as ToRef>::mem_type()).spec_max(<T14 as ToRef>::mem_type()), <T15 as ToRef>::mem_type());
            lemma_max_parts(MemType::Primitive.spec_max(<T1 as ToRef>::mem_type()).spec_max(<T2 as ToRef>::mem_type()).spec_max(<T3 as ToRef>::mem_type()).spec_max(<T4 as ToRef>::mem_type()).spec_max(<T5 as ToRef>::mem_type()).spec_max(<T6 as ToRef>::mem_type()).spec_max(<T7 as ToRef>::mem_type()).spec_max(<T8 as ToRef>::mem_type()).spec_max(<T9 as ToRef>::mem_type()).spec_max(<T10 as ToRef>::mem_type()).spec_max(<T11 as ToRef>::mem_type()).spec_max(<T12 as ToRef>::mem_type()).spec_max(<T13 as ToRef>::mem_type()), <T14 as ToRef>::mem_type());
            lemma_max_parts(MemType::Primitive.spec_max(<T1 as ToRef>::mem_type()).spec_max(<T2 as ToRef>::mem_type()).spec_max(<T3 as ToRef>::mem_type()).spec_max(<T4 as ToRef>::mem_type()).spec_max(<T5 as ToRef>::mem_type()).spec_max(<T6 as ToRef>::mem_type()).spec_max(<T7 as ToRef>::mem_type()).spec_max(<T8 as ToRef>::mem_type()).spec_max(<T9 as ToRef>::mem_type()).spec_max(<T10 as ToRef>::mem_type()).spec_max(<T11 as ToRef>::mem_type()).spec_max(<T12 as ToRef>::mem_type()), <T13 as ToRef>::mem_type());
            lemma_max_parts(MemType::Primitive.spec_max(<T1 as ToRef>::mem_type()).spec_max(<T2 as ToRef>::mem_type()).spec_max(<T3 as ToRef>::mem_type()).spec_max(<T4 as ToRef>::mem_type()).spec_max(<T5 as ToRef>::mem_type()).spec_max(<T6 as ToRef>::mem_type()).spec_max(<T7 as ToRef>::mem_type()).spec_max(<T8 as ToRef>::mem_type()).spec_max(<T9 as ToRef>::mem_type()).spec_max(<T10 as ToRef>::mem_type()).spec_max(<T11 as ToRef>::mem_type()), <T12 as ToRef>::mem_type());
            lemma_max_parts(MemType::Primitive.spec_max(<T1 as ToRef>::mem_type()).spec_max(<T2 as ToRef>::mem_type()).spec_max(<T3 as ToRef>::mem_type()).spec_max(<T4 as ToRef>::mem_type()).spec_max(<T5 as ToRef>::mem_type()).spec_max(<T6 as ToRef>::mem_type()).spec_max(<T7 as ToRef>::mem_type()).spec_max(<T8 as ToRef>::mem_type()).spec_max(<T9 as ToRef>::mem_type()).spec_max(<T10 as ToRef>::mem_type()), <T11 as ToRef>::mem_type());
            lemma_max_parts(MemType::Primitive.spec_max(<T1 as ToRef>::mem_type()).spec_max(<T2 as ToRef>::mem_type()).spec_max(<T3 as ToRef>::mem_type()).spec_max(<T4 as ToRef>::mem_type()).spec_max(<T5 as ToRef>::mem_type()).spec_max(<T6 as ToRef>::mem_type()).spec_max(<T7 as ToRef>::mem_type()).spec_max(<T8 as ToRef>::mem_type()).spec_max(<T9 as ToRef>::mem_type()), <T10 as ToRef>::mem_type());
            lemma_max_parts(MemType::Primitive.spec_max(<T1 as ToRef>::mem_type()).spec_max(<T2 as ToRef>::mem_type()).spec_max(<T3 as ToRef>::mem_type()).spec_max(<T4 as ToRef>::mem_type()).spec_max(<T5 as ToRef>::mem_type()).spec_max(<T6 as ToRef>::mem_type()).spec_max(<T7 as ToRef>::mem_type()).spec_max(<T8 as ToRef>::mem_type()), <T9 as ToRef>::mem_type());
            lemma_max_parts(MemType::Primitive.spec_max(<T1 as ToRef>::mem_type()).spec_max(<T2 as ToRef>::mem_type()).spec_max(<T3 as ToRef>::mem_type()).spec_max(<T4 as ToRef>::mem_type()).spec_max(<T5 as ToRef>::mem_type()).spec_max(<T6 as ToRef>::mem_type()).spec_max(<T7 as ToRef>::mem_type()), <T8 as ToRef>::mem_type());
            lemma_max_parts(MemType::Primitive.spec_max(<T1 as ToRef>::mem_type()).spec_max(<T2 as ToRef>::mem_type()).spec_max(<T3 as ToRef>::mem_type()).spec_max(<T4 as ToRef>::mem_type()).spec_max(<T5 as ToRef>::mem_type()).spec_max(<T6 as ToRef>::mem_type()), <T7 as ToRef>::mem_type());
            lemma_max_parts(MemType::Primitive.spec_max(<T1 as ToRef>::mem_type()).spec_max(<T2 as ToRef>::mem_type()).spec_max(<T3 as ToRef>::mem_type()).spec_max(<T4 as ToRef>::mem_type()).spec_max(<T5 as ToRef>::mem_type()), <T6 as ToRef>::mem_type());
            lemma_max_parts(MemType::Primitive.spec_max(<T1 as ToRef>::mem_type()).spec_max(<T2 as ToRef>::mem_type()).spec_max(<T3 as ToRef>::mem_type()).spec_max(<T4 as ToRef>::mem_type()), <T5 as ToRef>::mem_type());
            lemma_max_parts(MemType::Primitive.spec_max(<T1 as ToRef>::mem_type()).spec_max(<T2 as ToRef>::mem_type()).spec_max(<T3 as ToRef>::mem_type()), <T4 as ToRef>::mem_type());
            lemma_max_parts(MemType::Primitive.spec_max(<T1 as ToRef>::mem_type()).spec_max(<T2 as ToRef>::mem_type()), <T3 as ToRef>::mem_type());
            lemma_max_parts(MemType::Primitive.spec_max(<T1 as ToRef>::mem_type()), <T2 as ToRef>::mem_type());
            lemma_max_parts(MemType::Primitive, <T1 as ToRef>::mem_type());
        }
        let f0 = self.0.to_ref(writer);
        let ghost w1 = *writer;
        proof {
            writer.lemma_bounds();
        }
        let f1 = self.1.to_ref(writer);
        let ghost w2 = *writer;
        proof {
            writer.lemma_bounds();
        }
        let f2 = self.2.to_ref(writer);
        let ghost w3 = *writer;
        proof {
            writer.lemma_bounds();
        }
        let f3 = self.3.to_ref(writer);
        let ghost w4 = *writer;
        proof {
            writer.lemma_bounds();
        }
        let f4 = self.4.to_ref(writer);
        let ghost w5 = *writer;
        proof {
            writer.lemma_bounds();
        }
        let f5 = self.5.to_ref(writer);
        let ghost w6 = *writer;
        proof {
            writer.lemma_bounds();
        }
        let f6 = self.6.to_ref(writer);
        let ghost w7 = *writer;
        proof {
            writer.lemma_bounds();
        }
        let f7 = self.7.to_ref(writer);
        let ghost w8 = *writer;
        proof {
            writer.lemma_bounds();
        }
        let f8 = self.8.to_ref(writer);
        let ghost w9 = *writer;
        proof {
            writer.lemma_bounds();
        }
        let f9 = self.9.to_ref(writer);
        let ghost w10 = *writer;
        proof {
            writer.lemma_bounds();
        }
        let f10 = self.10.to_ref(writer);
        let ghost w11 = *writer;
        proof {
            writer.lemma_bounds();
        }
        let f11 = self.11.to_ref(writer);
        let ghost w12 = *writer;
        proof {
            writer.lemma_bounds();
        }
        let f12 = self.12.to_ref(writer);
        let ghost w13 = *writer;
        proof {
            writer.lemma_bounds();
        }
        let f13 = self.13.to_ref(writer);
        let ghost w14 = *writer;
        proof {
            writer.lemma_bounds();
        }
        let f14 = self.14.to_ref(writer);
        let ghost w15 = *writer;
        proof {
            writer.lemma_bounds();
        }
        proof {
            lemma_keeps_trans(w13.arena(), w14.arena(), w15.arena(), w13.cursor(), w14.cursor());
            lemma_keeps_trans(w12.arena(), w13.arena(), w15.arena(), w12.cursor(), w13.cursor());
            lemma_keeps_trans(w11.arena(), w12.arena(), w15.arena(), w11.cursor(), w12.cursor());
            lemma_keeps_trans(w10.arena(), w11.arena(), w15.arena(), w10.cursor(), w11.cursor());
            lemma_keeps_trans(w9.arena(), w10.arena(), w15.arena(), w9.cursor(), w10.cursor());
            lemma_keeps_trans(w8.arena(), w9.arena(), w15.arena(), w8.cursor(), w9.cursor());
            lemma_keeps_trans(w7.arena(), w8.arena(), w15.arena(), w7.cursor(), w8.cursor());
            lemma_keeps_trans(w6.arena(), w7.arena(), w15.arena(), w6.cursor(), w7.cursor());
            lemma_keeps_trans(w5.arena(), w6.arena(), w15.arena(), w5.cursor(), w6.cursor());
            lemma_keeps_trans(w4.arena(), w5.arena(), w15.arena(), w4.cursor(), w5.cursor());
            lemma_keeps_trans(w3.arena(), w4.arena(), w15.arena(), w3.cursor(), w4.cursor());
            lemma_keeps_trans(w2.arena(), w3.arena(), w15.arena(), w2.cursor(), w3.cursor());
            lemma_keeps_trans(w1.arena(), w2.arena(), w15.arena(), w1.cursor(), w2.cursor());
            lemma_keeps_trans(w0.arena(), w1.arena(), w15.arena(), w0.cursor(), w1.cursor());
            lemma_view_stays(&self.0, f0, w1, w15, base + w0.cursor(), base + w1.cursor());
            lemma_view_stays(&self.1, f1, w2, w15, base + w1.cursor(), base + w2.cursor());
            lemma_view_stays(&self.2, f2, w3, w15, base + w2.cursor(), base + w3.cursor());
            lemma_view_stays(&self.3, f3, w4, w15, base + w3.cursor(), base + w4.cursor());
            lemma_view_stays(&self.4, f4, w5, w15, base + w4.cursor(), base + w5.cursor());
            lemma_view_stays(&self.5, f5, w6, w15, base + w5.cursor(), base + w6.cursor());
            lemma_view_stays(&self.6, f6, w7, w15, base + w6.cursor(), base + w7.cursor());
            lemma_view_stays(&self.7, f7, w8, w15, base + w7.cursor(), base + w8.cursor());
            lemma_view_stays(&self.8, f8, w9, w15, base + w8.cursor(), base + w9.cursor());
            lemma_view_stays(&self.9, f9, w10, w15, base + w9.cursor(), base + w10.cursor());
            lemma_view_stays(&self.10, f10, w11, w15, base + w10.cursor(), base + w11.cursor());
            lemma_view_stays(&self.11, f11, w12, w15, base + w11.cursor(), base + w12.cursor());
            lemma_view_stays(&self.12, f12, w13, w15, base + w12.cursor(), base + w13.cursor());
            lemma_view_stays(&self.13, f13, w14, w15, base + w13.cursor(), base + w14.cursor());
            self.0.lemma_widen(f0, w15.image(), base + w0.cursor(), base + w1.cursor(), base + w0.cursor(), base + w15.cursor(), false);
            self.1.lemma_widen(f1, w15.image(), base + w1.cursor(), base + w2.cursor(), base + w0.cursor(), base + w15.cursor(), false);
            self.2.lemma_widen(f2, w15.image(), base + w2.cursor(), base + w3.cursor(), base + w0.cursor(), base + w15.cursor(), false);
            self.3.lemma_widen(f3, w15.image(), base + w3.cursor(), base + w4.cursor(), base + w0.cursor(), base + w15.cursor(), false);
            self.4.lemma_widen(f4, w15.image(), base + w4.cursor(), base + w5.cursor(), base + w0.cursor(), base + w15.cursor(), false);
            self.5.lemma_widen(f5, w15.image(), base + w5.cursor(), base + w6.cursor(), base + w0.cursor(), base + w15.cursor(), false);
            self.6.lemma_widen(f6, w15.image(), base + w6.cursor(), base + w7.cursor(), base + w0.cursor(), base + w15.cursor(), false);
            self.7.lemma_widen(f7, w15.image(), base + w7.cursor(), base + w8.cursor(), base + w0.cursor(), base + w15.cursor(), false);
            self.8.lemma_widen(f8, w15.image(), base + w8.cursor(), base + w9.cursor(), base + w0.cursor(), base + w15.cursor(), false);
            self.9.lemma_widen(f9, w15.image(), base + w9.cursor(), base + w10.cursor(), base + w0.cursor(), base + w15.cursor(), false);
            self.10.lemma_widen(f10, w15.image(), base + w10.cursor(), base + w11.cursor(), base + w0.cursor(), base + w15.cursor(), false);
            self.11.lemma_widen(f11, w15.image(), base + w11.cursor(), base + w12.cursor(), base + w0.cursor(), base + w15.cursor(), false);
            self.12.lemma_widen(f12, w15.image(), base + w12.cursor(), base + w13.cursor(), base + w0.cursor(), base + w15.cursor(), false);
            self.13.lemma_widen(f13, w15.image(), base + w13.cursor(), base + w14.cursor(), base + w0.cursor(), base + w15.cursor(), false);
            self.14.lemma_widen(f14, w15.image(), base + w14.cursor(), base + w15.cursor(), base + w0.cursor(), base + w15.cursor(), false);
        }
        (f0, f1, f2, f3, f4, f5, f6, f7, f8, f9, f10, f11, f12, f13, f14)
    }

    fn pinned<M: MemoryRead>(&self, r: &(<T1 as ToRef>::Ref, <T2 as ToRef>::Ref, <T3 as ToRef>::Ref, <T4 as ToRef>::Ref, <T5 as ToRef>::Ref, <T6 as ToRef>::Ref, <T7 as ToRef>::Ref, <T8 as ToRef>::Ref, <T9 as ToRef>::Ref, <T10 as ToRef>::Ref, <T11 as ToRef>::Ref, <T12 as ToRef>::Ref, <T13 as ToRef>::Ref, <T14 as ToRef>::Ref, <T15 as ToRef>::Ref), mem: &M, out: &mut Vec<Segment>) {
        self.0.pinned(&r.0, mem, out);
        self.1.pinned(&r.1, mem, out);
        self.2.pinned(&r.2, mem, out);
        self.3.pinned(&r.3, mem, out);
        self.4.pinned(&r.4, mem, out);
        self.5.pinned(&r.5, mem, out);
        self.6.pinned(&r.6, mem, out);
        self.7.pinned(&r.7, mem, out);
        self.8.pinned(&r.8, mem, out);
        self.9.pinned(&r.9, mem, out);
        self.10.pinned(&r.10, mem, out);
        self.11.pinned(&r.11, mem, out);
        self.12.pinned(&r.12, mem, out);
        self.13.pinned(&r.13, mem, out);
        self.14.pinned(&r.14, mem, out);
        assert(pieces_of(out@) =~= pieces_of(old(out)@) + self.pins(*r, mem.image()));
    }
}

impl<T1: ToRef, T2: ToRef, T3: ToRef, T4: ToRef, T5: ToRef, T6: ToRef, T7: ToRef, T8: ToRef, T9: ToRef, T10: ToRef, T11: ToRef, T12: ToRef, T13: ToRef, T14: ToRef, T15: ToRef, T16: ToRef> ToRef for (T1, T2, T3, T4, T5, T6, T7, T8, T9, T10, T11, T12, T13, T14, T15, T16) {
    type Ref = (<T1 as ToRef>::Ref, <T2 as ToRef>::Ref, <T3 as ToRef>::Ref, <T4 as ToRef>::Ref, <T5 as ToRef>::Ref, <T6 as ToRef>::Ref, <T7 as ToRef>::Ref, <T8 as ToRef>::Ref, <T9 as ToRef>::Ref, <T10 as ToRef>::Ref, <T11 as ToRef>::Ref, <T12 as ToRef>::Ref, <T13 as ToRef>::Ref, <T14 as ToRef>::Ref, <T15 as ToRef>::Ref, <T16 as ToRef>::Ref);

    open spec fn mem_type() -> MemType {
        MemType::Primitive.spec_max(<T1 as ToRef>::mem_type()).spec_max(<T2 as ToRef>::mem_type()).spec_max(<T3 as ToRef>::mem_type()).spec_max(<T4 as ToRef>::mem_type()).spec_max(<T5 as ToRef>::mem_type()).spec_max(<T6 as ToRef>::mem_type()).spec_max(<T7 as ToRef>::mem_type()).spec_max(<T8 as ToRef>::mem_type()).spec_max(<T9 as ToRef>::mem_type()).spec_max(<T10 as ToRef>::mem_type()).spec_max(<T11 as ToRef>::mem_type()).spec_max(<T12 as ToRef>::mem_type()).spec_max(<T13 as ToRef>::mem_type()).spec_max(<T14 as ToRef>::mem_type()).spec_max(<T15 as ToRef>::mem_type()).spec_max(<T16 as ToRef>::mem_type())
    }

    open spec fn size(&self) -> nat {
        self.0.size() + self.1.size() + self.2.size() + self.3.size() + self.4.size() + self.5.size() + self.6.size() + self.7.size() + self.8.size() + self.9.size() + self.10.size() + self.11.size() + self.12.size() + self.13.size() + self.14.size() + self.15.size()
    }

    open spec fn views(&self, r: (<T1 as ToRef>::Ref, <T2 as ToRef>::Ref, <T3 as ToRef>::Ref, <T4 as ToRef>::Ref, <T5 as ToRef>::Ref, <T6 as ToRef>::Ref, <T7 as ToRef>::Ref, <T8 as ToRef>::Ref, <T9 as ToRef>::Ref, <T10 as ToRef>::Ref, <T11 as ToRef>::Ref, <T12 as ToRef>::Ref, <T13 as ToRef>::Ref, <T14 as ToRef>::Ref, <T15 as ToRef>::Ref, <T16 as ToRef>::Ref), img: Image, lo: int, hi: int, deep: bool) -> bool {
        &&& self.0.views(r.0, img, lo, hi, deep)
        &&& self.1.views(r.1, img, lo, hi, deep)
        &&& self.2.views(r.2, img, lo, hi, deep)
        &&& self.3.views(r.3, img, lo, hi, deep)
        &&& self.4.views(r.4, img, lo, hi, deep)
        &&& self.5.views(r.5, img, lo, hi, deep)
        &&& self.6.views(r.6, img, lo, hi, deep)
        &&& self.7.views(r.7, img, lo, hi, deep)
        &&& self.8.views(r.8, img, lo, hi, deep)
        &&& self.9.views(r.9, img, lo, hi, deep)
        &&& self.10.views(r.10, img, lo, hi, deep)
        &&& self.11.views(r.11, img, lo, hi, deep)
        &&& self.12.views(r.12, img, lo, hi, deep)
        &&& self.13.views(r.13, img, lo, hi, deep)
        &&& self.14.views(r.14, img, lo, hi, deep)
        &&& self.15.views(r.15, img, lo, hi, deep)
    }

    open spec fn flat(&self) -> (<T1 as ToRef>::Ref, <T2 as ToRef>::Ref, <T3 as ToRef>::Ref, <T4 as ToRef>::Ref, <T5 as ToRef>::Ref, <T6 as ToRef>::Ref, <T7 as ToRef>::Ref, <T8 as ToRef>::Ref, <T9 as ToRef>::Ref, <T10 as ToRef>::Ref, <T11 as ToRef>::Ref, <T12 as ToRef>::Ref, <T13 as ToRef>::Ref, <T14 as ToRef>::Ref, <T15 as ToRef>::Ref, <T16 as ToRef>::Ref) {
        (self.0.flat(), self.1.flat(), self.2.flat(), self.3.flat(), self.4.flat(), self.5.flat(), self.6.flat(), self.7.flat(), self.8.flat(), self.9.flat(), self.10.flat(), self.11.flat(), self.12.flat(), self.13.flat(), self.14.flat(), self.15.flat())
    }

    open spec fn pins(&self, r: (<T1 as ToRef>::Ref, <T2 as ToRef>::Ref, <T3 as ToRef>::Ref, <T4 as ToRef>::Ref, <T5 as ToRef>::Ref, <T6 as ToRef>::Ref, <T7 as ToRef>::Ref, <T8 as ToRef>::Ref, <T9 as ToRef>::Ref, <T10 as ToRef>::Ref, <T11 as ToRef>::Ref, <T12 as ToRef>::Ref, <T13 as ToRef>::Ref, <T14 as ToRef>::Ref, <T15 as ToRef>::Ref, <T16 as ToRef>::Ref), img: Image) -> Seq<Piece> {
        self.0.pins(r.0, img) + self.1.pins(r.1, img) + self.2.pins(r.2, img) + self.3.pins(r.3, img) + self.4.pins(r.4, img) + self.5.pins(r.5, img) + self.6.pins(r.6, img) + self.7.pins(r.7, img) + self.8.pins(r.8, img) + self.9.pins(r.9, img) + self.10.pins(r.10, img) + self.11.pins(r.11, img) + self.12.pins(r.12, img) + self.13.pins(r.13, img) + self.14.pins(r.14, img) + self.15.pins(r.15, img)
    }

    proof fn lemma_flat(&self) {
        lemma_max_parts(MemType::Primitive.spec_max(<T1 as ToRef>::mem_type()).spec_max(<T2 as ToRef>::mem_type()).spec_max(<T3 as ToRef>::mem_type()).spec_max(<T4 as ToRef>::mem_type()).spec_max(<T5 as ToRef>::mem_type()).spec_max(<T6 as ToRef>::mem_type()).spec_max(<T7 as ToRef>::mem_type()).spec_max(<T8 as ToRef>::mem_type()).spec_max(<T9 as ToRef>::mem_type()).spec_max(<T10 as ToRef>::mem_type()).spec_max(<T11 as ToRef>::mem_type()).spec_max(<T12 as ToRef>::mem_type()).spec_max(<T13 as ToRef>::mem_type()).spec_max(<T14 as ToRef>::mem_type()).spec_max(<T15 as ToRef>::mem_type()), <T16 as ToRef>::mem_type());
        lemma_max_parts(MemType::Primitive.spec_max(<T1 as ToRef>::mem_type()).spec_max(<T2 as ToRef>::mem_type()).spec_max(<T3 as ToRef>::mem_type()).spec_max(<T4 as ToRef>::mem_type()).spec_max(<T5 as ToRef>::mem_type()).spec_max(<T6 as ToRef>::mem_type()).spec_max(<T7 as ToRef>::mem_type()).spec_max(<T8 as ToRef>::mem_type()).spec_max(<T9 as ToRef>::mem_type()).spec_max(<T10 as ToRef>::mem_type()).spec_max(<T11 as ToRef>::mem_type()).spec_max(<T12 as ToRef>::mem_type()).spec_max(<T13 as ToRef>::mem_type()).spec_max(<T14 as ToRef>::mem_type()), <T15 as ToRef>::mem_type());
        lemma_max_parts(MemType::Primitive.spec_max(<T1 as ToRef>::mem_type()).spec_max(<T2 as ToRef>::mem_type()).spec_max(<T3 as ToRef>::mem_type()).spec_max(<T4 as ToRef>::mem_type()).spec_max(<T5 as ToRef>::mem_type()).spec_max(<T6 as ToRef>::mem_type()).spec_max(<T7 as ToRef>::mem_type()).spec_max(<T8 as ToRef>::mem_type()).spec_max(<T9 as ToRef>::mem_type()).spec_max(<T10 as ToRef>::mem_type()).spec_max(<T11 as ToRef>::mem_type()).spec_max(<T12 as ToRef>::mem_type()).spec_max(<T13 as ToRef>::mem_type()), <T14 as ToRef>::mem_type());
        lemma_max_parts(MemType::Primitive.spec_max(<T1 as ToRef>::mem_type()).spec_max(<T2 as ToRef>::mem_type()).spec_max(<T3 as ToRef>::mem_type()).spec_max(<T4 as ToRef>::mem_type()).spec_max(<T5 as ToRef>::mem_type()).spec_max(<T6 as ToRef>::mem_type()).spec_max(<T7 as ToRef>::mem_type()).spec_max(<T8 as ToRef>::mem_type()).spec_max(<T9 as ToRef>::mem_type()).spec_max(<T10 as ToRef>::mem_type()).spec_max(<T11 as ToRef>::mem_type()).spec_max(<T12 as ToRef>::mem_type()), <T13 as ToRef>::mem_type());
        lemma_max_parts(MemType::Primitive.spec_max(<T1 as ToRef>::mem_type()).spec_max(<T2 as ToRef>::mem_type()).spec_max(<T3 as ToRef>::mem_type()).spec_max(<T4 as ToRef>::mem_type()).spec_max(<T5 as ToRef>::mem_type()).spec_max(<T6 as ToRef>::mem_type()).spec_max(<T7 as ToRef>::mem_type()).spec_max(<T8 as ToRef>::mem_type()).spec_max(<T9 as ToRef>::mem_type()).spec_max(<T10 as ToRef>::mem_type()).spec_max(<T11 as ToRef>::mem_type()), <T12 as ToRef>::mem_type());
        lemma_max_parts(MemType::Primitive.spec_max(<T1 as ToRef>::mem_type()).spec_max(<T2 as ToRef>::mem_type()).spec_max(<T3 as ToRef>::mem_type()).spec_max(<T4 as ToRef>::mem_type()).spec_max(<T5 as ToRef>::mem_type()).spec_max(<T6 as ToRef>::mem_type()).spec_max(<T7 as ToRef>::mem_type()).spec_max(<T8 as ToRef>::mem_type()).spec_max(<T9 as ToRef>::mem_type()).spec_max(<T10 as ToRef>::mem_type()), <T11 as ToRef>::mem_type());
        lemma_max_parts(MemType::Primitive.spec_max(<T1 as ToRef>::mem_type()).spec_max(<T2 as ToRef>::mem_type()).spec_max(<T3 as ToRef>::mem_type()).spec_max(<T4 as ToRef>::mem_type()).spec_max(<T5 as ToRef>::mem_type()).spec_max(<T6 as ToRef>::mem_type()).spec_max(<T7 as ToRef>::mem_type()).spec_max(<T8 as ToRef>::mem_type()).spec_max(<T9 as ToRef>::mem_type()), <T10 as ToRef>::mem_type());
        lemma_max_parts(MemType::Primitive.spec_max(<T1 as ToRef>::mem_type()).spec_max(<T2 as ToRef>::mem_type()).spec_max(<T3 as ToRef>::mem_type()).spec_max(<T4 as ToRef>::mem_type()).spec_max(<T5 as ToRef>::mem_type()).spec_max(<T6 as ToRef>::mem_type()).spec_max(<T7 as ToRef>::mem_type()).spec_max(<T8 as ToRef>::mem_type()), <T9 as ToRef>::mem_type());
        lemma_max_parts(MemType::Primitive.spec_max(<T1 as ToRef>::mem_type()).spec_max(<T2 as ToRef>::mem_type()).spec_max(<T3 as ToRef>::mem_type()).spec_max(<T4 as ToRef>::mem_type()).spec_max(<T5 as ToRef>::mem_type()).spec_max(<T6 as ToRef>::mem_type()).spec_max(<T7 as ToRef>::mem_type()), <T8 as ToRef>::mem_type());
        lemma_max_parts(MemType::Primitive.spec_max(<T1 as ToRef>::mem_type()).spec_max(<T2 as ToRef>::mem_type()).spec_max(<T3 as ToRef>::mem_type()).spec_max(<T4 as ToRef>::mem_type()).spec_max(<T5 as ToRef>::mem_type()).spec_max(<T6 as ToRef>::mem_type()), <T7 as ToRef>::mem_type());
        lemma_max_parts(MemType::Primitive.spec_max(<T1 as ToRef>::mem_type()).spec_max(<T2 as ToRef>::mem_type()).spec_max(<T3 as ToRef>::mem_type()).spec_max(<T4 as ToRef>::mem_type()).spec_max(<T5 as ToRef>::mem_type()), <T6 as ToRef>::mem_type());
        lemma_max_parts(MemType::Primitive.spec_max(<T1 as ToRef>::mem_type()).spec_max(<T2 as ToRef>::mem_type()).spec_max(<T3 as ToRef>::mem_type()).spec_max(<T4 as ToRef>::mem_type()), <T5 as ToRef>::mem_type());
        lemma_max_parts(MemType::Primitive.spec_max(<T1 as ToRef>::mem_type()).spec_max(<T2 as ToRef>::mem_type()).spec_max(<T3 as ToRef>::mem_type()), <T4 as ToRef>::mem_type());
        lemma_max_parts(MemType::Primitive.spec_max(<T1 as ToRef>::mem_type()).spec_max(<T2 as ToRef>::mem_type()), <T3 as ToRef>::mem_type());
        lemma_max_parts(MemType::Primitive.spec_max(<T1 as ToRef>::mem_type()), <T2 as ToRef>::mem_type());
        lemma_max_parts(MemType::Primitive, <T1 as ToRef>::mem_type());
        self.0.lemma_flat();
        self.1.lemma_flat();
        self.2.lemma_flat();
        self.3.lemma_flat();
        self.4.lemma_flat();
        self.5.lemma_flat();
        self.6.lemma_flat();
        self.7.lemma_flat();
        self.8.lemma_flat();
        self.9.lemma_flat();
        self.10.lemma_flat();
        self.11.lemma_flat();
        self.12.lemma_flat();
        self.13.lemma_flat();
        self.14.lemma_flat();
        self.15.lemma_flat();
    }

    proof fn lemma_primitive(&self, r: (<T1 as ToRef>::Ref, <T2 as ToRef>::Ref, <T3 as ToRef>::Ref, <T4 as ToRef>::Ref, <T5 as ToRef>::Ref, <T6 as ToRef>::Ref, <T7 as ToRef>::Ref, <T8 as ToRef>::Ref, <T9 as ToRef>::Ref, <T10 as ToRef>::Ref, <T11 as ToRef>::Ref, <T12 as ToRef>::Ref, <T13 as ToRef>::Ref, <T14 as ToRef>::Ref, <T15 as ToRef>::Ref, <T16 as ToRef>::Ref), img: Image, lo: int, hi: int, deep: bool) {
        lemma_max_parts(MemType::Primitive.spec_max(<T1 as ToRef>::mem_type()).spec_max(<T2 as ToRef>::mem_type()).spec_max(<T3 as ToRef>::mem_type()).spec_max(<T4 as ToRef>::mem_type()).spec_max(<T5 as ToRef>::mem_type()).spec_max(<T6 as ToRef>::mem_type()).spec_max(<T7 as ToRef>::mem_type()).spec_max(<T8 as ToRef>::mem_type()).spec_max(<T9 as ToRef>::mem_type()).spec_max(<T10 as ToRef>::mem_type()).spec_max(<T11 as ToRef>::mem_type()).spec_max(<T12 as ToRef>::mem_type()).spec_max(<T13 as ToRef>::mem_type()).spec_max(<T14 as ToRef>::mem_type()).spec_max(<T15 as ToRef>::mem_type()), <T16 as ToRef>::mem_type());
        lemma_max_parts(MemType::Primitive.spec_max(<T1 as ToRef>::mem_type()).spec_max(<T2 as ToRef>::mem_type()).spec_max(<T3 as ToRef>::mem_type()).spec_max(<T4 as ToRef>::mem_type()).spec_max(<T5 as ToRef>::mem_type()).spec_max(<T6 as ToRef>::mem_type()).spec_max(<T7 as ToRef>::mem_type()).spec_max(<T8 as ToRef>::mem_type()).spec_max(<T9 as ToRef>::mem_type()).spec_max(<T10 as ToRef>::mem_type()).spec_max(<T11 as ToRef>::mem_type()).spec_max(<T12 as ToRef>::mem_type()).spec_max(<T13 as ToRef>::mem_type()).spec_max(<T14 as ToRef>::mem_type()), <T15 as ToRef>::mem_type());
        lemma_max_parts(MemType::Primitive.spec_max(<T1 as ToRef>::mem_type()).spec_max(<T2 as ToRef>::mem_type()).spec_max(<T3 as ToRef>::mem_type()).spec_max(<T4 as ToRef>::mem_type()).spec_max(<T5 as ToRef>::mem_type()).spec_max(<T6 as ToRef>::mem_type()).spec_max(<T7 as ToRef>::mem_type()).spec_max(<T8 as ToRef>::mem_type()).spec_max(<T9 as ToRef>::mem_type()).spec_max(<T10 as ToRef>::mem_type()).spec_max(<T11 as ToRef>::mem_type()).spec_max(<T12 as ToRef>::mem_type()).spec_max(<T13 as ToRef>::mem_type()), <T14 as ToRef>::mem_type());
        lemma_max_parts(MemType::Primitive.spec_max(<T1 as ToRef>::mem_type()).spec_max(<T2 as ToRef>::mem_type()).spec_max(<T3 as ToRef>::mem_type()).spec_max(<T4 as ToRef>::mem_type()).spec_max(<T5 as ToRef>::mem_type()).spec_max(<T6 as ToRef>::mem_type()).spec_max(<T7 as ToRef>::mem_type()).spec_max(<T8 as ToRef>::mem_type()).spec_max(<T9 as ToRef>::mem_type()).spec_max(<T10 as ToRef>::mem_type()).spec_max(<T11 as ToRef>::mem_type()).spec_max(<T12 as ToRef>::mem_type()), <T13 as ToRef>::mem_type());
        lemma_max_parts(MemType::Primitive.spec_max(<T1 as ToRef>::mem_type()).spec_max(<T2 as ToRef>::mem_type()).spec_max(<T3 as ToRef>::mem_type()).spec_max(<T4 as ToRef>::mem_type()).spec_max(<T5 as ToRef>::mem_type()).spec_max(<T6 as ToRef>::mem_type()).spec_max(<T7 as ToRef>::mem_type()).spec_max(<T8 as ToRef>::mem_type()).spec_max(<T9 as ToRef>::mem_type()).spec_max(<T10 as ToRef>::mem_type()).spec_max(<T11 as ToRef>::mem_type()), <T12 as ToRef>::mem_type());
        lemma_max_parts(MemType::Primitive.spec_max(<T1 as ToRef>::mem_type()).spec_max(<T2 as ToRef>::mem_type()).spec_max(<T3 as ToRef>::mem_type()).spec_max(<T4 as ToRef>::mem_type()).spec_max(<T5 as ToRef>::mem_type()).spec_max(<T6 as ToRef>::mem_type()).spec_max(<T7 as ToRef>::mem_type()).spec_max(<T8 as ToRef>::mem_type()).spec_max(<T9 as ToRef>::mem_type()).spec_max(<T10 as ToRef>::mem_type()), <T11 as ToRef>::mem_type());
        lemma_max_parts(MemType::Primitive.spec_max(<T1 as ToRef>::mem_type()).spec_max(<T2 as ToRef>::mem_type()).spec_max(<T3 as ToRef>::mem_type()).spec_max(<T4 as ToRef>::mem_type()).spec_max(<T5 as ToRef>::mem_type()).spec_max(<T6 as ToRef>::mem_type()).spec_max(<T7 as ToRef>::mem_type()).spec_max(<T8 as ToRef>::mem_type()).spec_max(<T9 as ToRef>::mem_type()), <T10 as ToRef>::mem_type());
        lemma_max_parts(MemType::Primitive.spec_max(<T1 as ToRef>::mem_type()).spec_max(<T2 as ToRef>::mem_type()).spec_max(<T3 as ToRef>::mem_type()).spec_max(<T4 as ToRef>::mem_type()).spec_max(<T5 as ToRef>::mem_type()).spec_max(<T6 as ToRef>::mem_type()).spec_max(<T7 as ToRef>::mem_type()).spec_max(<T8 as ToRef>::mem_type()), <T9 as ToRef>::mem_type());
        lemma_max_parts(MemType::Primitive.spec_max(<T1 as ToRef>::mem_type()).spec_max(<T2 as ToRef>::mem_type()).spec_max(<T3 as ToRef>::mem_type()).spec_max(<T4 as ToRef>::mem_type()).spec_max(<T5 as ToRef>::mem_type()).spec_max(<T6 as ToRef>::mem_type()).spec_max(<T7 as ToRef>::mem_type()), <T8 as ToRef>::mem_type());
        lemma_max_parts(MemType::Primitive.spec_max(<T1 as ToRef>::mem_type()).spec_max(<T2 as ToRef>::mem_type()).spec_max(<T3 as ToRef>::mem_type()).spec_max(<T4 as ToRef>::mem_type()).spec_max(<T5 as ToRef>::mem_type()).spec_max(<T6 as ToRef>::mem_type()), <T7 as ToRef>::mem_type());
        lemma_max_parts(MemType::Primitive.spec_max(<T1 as ToRef>::mem_type()).spec_max(<T2 as ToRef>::mem_type()).spec_max(<T3 as ToRef>::mem_type()).spec_max(<T4 as ToRef>::mem_type()).spec_max(<T5 as ToRef>::mem_type()), <T6 as ToRef>::mem_type());
        lemma_max_parts(MemType::Primitive.spec_max(<T1 as ToRef>::mem_type()).spec_max(<T2 as ToRef>::mem_type()).spec_max(<T3 as ToRef>::mem_type()).spec_max(<T4 as ToRef>::mem_type()), <T5 as ToRef>::mem_type());
        lemma_max_parts(MemType::Primitive.spec_max(<T1 as ToRef>::mem_type()).spec_max(<T2 as ToRef>::mem_type()).spec_max(<T3 as ToRef>::mem_type()), <T4 as ToRef>::mem_type());
        lemma_max_parts(MemType::Primitive.spec_max(<T1 as ToRef>::mem_type()).spec_max(<T2 as ToRef>::mem_type()), <T3 as ToRef>::mem_type());
        lemma_max_parts(MemType::Primitive.spec_max(<T1 as ToRef>::mem_type()), <T2 as ToRef>::mem_type());
        lemma_max_parts(MemType::Primitive, <T1 as ToRef>::mem_type());
        self.0.lemma_primitive(r.0, img, lo, hi, deep);
        self.1.lemma_primitive(r.1, img, lo, hi, deep);
        self.2.lemma_primitive(r.2, img, lo, hi, deep);
        self.3.lemma_primitive(r.3, img, lo, hi, deep);
        self.4.lemma_primitive(r.4, img, lo, hi, deep);
        self.5.lemma_primitive(r.5, img, lo, hi, deep);
        self.6.lemma_primitive(r.6, img, lo, hi, deep);
        self.7.lemma_primitive(r.7, img, lo, hi, deep);
        self.8.lemma_primitive(r.8, img, lo, hi, deep);
        self.9.lemma_primitive(r.9, img, lo, hi, deep);
        self.10.lemma_primitive(r.10, img, lo, hi, deep);
        self.11.lemma_primitive(r.11, img, lo, hi, deep);
        self.12.lemma_primitive(r.12, img, lo, hi, deep);
        self.13.lemma_primitive(r.13, img, lo, hi, deep);
        self.14.lemma_primitive(r.14, img, lo, hi, deep);
        self.15.lemma_primitive(r.15, img, lo, hi, deep);
        if Self::mem_type() == MemType::Primitive {
            assert(self.pins(r, img) =~= Seq::<Piece>::empty());
        }
    }

    proof fn lemma_deepen(&self, r: (<T1 as ToRef>::Ref, <T2 as ToRef>::Ref, <T3 as ToRef>::Ref, <T4 as ToRef>::Ref, <T5 as ToRef>::Ref, <T6 as ToRef>::Ref, <T7 as ToRef>::Ref, <T8 as ToRef>::Ref, <T9 as ToRef>::Ref, <T10 as ToRef>::Ref, <T11 as ToRef>::Ref, <T12 as ToRef>::Ref, <T13 as ToRef>::Ref, <T14 as ToRef>::Ref, <T15 as ToRef>::Ref, <T16 as ToRef>::Ref), img: Image, other: Image, lo: int, hi: int) {
        lemma_holds_all_concat(other, self.0.pins(r.0, img) + self.1.pins(r.1, img) + self.2.pins(r.2, img) + self.3.pins(r.3, img) + self.4.pins(r.4, img) + self.5.pins(r.5, img) + self.6.pins(r.6, img) + self.7.pins(r.7, img) + self.8.pins(r.8, img) + self.9.pins(r.9, img) + self.10.pins(r.10, img) + self.11.pins(r.11, img) + self.12.pins(r.12, img) + self.13.pins(r.13, img) + self.14.pins(r.14, img), self.15.pins(r.15, img));
        lemma_holds_all_concat(other, self.0.pins(r.0, img) + self.1.pins(r.1, img) + self.2.pins(r.2, img) + self.3.pins(r.3, img) + self.4.pins(r.4, img) + self.5.pins(r.5, img) + self.6.pins(r.6, img) + self.7.pins(r.7, img) + self.8.pins(r.8, img) + self.9.pins(r.9, img) + self.10.pins(r.10, img) + self.11.pins(r.11, img) + self.12.pins(r.12, img) + self.13.pins(r.13, img), self.14.pins(r.14, img));
        lemma_holds_all_concat(other, self.0.pins(r.0, img) + self.1.pins(r.1, img) + self.2.pins(r.2, img) + self.3.pins(r.3, img) + self.4.pins(r.4, img) + self.5.pins(r.5, img) + self.6.pins(r.6, img) + self.7.pins(r.7, img) + self.8.pins(r.8, img) + self.9.pins(r.9, img) + self.10.pins(r.10, img) + self.11.pins(r.11, img) + self.12.pins(r.12, img), self.13.pins(r.13, img));
        lemma_holds_all_concat(other, self.0.pins(r.0, img) + self.1.pins(r.1, img) + self.2.pins(r.2, img) + self.3.pins(r.3, img) + self.4.pins(r.4, img) + self.5.pins(r.5, img) + self.6.pins(r.6, img) + self.7.pins(r.7, img) + self.8.pins(r.8, img) + self.9.pins(r.9, img) + self.10.pins(r.10, img) + self.11.pins(r.11, img), self.12.pins(r.12, img));
        lemma_holds_all_concat(other, self.0.pins(r.0, img) + self.1.pins(r.1, img) + self.2.pins(r.2, img) + self.3.pins(r.3, img) + self.4.pins(r.4, img) + self.5.pins(r.5, img) + self.6.pins(r.6, img) + self.7.pins(r.7, img) + self.8.pins(r.8, img) + self.9.pins(r.9, img) + self.10.pins(r.10, img), self.11.pins(r.11, img));
        lemma_holds_all_concat(other, self.0.pins(r.0, img) + self.1.pins(r.1, img) + self.2.pins(r.2, img) + self.3.pins(r.3, img) + self.4.pins(r.4, img) + self.5.pins(r.5, img) + self.6.pins(r.6, img) + self.7.pins(r.7, img) + self.8.pins(r.8, img) + self.9.pins(r.9, img), self.10.pins(r.10, img));
        lemma_holds_all_concat(other, self.0.pins(r.0, img) + self.1.pins(r.1, img) + self.2.pins(r.2, img) + self.3.pins(r.3, img) + self.4.pins(r.4, img) + self.5.pins(r.5, img) + self.6.pins(r.6, img) + self.7.pins(r.7, img) + self.8.pins(r.8, img), self.9.pins(r.9, img));
        lemma_holds_all_concat(other, self.0.pins(r.0, img) + self.1.pins(r.1, img) + self.2.pins(r.2, img) + self.3.pins(r.3, img) + self.4.pins(r.4, img) + self.5.pins(r.5, img) + self.6.pins(r.6, img) + self.7.pins(r.7, img), self.8.pins(r.8, img));
        lemma_holds_all_concat(other, self.0.pins(r.0, img) + self.1.pins(r.1, img) + self.2.pins(r.2, img) + self.3.pins(r.3, img) + self.4.pins(r.4, img) + self.5.pins(r.5, img) + self.6.pins(r.6, img), self.7.pins(r.7, img));
        lemma_holds_all_concat(other, self.0.pins(r.0, img) + self.1.pins(r.1, img) + self.2.pins(r.2, img) + self.3.pins(r.3, img) + self.4.pins(r.4, img) + self.5.pins(r.5, img), self.6.pins(r.6, img));
        lemma_holds_all_concat(other, self.0.pins(r.0, img) + self.1.pins(r.1, img) + self.2.pins(r.2, img) + self.3.pins(r.3, img) + self.4.pins(r.4, img), self.5.pins(r.5, img));
        lemma_holds_all_concat(other, self.0.pins(r.0, img) + self.1.pins(r.1, img) + self.2.pins(r.2, img) + self.3.pins(r.3, img), self.4.pins(r.4, img));
        lemma_holds_all_concat(other, self.0.pins(r.0, img) + self.1.pins(r.1, img) + self.2.pins(r.2, img), self.3.pins(r.3, img));
        lemma_holds_all_concat(other, self.0.pins(r.0, img) + self.1.pins(r.1, img), self.2.pins(r.2, img));
        lemma_holds_all_concat(other, self.0.pins(r.0, img), self.1.pins(r.1, img));
        self.0.lemma_deepen(r.0, img, other, lo, hi);
        self.1.lemma_deepen(r.1, img, other, lo, hi);
        self.2.lemma_deepen(r.2, img, other, lo, hi);
        self.3.lemma_deepen(r.3, img, other, lo, hi);
        self.4.lemma_deepen(r.4, img, other, lo, hi);
        self.5.lemma_deepen(r.5, img, other, lo, hi);
        self.6.lemma_deepen(r.6, img, other, lo, hi);
        self.7.lemma_deepen(r.7, img, other, lo, hi);
        self.8.lemma_deepen(r.8, img, other, lo, hi);
        self.9.lemma_deepen(r.9, img, other, lo, hi);
        self.10.lemma_deepen(r.10, img, other, lo, hi);
        self.11.lemma_deepen(r.11, img, other, lo, hi);
        self.12.lemma_deepen(r.12, img, other, lo, hi);
        self.13.lemma_deepen(r.13, img, other, lo, hi);
        self.14.lemma_deepen(r.14, img, other, lo, hi);
        self.15.lemma_deepen(r.15, img, other, lo, hi);
    }

    proof fn lemma_frame(&self, r: (<T1 as ToRef>::Ref, <T2 as ToRef>::Ref, <T3 as ToRef>::Ref, <T4 as ToRef>::Ref, <T5 as ToRef>::Ref, <T6 as ToRef>::Ref, <T7 as ToRef>::Ref, <T8 as ToRef>::Ref, <T9 as ToRef>::Ref, <T10 as ToRef>::Ref, <T11 as ToRef>::Ref, <T12 as ToRef>::Ref, <T13 as ToRef>::Ref, <T14 as ToRef>::Ref, <T15 as ToRef>::Ref, <T16 as ToRef>::Ref), img: Image, other: Image, lo: int, hi: int, deep: bool) {
        self.0.lemma_frame(r.0, img, other, lo, hi, deep);
        self.1.lemma_frame(r.1, img, other, lo, hi, deep);
        self.2.lemma_frame(r.2, img, other, lo, hi, deep);
        self.3.lemma_frame(r.3, img, other, lo, hi, deep);
        self.4.lemma_frame(r.4, img, other, lo, hi, deep);
        self.5.lemma_frame(r.5, img, other, lo, hi, deep);
        self.6.lemma_frame(r.6, img, other, lo, hi, deep);
        self.7.lemma_frame(r.7, img, other, lo, hi, deep);
        self.8.lemma_frame(r.8, img, other, lo, hi, deep);
        self.9.lemma_frame(r.9, img, other, lo, hi, deep);
        self.10.lemma_frame(r.10, img, other, lo, hi, deep);
        self.11.lemma_frame(r.11, img, other, lo, hi, deep);
        self.12.lemma_frame(r.12, img, other, lo, hi, deep);
        self.13.lemma_frame(r.13, img, other, lo, hi, deep);
        self.14.lemma_frame(r.14, img, other, lo, hi, deep);
        self.15.lemma_frame(r.15, img, other, lo, hi, deep);
    }

    proof fn lemma_widen(
        &self,
        r: (<T1 as ToRef>::Ref, <T2 as ToRef>::Ref, <T3 as ToRef>::Ref, <T4 as ToRef>::Ref, <T5 as ToRef>::Ref, <T6 as ToRef>::Ref, <T7 as ToRef>::Ref, <T8 as ToRef>::Ref, <T9 as ToRef>::Ref, <T10 as ToRef>::Ref, <T11 as ToRef>::Ref, <T12 as ToRef>::Ref, <T13 as ToRef>::Ref, <T14 as ToRef>::Ref, <T15 as ToRef>::Ref, <T16 as ToRef>::Ref),
        img: Image,
        lo: int,
        hi: int,
        wide_lo: int,
        wide_hi: int,
        deep: bool,
    ) {
        self.0.lemma_widen(r.0, img, lo, hi, wide_lo, wide_hi, deep);
        self.1.lemma_widen(r.1, img, lo, hi, wide_lo, wide_hi, deep);
        self.2.lemma_widen(r.2, img, lo, hi, wide_lo, wide_hi, deep);
        self.3.lemma_widen(r.3, img, lo, hi, wide_lo, wide_hi, deep);
        self.4.lemma_widen(r.4, img, lo, hi, wide_lo, wide_hi, deep);
        self.5.lemma_widen(r.5, img, lo, hi, wide_lo, wide_hi, deep);
        self.6.lemma_widen(r.6, img, lo, hi, wide_lo, wide_hi, deep);
        self.7.lemma_widen(r.7, img, lo, hi, wide_lo, wide_hi, deep);
        self.8.lemma_widen(r.8, img, lo, hi, wide_lo, wide_hi, deep);
        self.9.lemma_widen(r.9, img, lo, hi, wide_lo, wide_hi, deep);
        self.10.lemma_widen(r.10, img, lo, hi, wide_lo, wide_hi, deep);
        self.11.lemma_widen(r.11, img, lo, hi, wide_lo, wide_hi, deep);
        self.12.lemma_widen(r.12, img, lo, hi, wide_lo, wide_hi, deep);
        self.13.lemma_widen(r.13, img, lo, hi, wide_lo, wide_hi, deep);
        self.14.lemma_widen(r.14, img, lo, hi, wide_lo, wide_hi, deep);
        self.15.lemma_widen(r.15, img, lo, hi, wide_lo, wide_hi, deep);
    }

    fn mem_type_of() -> (t: MemType) {
        MemType::Primitive.max(<T1 as ToRef>::mem_type_of()).max(<T2 as ToRef>::mem_type_of()).max(<T3 as ToRef>::mem_type_of()).max(<T4 as ToRef>::mem_type_of()).max(<T5 as ToRef>::mem_type_of()).max(<T6 as ToRef>::mem_type_of()).max(<T7 as ToRef>::mem_type_of()).max(<T8 as ToRef>::mem_type_of()).max(<T9 as ToRef>::mem_type_of()).max(<T10 as ToRef>::mem_type_of()).max(<T11 as ToRef>::mem_type_of()).max(<T12 as ToRef>::mem_type_of()).max(<T13 as ToRef>::mem_type_of()).max(<T14 as ToRef>::mem_type_of()).max(<T15 as ToRef>::mem_type_of()).max(<T16 as ToRef>::mem_type_of())
    }

    fn to_size(&self, acc: &mut usize) {
        self.0.to_size(acc);
        self.1.to_size(acc);
        self.2.to_size(acc);
        self.3.to_size(acc);
        self.4.to_size(acc);
        self.5.to_size(acc);
        self.6.to_size(acc);
        self.7.to_size(acc);
        self.8.to_size(acc);
        self.9.to_size(acc);
        self.10.to_size(acc);
        self.11.to_size(acc);
        self.12.to_size(acc);
        self.13.to_size(acc);
        self.14.to_size(acc);
        self.15.to_size(acc);
    }

    fn checked_size(&self, acc: usize) -> (sum: Option<usize>) {
        let sum0 = acc;
        let sum1 = match self.0.checked_size(sum0) {
            Some(next) => next,
            None => {
                return None;
            },
        };
        let sum2 = match self.1.checked_size(sum1) {
            Some(next) => next,
            None => {
                return None;
            },
        };
        let sum3 = match self.2.checked_size(sum2) {
            Some(next) => next,
            None => {
                return None;
            },
        };
        let sum4 = match self.3.checked_size(sum3) {
            Some(next) => next,
            None => {
                return None;
            },
        };
        let sum5 = match self.4.checked_size(sum4) {
            Some(next) => next,
            None => {
                return None;
            },
        };
        let sum6 = match self.5.checked_size(sum5) {
            Some(next) => next,
            None => {
                return None;
            },
        };
        let sum7 = match self.6.checked_size(sum6) {
            Some(next) => next,
            None => {
                return None;
            },
        };
        let sum8 = match self.7.checked_size(sum7) {
            Some(next) => next,
            None => {
                return None;
            },
        };
        let sum9 = match self.8.checked_size(sum8) {
            Some(next) => next,
            None => {
                return None;
            },
        };
        let sum10 = match self.9.checked_size(sum9) {
            Some(next) => next,
            None => {
                return None;
            },
        };
        let sum11 = match self.10.checked_size(sum10) {
            Some(next) => next,
            None => {
                return None;
            },
        };
        let sum12 = match self.11.checked_size(sum11) {
            Some(next) => next,
            None => {
                return None;
            },
        };
        let sum13 = match self.12.checked_size(sum12) {
            Some(next) => next,
            None => {
                return None;
            },
        };
        let sum14 = match self.13.checked_size(sum13) {
            Some(next) => next,
            None => {
                return None;
            },
        };
        let sum15 = match self.14.checked_size(sum14) {
            Some(next) => next,
            None => {
                return None;
            },
        };
        let sum16 = match self.15.checked_size(sum15) {
            Some(next) => next,
            None => {
                return None;
            },
        };
        Some(sum16)
    }

    fn to_ref(&self, writer: &mut Writer) -> (r: (<T1 as ToRef>::Ref, <T2 as ToRef>::Ref, <T3 as ToRef>::Ref, <T4 as ToRef>::Ref, <T5 as ToRef>::Ref, <T6 as ToRef>::Ref, <T7 as ToRef>::Ref, <T8 as ToRef>::Ref, <T9 as ToRef>::Ref, <T10 as ToRef>::Ref, <T11 as ToRef>::Ref, <T12 as ToRef>::Ref, <T13 as ToRef>::Ref, <T14 as ToRef>::Ref, <T15 as ToRef>::Ref, <T16 as ToRef>::Ref)) {
        let ghost base = writer.base() as int;
        let ghost w0 = *writer;
        proof {
            writer.lemma_bounds();
            lemma_keeps_same(writer.arena(), writer.cursor());
            lemma_max_parts(MemType::Primitive.spec_max(<T1 as ToRef>::mem_type()).spec_max(<T2 as ToRef>::mem_type()).spec_max(<T3 as ToRef>::mem_type()).spec_max(<T4 as ToRef>::mem_type()).spec_max(<T5 as ToRef>::mem_type()).spec_max(<T6 as ToRef>::mem_type()).spec_max(<T7 as ToRef>::mem_type()).spec_max(<T8 as ToRef>::mem_type()).spec_max(<T9 as ToRef>::mem_type()).spec_max(<T10 as ToRef>::mem_type()).spec_max(<T11 as ToRef>::mem_type()).spec_max(<T12 as ToRef>::mem_type()).spec_max(<T13 as ToRef>::mem_type()).spec_max(<T14 as ToRef>::mem_type()).spec_max(<T15 as ToRef>::mem_type()), <T16 as ToRef>::mem_type());
            lemma_max_parts(MemType::Primitive.spec_max(<T1 as ToRef>::mem_type()).spec_max(<T2 as ToRef>::mem_type()).spec_max(<T3 as ToRef>::mem_type()).spec_max(<T4 as ToRef>::mem_type()).spec_max(<T5 as ToRef>::mem_type()).spec_max(<T6 as ToRef>::mem_type()).spec_max(<T7 as ToRef>::mem_type()).spec_max(<T8 as ToRef>::mem_type()).spec_max(<T9 as ToRef>::mem_type()).spec_max(<T10 as ToRef>::mem_type()).spec_max(<T11 as ToRef>::mem_type()).spec_max(<T12 as ToRef>::mem_type()).spec_max(<T13 as ToRef>::mem_type()).spec_max(<T14 as ToRef>::mem_type()), <T15 as ToRef>::mem_type());
            lemma_max_parts(MemType::Primitive.spec_max(<T1 as ToRef>::mem_type()).spec_max(<T2 as ToRef>::mem_type()).spec_max(<T3 as ToRef>::mem_type()).spec_max(<T4 as ToRef>::mem_type()).spec_max(<T5 as ToRef>::mem_type()).spec_max(<T6 as ToRef>::mem_type()).spec_max(<T7 as ToRef>::mem_type()).spec_max(<T8 as ToRef>::mem_type()).spec_max(<T9 as ToRef>::mem_type()).spec_max(<T10 as ToRef>::mem_type()).spec_max(<T11 as ToRef>::mem_type()).spec_max(<T12 as ToRef>::mem_type()).spec_max(<T13 as ToRef>::mem_type()), <T14 as ToRef>::mem_type());
            lemma_max_parts(MemType::Primitive.spec_max(<T1 as ToRef>::mem_type()).spec_max(<T2 as ToRef>::mem_type()).spec_max(<T3 as ToRef>::mem_type()).spec_max(<T4 as ToRef>::mem_type()).spec_max(<T5 as ToRef>::mem_type()).spec_max(<T6 as ToRef>::mem_type()).spec_max(<T7 as ToRef>::mem_type()).spec_max(<T8 as ToRef>::mem_type()).spec_max(<T9 as ToRef>::mem_type()).spec_max(<T10 as ToRef>::mem_type()).spec_max(<T11 as ToRef>::mem_type()).spec_max(<T12 as ToRef>::mem_type()), <T13 as ToRef>::mem_type());
            lemma_max_parts(MemType::Primitive.spec_max(<T1 as ToRef>::mem_type()).spec_max(<T2 as ToRef>::mem_type()).spec_max(<T3 as ToRef>::mem_type()).spec_max(<T4 as ToRef>::mem_type()).spec_max(<T5 as ToRef>::mem_type()).spec_max(<T6 as ToRef>::mem_type()).spec_max(<T7 as ToRef>::mem_type()).spec_max(<T8 as ToRef>::mem_type()).spec_max(<T9 as ToRef>::mem_type()).spec_max(<T10 as ToRef>::mem_type()).spec_max(<T11 as ToRef>::mem_type()), <T12 as ToRef>::mem_type());
            lemma_max_parts(MemType::Primitive.spec_max(<T1 as ToRef>::mem_type()).spec_max(<T2 as ToRef>::mem_type()).spec_max(<T3 as ToRef>::mem_type()).spec_max(<T4 as ToRef>::mem_type()).spec_max(<T5 as ToRef>::mem_type()).spec_max(<T6 as ToRef>::mem_type()).spec_max(<T7 as ToRef>::mem_type()).spec_max(<T8 as ToRef>::mem_type()).spec_max(<T9 as ToRef>::mem_type()).spec_max(<T10 as ToRef>::mem_type()), <T11 as ToRef>::mem_type());
            lemma_max_parts(MemType::Primitive.spec_max(<T1 as ToRef>::mem_type()).spec_max(<T2 as ToRef>::mem_type()).spec_max(<T3 as ToRef>::mem_type()).spec_max(<T4 as ToRef>::mem_type()).spec_max(<T5 as ToRef>::mem_type()).spec_max(<T6 as ToRef>::mem_type()).spec_max(<T7 as ToRef>::mem_type()).spec_max(<T8 as ToRef>::mem_type()).spec_max(<T9 as ToRef>::mem_type()), <T10 as ToRef>::mem_type());
            lemma_max_parts(MemType::Primitive.spec_max(<T1 as ToRef>::mem_type()).spec_max(<T2 as ToRef>::mem_type()).spec_max(<T3 as ToRef>::mem_type()).spec_max(<T4 as ToRef>::mem_type()).spec_max(<T5 as ToRef>::mem_type()).spec_max(<T6 as ToRef>::mem_type()).spec_max(<T7 as ToRef>::mem_type()).spec_max(<T8 as ToRef>::mem_type()), <T9 as ToRef>::mem_type());
            lemma_max_parts(MemType::Primitive.spec_max(<T1 as ToRef>::mem_type()).spec_max(<T2 as ToRef>::mem_type()).spec_max(<T3 as ToRef>::mem_type()).spec_max(<T4 as ToRef>::mem_type()).spec_max(<T5 as ToRef>::mem_type()).spec_max(<T6 as ToRef>::mem_type()).spec_max(<T7 as ToRef>::mem_type()), <T8 as ToRef>::mem_type());
            lemma_max_parts(MemType::Primitive.spec_max(<T1 as ToRef>::mem_type()).spec_max(<T2 as ToRef>::mem_type()).spec_max(<T3 as ToRef>::mem_type()).spec_max(<T4 as ToRef>::mem_type()).spec_max(<T5 as ToRef>::mem_type()).spec_max(<T6 as ToRef>::mem_type()), <T7 as ToRef>::mem_type());
            lemma_max_parts(MemType::Primitive.spec_max(<T1 as ToRef>::mem_type()).spec_max(<T2 as ToRef>::mem_type()).spec_max(<T3 as ToRef>::mem_type()).spec_max(<T4 as ToRef>::mem_type()).spec_max(<T5 as ToRef>::mem_type()), <T6 as ToRef>::mem_type());
            lemma_max_parts(MemType::Primitive.spec_max(<T1 as ToRef>::mem_type()).spec_max(<T2 as ToRef>::mem_type()).spec_max(<T3 as ToRef>::mem_type()).spec_max(<T4 as ToRef>::mem_type()), <T5 as ToRef>::mem_type());
            lemma_max_parts(MemType::Primitive.spec_max(<T1 as ToRef>::mem_type()).spec_max(<T2 as ToRef>::mem_type()).spec_max(<T3 as ToRef>::mem_type()), <T4 as ToRef>::mem_type());
            lemma_max_parts(MemType::Primitive.spec_max(<T1 as ToRef>::mem_type()).spec_max(<T2 as ToRef>::mem_type()), <T3 as ToRef>::mem_type());
            lemma_max_parts(MemType::Primitive.spec_max(<T1 as ToRef>::mem_type()), <T2 as ToRef>::mem_type());
            lemma_max_parts(MemType::Primitive, <T1 as ToRef>::mem_type());
        }
        let f0 = self.0.to_ref(writer);
        let ghost w1 = *writer;
        proof {
            writer.lemma_bounds();
        }
        let f1 = self.1.to_ref(writer);
        let ghost w2 = *writer;
        proof {
            writer.lemma_bounds();
        }
        let f2 = self.2.to_ref(writer);
        let ghost w3 = *writer;
        proof {
            writer.lemma_bounds();
        }
        let f3 = self.3.to_ref(writer);
        let ghost w4 = *writer;
        proof {
            writer.lemma_bounds();
        }
        let f4 = self.4.to_ref(writer);
        let ghost w5 = *writer;
        proof {
            writer.lemma_bounds();
        }
        let f5 = self.5.to_ref(writer);
        let ghost w6 = *writer;
        proof {
            writer.lemma_bounds();
        }
        let f6 = self.6.to_ref(writer);
        let ghost w7 = *writer;
        proof {
            writer.lemma_bounds();
        }
        let f7 = self.7.to_ref(writer);
        let ghost w8 = *writer;
        proof {
            writer.lemma_bounds();
        }
        let f8 = self.8.to_ref(writer);
        let ghost w9 = *writer;
        proof {
            writer.lemma_bounds();
        }
        let f9 = self.9.to_ref(writer);
        let ghost w10 = *writer;
        proof {
            writer.lemma_bounds();
        }
        let f10 = self.10.to_ref(writer);
        let ghost w11 = *writer;
        proof {
            writer.lemma_bounds();
        }
        let f11 = self.11.to_ref(writer);
        let ghost w12 = *writer;
        proof {
            writer.lemma_bounds();
        }
        let f12 = self.12.to_ref(writer);
        let ghost w13 = *writer;
        proof {
            writer.lemma_bounds();
        }
        let f13 = self.13.to_ref(writer);
        let ghost w14 = *writer;
        proof {
            writer.lemma_bounds();
        }
        let f14 = self.14.to_ref(writer);
        let ghost w15 = *writer;
        proof {
            writer.lemma_bounds();
        }
        let f15 = self.15.to_ref(writer);
        let ghost w16 = *writer;
        proof {
            writer.lemma_bounds();
        }
        proof {
            lemma_keeps_trans(w14.arena(), w15.arena(), w16.arena(), w14.cursor(), w15.cursor());
            lemma_keeps_trans(w13.arena(), w14.arena(), w16.arena(), w13.cursor(), w14.cursor());
            lemma_keeps_trans(w12.arena(), w13.arena(), w16.arena(), w12.cursor(), w13.cursor());
            lemma_keeps_trans(w11.arena(), w12.arena(), w16.arena(), w11.cursor(), w12.cursor());
            lemma_keeps_trans(w10.arena(), w11.arena(), w16.arena(), w10.cursor(), w11.cursor());
            lemma_keeps_trans(w9.arena(), w10.arena(), w16.arena(), w9.cursor(), w10.cursor());
            lemma_keeps_trans(w8.arena(), w9.arena(), w16.arena(), w8.cursor(), w9.cursor());
            lemma_keeps_trans(w7.arena(), w8.arena(), w16.arena(), w7.cursor(), w8.cursor());
            lemma_keeps_trans(w6.arena(), w7.arena(), w16.arena(), w6.cursor(), w7.cursor());
            lemma_keeps_trans(w5.arena(), w6.arena(), w16.arena(), w5.cursor(), w6.cursor());
            lemma_keeps_trans(w4.arena(), w5.arena(), w16.arena(), w4.cursor(), w5.cursor());
            lemma_keeps_trans(w3.arena(), w4.arena(), w16.arena(), w3.cursor(), w4.cursor());
            lemma_keeps_trans(w2.arena(), w3.arena(), w16.arena(), w2.cursor(), w3.cursor());
            lemma_keeps_trans(w1.arena(), w2.arena(), w16.arena(), w1.cursor(), w2.cursor());
            lemma_keeps_trans(w0.arena(), w1.arena(), w16.arena(), w0.cursor(), w1.cursor());
            lemma_view_stays(&self.0, f0, w1, w16, base + w0.cursor(), base + w1.cursor());
            lemma_view_stays(&self.1, f1, w2, w16, base + w1.cursor(), base + w2.cursor());
            lemma_view_stays(&self.2, f2, w3, w16, base + w2.cursor(), base + w3.cursor());
            lemma_view_stays(&self.3, f3, w4, w16, base + w3.cursor(), base + w4.cursor());
            lemma_view_stays(&self.4, f4, w5, w16, base + w4.cursor(), base + w5.cursor());
            lemma_view_stays(&self.5, f5, w6, w16, base + w5.cursor(), base + w6.cursor());
            lemma_view_stays(&self.6, f6, w7, w16, base + w6.cursor(), base + w7.cursor());
            lemma_view_stays(&self.7, f7, w8, w16, base + w7.cursor(), base + w8.cursor());
            lemma_view_stays(&self.8, f8, w9, w16, base + w8.cursor(), base + w9.cursor());
            lemma_view_stays(&self.9, f9, w10, w16, base + w9.cursor(), base + w10.cursor());
            lemma_view_stays(&self.10, f10, w11, w16, base + w10.cursor(), base + w11.cursor());
            lemma_view_stays(&self.11, f11, w12, w16, base + w11.cursor(), base + w12.cursor());
            lemma_view_stays(&self.12, f12, w13, w16, base + w12.cursor(), base + w13.cursor());
            lemma_view_stays(&self.13, f13, w14, w16, base + w13.cursor(), base + w14.cursor());
            lemma_view_stays(&self.14, f14, w15, w16, base + w14.cursor(), base + w15.cursor());
            self.0.lemma_widen(f0, w16.image(), base + w0.cursor(), base + w1.cursor(), base + w0.cursor(), base + w16.cursor(), false);
            self.1.lemma_widen(f1, w16.image(), base + w1.cursor(), base + w2.cursor(), base + w0.cursor(), base + w16.cursor(), false);
            self.2.lemma_widen(f2, w16.image(), base + w2.cursor(), base + w3.cursor(), base + w0.cursor(), base + w16.cursor(), false);
            self.3.lemma_widen(f3, w16.image(), base + w3.cursor(), base + w4.cursor(), base + w0.cursor(), base + w16.cursor(), false);
            self.4.lemma_widen(f4, w16.image(), base + w4.cursor(), base + w5.cursor(), base + w0.cursor(), base + w16.cursor(), false);
            self.5.lemma_widen(f5, w16.image(), base + w5.cursor(), base + w6.cursor(), base + w0.cursor(), base + w16.cursor(), false);
            self.6.lemma_widen(f6, w16.image(), base + w6.cursor(), base + w7.cursor(), base + w0.cursor(), base + w16.cursor(), false);
            self.7.lemma_widen(f7, w16.image(), base + w7.cursor(), base + w8.cursor(), base + w0.cursor(), base + w16.cursor(), false);
            self.8.lemma_widen(f8, w16.image(), base + w8.cursor(), base + w9.cursor(), base + w0.cursor(), base + w16.cursor(), false);
            self.9.lemma_widen(f9, w16.image(), base + w9.cursor(), base + w10.cursor(), base + w0.cursor(), base + w16.cursor(), false);
            self.10.lemma_widen(f10, w16.image(), base + w10.cursor(), base + w11.cursor(), base + w0.cursor(), base + w16.cursor(), false);
            self.11.lemma_widen(f11, w16.image(), base + w11.cursor(), base + w12.cursor(), base + w0.cursor(), base + w16.cursor(), false);
            self.12.lemma_widen(f12, w16.image(), base + w12.cursor(), base + w13.cursor(), base + w0.cursor(), base + w16.cursor(), false);
            self.13.lemma_widen(f13, w16.image(), base + w13.cursor(), base + w14.cursor(), base + w0.cursor(), base + w16.cursor(), false);
            self.14.lemma_widen(f14, w16.image(), base + w14.cursor(), base + w15.cursor(), base + w0.cursor(), base + w16.cursor(), false);
            self.15.lemma_widen(f15, w16.image(), base + w15.cursor(), base + w16.cursor(), base + w0.cursor(), base + w16.cursor(), false);
        }
        (f0, f1, f2, f3, f4, f5, f6, f7, f8, f9, f10, f11, f12, f13, f14, f15)
    }

    fn pinned<M: MemoryRead>(&self, r: &(<T1 as ToRef>::Ref, <T2 as ToRef>::Ref, <T3 as ToRef>::Ref, <T4 as ToRef>::Ref, <T5 as ToRef>::Ref, <T6 as ToRef>::Ref, <T7 as ToRef>::Ref, <T8 as ToRef>::Ref, <T9 as ToRef>::Ref, <T10 as ToRef>::Ref, <T11 as ToRef>::Ref, <T12 as ToRef>::Ref, <T13 as ToRef>::Ref, <T14 as ToRef>::Ref, <T15 as ToRef>::Ref, <T16 as ToRef>::Ref), mem: &M, out: &mut Vec<Segment>) {
        self.0.pinned(&r.0, mem, out);
        self.1.pinned(&r.1, mem, out);
        self.2.pinned(&r.2, mem, out);
        self.3.pinned(&r.3, mem, out);
        self.4.pinned(&r.4, mem, out);
        self.5.pinned(&r.5, mem, out);
        self.6.pinned(&r.6, mem, out);
        self.7.pinned(&r.7, mem, out);
        self.8.pinned(&r.8, mem, out);
        self.9.pinned(&r.9, mem, out);
        self.10.pinned(&r.10, mem, out);
        self.11.pinned(&r.11, mem, out);
        self.12.pinned(&r.12, mem, out);
        self.13.pinned(&r.13, mem, out);
        self.14.pinned(&r.14, mem, out);
        self.15.pinned(&r.15, mem, out);
        assert(pieces_of(out@) =~= pieces_of(old(out)@) + self.pins(*r, mem.image()));
    }
}

} // verus!
