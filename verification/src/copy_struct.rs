//! `CopyStruct`: the parameters of a ring call. Their views are written like
//! those of a tuple, and the heads are then copied one behind the other to
//! the end of the arena, so that one address leads to all of them.

use crate::convert::{lemma_view_stays, FromRef, ToRef};
use crate::layout::Pod;
use crate::mem_type::MemType;
use crate::memory::{
    extends, lemma_holds_all_concat, pieces_of, read, Image, MemoryRead, Piece, Segment,
};
use crate::writer::{
    lemma_image_grows, lemma_image_put, lemma_keeps_same, lemma_keeps_trans, Writer,
};
use vstd::prelude::*;

verus! {

/// The parameters of a ring call, as a tuple.
pub struct CopyStruct<T>(pub T);

impl<T: DeepView> DeepView for CopyStruct<T> {
    type V = T::V;

    open spec fn deep_view(&self) -> T::V {
        self.0.deep_view()
    }
}

/// The head that lies at `addr`, if it can be read.
pub open spec fn head_at<R: Pod>(img: Image, addr: int) -> Option<R> {
    match read(img, addr as usize, R::size() as usize) {
        Some(bytes) => Some(R::decode(bytes)),
        None => None,
    }
}

/// Whether the head that lies at `addr` is a view of `value`.
pub open spec fn head_views<T: ToRef>(
    value: T,
    addr: int,
    img: Image,
    lo: int,
    hi: int,
    deep: bool,
) -> bool where T::Ref: Pod {
    match head_at::<T::Ref>(img, addr) {
        Some(head) => value.views(head, img, lo, hi, deep),
        None => false,
    }
}

/// The pins of `value`, seen through the head that lies at `addr`.
pub open spec fn head_pins<T: ToRef>(value: T, addr: int, img: Image) -> Seq<Piece> where
    T::Ref: Pod,
 {
    match head_at::<T::Ref>(img, addr) {
        Some(head) => value.pins(head, img),
        None => Seq::empty(),
    }
}

/// What `from_ref` makes of the head that lies at `addr`.
pub open spec fn head_decoded<T: FromRef>(addr: int, img: Image) -> Option<<T as DeepView>::V> where
    <T as ToRef>::Ref: Pod,
 {
    match head_at::<<T as ToRef>::Ref>(img, addr) {
        Some(head) => T::decoded(head, img),
        None => None,
    }
}

/// A head that is a view of a value stays one in every memory that reads the
/// same between `lo` and `hi`, where the head lies.
pub proof fn lemma_head_frame<T: ToRef>(
    value: T,
    addr: int,
    img: Image,
    other: Image,
    lo: int,
    hi: int,
    deep: bool,
) where T::Ref: Pod
    requires
        head_views(value, addr, img, lo, hi, deep),
        crate::memory::agrees(img, other, lo, hi),
        deep ==> extends(other, img),
        0 <= addr,
        addr + T::Ref::size() <= usize::MAX,
        T::Ref::size() > 0 ==> lo <= addr && addr + T::Ref::size() <= hi,
    ensures
        head_views(value, addr, other, lo, hi, deep),
{
    T::Ref::lemma_size();
    if T::Ref::size() > 0 {
        assert(img.contains_key((addr as usize, T::Ref::size() as usize)));
    }
    let head = head_at::<T::Ref>(img, addr).unwrap();
    assert(head_at::<T::Ref>(other, addr) == Some(head));
    value.lemma_frame(head, img, other, lo, hi, deep);
}

/// A head whose value's pins can all be read is a deep view.
pub proof fn lemma_head_deepen<T: ToRef>(
    value: T,
    addr: int,
    img: Image,
    other: Image,
    lo: int,
    hi: int,
) where T::Ref: Pod
    requires
        crate::memory::image_wf(other),
        head_views(value, addr, img, lo, hi, false),
        extends(other, img),
        crate::memory::holds_all(other, head_pins(value, addr, img)),
        0 <= addr,
        addr + T::Ref::size() <= usize::MAX,
    ensures
        head_views(value, addr, other, lo, hi, true),
{
    T::Ref::lemma_size();
    if T::Ref::size() > 0 {
        assert(img.contains_key((addr as usize, T::Ref::size() as usize)));
    }
    let head = head_at::<T::Ref>(img, addr).unwrap();
    assert(head_at::<T::Ref>(other, addr) == Some(head));
    value.lemma_deepen(head, img, other, lo, hi);
}

/// A head that was put at the cursor is a view of its value once the writer
/// has moved on.
pub proof fn lemma_head_put<T: ToRef>(
    value: T,
    head: T::Ref,
    before: Writer,
    after: Writer,
    done: Writer,
    addr: int,
    lo: int,
    hi: int,
) where T::Ref: Pod
    requires
        before.wf(),
        after.wf(),
        done.wf(),
        before.base() == after.base(),
        after.base() == done.base(),
        addr == before.base() + before.cursor(),
        after.cursor() == before.cursor() + T::Ref::size(),
        after.arena() == crate::writer::overwritten(
            before.arena(),
            before.cursor() as int,
            head.encode(),
        ),
        after.cursor() <= done.cursor(),
        crate::writer::keeps(after.arena(), done.arena(), after.cursor()),
        value.views(head, done.image(), lo, hi, false),
    ensures
        head_views(value, addr, done.image(), lo, hi, false),
{
    head.lemma_layout();
    T::Ref::lemma_size();
    before.lemma_bounds();
    after.lemma_bounds();
    lemma_image_put(before, after, head.encode());
    lemma_image_grows(after, done);
    let at = (before.base() + before.cursor()) as usize;
    let size = T::Ref::size() as usize;
    if T::Ref::size() > 0 {
        assert(read(after.image(), at, size) == Some(head.encode()));
        assert(after.image().contains_key((at, size)));
        assert(done.image().contains_key((at, size)));
        assert(read(done.image(), at, size) == Some(head.encode()));
    } else {
        assert(head.encode() =~= Seq::<u8>::empty());
        assert(read(done.image(), at, size) == Some(head.encode()));
    }
    assert(head_at::<T::Ref>(done.image(), addr) == Some(head));
}

impl<T1: ToRef> ToRef for CopyStruct<(T1,)> where T1::Ref: Pod {
    type Ref = usize;

    open spec fn mem_type() -> MemType {
        MemType::Complex
    }

    open spec fn size(&self) -> nat {
        self.0.size() + T1::Ref::size()
    }

    open spec fn views(&self, r: usize, img: Image, lo: int, hi: int, deep: bool) -> bool {
        &&& r + T1::Ref::size() <= usize::MAX
        &&& T1::Ref::size() > 0 ==> lo <= r && r + T1::Ref::size() <= hi
        &&& head_views(self.0.0, r as int, img, lo, hi, deep)
    }

    open spec fn flat(&self) -> usize {
        0
    }

    open spec fn pins(&self, r: usize, img: Image) -> Seq<Piece> {
        head_pins(self.0.0, r as int, img)
    }

    proof fn lemma_flat(&self) {
    }

    proof fn lemma_primitive(&self, r: usize, img: Image, lo: int, hi: int, deep: bool) {
    }

    proof fn lemma_deepen(&self, r: usize, img: Image, other: Image, lo: int, hi: int) {
        lemma_head_deepen(self.0.0, r as int, img, other, lo, hi);
    }

    proof fn lemma_frame(&self, r: usize, img: Image, other: Image, lo: int, hi: int, deep: bool) {
        lemma_head_frame(self.0.0, r as int, img, other, lo, hi, deep);
    }

    proof fn lemma_widen(
        &self,
        r: usize,
        img: Image,
        lo: int,
        hi: int,
        wide_lo: int,
        wide_hi: int,
        deep: bool,
    ) {
        match head_at::<T1::Ref>(img, r as int) {
            Some(head) => {
                self.0.0.lemma_widen(head, img, lo, hi, wide_lo, wide_hi, deep);
            },
            None => {},
        }
    }

    fn mem_type_of() -> (t: MemType) {
        MemType::Complex
    }

    fn to_size(&self, acc: &mut usize) {
        self.0.to_size(acc);
        *acc = *acc + T1::Ref::size_of();
    }

    fn checked_size(&self, acc: usize) -> (sum: Option<usize>) {
        let mut sum = match self.0.checked_size(acc) {
            Some(next) => next,
            None => {
                return None;
            },
        };
        let size0 = T1::Ref::size_of();
        if size0 > usize::MAX - sum {
            return None;
        }
        sum = sum + size0;
        Some(sum)
    }

    fn to_ref(&self, writer: &mut Writer) -> (r: usize) {
        let ghost base = writer.base() as int;
        let ghost w0 = *writer;
        proof {
            writer.lemma_bounds();
        }
        let heads = self.0.to_ref(writer);
        let ghost v0 = *writer;
        proof {
            writer.lemma_bounds();
        }
        let ptr = writer.as_ptr();
        writer.put(&heads.0);
        let ghost v1 = *writer;
        proof {
            writer.lemma_bounds();
            T1::Ref::lemma_size();
            heads.0.lemma_layout();
            lemma_image_put(v0, v1, heads.0.encode());
        }
        proof {
            lemma_keeps_same(v1.arena(), v1.cursor());
            lemma_keeps_trans(v0.arena(), v1.arena(), v1.arena(), v0.cursor(), v1.cursor());
            lemma_keeps_trans(w0.arena(), v0.arena(), v1.arena(), w0.cursor(), v0.cursor());
            lemma_view_stays(&self.0.0, heads.0, v0, v1, base + w0.cursor(), base + v0.cursor());
            self.0.0.lemma_widen(heads.0, v1.image(), base + w0.cursor(), base + v0.cursor(), base + w0.cursor(), base + v1.cursor(), false);
            lemma_head_put(self.0.0, heads.0, v0, v1, v1, ptr as int, base + w0.cursor(), base + v1.cursor());
        }
        ptr
    }

    fn pinned<M: MemoryRead>(&self, r: &usize, mem: &M, out: &mut Vec<Segment>) {
        let mut addr: usize = *r;
        match mem.read(addr, T1::Ref::size_of()) {
            Some(bytes) => {
                let head = T1::Ref::from_bytes(&bytes);
                self.0.0.pinned(&head, mem, out);
            },
            None => {
                assert(false);
                return ;
            },
        }
        addr = addr + T1::Ref::size_of();
        assert(pieces_of(out@) =~= pieces_of(old(out)@) + self.pins(*r, mem.image()));
    }
}

impl<T1: FromRef> FromRef for CopyStruct<(T1,)> where <T1 as ToRef>::Ref: Pod {
    open spec fn decoded(r: usize, img: Image) -> Option<(<T1 as DeepView>::V,)> {
        if r + <T1 as ToRef>::Ref::size() > usize::MAX {
            None
        } else {
            match head_decoded::<T1>(r as int, img) {
                Some(v0) => Some((v0,)),
                None => None,
            }
        }
    }

    proof fn lemma_round_trip(&self, r: usize, img: Image, lo: int, hi: int) {
        match head_at::<<T1 as ToRef>::Ref>(img, r as int) {
            Some(head) => {
                self.0.0.lemma_round_trip(head, img, lo, hi);
            },
            None => {},
        }
    }

    fn from_ref<M: MemoryRead>(r: &usize, mem: &M) -> (o: Option<Self>) {
        let mut addr: usize = *r;
        let size0 = <T1 as ToRef>::Ref::size_of();
        if size0 > usize::MAX - addr {
            return None;
        }
        let start0 = addr;
        addr = addr + size0;
        let v0 = match mem.read(start0, size0) {
            Some(bytes) => {
                let head = <T1 as ToRef>::Ref::from_bytes(&bytes);
                match <T1 as FromRef>::from_ref(&head, mem) {
                    Some(v) => v,
                    None => {
                        return None;
                    },
                }
            },
            None => {
                return None;
            },
        };
        Some(CopyStruct((v0,)))
    }
}

impl<T1: ToRef, T2: ToRef> ToRef for CopyStruct<(T1, T2)> where T1::Ref: Pod, T2::Ref: Pod {
    type Ref = usize;

    open spec fn mem_type() -> MemType {
        MemType::Complex
    }

    open spec fn size(&self) -> nat {
        self.0.size() + T1::Ref::size() + T2::Ref::size()
    }

    open spec fn views(&self, r: usize, img: Image, lo: int, hi: int, deep: bool) -> bool {
        &&& r + T1::Ref::size() + T2::Ref::size() <= usize::MAX
        &&& T1::Ref::size() + T2::Ref::size() > 0 ==> lo <= r && r + T1::Ref::size() + T2::Ref::size() <= hi
        &&& head_views(self.0.0, r as int, img, lo, hi, deep)
        &&& head_views(self.0.1, r as int + T1::Ref::size(), img, lo, hi, deep)
    }

    open spec fn flat(&self) -> usize {
        0
    }

    open spec fn pins(&self, r: usize, img: Image) -> Seq<Piece> {
        head_pins(self.0.0, r as int, img) + head_pins(self.0.1, r as int + T1::Ref::size(), img)
    }

    proof fn lemma_flat(&self) {
    }

    proof fn lemma_primitive(&self, r: usize, img: Image, lo: int, hi: int, deep: bool) {
    }

    proof fn lemma_deepen(&self, r: usize, img: Image, other: Image, lo: int, hi: int) {
        lemma_holds_all_concat(other, head_pins(self.0.0, r as int, img), head_pins(self.0.1, r as int + T1::Ref::size(), img));
        lemma_head_deepen(self.0.0, r as int, img, other, lo, hi);
        lemma_head_deepen(self.0.1, r as int + T1::Ref::size(), img, other, lo, hi);
    }

    proof fn lemma_frame(&self, r: usize, img: Image, other: Image, lo: int, hi: int, deep: bool) {
        lemma_head_frame(self.0.0, r as int, img, other, lo, hi, deep);
        lemma_head_frame(self.0.1, r as int + T1::Ref::size(), img, other, lo, hi, deep);
    }

    proof fn lemma_widen(
        &self,
        r: usize,
        img: Image,
        lo: int,
        hi: int,
        wide_lo: int,
        wide_hi: int,
        deep: bool,
    ) {
        match head_at::<T1::Ref>(img, r as int) {
            Some(head) => {
                self.0.0.lemma_widen(head, img, lo, hi, wide_lo, wide_hi, deep);
            },
            None => {},
        }
        match head_at::<T2::Ref>(img, r as int + T1::Ref::size()) {
            Some(head) => {
                self.0.1.lemma_widen(head, img, lo, hi, wide_lo, wide_hi, deep);
            },
            None => {},
        }
    }

    fn mem_type_of() -> (t: MemType) {
        MemType::Complex
    }

    fn to_size(&self, acc: &mut usize) {
        self.0.to_size(acc);
        *acc = *acc + T1::Ref::size_of();
        *acc = *acc + T2::Ref::size_of();
    }

    fn checked_size(&self, acc: usize) -> (sum: Option<usize>) {
        let mut sum = match self.0.checked_size(acc) {
            Some(next) => next,
            None => {
                return None;
            },
        };
        let size0 = T1::Ref::size_of();
        if size0 > usize::MAX - sum {
            return None;
        }
        sum = sum + size0;
        let size1 = T2::Ref::size_of();
        if size1 > usize::MAX - sum {
            return None;
        }
        sum = sum + size1;
        Some(sum)
    }

    fn to_ref(&self, writer: &mut Writer) -> (r: usize) {
        let ghost base = writer.base() as int;
        let ghost w0 = *writer;
        proof {
            writer.lemma_bounds();
        }
        let heads = self.0.to_ref(writer);
        let ghost v0 = *writer;
        proof {
            writer.lemma_bounds();
        }
        let ptr = writer.as_ptr();
        writer.put(&heads.0);
        let ghost v1 = *writer;
        proof {
            writer.lemma_bounds();
            T1::Ref::lemma_size();
            heads.0.lemma_layout();
            lemma_image_put(v0, v1, heads.0.encode());
        }
        writer.put(&heads.1);
        let ghost v2 = *writer;
        proof {
            writer.lemma_bounds();
            T2::Ref::lemma_size();
            heads.1.lemma_layout();
            lemma_image_put(v1, v2, heads.1.encode());
        }
        proof {
            lemma_keeps_same(v2.arena(), v2.cursor());
            lemma_keeps_trans(v1.arena(), v2.arena(), v2.arena(), v1.cursor(), v2.cursor());
            lemma_keeps_trans(v0.arena(), v1.arena(), v2.arena(), v0.cursor(), v1.cursor());
            lemma_keeps_trans(w0.arena(), v0.arena(), v2.arena(), w0.cursor(), v0.cursor());
            lemma_view_stays(&self.0.0, heads.0, v0, v2, base + w0.cursor(), base + v0.cursor());
            self.0.0.lemma_widen(heads.0, v2.image(), base + w0.cursor(), base + v0.cursor(), base + w0.cursor(), base + v2.cursor(), false);
            lemma_head_put(self.0.0, heads.0, v0, v1, v2, ptr as int, base + w0.cursor(), base + v2.cursor());
            lemma_view_stays(&self.0.1, heads.1, v0, v2, base + w0.cursor(), base + v0.cursor());
            self.0.1.lemma_widen(heads.1, v2.image(), base + w0.cursor(), base + v0.cursor(), base + w0.cursor(), base + v2.cursor(), false);
            lemma_head_put(self.0.1, heads.1, v1, v2, v2, ptr as int + T1::Ref::size(), base + w0.cursor(), base + v2.cursor());
        }
        ptr
    }

    fn pinned<M: MemoryRead>(&self, r: &usize, mem: &M, out: &mut Vec<Segment>) {
        let mut addr: usize = *r;
        match mem.read(addr, T1::Ref::size_of()) {
            Some(bytes) => {
                let head = T1::Ref::from_bytes(&bytes);
                self.0.0.pinned(&head, mem, out);
            },
            None => {
                assert(false);
                return ;
            },
        }
        addr = addr + T1::Ref::size_of();
        match mem.read(addr, T2::Ref::size_of()) {
            Some(bytes) => {
                let head = T2::Ref::from_bytes(&bytes);
                self.0.1.pinned(&head, mem, out);
            },
            None => {
                assert(false);
                return ;
            },
        }
        addr = addr + T2::Ref::size_of();
        assert(pieces_of(out@) =~= pieces_of(old(out)@) + self.pins(*r, mem.image()));
    }
}

impl<T1: FromRef, T2: FromRef> FromRef for CopyStruct<(T1, T2)> where <T1 as ToRef>::Ref: Pod, <T2 as ToRef>::Ref: Pod {
    open spec fn decoded(r: usize, img: Image) -> Option<(<T1 as DeepView>::V, <T2 as DeepView>::V)> {
        if r + <T1 as ToRef>::Ref::size() + <T2 as ToRef>::Ref::size() > usize::MAX {
            None
        } else {
            match (head_decoded::<T1>(r as int, img), head_decoded::<T2>(r as int + <T1 as ToRef>::Ref::size(), img)) {
                (Some(v0), Some(v1)) => Some((v0, v1)),
                _ => None,
            }
        }
    }

    proof fn lemma_round_trip(&self, r: usize, img: Image, lo: int, hi: int) {
        match head_at::<<T1 as ToRef>::Ref>(img, r as int) {
            Some(head) => {
                self.0.0.lemma_round_trip(head, img, lo, hi);
            },
            None => {},
        }
        match head_at::<<T2 as ToRef>::Ref>(img, r as int + <T1 as ToRef>::Ref::size()) {
            Some(head) => {
                self.0.1.lemma_round_trip(head, img, lo, hi);
            },
            None => {},
        }
    }

    fn from_ref<M: MemoryRead>(r: &usize, mem: &M) -> (o: Option<Self>) {
        let mut addr: usize = *r;
        let size0 = <T1 as ToRef>::Ref::size_of();
        if size0 > usize::MAX - addr {
            return None;
        }
        let start0 = addr;
        addr = addr + size0;
        let size1 = <T2 as ToRef>::Ref::size_of();
        if size1 > usize::MAX - addr {
            return None;
        }
        let start1 = addr;
        addr = addr + size1;
        let v0 = match mem.read(start0, size0) {
            Some(bytes) => {
                let head = <T1 as ToRef>::Ref::from_bytes(&bytes);
                match <T1 as FromRef>::from_ref(&head, mem) {
                    Some(v) => v,
                    None => {
                        return None;
                    },
                }
            },
            None => {
                return None;
            },
        };
        let v1 = match mem.read(start1, size1) {
            Some(bytes) => {
                let head = <T2 as ToRef>::Ref::from_bytes(&bytes);
                match <T2 as FromRef>::from_ref(&head, mem) {
                    Some(v) => v,
                    None => {
                        return None;
                    },
                }
            },
            None => {
                return None;
            },
        };
        Some(CopyStruct((v0, v1)))
    }
}

impl<T1: ToRef, T2: ToRef, T3: ToRef> ToRef for CopyStruct<(T1, T2, T3)> where T1::Ref: Pod, T2::Ref: Pod, T3::Ref: Pod {
    type Ref = usize;

    open spec fn mem_type() -> MemType {
        MemType::Complex
    }

    open spec fn size(&self) -> nat {
        self.0.size() + T1::Ref::size() + T2::Ref::size() + T3::Ref::size()
    }

    open spec fn views(&self, r: usize, img: Image, lo: int, hi: int, deep: bool) -> bool {
        &&& r + T1::Ref::size() + T2::Ref::size() + T3::Ref::size() <= usize::MAX
        &&& T1::Ref::size() + T2::Ref::size() + T3::Ref::size() > 0 ==> lo <= r && r + T1::Ref::size() + T2::Ref::size() + T3::Ref::size() <= hi
        &&& head_views(self.0.0, r as int, img, lo, hi, deep)
        &&& head_views(self.0.1, r as int + T1::Ref::size(), img, lo, hi, deep)
        &&& head_views(self.0.2, r as int + T1::Ref::size() + T2::Ref::size(), img, lo, hi, deep)
    }

    open spec fn flat(&self) -> usize {
        0
    }

    open spec fn pins(&self, r: usize, img: Image) -> Seq<Piece> {
        head_pins(self.0.0, r as int, img) + head_pins(self.0.1, r as int + T1::Ref::size(), img) + head_pins(self.0.2, r as int + T1::Ref::size() + T2::Ref::size(), img)
    }

    proof fn lemma_flat(&self) {
    }

    proof fn lemma_primitive(&self, r: usize, img: Image, lo: int, hi: int, deep: bool) {
    }

    proof fn lemma_deepen(&self, r: usize, img: Image, other: Image, lo: int, hi: int) {
        lemma_holds_all_concat(other, head_pins(self.0.0, r as int, img) + head_pins(self.0.1, r as int + T1::Ref::size(), img), head_pins(self.0.2, r as int + T1::Ref::size() + T2::Ref::size(), img));
        lemma_holds_all_concat(other, head_pins(self.0.0, r as int, img), head_pins(self.0.1, r as int + T1::Ref::size(), img));
        lemma_head_deepen(self.0.0, r as int, img, other, lo, hi);
        lemma_head_deepen(self.0.1, r as int + T1::Ref::size(), img, other, lo, hi);
        lemma_head_deepen(self.0.2, r as int + T1::Ref::size() + T2::Ref::size(), img, other, lo, hi);
    }

    proof fn lemma_frame(&self, r: usize, img: Image, other: Image, lo: int, hi: int, deep: bool) {
        lemma_head_frame(self.0.0, r as int, img, other, lo, hi, deep);
        lemma_head_frame(self.0.1, r as int + T1::Ref::size(), img, other, lo, hi, deep);
        lemma_head_frame(self.0.2, r as int + T1::Ref::size() + T2::Ref::size(), img, other, lo, hi, deep);
    }

    proof fn lemma_widen(
        &self,
        r: usize,
        img: Image,
        lo: int,
        hi: int,
        wide_lo: int,
        wide_hi: int,
        deep: bool,
    ) {
        match head_at::<T1::Ref>(img, r as int) {
            Some(head) => {
                self.0.0.lemma_widen(head, img, lo, hi, wide_lo, wide_hi, deep);
            },
            None => {},
        }
        match head_at::<T2::Ref>(img, r as int + T1::Ref::size()) {
            Some(head) => {
                self.0.1.lemma_widen(head, img, lo, hi, wide_lo, wide_hi, deep);
            },
            None => {},
        }
        match head_at::<T3::Ref>(img, r as int + T1::Ref::size() + T2::Ref::size()) {
            Some(head) => {
                self.0.2.lemma_widen(head, img, lo, hi, wide_lo, wide_hi, deep);
            },
            None => {},
        }
    }

    fn mem_type_of() -> (t: MemType) {
        MemType::Complex
    }

    fn to_size(&self, acc: &mut usize) {
        self.0.to_size(acc);
        *acc = *acc + T1::Ref::size_of();
        *acc = *acc + T2::Ref::size_of();
        *acc = *acc + T3::Ref::size_of();
    }

    fn checked_size(&self, acc: usize) -> (sum: Option<usize>) {
        let mut sum = match self.0.checked_size(acc) {
            Some(next) => next,
            None => {
                return None;
            },
        };
        let size0 = T1::Ref::size_of();
        if size0 > usize::MAX - sum {
            return None;
        }
        sum = sum + size0;
        let size1 = T2::Ref::size_of();
        if size1 > usize::MAX - sum {
            return None;
        }
        sum = sum + size1;
        let size2 = T3::Ref::size_of();
        if size2 > usize::MAX - sum {
            return None;
        }
        sum = sum + size2;
        Some(sum)
    }

    fn to_ref(&self, writer: &mut Writer) -> (r: usize) {
        let ghost base = writer.base() as int;
        let ghost w0 = *writer;
        proof {
            writer.lemma_bounds();
        }
        let heads = self.0.to_ref(writer);
        let ghost v0 = *writer;
        proof {
            writer.lemma_bounds();
        }
        let ptr = writer.as_ptr();
        writer.put(&heads.0);
        let ghost v1 = *writer;
        proof {
            writer.lemma_bounds();
            T1::Ref::lemma_size();
            heads.0.lemma_layout();
            lemma_image_put(v0, v1, heads.0.encode());
        }
        writer.put(&heads.1);
        let ghost v2 = *writer;
        proof {
            writer.lemma_bounds();
            T2::Ref::lemma_size();
            heads.1.lemma_layout();
            lemma_image_put(v1, v2, heads.1.encode());
        }
        writer.put(&heads.2);
        let ghost v3 = *writer;
        proof {
            writer.lemma_bounds();
            T3::Ref::lemma_size();
            heads.2.lemma_layout();
            lemma_image_put(v2, v3, heads.2.encode());
        }
        proof {
            lemma_keeps_same(v3.arena(), v3.cursor());
            lemma_keeps_trans(v2.arena(), v3.arena(), v3.arena(), v2.cursor(), v3.cursor());
            lemma_keeps_trans(v1.arena(), v2.arena(), v3.arena(), v1.cursor(), v2.cursor());
            lemma_keeps_trans(v0.arena(), v1.arena(), v3.arena(), v0.cursor(), v1.cursor());
            lemma_keeps_trans(w0.arena(), v0.arena(), v3.arena(), w0.cursor(), v0.cursor());
            lemma_view_stays(&self.0.0, heads.0, v0, v3, base + w0.cursor(), base + v0.cursor());
            self.0.0.lemma_widen(heads.0, v3.image(), base + w0.cursor(), base + v0.cursor(), base + w0.cursor(), base + v3.cursor(), false);
            lemma_head_put(self.0.0, heads.0, v0, v1, v3, ptr as int, base + w0.cursor(), base + v3.cursor());
            lemma_view_stays(&self.0.1, heads.1, v0, v3, base + w0.cursor(), base + v0.cursor());
            self.0.1.lemma_widen(heads.1, v3.image(), base + w0.cursor(), base + v0.cursor(), base + w0.cursor(), base + v3.cursor(), false);
            lemma_head_put(self.0.1, heads.1, v1, v2, v3, ptr as int + T1::Ref::size(), base + w0.cursor(), base + v3.cursor());
            lemma_view_stays(&self.0.2, heads.2, v0, v3, base + w0.cursor(), base + v0.cursor());
            self.0.2.lemma_widen(heads.2, v3.image(), base + w0.cursor(), base + v0.cursor(), base + w0.cursor(), base + v3.cursor(), false);
            lemma_head_put(self.0.2, heads.2, v2, v3, v3, ptr as int + T1::Ref::size() + T2::Ref::size(), base + w0.cursor(), base + v3.cursor());
        }
        ptr
    }

    fn pinned<M: MemoryRead>(&self, r: &usize, mem: &M, out: &mut Vec<Segment>) {
        let mut addr: usize = *r;
        match mem.read(addr, T1::Ref::size_of()) {
            Some(bytes) => {
                let head = T1::Ref::from_bytes(&bytes);
                self.0.0.pinned(&head, mem, out);
            },
            None => {
                assert(false);
                return ;
            },
        }
        addr = addr + T1::Ref::size_of();
        match mem.read(addr, T2::Ref::size_of()) {
            Some(bytes) => {
                let head = T2::Ref::from_bytes(&bytes);
                self.0.1.pinned(&head, mem, out);
            },
            None => {
                assert(false);
                return ;
            },
        }
        addr = addr + T2::Ref::size_of();
        match mem.read(addr, T3::Ref::size_of()) {
            Some(bytes) => {
                let head = T3::Ref::from_bytes(&bytes);
                self.0.2.pinned(&head, mem, out);
            },
            None => {
                assert(false);
                return ;
            },
        }
        addr = addr + T3::Ref::size_of();
        assert(pieces_of(out@) =~= pieces_of(old(out)@) + self.pins(*r, mem.image()));
    }
}

impl<T1: FromRef, T2: FromRef, T3: FromRef> FromRef for CopyStruct<(T1, T2, T3)> where <T1 as ToRef>::Ref: Pod, <T2 as ToRef>::Ref: Pod, <T3 as ToRef>::Ref: Pod {
    open spec fn decoded(r: usize, img: Image) -> Option<(<T1 as DeepView>::V, <T2 as DeepView>::V, <T3 as DeepView>::V)> {
        if r + <T1 as ToRef>::Ref::size() + <T2 as ToRef>::Ref::size() + <T3 as ToRef>::Ref::size() > usize::MAX {
            None
        } else {
            match (head_decoded::<T1>(r as int, img), head_decoded::<T2>(r as int + <T1 as ToRef>::Ref::size(), img), head_decoded::<T3>(r as int + <T1 as ToRef>::Ref::size() + <T2 as ToRef>::Ref::size(), img)) {
                (Some(v0), Some(v1), Some(v2)) => Some((v0, v1, v2)),
                _ => None,
            }
        }
    }

    proof fn lemma_round_trip(&self, r: usize, img: Image, lo: int, hi: int) {
        match head_at::<<T1 as ToRef>::Ref>(img, r as int) {
            Some(head) => {
                self.0.0.lemma_round_trip(head, img, lo, hi);
            },
            None => {},
        }
        match head_at::<<T2 as ToRef>::Ref>(img, r as int + <T1 as ToRef>::Ref::size()) {
            Some(head) => {
                self.0.1.lemma_round_trip(head, img, lo, hi);
            },
            None => {},
        }
        match head_at::<<T3 as ToRef>::Ref>(img, r as int + <T1 as ToRef>::Ref::size() + <T2 as ToRef>::Ref::size()) {
            Some(head) => {
                self.0.2.lemma_round_trip(head, img, lo, hi);
            },
            None => {},
        }
    }

    fn from_ref<M: MemoryRead>(r: &usize, mem: &M) -> (o: Option<Self>) {
        let mut addr: usize = *r;
        let size0 = <T1 as ToRef>::Ref::size_of();
        if size0 > usize::MAX - addr {
            return None;
        }
        let start0 = addr;
        addr = addr + size0;
        let size1 = <T2 as ToRef>::Ref::size_of();
        if size1 > usize::MAX - addr {
            return None;
        }
        let start1 = addr;
        addr = addr + size1;
        let size2 = <T3 as ToRef>::Ref::size_of();
        if size2 > usize::MAX - addr {
            return None;
        }
        let start2 = addr;
        addr = addr + size2;
        let v0 = match mem.read(start0, size0) {
            Some(bytes) => {
                let head = <T1 as ToRef>::Ref::from_bytes(&bytes);
                match <T1 as FromRef>::from_ref(&head, mem) {
                    Some(v) => v,
                    None => {
                        return None;
                    },
                }
            },
            None => {
                return None;
            },
        };
        let v1 = match mem.read(start1, size1) {
            Some(bytes) => {
                let head = <T2 as ToRef>::Ref::from_bytes(&bytes);
                match <T2 as FromRef>::from_ref(&head, mem) {
                    Some(v) => v,
                    None => {
                        return None;
                    },
                }
            },
            None => {
                return None;
            },
        };
        let v2 = match mem.read(start2, size2) {
            Some(bytes) => {
                let head = <T3 as ToRef>::Ref::from_bytes(&bytes);
                match <T3 as FromRef>::from_ref(&head, mem) {
                    Some(v) => v,
                    None => {
                        return None;
                    },
                }
            },
            None => {
                return None;
            },
        };
        Some(CopyStruct((v0, v1, v2)))
    }
}

impl<T1: ToRef, T2: ToRef, T3: ToRef, T4: ToRef> ToRef for CopyStruct<(T1, T2, T3, T4)> where T1::Ref: Pod, T2::Ref: Pod, T3::Ref: Pod, T4::Ref: Pod {
    type Ref = usize;

    open spec fn mem_type() -> MemType {
        MemType::Complex
    }

    open spec fn size(&self) -> nat {
        self.0.size() + T1::Ref::size() + T2::Ref::size() + T3::Ref::size() + T4::Ref::size()
    }

    open spec fn views(&self, r: usize, img: Image, lo: int, hi: int, deep: bool) -> bool {
        &&& r + T1::Ref::size() + T2::Ref::size() + T3::Ref::size() + T4::Ref::size() <= usize::MAX
        &&& T1::Ref::size() + T2::Ref::size() + T3::Ref::size() + T4::Ref::size() > 0 ==> lo <= r && r + T1::Ref::size() + T2::Ref::size() + T3::Ref::size() + T4::Ref::size() <= hi
        &&& head_views(self.0.0, r as int, img, lo, hi, deep)
        &&& head_views(self.0.1, r as int + T1::Ref::size(), img, lo, hi, deep)
        &&& head_views(self.0.2, r as int + T1::Ref::size() + T2::Ref::size(), img, lo, hi, deep)
        &&& head_views(self.0.3, r as int + T1::Ref::size() + T2::Ref::size() + T3::Ref::size(), img, lo, hi, deep)
    }

    open spec fn flat(&self) -> usize {
        0
    }

    open spec fn pins(&self, r: usize, img: Image) -> Seq<Piece> {
        head_pins(self.0.0, r as int, img) + head_pins(self.0.1, r as int + T1::Ref::size(), img) + head_pins(self.0.2, r as int + T1::Ref::size() + T2::Ref::size(), img) + head_pins(self.0.3, r as int + T1::Ref::size() + T2::Ref::size() + T3::Ref::size(), img)
    }

    proof fn lemma_flat(&self) {
    }

    proof fn lemma_primitive(&self, r: usize, img: Image, lo: int, hi: int, deep: bool) {
    }

    proof fn lemma_deepen(&self, r: usize, img: Image, other: Image, lo: int, hi: int) {
        lemma_holds_all_concat(other, head_pins(self.0.0, r as int, img) + head_pins(self.0.1, r as int + T1::Ref::size(), img) + head_pins(self.0.2, r as int + T1::Ref::size() + T2::Ref::size(), img), head_pins(self.0.3, r as int + T1::Ref::size() + T2::Ref::size() + T3::Ref::size(), img));
        lemma_holds_all_concat(other, head_pins(self.0.0, r as int, img) + head_pins(self.0.1, r as int + T1::Ref::size(), img), head_pins(self.0.2, r as int + T1::Ref::size() + T2::Ref::size(), img));
        lemma_holds_all_concat(other, head_pins(self.0.0, r as int, img), head_pins(self.0.1, r as int + T1::Ref::size(), img));
        lemma_head_deepen(self.0.0, r as int, img, other, lo, hi);
        lemma_head_deepen(self.0.1, r as int + T1::Ref::size(), img, other, lo, hi);
        lemma_head_deepen(self.0.2, r as int + T1::Ref::size() + T2::Ref::size(), img, other, lo, hi);
        lemma_head_deepen(self.0.3, r as int + T1::Ref::size() + T2::Ref::size() + T3::Ref::size(), img, other, lo, hi);
    }

    proof fn lemma_frame(&self, r: usize, img: Image, other: Image, lo: int, hi: int, deep: bool) {
        lemma_head_frame(self.0.0, r as int, img, other, lo, hi, deep);
        lemma_head_frame(self.0.1, r as int + T1::Ref::size(), img, other, lo, hi, deep);
        lemma_head_frame(self.0.2, r as int + T1::Ref::size() + T2::Ref::size(), img, other, lo, hi, deep);
        lemma_head_frame(self.0.3, r as int + T1::Ref::size() + T2::Ref::size() + T3::Ref::size(), img, other, lo, hi, deep);
    }

    proof fn lemma_widen(
        &self,
        r: usize,
        img: Image,
        lo: int,
        hi: int,
        wide_lo: int,
        wide_hi: int,
        deep: bool,
    ) {
        match head_at::<T1::Ref>(img, r as int) {
            Some(head) => {
                self.0.0.lemma_widen(head, img, lo, hi, wide_lo, wide_hi, deep);
            },
            None => {},
        }
        match head_at::<T2::Ref>(img, r as int + T1::Ref::size()) {
            Some(head) => {
                self.0.1.lemma_widen(head, img, lo, hi, wide_lo, wide_hi, deep);
            },
            None => {},
        }
        match head_at::<T3::Ref>(img, r as int + T1::Ref::size() + T2::Ref::size()) {
            Some(head) => {
                self.0.2.lemma_widen(head, img, lo, hi, wide_lo, wide_hi, deep);
            },
            None => {},
        }
        match head_at::<T4::Ref>(img, r as int + T1::Ref::size() + T2::Ref::size() + T3::Ref::size()) {
            Some(head) => {
                self.0.3.lemma_widen(head, img, lo, hi, wide_lo, wide_hi, deep);
            },
            None => {},
        }
    }

    fn mem_type_of() -> (t: MemType) {
        MemType::Complex
    }

    fn to_size(&self, acc: &mut usize) {
        self.0.to_size(acc);
        *acc = *acc + T1::Ref::size_of();
        *acc = *acc + T2::Ref::size_of();
        *acc = *acc + T3::Ref::size_of();
        *acc = *acc + T4::Ref::size_of();
    }

    fn checked_size(&self, acc: usize) -> (sum: Option<usize>) {
        let mut sum = match self.0.checked_size(acc) {
            Some(next) => next,
            None => {
                return None;
            },
        };
        let size0 = T1::Ref::size_of();
        if size0 > usize::MAX - sum {
            return None;
        }
        sum = sum + size0;
        let size1 = T2::Ref::size_of();
        if size1 > usize::MAX - sum {
            return None;
        }
        sum = sum + size1;
        let size2 = T3::Ref::size_of();
        if size2 > usize::MAX - sum {
            return None;
        }
        sum = sum + size2;
        let size3 = T4::Ref::size_of();
        if size3 > usize::MAX - sum {
            return None;
        }
        sum = sum + size3;
        Some(sum)
    }

    fn to_ref(&self, writer: &mut Writer) -> (r: usize) {
        let ghost base = writer.base() as int;
        let ghost w0 = *writer;
        proof {
            writer.lemma_bounds();
        }
        let heads = self.0.to_ref(writer);
        let ghost v0 = *writer;
        proof {
            writer.lemma_bounds();
        }
        let ptr = writer.as_ptr();
        writer.put(&heads.0);
        let ghost v1 = *writer;
        proof {
            writer.lemma_bounds();
            T1::Ref::lemma_size();
            heads.0.lemma_layout();
            lemma_image_put(v0, v1, heads.0.encode());
        }
        writer.put(&heads.1);
        let ghost v2 = *writer;
        proof {
            writer.lemma_bounds();
            T2::Ref::lemma_size();
            heads.1.lemma_layout();
            lemma_image_put(v1, v2, heads.1.encode());
        }
        writer.put(&heads.2);
        let ghost v3 = *writer;
        proof {
            writer.lemma_bounds();
            T3::Ref::lemma_size();
            heads.2.lemma_layout();
            lemma_image_put(v2, v3, heads.2.encode());
        }
        writer.put(&heads.3);
        let ghost v4 = *writer;
        proof {
            writer.lemma_bounds();
            T4::Ref::lemma_size();
            heads.3.lemma_layout();
            lemma_image_put(v3, v4, heads.3.encode());
        }
        proof {
            lemma_keeps_same(v4.arena(), v4.cursor());
            lemma_keeps_trans(v3.arena(), v4.arena(), v4.arena(), v3.cursor(), v4.cursor());
            lemma_keeps_trans(v2.arena(), v3.arena(), v4.arena(), v2.cursor(), v3.cursor());
            lemma_keeps_trans(v1.arena(), v2.arena(), v4.arena(), v1.cursor(), v2.cursor());
            lemma_keeps_trans(v0.arena(), v1.arena(), v4.arena(), v0.cursor(), v1.cursor());
            lemma_keeps_trans(w0.arena(), v0.arena(), v4.arena(), w0.cursor(), v0.cursor());
            lemma_view_stays(&self.0.0, heads.0, v0, v4, base + w0.cursor(), base + v0.cursor());
            self.0.0.lemma_widen(heads.0, v4.image(), base + w0.cursor(), base + v0.cursor(), base + w0.cursor(), base + v4.cursor(), false);
            lemma_head_put(self.0.0, heads.0, v0, v1, v4, ptr as int, base + w0.cursor(), base + v4.cursor());
            lemma_view_stays(&self.0.1, heads.1, v0, v4, base + w0.cursor(), base + v0.cursor());
            self.0.1.lemma_widen(heads.1, v4.image(), base + w0.cursor(), base + v0.cursor(), base + w0.cursor(), base + v4.cursor(), false);
            lemma_head_put(self.0.1, heads.1, v1, v2, v4, ptr as int + T1::Ref::size(), base + w0.cursor(), base + v4.cursor());
            lemma_view_stays(&self.0.2, heads.2, v0, v4, base + w0.cursor(), base + v0.cursor());
            self.0.2.lemma_widen(heads.2, v4.image(), base + w0.cursor(), base + v0.cursor(), base + w0.cursor(), base + v4.cursor(), false);
            lemma_head_put(self.0.2, heads.2, v2, v3, v4, ptr as int + T1::Ref::size() + T2::Ref::size(), base + w0.cursor(), base + v4.cursor());
            lemma_view_stays(&self.0.3, heads.3, v0, v4, base + w0.cursor(), base + v0.cursor());
            self.0.3.lemma_widen(heads.3, v4.image(), base + w0.cursor(), base + v0.cursor(), base + w0.cursor(), base + v4.cursor(), false);
            lemma_head_put(self.0.3, heads.3, v3, v4, v4, ptr as int + T1::Ref::size() + T2::Ref::size() + T3::Ref::size(), base + w0.cursor(), base + v4.cursor());
        }
        ptr
    }

    fn pinned<M: MemoryRead>(&self, r: &usize, mem: &M, out: &mut Vec<Segment>) {
        let mut addr: usize = *r;
        match mem.read(addr, T1::Ref::size_of()) {
            Some(bytes) => {
                let head = T1::Ref::from_bytes(&bytes);
                self.0.0.pinned(&head, mem, out);
            },
            None => {
                assert(false);
                return ;
            },
        }
        addr = addr + T1::Ref::size_of();
        match mem.read(addr, T2::Ref::size_of()) {
            Some(bytes) => {
                let head = T2::Ref::from_bytes(&bytes);
                self.0.1.pinned(&head, mem, out);
            },
            None => {
                assert(false);
                return ;
            },
        }
        addr = addr + T2::Ref::size_of();
        match mem.read(addr, T3::Ref::size_of()) {
            Some(bytes) => {
                let head = T3::Ref::from_bytes(&bytes);
                self.0.2.pinned(&head, mem, out);
            },
            None => {
                assert(false);
                return ;
            },
        }
        addr = addr + T3::Ref::size_of();
        match mem.read(addr, T4::Ref::size_of()) {
            Some(bytes) => {
                let head = T4::Ref::from_bytes(&bytes);
                self.0.3.pinned(&head, mem, out);
            },
            None => {
                assert(false);
                return ;
            },
        }
        addr = addr + T4::Ref::size_of();
        assert(pieces_of(out@) =~= pieces_of(old(out)@) + self.pins(*r, mem.image()));
    }
}

impl<T1: FromRef, T2: FromRef, T3: FromRef, T4: FromRef> FromRef for CopyStruct<(T1, T2, T3, T4)> where <T1 as ToRef>::Ref: Pod, <T2 as ToRef>::Ref: Pod, <T3 as ToRef>::Ref: Pod, <T4 as ToRef>::Ref: Pod {
    open spec fn decoded(r: usize, img: Image) -> Option<(<T1 as DeepView>::V, <T2 as DeepView>::V, <T3 as DeepView>::V, <T4 as DeepView>::V)> {
        if r + <T1 as ToRef>::Ref::size() + <T2 as ToRef>::Ref::size() + <T3 as ToRef>::Ref::size() + <T4 as ToRef>::Ref::size() > usize::MAX {
            None
        } else {
            match (head_decoded::<T1>(r as int, img), head_decoded::<T2>(r as int + <T1 as ToRef>::Ref::size(), img), head_decoded::<T3>(r as int + <T1 as ToRef>::Ref::size() + <T2 as ToRef>::Ref::size(), img), head_decoded::<T4>(r as int + <T1 as ToRef>::Ref::size() + <T2 as ToRef>::Ref::size() + <T3 as ToRef>::Ref::size(), img)) {
                (Some(v0), Some(v1), Some(v2), Some(v3)) => Some((v0, v1, v2, v3)),
                _ => None,
            }
        }
    }

    proof fn lemma_round_trip(&self, r: usize, img: Image, lo: int, hi: int) {
        match head_at::<<T1 as ToRef>::Ref>(img, r as int) {
            Some(head) => {
                self.0.0.lemma_round_trip(head, img, lo, hi);
            },
            None => {},
        }
        match head_at::<<T2 as ToRef>::Ref>(img, r as int + <T1 as ToRef>::Ref::size()) {
            Some(head) => {
                self.0.1.lemma_round_trip(head, img, lo, hi);
            },
            None => {},
        }
        match head_at::<<T3 as ToRef>::Ref>(img, r as int + <T1 as ToRef>::Ref::size() + <T2 as ToRef>::Ref::size()) {
            Some(head) => {
                self.0.2.lemma_round_trip(head, img, lo, hi);
            },
            None => {},
        }
        match head_at::<<T4 as ToRef>::Ref>(img, r as int + <T1 as ToRef>::Ref::size() + <T2 as ToRef>::Ref::size() + <T3 as ToRef>::Ref::size()) {
            Some(head) => {
                self.0.3.lemma_round_trip(head, img, lo, hi);
            },
            None => {},
        }
    }

    fn from_ref<M: MemoryRead>(r: &usize, mem: &M) -> (o: Option<Self>) {
        let mut addr: usize = *r;
        let size0 = <T1 as ToRef>::Ref::size_of();
        if size0 > usize::MAX - addr {
            return None;
        }
        let start0 = addr;
        addr = addr + size0;
        let size1 = <T2 as ToRef>::Ref::size_of();
        if size1 > usize::MAX - addr {
            return None;
        }
        let start1 = addr;
        addr = addr + size1;
        let size2 = <T3 as ToRef>::Ref::size_of();
        if size2 > usize::MAX - addr {
            return None;
        }
        let start2 = addr;
        addr = addr + size2;
        let size3 = <T4 as ToRef>::Ref::size_of();
        if size3 > usize::MAX - addr {
            return None;
        }
        let start3 = addr;
        addr = addr + size3;
        let v0 = match mem.read(start0, size0) {
            Some(bytes) => {
                let head = <T1 as ToRef>::Ref::from_bytes(&bytes);
                match <T1 as FromRef>::from_ref(&head, mem) {
                    Some(v) => v,
                    None => {
                        return None;
                    },
                }
            },
            None => {
                return None;
            },
        };
        let v1 = match mem.read(start1, size1) {
            Some(bytes) => {
                let head = <T2 as ToRef>::Ref::from_bytes(&bytes);
                match <T2 as FromRef>::from_ref(&head, mem) {
                    Some(v) => v,
                    None => {
                        return None;
                    },
                }
            },
            None => {
                return None;
            },
        };
        let v2 = match mem.read(start2, size2) {
            Some(bytes) => {
                let head = <T3 as ToRef>::Ref::from_bytes(&bytes);
                match <T3 as FromRef>::from_ref(&head, mem) {
                    Some(v) => v,
                    None => {
                        return None;
                    },
                }
            },
            None => {
                return None;
            },
        };
        let v3 = match mem.read(start3, size3) {
            Some(bytes) => {
                let head = <T4 as ToRef>::Ref::from_bytes(&bytes);
                match <T4 as FromRef>::from_ref(&head, mem) {
                    Some(v) => v,
                    None => {
                        return None;
                    },
                }
            },
            None => {
                return None;
            },
        };
        Some(CopyStruct((v0, v1, v2, v3)))
    }
}

impl<T1: ToRef, T2: ToRef, T3: ToRef, T4: ToRef, T5: ToRef> ToRef for CopyStruct<(T1, T2, T3, T4, T5)> where T1::Ref: Pod, T2::Ref: Pod, T3::Ref: Pod, T4::Ref: Pod, T5::Ref: Pod {
    type Ref = usize;

    open spec fn mem_type() -> MemType {
        MemType::Complex
    }

    open spec fn size(&self) -> nat {
        self.0.size() + T1::Ref::size() + T2::Ref::size() + T3::Ref::size() + T4::Ref::size() + T5::Ref::size()
    }

    open spec fn views(&self, r: usize, img: Image, lo: int, hi: int, deep: bool) -> bool {
        &&& r + T1::Ref::size() + T2::Ref::size() + T3::Ref::size() + T4::Ref::size() + T5::Ref::size() <= usize::MAX
        &&& T1::Ref::size() + T2::Ref::size() + T3::Ref::size() + T4::Ref::size() + T5::Ref::size() > 0 ==> lo <= r && r + T1::Ref::size() + T2::Ref::size() + T3::Ref::size() + T4::Ref::size() + T5::Ref::size() <= hi
        &&& head_views(self.0.0, r as int, img, lo, hi, deep)
        &&& head_views(self.0.1, r as int + T1::Ref::size(), img, lo, hi, deep)
        &&& head_views(self.0.2, r as int + T1::Ref::size() + T2::Ref::size(), img, lo, hi, deep)
        &&& head_views(self.0.3, r as int + T1::Ref::size() + T2::Ref::size() + T3::Ref::size(), img, lo, hi, deep)
        &&& head_views(self.0.4, r as int + T1::Ref::size() + T2::Ref::size() + T3::Ref::size() + T4::Ref::size(), img, lo, hi, deep)
    }

    open spec fn flat(&self) -> usize {
        0
    }

    open spec fn pins(&self, r: usize, img: Image) -> Seq<Piece> {
        head_pins(self.0.0, r as int, img) + head_pins(self.0.1, r as int + T1::Ref::size(), img) + head_pins(self.0.2, r as int + T1::Ref::size() + T2::Ref::size(), img) + head_pins(self.0.3, r as int + T1::Ref::size() + T2::Ref::size() + T3::Ref::size(), img) + head_pins(self.0.4, r as int + T1::Ref::size() + T2::Ref::size() + T3::Ref::size() + T4::Ref::size(), img)
    }

    proof fn lemma_flat(&self) {
    }

    proof fn lemma_primitive(&self, r: usize, img: Image, lo: int, hi: int, deep: bool) {
    }

    proof fn lemma_deepen(&self, r: usize, img: Image, other: Image, lo: int, hi: int) {
        lemma_holds_all_concat(other, head_pins(self.0.0, r as int, img) + head_pins(self.0.1, r as int + T1::Ref::size(), img) + head_pins(self.0.2, r as int + T1::Ref::size() + T2::Ref::size(), img) + head_pins(self.0.3, r as int + T1::Ref::size() + T2::Ref::size() + T3::Ref::size(), img), head_pins(self.0.4, r as int + T1::Ref::size() + T2::Ref::size() + T3::Ref::size() + T4::Ref::size(), img));
        lemma_holds_all_concat(other, head_pins(self.0.0, r as int, img) + head_pins(self.0.1, r as int + T1::Ref::size(), img) + head_pins(self.0.2, r as int + T1::Ref::size() + T2::Ref::size(), img), head_pins(self.0.3, r as int + T1::Ref::size() + T2::Ref::size() + T3::Ref::size(), img));
        lemma_holds_all_concat(other, head_pins(self.0.0, r as int, img) + head_pins(self.0.1, r as int + T1::Ref::size(), img), head_pins(self.0.2, r as int + T1::Ref::size() + T2::Ref::size(), img));
        lemma_holds_all_concat(other, head_pins(self.0.0, r as int, img), head_pins(self.0.1, r as int + T1::Ref::size(), img));
        lemma_head_deepen(self.0.0, r as int, img, other, lo, hi);
        lemma_head_deepen(self.0.1, r as int + T1::Ref::size(), img, other, lo, hi);
        lemma_head_deepen(self.0.2, r as int + T1::Ref::size() + T2::Ref::size(), img, other, lo, hi);
        lemma_head_deepen(self.0.3, r as int + T1::Ref::size() + T2::Ref::size() + T3::Ref::size(), img, other, lo, hi);
        lemma_head_deepen(self.0.4, r as int + T1::Ref::size() + T2::Ref::size() + T3::Ref::size() + T4::Ref::size(), img, other, lo, hi);
    }

    proof fn lemma_frame(&self, r: usize, img: Image, other: Image, lo: int, hi: int, deep: bool) {
        lemma_head_frame(self.0.0, r as int, img, other, lo, hi, deep);
        lemma_head_frame(self.0.1, r as int + T1::Ref::size(), img, other, lo, hi, deep);
        lemma_head_frame(self.0.2, r as int + T1::Ref::size() + T2::Ref::size(), img, other, lo, hi, deep);
        lemma_head_frame(self.0.3, r as int + T1::Ref::size() + T2::Ref::size() + T3::Ref::size(), img, other, lo, hi, deep);
        lemma_head_frame(self.0.4, r as int + T1::Ref::size() + T2::Ref::size() + T3::Ref::size() + T4::Ref::size(), img, other, lo, hi, deep);
    }

    proof fn lemma_widen(
        &self,
        r: usize,
        img: Image,
        lo: int,
        hi: int,
        wide_lo: int,
        wide_hi: int,
        deep: bool,
    ) {
        match head_at::<T1::Ref>(img, r as int) {
            Some(head) => {
                self.0.0.lemma_widen(head, img, lo, hi, wide_lo, wide_hi, deep);
            },
            None => {},
        }
        match head_at::<T2::Ref>(img, r as int + T1::Ref::size()) {
            Some(head) => {
                self.0.1.lemma_widen(head, img, lo, hi, wide_lo, wide_hi, deep);
            },
            None => {},
        }
        match head_at::<T3::Ref>(img, r as int + T1::Ref::size() + T2::Ref::size()) {
            Some(head) => {
                self.0.2.lemma_widen(head, img, lo, hi, wide_lo, wide_hi, deep);
            },
            None => {},
        }
        match head_at::<T4::Ref>(img, r as int + T1::Ref::size() + T2::Ref::size() + T3::Ref::size()) {
            Some(head) => {
                self.0.3.lemma_widen(head, img, lo, hi, wide_lo, wide_hi, deep);
            },
            None => {},
        }
        match head_at::<T5::Ref>(img, r as int + T1::Ref::size() + T2::Ref::size() + T3::Ref::size() + T4::Ref::size()) {
            Some(head) => {
                self.0.4.lemma_widen(head, img, lo, hi, wide_lo, wide_hi, deep);
            },
            None => {},
        }
    }

    fn mem_type_of() -> (t: MemType) {
        MemType::Complex
    }

    fn to_size(&self, acc: &mut usize) {
        self.0.to_size(acc);
        *acc = *acc + T1::Ref::size_of();
        *acc = *acc + T2::Ref::size_of();
        *acc = *acc + T3::Ref::size_of();
        *acc = *acc + T4::Ref::size_of();
        *acc = *acc + T5::Ref::size_of();
    }

    fn checked_size(&self, acc: usize) -> (sum: Option<usize>) {
        let mut sum = match self.0.checked_size(acc) {
            Some(next) => next,
            None => {
                return None;
            },
        };
        let size0 = T1::Ref::size_of();
        if size0 > usize::MAX - sum {
            return None;
        }
        sum = sum + size0;
        let size1 = T2::Ref::size_of();
        if size1 > usize::MAX - sum {
            return None;
        }
        sum = sum + size1;
        let size2 = T3::Ref::size_of();
        if size2 > usize::MAX - sum {
            return None;
        }
        sum = sum + size2;
        let size3 = T4::Ref::size_of();
        if size3 > usize::MAX - sum {
            return None;
        }
        sum = sum + size3;
        let size4 = T5::Ref::size_of();
        if size4 > usize::MAX - sum {
            return None;
        }
        sum = sum + size4;
        Some(sum)
    }

    fn to_ref(&self, writer: &mut Writer) -> (r: usize) {
        let ghost base = writer.base() as int;
        let ghost w0 = *writer;
        proof {
            writer.lemma_bounds();
        }
        let heads = self.0.to_ref(writer);
        let ghost v0 = *writer;
        proof {
            writer.lemma_bounds();
        }
        let ptr = writer.as_ptr();
        writer.put(&heads.0);
        let ghost v1 = *writer;
        proof {
            writer.lemma_bounds();
            T1::Ref::lemma_size();
            heads.0.lemma_layout();
            lemma_image_put(v0, v1, heads.0.encode());
        }
        writer.put(&heads.1);
        let ghost v2 = *writer;
        proof {
            writer.lemma_bounds();
            T2::Ref::lemma_size();
            heads.1.lemma_layout();
            lemma_image_put(v1, v2, heads.1.encode());
        }
        writer.put(&heads.2);
        let ghost v3 = *writer;
        proof {
            writer.lemma_bounds();
            T3::Ref::lemma_size();
            heads.2.lemma_layout();
            lemma_image_put(v2, v3, heads.2.encode());
        }
        writer.put(&heads.3);
        let ghost v4 = *writer;
        proof {
            writer.lemma_bounds();
            T4::Ref::lemma_size();
            heads.3.lemma_layout();
            lemma_image_put(v3, v4, heads.3.encode());
        }
        writer.put(&heads.4);
        let ghost v5 = *writer;
        proof {
            writer.lemma_bounds();
            T5::Ref::lemma_size();
            heads.4.lemma_layout();
            lemma_image_put(v4, v5, heads.4.encode());
        }
        proof {
            lemma_keeps_same(v5.arena(), v5.cursor());
            lemma_keeps_trans(v4.arena(), v5.arena(), v5.arena(), v4.cursor(), v5.cursor());
            lemma_keeps_trans(v3.arena(), v4.arena(), v5.arena(), v3.cursor(), v4.cursor());
            lemma_keeps_trans(v2.arena(), v3.arena(), v5.arena(), v2.cursor(), v3.cursor());
            lemma_keeps_trans(v1.arena(), v2.arena(), v5.arena(), v1.cursor(), v2.cursor());
            lemma_keeps_trans(v0.arena(), v1.arena(), v5.arena(), v0.cursor(), v1.cursor());
            lemma_keeps_trans(w0.arena(), v0.arena(), v5.arena(), w0.cursor(), v0.cursor());
            lemma_view_stays(&self.0.0, heads.0, v0, v5, base + w0.cursor(), base + v0.cursor());
            self.0.0.lemma_widen(heads.0, v5.image(), base + w0.cursor(), base + v0.cursor(), base + w0.cursor(), base + v5.cursor(), false);
            lemma_head_put(self.0.0, heads.0, v0, v1, v5, ptr as int, base + w0.cursor(), base + v5.cursor());
            lemma_view_stays(&self.0.1, heads.1, v0, v5, base + w0.cursor(), base + v0.cursor());
            self.0.1.lemma_widen(heads.1, v5.image(), base + w0.cursor(), base + v0.cursor(), base + w0.cursor(), base + v5.cursor(), false);
            lemma_head_put(self.0.1, heads.1, v1, v2, v5, ptr as int + T1::Ref::size(), base + w0.cursor(), base + v5.cursor());
            lemma_view_stays(&self.0.2, heads.2, v0, v5, base + w0.cursor(), base + v0.cursor());
            self.0.2.lemma_widen(heads.2, v5.image(), base + w0.cursor(), base + v0.cursor(), base + w0.cursor(), base + v5.cursor(), false);
            lemma_head_put(self.0.2, heads.2, v2, v3, v5, ptr as int + T1::Ref::size() + T2::Ref::size(), base + w0.cursor(), base + v5.cursor());
            lemma_view_stays(&self.0.3, heads.3, v0, v5, base + w0.cursor(), base + v0.cursor());
            self.0.3.lemma_widen(heads.3, v5.image(), base + w0.cursor(), base + v0.cursor(), base + w0.cursor(), base + v5.cursor(), false);
            lemma_head_put(self.0.3, heads.3, v3, v4, v5, ptr as int + T1::Ref::size() + T2::Ref::size() + T3::Ref::size(), base + w0.cursor(), base + v5.cursor());
            lemma_view_stays(&self.0.4, heads.4, v0, v5, base + w0.cursor(), base + v0.cursor());
            self.0.4.lemma_widen(heads.4, v5.image(), base + w0.cursor(), base + v0.cursor(), base + w0.cursor(), base + v5.cursor(), false);
            lemma_head_put(self.0.4, heads.4, v4, v5, v5, ptr as int + T1::Ref::size() + T2::Ref::size() + T3::Ref::size() + T4::Ref::size(), base + w0.cursor(), base + v5.cursor());
        }
        ptr
    }

    fn pinned<M: MemoryRead>(&self, r: &usize, mem: &M, out: &mut Vec<Segment>) {
        let mut addr: usize = *r;
        match mem.read(addr, T1::Ref::size_of()) {
            Some(bytes) => {
                let head = T1::Ref::from_bytes(&bytes);
                self.0.0.pinned(&head, mem, out);
            },
            None => {
                assert(false);
                return ;
            },
        }
        addr = addr + T1::Ref::size_of();
        match mem.read(addr, T2::Ref::size_of()) {
            Some(bytes) => {
                let head = T2::Ref::from_bytes(&bytes);
                self.0.1.pinned(&head, mem, out);
            },
            None => {
                assert(false);
                return ;
            },
        }
        addr = addr + T2::Ref::size_of();
        match mem.read(addr, T3::Ref::size_of()) {
            Some(bytes) => {
                let head = T3::Ref::from_bytes(&bytes);
                self.0.2.pinned(&head, mem, out);
            },
            None => {
                assert(false);
                return ;
            },
        }
        addr = addr + T3::Ref::size_of();
        match mem.read(addr, T4::Ref::size_of()) {
            Some(bytes) => {
                let head = T4::Ref::from_bytes(&bytes);
                self.0.3.pinned(&head, mem, out);
            },
            None => {
                assert(false);
                return ;
            },
        }
        addr = addr + T4::Ref::size_of();
        match mem.read(addr, T5::Ref::size_of()) {
            Some(bytes) => {
                let head = T5::Ref::from_bytes(&bytes);
                self.0.4.pinned(&head, mem, out);
            },
            None => {
                assert(false);
                return ;
            },
        }
        addr = addr + T5::Ref::size_of();
        assert(pieces_of(out@) =~= pieces_of(old(out)@) + self.pins(*r, mem.image()));
    }
}

impl<T1: FromRef, T2: FromRef, T3: FromRef, T4: FromRef, T5: FromRef> FromRef for CopyStruct<(T1, T2, T3, T4, T5)> where <T1 as ToRef>::Ref: Pod, <T2 as ToRef>::Ref: Pod, <T3 as ToRef>::Ref: Pod, <T4 as ToRef>::Ref: Pod, <T5 as ToRef>::Ref: Pod {
    open spec fn decoded(r: usize, img: Image) -> Option<(<T1 as DeepView>::V, <T2 as DeepView>::V, <T3 as DeepView>::V, <T4 as DeepView>::V, <T5 as DeepView>::V)> {
        if r + <T1 as ToRef>::Ref::size() + <T2 as ToRef>::Ref::size() + <T3 as ToRef>::Ref::size() + <T4 as ToRef>::Ref::size() + <T5 as ToRef>::Ref::size() > usize::MAX {
            None
        } else {
            match (head_decoded::<T1>(r as int, img), head_decoded::<T2>(r as int + <T1 as ToRef>::Ref::size(), img), head_decoded::<T3>(r as int + <T1 as ToRef>::Ref::size() + <T2 as ToRef>::Ref::size(), img), head_decoded::<T4>(r as int + <T1 as ToRef>::Ref::size() + <T2 as ToRef>::Ref::size() + <T3 as ToRef>::Ref::size(), img), head_decoded::<T5>(r as int + <T1 as ToRef>::Ref::size() + <T2 as ToRef>::Ref::size() + <T3 as ToRef>::Ref::size() + <T4 as ToRef>::Ref::size(), img)) {
                (Some(v0), Some(v1), Some(v2), Some(v3), Some(v4)) => Some((v0, v1, v2, v3, v4)),
                _ => None,
            }
        }
    }

    proof fn lemma_round_trip(&self, r: usize, img: Image, lo: int, hi: int) {
        match head_at::<<T1 as ToRef>::Ref>(img, r as int) {
            Some(head) => {
                self.0.0.lemma_round_trip(head, img, lo, hi);
            },
            None => {},
        }
        match head_at::<<T2 as ToRef>::Ref>(img, r as int + <T1 as ToRef>::Ref::size()) {
            Some(head) => {
                self.0.1.lemma_round_trip(head, img, lo, hi);
            },
            None => {},
        }
        match head_at::<<T3 as ToRef>::Ref>(img, r as int + <T1 as ToRef>::Ref::size() + <T2 as ToRef>::Ref::size()) {
            Some(head) => {
                self.0.2.lemma_round_trip(head, img, lo, hi);
            },
            None => {},
        }
        match head_at::<<T4 as ToRef>::Ref>(img, r as int + <T1 as ToRef>::Ref::size() + <T2 as ToRef>::Ref::size() + <T3 as ToRef>::Ref::size()) {
            Some(head) => {
                self.0.3.lemma_round_trip(head, img, lo, hi);
            },
            None => {},
        }
        match head_at::<<T5 as ToRef>::Ref>(img, r as int + <T1 as ToRef>::Ref::size() + <T2 as ToRef>::Ref::size() + <T3 as ToRef>::Ref::size() + <T4 as ToRef>::Ref::size()) {
            Some(head) => {
                self.0.4.lemma_round_trip(head, img, lo, hi);
            },
            None => {},
        }
    }

    fn from_ref<M: MemoryRead>(r: &usize, mem: &M) -> (o: Option<Self>) {
        let mut addr: usize = *r;
        let size0 = <T1 as ToRef>::Ref::size_of();
        if size0 > usize::MAX - addr {
            return None;
        }
        let start0 = addr;
        addr = addr + size0;
        let size1 = <T2 as ToRef>::Ref::size_of();
        if size1 > usize::MAX - addr {
            return None;
        }
        let start1 = addr;
        addr = addr + size1;
        let size2 = <T3 as ToRef>::Ref::size_of();
        if size2 > usize::MAX - addr {
            return None;
        }
        let start2 = addr;
        addr = addr + size2;
        let size3 = <T4 as ToRef>::Ref::size_of();
        if size3 > usize::MAX - addr {
            return None;
        }
        let start3 = addr;
        addr = addr + size3;
        let size4 = <T5 as ToRef>::Ref::size_of();
        if size4 > usize::MAX - addr {
            return None;
        }
        let start4 = addr;
        addr = addr + size4;
        let v0 = match mem.read(start0, size0) {
            Some(bytes) => {
                let head = <T1 as ToRef>::Ref::from_bytes(&bytes);
                match <T1 as FromRef>::from_ref(&head, mem) {
                    Some(v) => v,
                    None => {
                        return None;
                    },
                }
            },
            None => {
                return None;
            },
        };
        let v1 = match mem.read(start1, size1) {
            Some(bytes) => {
                let head = <T2 as ToRef>::Ref::from_bytes(&bytes);
                match <T2 as FromRef>::from_ref(&head, mem) {
                    Some(v) => v,
                    None => {
                        return None;
                    },
                }
            },
            None => {
                return None;
            },
        };
        let v2 = match mem.read(start2, size2) {
            Some(bytes) => {
                let head = <T3 as ToRef>::Ref::from_bytes(&bytes);
                match <T3 as FromRef>::from_ref(&head, mem) {
                    Some(v) => v,
                    None => {
                        return None;
                    },
                }
            },
            None => {
                return None;
            },
        };
        let v3 = match mem.read(start3, size3) {
            Some(bytes) => {
                let head = <T4 as ToRef>::Ref::from_bytes(&bytes);
                match <T4 as FromRef>::from_ref(&head, mem) {
                    Some(v) => v,
                    None => {
                        return None;
                    },
                }
            },
            None => {
                return None;
            },
        };
        let v4 = match mem.read(start4, size4) {
            Some(bytes) => {
                let head = <T5 as ToRef>::Ref::from_bytes(&bytes);
                match <T5 as FromRef>::from_ref(&head, mem) {
                    Some(v) => v,
                    None => {
                        return None;
                    },
                }
            },
            None => {
                return None;
            },
        };
        Some(CopyStruct((v0, v1, v2, v3, v4)))
    }
}

impl<T1: ToRef, T2: ToRef, T3: ToRef, T4: ToRef, T5: ToRef, T6: ToRef> ToRef for CopyStruct<(T1, T2, T3, T4, T5, T6)> where T1::Ref: Pod, T2::Ref: Pod, T3::Ref: Pod, T4::Ref: Pod, T5::Ref: Pod, T6::Ref: Pod {
    type Ref = usize;

    open spec fn mem_type() -> MemType {
        MemType::Complex
    }

    open spec fn size(&self) -> nat {
        self.0.size() + T1::Ref::size() + T2::Ref::size() + T3::Ref::size() + T4::Ref::size() + T5::Ref::size() + T6::Ref::size()
    }

    open spec fn views(&self, r: usize, img: Image, lo: int, hi: int, deep: bool) -> bool {
        &&& r + T1::Ref::size() + T2::Ref::size() + T3::Ref::size() + T4::Ref::size() + T5::Ref::size() + T6::Ref::size() <= usize::MAX
        &&& T1::Ref::size() + T2::Ref::size() + T3::Ref::size() + T4::Ref::size() + T5::Ref::size() + T6::Ref::size() > 0 ==> lo <= r && r + T1::Ref::size() + T2::Ref::size() + T3::Ref::size() + T4::Ref::size() + T5::Ref::size() + T6::Ref::size() <= hi
        &&& head_views(self.0.0, r as int, img, lo, hi, deep)
        &&& head_views(self.0.1, r as int + T1::Ref::size(), img, lo, hi, deep)
        &&& head_views(self.0.2, r as int + T1::Ref::size() + T2::Ref::size(), img, lo, hi, deep)
        &&& head_views(self.0.3, r as int + T1::Ref::size() + T2::Ref::size() + T3::Ref::size(), img, lo, hi, deep)
        &&& head_views(self.0.4, r as int + T1::Ref::size() + T2::Ref::size() + T3::Ref::size() + T4::Ref::size(), img, lo, hi, deep)
        &&& head_views(self.0.5, r as int + T1::Ref::size() + T2::Ref::size() + T3::Ref::size() + T4::Ref::size() + T5::Ref::size(), img, lo, hi, deep)
    }

    open spec fn flat(&self) -> usize {
        0
    }

    open spec fn pins(&self, r: usize, img: Image) -> Seq<Piece> {
        head_pins(self.0.0, r as int, img) + head_pins(self.0.1, r as int + T1::Ref::size(), img) + head_pins(self.0.2, r as int + T1::Ref::size() + T2::Ref::size(), img) + head_pins(self.0.3, r as int + T1::Ref::size() + T2::Ref::size() + T3::Ref::size(), img) + head_pins(self.0.4, r as int + T1::Ref::size() + T2::Ref::size() + T3::Ref::size() + T4::Ref::size(), img) + head_pins(self.0.5, r as int + T1::Ref::size() + T2::Ref::size() + T3::Ref::size() + T4::Ref::size() + T5::Ref::size(), img)
    }

    proof fn lemma_flat(&self) {
    }

    proof fn lemma_primitive(&self, r: usize, img: Image, lo: int, hi: int, deep: bool) {
    }

    proof fn lemma_deepen(&self, r: usize, img: Image, other: Image, lo: int, hi: int) {
        lemma_holds_all_concat(other, head_pins(self.0.0, r as int, img) + head_pins(self.0.1, r as int + T1::Ref::size(), img) + head_pins(self.0.2, r as int + T1::Ref::size() + T2::Ref::size(), img) + head_pins(self.0.3, r as int + T1::Ref::size() + T2::Ref::size() + T3::Ref::size(), img) + head_pins(self.0.4, r as int + T1::Ref::size() + T2::Ref::size() + T3::Ref::size() + T4::Ref::size(), img), head_pins(self.0.5, r as int + T1::Ref::size() + T2::Ref::size() + T3::Ref::size() + T4::Ref::size() + T5::Ref::size(), img));
        lemma_holds_all_concat(other, head_pins(self.0.0, r as int, img) + head_pins(self.0.1, r as int + T1::Ref::size(), img) + head_pins(self.0.2, r as int + T1::Ref::size() + T2::Ref::size(), img) + head_pins(self.0.3, r as int + T1::Ref::size() + T2::Ref::size() + T3::Ref::size(), img), head_pins(self.0.4, r as int + T1::Ref::size() + T2::Ref::size() + T3::Ref::size() + T4::Ref::size(), img));
        lemma_holds_all_concat(other, head_pins(self.0.0, r as int, img) + head_pins(self.0.1, r as int + T1::Ref::size(), img) + head_pins(self.0.2, r as int + T1::Ref::size() + T2::Ref::size(), img), head_pins(self.0.3, r as int + T1::Ref::size() + T2::Ref::size() + T3::Ref::size(), img));
        lemma_holds_all_concat(other, head_pins(self.0.0, r as int, img) + head_pins(self.0.1, r as int + T1::Ref::size(), img), head_pins(self.0.2, r as int + T1::Ref::size() + T2::Ref::size(), img));
        lemma_holds_all_concat(other, head_pins(self.0.0, r as int, img), head_pins(self.0.1, r as int + T1::Ref::size(), img));
        lemma_head_deepen(self.0.0, r as int, img, other, lo, hi);
        lemma_head_deepen(self.0.1, r as int + T1::Ref::size(), img, other, lo, hi);
        lemma_head_deepen(self.0.2, r as int + T1::Ref::size() + T2::Ref::size(), img, other, lo, hi);
        lemma_head_deepen(self.0.3, r as int + T1::Ref::size() + T2::Ref::size() + T3::Ref::size(), img, other, lo, hi);
        lemma_head_deepen(self.0.4, r as int + T1::Ref::size() + T2::Ref::size() + T3::Ref::size() + T4::Ref::size(), img, other, lo, hi);
        lemma_head_deepen(self.0.5, r as int + T1::Ref::size() + T2::Ref::size() + T3::Ref::size() + T4::Ref::size() + T5::Ref::size(), img, other, lo, hi);
    }

    proof fn lemma_frame(&self, r: usize, img: Image, other: Image, lo: int, hi: int, deep: bool) {
        lemma_head_frame(self.0.0, r as int, img, other, lo, hi, deep);
        lemma_head_frame(self.0.1, r as int + T1::Ref::size(), img, other, lo, hi, deep);
        lemma_head_frame(self.0.2, r as int + T1::Ref::size() + T2::Ref::size(), img, other, lo, hi, deep);
        lemma_head_frame(self.0.3, r as int + T1::Ref::size() + T2::Ref::size() + T3::Ref::size(), img, other, lo, hi, deep);
        lemma_head_frame(self.0.4, r as int + T1::Ref::size() + T2::Ref::size() + T3::Ref::size() + T4::Ref::size(), img, other, lo, hi, deep);
        lemma_head_frame(self.0.5, r as int + T1::Ref::size() + T2::Ref::size() + T3::Ref::size() + T4::Ref::size() + T5::Ref::size(), img, other, lo, hi, deep);
    }

    proof fn lemma_widen(
        &self,
        r: usize,
        img: Image,
        lo: int,
        hi: int,
        wide_lo: int,
        wide_hi: int,
        deep: bool,
    ) {
        match head_at::<T1::Ref>(img, r as int) {
            Some(head) => {
                self.0.0.lemma_widen(head, img, lo, hi, wide_lo, wide_hi, deep);
            },
            None => {},
        }
        match head_at::<T2::Ref>(img, r as int + T1::Ref::size()) {
            Some(head) => {
                self.0.1.lemma_widen(head, img, lo, hi, wide_lo, wide_hi, deep);
            },
            None => {},
        }
        match head_at::<T3::Ref>(img, r as int + T1::Ref::size() + T2::Ref::size()) {
            Some(head) => {
                self.0.2.lemma_widen(head, img, lo, hi, wide_lo, wide_hi, deep);
            },
            None => {},
        }
        match head_at::<T4::Ref>(img, r as int + T1::Ref::size() + T2::Ref::size() + T3::Ref::size()) {
            Some(head) => {
                self.0.3.lemma_widen(head, img, lo, hi, wide_lo, wide_hi, deep);
            },
            None => {},
        }
        match head_at::<T5::Ref>(img, r as int + T1::Ref::size() + T2::Ref::size() + T3::Ref::size() + T4::Ref::size()) {
            Some(head) => {
                self.0.4.lemma_widen(head, img, lo, hi, wide_lo, wide_hi, deep);
            },
            None => {},
        }
        match head_at::<T6::Ref>(img, r as int + T1::Ref::size() + T2::Ref::size() + T3::Ref::size() + T4::Ref::size() + T5::Ref::size()) {
            Some(head) => {
                self.0.5.lemma_widen(head, img, lo, hi, wide_lo, wide_hi, deep);
            },
            None => {},
        }
    }

    fn mem_type_of() -> (t: MemType) {
        MemType::Complex
    }

    fn to_size(&self, acc: &mut usize) {
        self.0.to_size(acc);
        *acc = *acc + T1::Ref::size_of();
        *acc = *acc + T2::Ref::size_of();
        *acc = *acc + T3::Ref::size_of();
        *acc = *acc + T4::Ref::size_of();
        *acc = *acc + T5::Ref::size_of();
        *acc = *acc + T6::Ref::size_of();
    }

    fn checked_size(&self, acc: usize) -> (sum: Option<usize>) {
        let mut sum = match self.0.checked_size(acc) {
            Some(next) => next,
            None => {
                return None;
            },
        };
        let size0 = T1::Ref::size_of();
        if size0 > usize::MAX - sum {
            return None;
        }
        sum = sum + size0;
        let size1 = T2::Ref::size_of();
        if size1 > usize::MAX - sum {
            return None;
        }
        sum = sum + size1;
        let size2 = T3::Ref::size_of();
        if size2 > usize::MAX - sum {
            return None;
        }
        sum = sum + size2;
        let size3 = T4::Ref::size_of();
        if size3 > usize::MAX - sum {
            return None;
        }
        sum = sum + size3;
        let size4 = T5::Ref::size_of();
        if size4 > usize::MAX - sum {
            return None;
        }
        sum = sum + size4;
        let size5 = T6::Ref::size_of();
        if size5 > usize::MAX - sum {
            return None;
        }
        sum = sum + size5;
        Some(sum)
    }

    fn to_ref(&self, writer: &mut Writer) -> (r: usize) {
        let ghost base = writer.base() as int;
        let ghost w0 = *writer;
        proof {
            writer.lemma_bounds();
        }
        let heads = self.0.to_ref(writer);
        let ghost v0 = *writer;
        proof {
            writer.lemma_bounds();
        }
        let ptr = writer.as_ptr();
        writer.put(&heads.0);
        let ghost v1 = *writer;
        proof {
            writer.lemma_bounds();
            T1::Ref::lemma_size();
            heads.0.lemma_layout();
            lemma_image_put(v0, v1, heads.0.encode());
        }
        writer.put(&heads.1);
        let ghost v2 = *writer;
        proof {
            writer.lemma_bounds();
            T2::Ref::lemma_size();
            heads.1.lemma_layout();
            lemma_image_put(v1, v2, heads.1.encode());
        }
        writer.put(&heads.2);
        let ghost v3 = *writer;
        proof {
            writer.lemma_bounds();
            T3::Ref::lemma_size();
            heads.2.lemma_layout();
            lemma_image_put(v2, v3, heads.2.encode());
        }
        writer.put(&heads.3);
        let ghost v4 = *writer;
        proof {
            writer.lemma_bounds();
            T4::Ref::lemma_size();
            heads.3.lemma_layout();
            lemma_image_put(v3, v4, heads.3.encode());
        }
        writer.put(&heads.4);
        let ghost v5 = *writer;
        proof {
            writer.lemma_bounds();
            T5::Ref::lemma_size();
            heads.4.lemma_layout();
            lemma_image_put(v4, v5, heads.4.encode());
        }
        writer.put(&heads.5);
        let ghost v6 = *writer;
        proof {
            writer.lemma_bounds();
            T6::Ref::lemma_size();
            heads.5.lemma_layout();
            lemma_image_put(v5, v6, heads.5.encode());
        }
        proof {
            lemma_keeps_same(v6.arena(), v6.cursor());
            lemma_keeps_trans(v5.arena(), v6.arena(), v6.arena(), v5.cursor(), v6.cursor());
            lemma_keeps_trans(v4.arena(), v5.arena(), v6.arena(), v4.cursor(), v5.cursor());
            lemma_keeps_trans(v3.arena(), v4.arena(), v6.arena(), v3.cursor(), v4.cursor());
            lemma_keeps_trans(v2.arena(), v3.arena(), v6.arena(), v2.cursor(), v3.cursor());
            lemma_keeps_trans(v1.arena(), v2.arena(), v6.arena(), v1.cursor(), v2.cursor());
            lemma_keeps_trans(v0.arena(), v1.arena(), v6.arena(), v0.cursor(), v1.cursor());
            lemma_keeps_trans(w0.arena(), v0.arena(), v6.arena(), w0.cursor(), v0.cursor());
            lemma_view_stays(&self.0.0, heads.0, v0, v6, base + w0.cursor(), base + v0.cursor());
            self.0.0.lemma_widen(heads.0, v6.image(), base + w0.cursor(), base + v0.cursor(), base + w0.cursor(), base + v6.cursor(), false);
            lemma_head_put(self.0.0, heads.0, v0, v1, v6, ptr as int, base + w0.cursor(), base + v6.cursor());
            lemma_view_stays(&self.0.1, heads.1, v0, v6, base + w0.cursor(), base + v0.cursor());
            self.0.1.lemma_widen(heads.1, v6.image(), base + w0.cursor(), base + v0.cursor(), base + w0.cursor(), base + v6.cursor(), false);
            lemma_head_put(self.0.1, heads.1, v1, v2, v6, ptr as int + T1::Ref::size(), base + w0.cursor(), base + v6.cursor());
            lemma_view_stays(&self.0.2, heads.2, v0, v6, base + w0.cursor(), base + v0.cursor());
            self.0.2.lemma_widen(heads.2, v6.image(), base + w0.cursor(), base + v0.cursor(), base + w0.cursor(), base + v6.cursor(), false);
            lemma_head_put(self.0.2, heads.2, v2, v3, v6, ptr as int + T1::Ref::size() + T2::Ref::size(), base + w0.cursor(), base + v6.cursor());
            lemma_view_stays(&self.0.3, heads.3, v0, v6, base + w0.cursor(), base + v0.cursor());
            self.0.3.lemma_widen(heads.3, v6.image(), base + w0.cursor(), base + v0.cursor(), base + w0.cursor(), base + v6.cursor(), false);
            lemma_head_put(self.0.3, heads.3, v3, v4, v6, ptr as int + T1::Ref::size() + T2::Ref::size() + T3::Ref::size(), base + w0.cursor(), base + v6.cursor());
            lemma_view_stays(&self.0.4, heads.4, v0, v6, base + w0.cursor(), base + v0.cursor());
            self.0.4.lemma_widen(heads.4, v6.image(), base + w0.cursor(), base + v0.cursor(), base + w0.cursor(), base + v6.cursor(), false);
            lemma_head_put(self.0.4, heads.4, v4, v5, v6, ptr as int + T1::Ref::size() + T2::Ref::size() + T3::Ref::size() + T4::Ref::size(), base + w0.cursor(), base + v6.cursor());
            lemma_view_stays(&self.0.5, heads.5, v0, v6, base + w0.cursor(), base + v0.cursor());
            self.0.5.lemma_widen(heads.5, v6.image(), base + w0.cursor(), base + v0.cursor(), base + w0.cursor(), base + v6.cursor(), false);
            lemma_head_put(self.0.5, heads.5, v5, v6, v6, ptr as int + T1::Ref::size() + T2::Ref::size() + T3::Ref::size() + T4::Ref::size() + T5::Ref::size(), base + w0.cursor(), base + v6.cursor());
        }
        ptr
    }

    fn pinned<M: MemoryRead>(&self, r: &usize, mem: &M, out: &mut Vec<Segment>) {
        let mut addr: usize = *r;
        match mem.read(addr, T1::Ref::size_of()) {
            Some(bytes) => {
                let head = T1::Ref::from_bytes(&bytes);
                self.0.0.pinned(&head, mem, out);
            },
            None => {
                assert(false);
                return ;
            },
        }
        addr = addr + T1::Ref::size_of();
        match mem.read(addr, T2::Ref::size_of()) {
            Some(bytes) => {
                let head = T2::Ref::from_bytes(&bytes);
                self.0.1.pinned(&head, mem, out);
            },
            None => {
                assert(false);
                return ;
            },
        }
        addr = addr + T2::Ref::size_of();
        match mem.read(addr, T3::Ref::size_of()) {
            Some(bytes) => {
                let head = T3::Ref::from_bytes(&bytes);
                self.0.2.pinned(&head, mem, out);
            },
            None => {
                assert(false);
                return ;
            },
        }
        addr = addr + T3::Ref::size_of();
        match mem.read(addr, T4::Ref::size_of()) {
            Some(bytes) => {
                let head = T4::Ref::from_bytes(&bytes);
                self.0.3.pinned(&head, mem, out);
            },
            None => {
                assert(false);
                return ;
            },
        }
        addr = addr + T4::Ref::size_of();
        match mem.read(addr, T5::Ref::size_of()) {
            Some(bytes) => {
                let head = T5::Ref::from_bytes(&bytes);
                self.0.4.pinned(&head, mem, out);
            },
            None => {
                assert(false);
                return ;
            },
        }
        addr = addr + T5::Ref::size_of();
        match mem.read(addr, T6::Ref::size_of()) {
            Some(bytes) => {
                let head = T6::Ref::from_bytes(&bytes);
                self.0.5.pinned(&head, mem, out);
            },
            None => {
                assert(false);
                return ;
            },
        }
        addr = addr + T6::Ref::size_of();
        assert(pieces_of(out@) =~= pieces_of(old(out)@) + self.pins(*r, mem.image()));
    }
}

impl<T1: FromRef, T2: FromRef, T3: FromRef, T4: FromRef, T5: FromRef, T6: FromRef> FromRef for CopyStruct<(T1, T2, T3, T4, T5, T6)> where <T1 as ToRef>::Ref: Pod, <T2 as ToRef>::Ref: Pod, <T3 as ToRef>::Ref: Pod, <T4 as ToRef>::Ref: Pod, <T5 as ToRef>::Ref: Pod, <T6 as ToRef>::Ref: Pod {
    open spec fn decoded(r: usize, img: Image) -> Option<(<T1 as DeepView>::V, <T2 as DeepView>::V, <T3 as DeepView>::V, <T4 as DeepView>::V, <T5 as DeepView>::V, <T6 as DeepView>::V)> {
        if r + <T1 as ToRef>::Ref::size() + <T2 as ToRef>::Ref::size() + <T3 as ToRef>::Ref::size() + <T4 as ToRef>::Ref::size() + <T5 as ToRef>::Ref::size() + <T6 as ToRef>::Ref::size() > usize::MAX {
            None
        } else {
            match (head_decoded::<T1>(r as int, img), head_decoded::<T2>(r as int + <T1 as ToRef>::Ref::size(), img), head_decoded::<T3>(r as int + <T1 as ToRef>::Ref::size() + <T2 as ToRef>::Ref::size(), img), head_decoded::<T4>(r as int + <T1 as ToRef>::Ref::size() + <T2 as ToRef>::Ref::size() + <T3 as ToRef>::Ref::size(), img), head_decoded::<T5>(r as int + <T1 as ToRef>::Ref::size() + <T2 as ToRef>::Ref::size() + <T3 as ToRef>::Ref::size() + <T4 as ToRef>::Ref::size(), img), head_decoded::<T6>(r as int + <T1 as ToRef>::Ref::size() + <T2 as ToRef>::Ref::size() + <T3 as ToRef>::Ref::size() + <T4 as ToRef>::Ref::size() + <T5 as ToRef>::Ref::size(), img)) {
                (Some(v0), Some(v1), Some(v2), Some(v3), Some(v4), Some(v5)) => Some((v0, v1, v2, v3, v4, v5)),
                _ => None,
            }
        }
    }

    proof fn lemma_round_trip(&self, r: usize, img: Image, lo: int, hi: int) {
        match head_at::<<T1 as ToRef>::Ref>(img, r as int) {
            Some(head) => {
                self.0.0.lemma_round_trip(head, img, lo, hi);
            },
            None => {},
        }
        match head_at::<<T2 as ToRef>::Ref>(img, r as int + <T1 as ToRef>::Ref::size()) {
            Some(head) => {
                self.0.1.lemma_round_trip(head, img, lo, hi);
            },
            None => {},
        }
        match head_at::<<T3 as ToRef>::Ref>(img, r as int + <T1 as ToRef>::Ref::size() + <T2 as ToRef>::Ref::size()) {
            Some(head) => {
                self.0.2.lemma_round_trip(head, img, lo, hi);
            },
            None => {},
        }
        match head_at::<<T4 as ToRef>::Ref>(img, r as int + <T1 as ToRef>::Ref::size() + <T2 as ToRef>::Ref::size() + <T3 as ToRef>::Ref::size()) {
            Some(head) => {
                self.0.3.lemma_round_trip(head, img, lo, hi);
            },
            None => {},
        }
        match head_at::<<T5 as ToRef>::Ref>(img, r as int + <T1 as ToRef>::Ref::size() + <T2 as ToRef>::Ref::size() + <T3 as ToRef>::Ref::size() + <T4 as ToRef>::Ref::size()) {
            Some(head) => {
                self.0.4.lemma_round_trip(head, img, lo, hi);
            },
            None => {},
        }
        match head_at::<<T6 as ToRef>::Ref>(img, r as int + <T1 as ToRef>::Ref::size() + <T2 as ToRef>::Ref::size() + <T3 as ToRef>::Ref::size() + <T4 as ToRef>::Ref::size() + <T5 as ToRef>::Ref::size()) {
            Some(head) => {
                self.0.5.lemma_round_trip(head, img, lo, hi);
            },
            None => {},
        }
    }

    fn from_ref<M: MemoryRead>(r: &usize, mem: &M) -> (o: Option<Self>) {
        let mut addr: usize = *r;
        let size0 = <T1 as ToRef>::Ref::size_of();
        if size0 > usize::MAX - addr {
            return None;
        }
        let start0 = addr;
        addr = addr + size0;
        let size1 = <T2 as ToRef>::Ref::size_of();
        if size1 > usize::MAX - addr {
            return None;
        }
        let start1 = addr;
        addr = addr + size1;
        let size2 = <T3 as ToRef>::Ref::size_of();
        if size2 > usize::MAX - addr {
            return None;
        }
        let start2 = addr;
        addr = addr + size2;
        let size3 = <T4 as ToRef>::Ref::size_of();
        if size3 > usize::MAX - addr {
            return None;
        }
        let start3 = addr;
        addr = addr + size3;
        let size4 = <T5 as ToRef>::Ref::size_of();
        if size4 > usize::MAX - addr {
            return None;
        }
        let start4 = addr;
        addr = addr + size4;
        let size5 = <T6 as ToRef>::Ref::size_of();
        if size5 > usize::MAX - addr {
            return None;
        }
        let start5 = addr;
        addr = addr + size5;
        let v0 = match mem.read(start0, size0) {
            Some(bytes) => {
                let head = <T1 as ToRef>::Ref::from_bytes(&bytes);
                match <T1 as FromRef>::from_ref(&head, mem) {
                    Some(v) => v,
                    None => {
                        return None;
                    },
                }
            },
            None => {
                return None;
            },
        };
        let v1 = match mem.read(start1, size1) {
            Some(bytes) => {
                let head = <T2 as ToRef>::Ref::from_bytes(&bytes);
                match <T2 as FromRef>::from_ref(&head, mem) {
                    Some(v) => v,
                    None => {
                        return None;
                    },
                }
            },
            None => {
                return None;
            },
        };
        let v2 = match mem.read(start2, size2) {
            Some(bytes) => {
                let head = <T3 as ToRef>::Ref::from_bytes(&bytes);
                match <T3 as FromRef>::from_ref(&head, mem) {
                    Some(v) => v,
                    None => {
                        return None;
                    },
                }
            },
            None => {
                return None;
            },
        };
        let v3 = match mem.read(start3, size3) {
            Some(bytes) => {
                let head = <T4 as ToRef>::Ref::from_bytes(&bytes);
                match <T4 as FromRef>::from_ref(&head, mem) {
                    Some(v) => v,
                    None => {
                        return None;
                    },
                }
            },
            None => {
                return None;
            },
        };
        let v4 = match mem.read(start4, size4) {
            Some(bytes) => {
                let head = <T5 as ToRef>::Ref::from_bytes(&bytes);
                match <T5 as FromRef>::from_ref(&head, mem) {
                    Some(v) => v,
                    None => {
                        return None;
                    },
                }
            },
            None => {
                return None;
            },
        };
        let v5 = match mem.read(start5, size5) {
            Some(bytes) => {
                let head = <T6 as ToRef>::Ref::from_bytes(&bytes);
                match <T6 as FromRef>::from_ref(&head, mem) {
                    Some(v) => v,
                    None => {
                        return None;
                    },
                }
            },
            None => {
                return None;
            },
        };
        Some(CopyStruct((v0, v1, v2, v3, v4, v5)))
    }
}

impl<T1: ToRef, T2: ToRef, T3: ToRef, T4: ToRef, T5: ToRef, T6: ToRef, T7: ToRef> ToRef for CopyStruct<(T1, T2, T3, T4, T5, T6, T7)> where T1::Ref: Pod, T2::Ref: Pod, T3::Ref: Pod, T4::Ref: Pod, T5::Ref: Pod, T6::Ref: Pod, T7::Ref: Pod {
    type Ref = usize;

    open spec fn mem_type() -> MemType {
        MemType::Complex
    }

    open spec fn size(&self) -> nat {
        self.0.size() + T1::Ref::size() + T2::Ref::size() + T3::Ref::size() + T4::Ref::size() + T5::Ref::size() + T6::Ref::size() + T7::Ref::size()
    }

    open spec fn views(&self, r: usize, img: Image, lo: int, hi: int, deep: bool) -> bool {
        &&& r + T1::Ref::size() + T2::Ref::size() + T3::Ref::size() + T4::Ref::size() + T5::Ref::size() + T6::Ref::size() + T7::Ref::size() <= usize::MAX
        &&& T1::Ref::size() + T2::Ref::size() + T3::Ref::size() + T4::Ref::size() + T5::Ref::size() + T6::Ref::size() + T7::Ref::size() > 0 ==> lo <= r && r + T1::Ref::size() + T2::Ref::size() + T3::Ref::size() + T4::Ref::size() + T5::Ref::size() + T6::Ref::size() + T7::Ref::size() <= hi
        &&& head_views(self.0.0, r as int, img, lo, hi, deep)
        &&& head_views(self.0.1, r as int + T1::Ref::size(), img, lo, hi, deep)
        &&& head_views(self.0.2, r as int + T1::Ref::size() + T2::Ref::size(), img, lo, hi, deep)
        &&& head_views(self.0.3, r as int + T1::Ref::size() + T2::Ref::size() + T3::Ref::size(), img, lo, hi, deep)
        &&& head_views(self.0.4, r as int + T1::Ref::size() + T2::Ref::size() + T3::Ref::size() + T4::Ref::size(), img, lo, hi, deep)
        &&& head_views(self.0.5, r as int + T1::Ref::size() + T2::Ref::size() + T3::Ref::size() + T4::Ref::size() + T5::Ref::size(), img, lo, hi, deep)
        &&& head_views(self.0.6, r as int + T1::Ref::size() + T2::Ref::size() + T3::Ref::size() + T4::Ref::size() + T5::Ref::size() + T6::Ref::size(), img, lo, hi, deep)
    }

    open spec fn flat(&self) -> usize {
        0
    }

    open spec fn pins(&self, r: usize, img: Image) -> Seq<Piece> {
        head_pins(self.0.0, r as int, img) + head_pins(self.0.1, r as int + T1::Ref::size(), img) + head_pins(self.0.2, r as int + T1::Ref::size() + T2::Ref::size(), img) + head_pins(self.0.3, r as int + T1::Ref::size() + T2::Ref::size() + T3::Ref::size(), img) + head_pins(self.0.4, r as int + T1::Ref::size() + T2::Ref::size() + T3::Ref::size() + T4::Ref::size(), img) + head_pins(self.0.5, r as int + T1::Ref::size() + T2::Ref::size() + T3::Ref::size() + T4::Ref::size() + T5::Ref::size(), img) + head_pins(self.0.6, r as int + T1::Ref::size() + T2::Ref::size() + T3::Ref::size() + T4::Ref::size() + T5::Ref::size() + T6::Ref::size(), img)
    }

    proof fn lemma_flat(&self) {
    }

    proof fn lemma_primitive(&self, r: usize, img: Image, lo: int, hi: int, deep: bool) {
    }

    proof fn lemma_deepen(&self, r: usize, img: Image, other: Image, lo: int, hi: int) {
        lemma_holds_all_concat(other, head_pins(self.0.0, r as int, img) + head_pins(self.0.1, r as int + T1::Ref::size(), img) + head_pins(self.0.2, r as int + T1::Ref::size() + T2::Ref::size(), img) + head_pins(self.0.3, r as int + T1::Ref::size() + T2::Ref::size() + T3::Ref::size(), img) + head_pins(self.0.4, r as int + T1::Ref::size() + T2::Ref::size() + T3::Ref::size() + T4::Ref::size(), img) + head_pins(self.0.5, r as int + T1::Ref::size() + T2::Ref::size() + T3::Ref::size() + T4::Ref::size() + T5::Ref::size(), img), head_pins(self.0.6, r as int + T1::Ref::size() + T2::Ref::size() + T3::Ref::size() + T4::Ref::size() + T5::Ref::size() + T6::Ref::size(), img));
        lemma_holds_all_concat(other, head_pins(self.0.0, r as int, img) + head_pins(self.0.1, r as int + T1::Ref::size(), img) + head_pins(self.0.2, r as int + T1::Ref::size() + T2::Ref::size(), img) + head_pins(self.0.3, r as int + T1::Ref::size() + T2::Ref::size() + T3::Ref::size(), img) + head_pins(self.0.4, r as int + T1::Ref::size() + T2::Ref::size() + T3::Ref::size() + T4::Ref::size(), img), head_pins(self.0.5, r as int + T1::Ref::size() + T2::Ref::size() + T3::Ref::size() + T4::Ref::size() + T5::Ref::size(), img));
        lemma_holds_all_concat(other, head_pins(self.0.0, r as int, img) + head_pins(self.0.1, r as int + T1::Ref::size(), img) + head_pins(self.0.2, r as int + T1::Ref::size() + T2::Ref::size(), img) + head_pins(self.0.3, r as int + T1::Ref::size() + T2::Ref::size() + T3::Ref::size(), img), head_pins(self.0.4, r as int + T1::Ref::size() + T2::Ref::size() + T3::Ref::size() + T4::Ref::size(), img));
        lemma_holds_all_concat(other, head_pins(self.0.0, r as int, img) + head_pins(self.0.1, r as int + T1::Ref::size(), img) + head_pins(self.0.2, r as int + T1::Ref::size() + T2::Ref::size(), img), head_pins(self.0.3, r as int + T1::Ref::size() + T2::Ref::size() + T3::Ref::size(), img));
        lemma_holds_all_concat(other, head_pins(self.0.0, r as int, img) + head_pins(self.0.1, r as int + T1::Ref::size(), img), head_pins(self.0.2, r as int + T1::Ref::size() + T2::Ref::size(), img));
        lemma_holds_all_concat(other, head_pins(self.0.0, r as int, img), head_pins(self.0.1, r as int + T1::Ref::size(), img));
        lemma_head_deepen(self.0.0, r as int, img, other, lo, hi);
        lemma_head_deepen(self.0.1, r as int + T1::Ref::size(), img, other, lo, hi);
        lemma_head_deepen(self.0.2, r as int + T1::Ref::size() + T2::Ref::size(), img, other, lo, hi);
        lemma_head_deepen(self.0.3, r as int + T1::Ref::size() + T2::Ref::size() + T3::Ref::size(), img, other, lo, hi);
        lemma_head_deepen(self.0.4, r as int + T1::Ref::size() + T2::Ref::size() + T3::Ref::size() + T4::Ref::size(), img, other, lo, hi);
        lemma_head_deepen(self.0.5, r as int + T1::Ref::size() + T2::Ref::size() + T3::Ref::size() + T4::Ref::size() + T5::Ref::size(), img, other, lo, hi);
        lemma_head_deepen(self.0.6, r as int + T1::Ref::size() + T2::Ref::size() + T3::Ref::size() + T4::Ref::size() + T5::Ref::size() + T6::Ref::size(), img, other, lo, hi);
    }

    proof fn lemma_frame(&self, r: usize, img: Image, other: Image, lo: int, hi: int, deep: bool) {
        lemma_head_frame(self.0.0, r as int, img, other, lo, hi, deep);
        lemma_head_frame(self.0.1, r as int + T1::Ref::size(), img, other, lo, hi, deep);
        lemma_head_frame(self.0.2, r as int + T1::Ref::size() + T2::Ref::size(), img, other, lo, hi, deep);
        lemma_head_frame(self.0.3, r as int + T1::Ref::size() + T2::Ref::size() + T3::Ref::size(), img, other, lo, hi, deep);
        lemma_head_frame(self.0.4, r as int + T1::Ref::size() + T2::Ref::size() + T3::Ref::size() + T4::Ref::size(), img, other, lo, hi, deep);
        lemma_head_frame(self.0.5, r as int + T1::Ref::size() + T2::Ref::size() + T3::Ref::size() + T4::Ref::size() + T5::Ref::size(), img, other, lo, hi, deep);
        lemma_head_frame(self.0.6, r as int + T1::Ref::size() + T2::Ref::size() + T3::Ref::size() + T4::Ref::size() + T5::Ref::size() + T6::Ref::size(), img, other, lo, hi, deep);
    }

    proof fn lemma_widen(
        &self,
        r: usize,
        img: Image,
        lo: int,
        hi: int,
        wide_lo: int,
        wide_hi: int,
        deep: bool,
    ) {
        match head_at::<T1::Ref>(img, r as int) {
            Some(head) => {
                self.0.0.lemma_widen(head, img, lo, hi, wide_lo, wide_hi, deep);
            },
            None => {},
        }
        match head_at::<T2::Ref>(img, r as int + T1::Ref::size()) {
            Some(head) => {
                self.0.1.lemma_widen(head, img, lo, hi, wide_lo, wide_hi, deep);
            },
            None => {},
        }
        match head_at::<T3::Ref>(img, r as int + T1::Ref::size() + T2::Ref::size()) {
            Some(head) => {
                self.0.2.lemma_widen(head, img, lo, hi, wide_lo, wide_hi, deep);
            },
            None => {},
        }
        match head_at::<T4::Ref>(img, r as int + T1::Ref::size() + T2::Ref::size() + T3::Ref::size()) {
            Some(head) => {
                self.0.3.lemma_widen(head, img, lo, hi, wide_lo, wide_hi, deep);
            },
            None => {},
        }
        match head_at::<T5::Ref>(img, r as int + T1::Ref::size() + T2::Ref::size() + T3::Ref::size() + T4::Ref::size()) {
            Some(head) => {
                self.0.4.lemma_widen(head, img, lo, hi, wide_lo, wide_hi, deep);
            },
            None => {},
        }
        match head_at::<T6::Ref>(img, r as int + T1::Ref::size() + T2::Ref::size() + T3::Ref::size() + T4::Ref::size() + T5::Ref::size()) {
            Some(head) => {
                self.0.5.lemma_widen(head, img, lo, hi, wide_lo, wide_hi, deep);
            },
            None => {},
        }
        match head_at::<T7::Ref>(img, r as int + T1::Ref::size() + T2::Ref::size() + T3::Ref::size() + T4::Ref::size() + T5::Ref::size() + T6::Ref::size()) {
            Some(head) => {
                self.0.6.lemma_widen(head, img, lo, hi, wide_lo, wide_hi, deep);
            },
            None => {},
        }
    }

    fn mem_type_of() -> (t: MemType) {
        MemType::Complex
    }

    fn to_size(&self, acc: &mut usize) {
        self.0.to_size(acc);
        *acc = *acc + T1::Ref::size_of();
        *acc = *acc + T2::Ref::size_of();
        *acc = *acc + T3::Ref::size_of();
        *acc = *acc + T4::Ref::size_of();
        *acc = *acc + T5::Ref::size_of();
        *acc = *acc + T6::Ref::size_of();
        *acc = *acc + T7::Ref::size_of();
    }

    fn checked_size(&self, acc: usize) -> (sum: Option<usize>) {
        let mut sum = match self.0.checked_size(acc) {
            Some(next) => next,
            None => {
                return None;
            },
        };
        let size0 = T1::Ref::size_of();
        if size0 > usize::MAX - sum {
            return None;
        }
        sum = sum + size0;
        let size1 = T2::Ref::size_of();
        if size1 > usize::MAX - sum {
            return None;
        }
        sum = sum + size1;
        let size2 = T3::Ref::size_of();
        if size2 > usize::MAX - sum {
            return None;
        }
        sum = sum + size2;
        let size3 = T4::Ref::size_of();
        if size3 > usize::MAX - sum {
            return None;
        }
        sum = sum + size3;
        let size4 = T5::Ref::size_of();
        if size4 > usize::MAX - sum {
            return None;
        }
        sum = sum + size4;
        let size5 = T6::Ref::size_of();
        if size5 > usize::MAX - sum {
            return None;
        }
        sum = sum + size5;
        let size6 = T7::Ref::size_of();
        if size6 > usize::MAX - sum {
            return None;
        }
        sum = sum + size6;
        Some(sum)
    }

    fn to_ref(&self, writer: &mut Writer) -> (r: usize) {
        let ghost base = writer.base() as int;
        let ghost w0 = *writer;
        proof {
            writer.lemma_bounds();
        }
        let heads = self.0.to_ref(writer);
        let ghost v0 = *writer;
        proof {
            writer.lemma_bounds();
        }
        let ptr = writer.as_ptr();
        writer.put(&heads.0);
        let ghost v1 = *writer;
        proof {
            writer.lemma_bounds();
            T1::Ref::lemma_size();
            heads.0.lemma_layout();
            lemma_image_put(v0, v1, heads.0.encode());
        }
        writer.put(&heads.1);
        let ghost v2 = *writer;
        proof {
            writer.lemma_bounds();
            T2::Ref::lemma_size();
            heads.1.lemma_layout();
            lemma_image_put(v1, v2, heads.1.encode());
        }
        writer.put(&heads.2);
        let ghost v3 = *writer;
        proof {
            writer.lemma_bounds();
            T3::Ref::lemma_size();
            heads.2.lemma_layout();
            lemma_image_put(v2, v3, heads.2.encode());
        }
        writer.put(&heads.3);
        let ghost v4 = *writer;
        proof {
            writer.lemma_bounds();
            T4::Ref::lemma_size();
            heads.3.lemma_layout();
            lemma_image_put(v3, v4, heads.3.encode());
        }
        writer.put(&heads.4);
        let ghost v5 = *writer;
        proof {
            writer.lemma_bounds();
            T5::Ref::lemma_size();
            heads.4.lemma_layout();
            lemma_image_put(v4, v5, heads.4.encode());
        }
        writer.put(&heads.5);
        let ghost v6 = *writer;
        proof {
            writer.lemma_bounds();
            T6::Ref::lemma_size();
            heads.5.lemma_layout();
            lemma_image_put(v5, v6, heads.5.encode());
        }
        writer.put(&heads.6);
        let ghost v7 = *writer;
        proof {
            writer.lemma_bounds();
            T7::Ref::lemma_size();
            heads.6.lemma_layout();
            lemma_image_put(v6, v7, heads.6.encode());
        }
        proof {
            lemma_keeps_same(v7.arena(), v7.cursor());
            lemma_keeps_trans(v6.arena(), v7.arena(), v7.arena(), v6.cursor(), v7.cursor());
            lemma_keeps_trans(v5.arena(), v6.arena(), v7.arena(), v5.cursor(), v6.cursor());
            lemma_keeps_trans(v4.arena(), v5.arena(), v7.arena(), v4.cursor(), v5.cursor());
            lemma_keeps_trans(v3.arena(), v4.arena(), v7.arena(), v3.cursor(), v4.cursor());
            lemma_keeps_trans(v2.arena(), v3.arena(), v7.arena(), v2.cursor(), v3.cursor());
            lemma_keeps_trans(v1.arena(), v2.arena(), v7.arena(), v1.cursor(), v2.cursor());
            lemma_keeps_trans(v0.arena(), v1.arena(), v7.arena(), v0.cursor(), v1.cursor());
            lemma_keeps_trans(w0.arena(), v0.arena(), v7.arena(), w0.cursor(), v0.cursor());
            lemma_view_stays(&self.0.0, heads.0, v0, v7, base + w0.cursor(), base + v0.cursor());
            self.0.0.lemma_widen(heads.0, v7.image(), base + w0.cursor(), base + v0.cursor(), base + w0.cursor(), base + v7.cursor(), false);
            lemma_head_put(self.0.0, heads.0, v0, v1, v7, ptr as int, base + w0.cursor(), base + v7.cursor());
            lemma_view_stays(&self.0.1, heads.1, v0, v7, base + w0.cursor(), base + v0.cursor());
            self.0.1.lemma_widen(heads.1, v7.image(), base + w0.cursor(), base + v0.cursor(), base + w0.cursor(), base + v7.cursor(), false);
            lemma_head_put(self.0.1, heads.1, v1, v2, v7, ptr as int + T1::Ref::size(), base + w0.cursor(), base + v7.cursor());
            lemma_view_stays(&self.0.2, heads.2, v0, v7, base + w0.cursor(), base + v0.cursor());
            self.0.2.lemma_widen(heads.2, v7.image(), base + w0.cursor(), base + v0.cursor(), base + w0.cursor(), base + v7.cursor(), false);
            lemma_head_put(self.0.2, heads.2, v2, v3, v7, ptr as int + T1::Ref::size() + T2::Ref::size(), base + w0.cursor(), base + v7.cursor());
            lemma_view_stays(&self.0.3, heads.3, v0, v7, base + w0.cursor(), base + v0.cursor());
            self.0.3.lemma_widen(heads.3, v7.image(), base + w0.cursor(), base + v0.cursor(), base + w0.cursor(), base + v7.cursor(), false);
            lemma_head_put(self.0.3, heads.3, v3, v4, v7, ptr as int + T1::Ref::size() + T2::Ref::size() + T3::Ref::size(), base + w0.cursor(), base + v7.cursor());
            lemma_view_stays(&self.0.4, heads.4, v0, v7, base + w0.cursor(), base + v0.cursor());
            self.0.4.lemma_widen(heads.4, v7.image(), base + w0.cursor(), base + v0.cursor(), base + w0.cursor(), base + v7.cursor(), false);
            lemma_head_put(self.0.4, heads.4, v4, v5, v7, ptr as int + T1::Ref::size() + T2::Ref::size() + T3::Ref::size() + T4::Ref::size(), base + w0.cursor(), base + v7.cursor());
            lemma_view_stays(&self.0.5, heads.5, v0, v7, base + w0.cursor(), base + v0.cursor());
            self.0.5.lemma_widen(heads.5, v7.image(), base + w0.cursor(), base + v0.cursor(), base + w0.cursor(), base + v7.cursor(), false);
            lemma_head_put(self.0.5, heads.5, v5, v6, v7, ptr as int + T1::Ref::size() + T2::Ref::size() + T3::Ref::size() + T4::Ref::size() + T5::Ref::size(), base + w0.cursor(), base + v7.cursor());
            lemma_view_stays(&self.0.6, heads.6, v0, v7, base + w0.cursor(), base + v0.cursor());
            self.0.6.lemma_widen(heads.6, v7.image(), base + w0.cursor(), base + v0.cursor(), base + w0.cursor(), base + v7.cursor(), false);
            lemma_head_put(self.0.6, heads.6, v6, v7, v7, ptr as int + T1::Ref::size() + T2::Ref::size() + T3::Ref::size() + T4::Ref::size() + T5::Ref::size() + T6::Ref::size(), base + w0.cursor(), base + v7.cursor());
        }
        ptr
    }

    fn pinned<M: MemoryRead>(&self, r: &usize, mem: &M, out: &mut Vec<Segment>) {
        let mut addr: usize = *r;
        match mem.read(addr, T1::Ref::size_of()) {
            Some(bytes) => {
                let head = T1::Ref::from_bytes(&bytes);
                self.0.0.pinned(&head, mem, out);
            },
            None => {
                assert(false);
                return ;
            },
        }
        addr = addr + T1::Ref::size_of();
        match mem.read(addr, T2::Ref::size_of()) {
            Some(bytes) => {
                let head = T2::Ref::from_bytes(&bytes);
                self.0.1.pinned(&head, mem, out);
            },
            None => {
                assert(false);
                return ;
            },
        }
        addr = addr + T2::Ref::size_of();
        match mem.read(addr, T3::Ref::size_of()) {
            Some(bytes) => {
                let head = T3::Ref::from_bytes(&bytes);
                self.0.2.pinned(&head, mem, out);
            },
            None => {
                assert(false);
                return ;
            },
        }
        addr = addr + T3::Ref::size_of();
        match mem.read(addr, T4::Ref::size_of()) {
            Some(bytes) => {
                let head = T4::Ref::from_bytes(&bytes);
                self.0.3.pinned(&head, mem, out);
            },
            None => {
                assert(false);
                return ;
            },
        }
        addr = addr + T4::Ref::size_of();
        match mem.read(addr, T5::Ref::size_of()) {
            Some(bytes) => {
                let head = T5::Ref::from_bytes(&bytes);
                self.0.4.pinned(&head, mem, out);
            },
            None => {
                assert(false);
                return ;
            },
        }
        addr = addr + T5::Ref::size_of();
        match mem.read(addr, T6::Ref::size_of()) {
            Some(bytes) => {
                let head = T6::Ref::from_bytes(&bytes);
                self.0.5.pinned(&head, mem, out);
            },
            None => {
                assert(false);
                return ;
            },
        }
        addr = addr + T6::Ref::size_of();
        match mem.read(addr, T7::Ref::size_of()) {
            Some(bytes) => {
                let head = T7::Ref::from_bytes(&bytes);
                self.0.6.pinned(&head, mem, out);
            },
            None => {
                assert(false);
                return ;
            },
        }
        addr = addr + T7::Ref::size_of();
        assert(pieces_of(out@) =~= pieces_of(old(out)@) + self.pins(*r, mem.image()));
    }
}

impl<T1: FromRef, T2: FromRef, T3: FromRef, T4: FromRef, T5: FromRef, T6: FromRef, T7: FromRef> FromRef for CopyStruct<(T1, T2, T3, T4, T5, T6, T7)> where <T1 as ToRef>::Ref: Pod, <T2 as ToRef>::Ref: Pod, <T3 as ToRef>::Ref: Pod, <T4 as ToRef>::Ref: Pod, <T5 as ToRef>::Ref: Pod, <T6 as ToRef>::Ref: Pod, <T7 as ToRef>::Ref: Pod {
    open spec fn decoded(r: usize, img: Image) -> Option<(<T1 as DeepView>::V, <T2 as DeepView>::V, <T3 as DeepView>::V, <T4 as DeepView>::V, <T5 as DeepView>::V, <T6 as DeepView>::V, <T7 as DeepView>::V)> {
        if r + <T1 as ToRef>::Ref::size() + <T2 as ToRef>::Ref::size() + <T3 as ToRef>::Ref::size() + <T4 as ToRef>::Ref::size() + <T5 as ToRef>::Ref::size() + <T6 as ToRef>::Ref::size() + <T7 as ToRef>::Ref::size() > usize::MAX {
            None
        } else {
            match (head_decoded::<T1>(r as int, img), head_decoded::<T2>(r as int + <T1 as ToRef>::Ref::size(), img), head_decoded::<T3>(r as int + <T1 as ToRef>::Ref::size() + <T2 as ToRef>::Ref::size(), img), head_decoded::<T4>(r as int + <T1 as ToRef>::Ref::size() + <T2 as ToRef>::Ref::size() + <T3 as ToRef>::Ref::size(), img), head_decoded::<T5>(r as int + <T1 as ToRef>::Ref::size() + <T2 as ToRef>::Ref::size() + <T3 as ToRef>::Ref::size() + <T4 as ToRef>::Ref::size(), img), head_decoded::<T6>(r as int + <T1 as ToRef>::Ref::size() + <T2 as ToRef>::Ref::size() + <T3 as ToRef>::Ref::size() + <T4 as ToRef>::Ref::size() + <T5 as ToRef>::Ref::size(), img), head_decoded::<T7>(r as int + <T1 as ToRef>::Ref::size() + <T2 as ToRef>::Ref::size() + <T3 as ToRef>::Ref::size() + <T4 as ToRef>::Ref::size() + <T5 as ToRef>::Ref::size() + <T6 as ToRef>::Ref::size(), img)) {
                (Some(v0), Some(v1), Some(v2), Some(v3), Some(v4), Some(v5), Some(v6)) => Some((v0, v1, v2, v3, v4, v5, v6)),
                _ => None,
            }
        }
    }

    proof fn lemma_round_trip(&self, r: usize, img: Image, lo: int, hi: int) {
        match head_at::<<T1 as ToRef>::Ref>(img, r as int) {
            Some(head) => {
                self.0.0.lemma_round_trip(head, img, lo, hi);
            },
            None => {},
        }
        match head_at::<<T2 as ToRef>::Ref>(img, r as int + <T1 as ToRef>::Ref::size()) {
            Some(head) => {
                self.0.1.lemma_round_trip(head, img, lo, hi);
            },
            None => {},
        }
        match head_at::<<T3 as ToRef>::Ref>(img, r as int + <T1 as ToRef>::Ref::size() + <T2 as ToRef>::Ref::size()) {
            Some(head) => {
                self.0.2.lemma_round_trip(head, img, lo, hi);
            },
            None => {},
        }
        match head_at::<<T4 as ToRef>::Ref>(img, r as int + <T1 as ToRef>::Ref::size() + <T2 as ToRef>::Ref::size() + <T3 as ToRef>::Ref::size()) {
            Some(head) => {
                self.0.3.lemma_round_trip(head, img, lo, hi);
            },
            None => {},
        }
        match head_at::<<T5 as ToRef>::Ref>(img, r as int + <T1 as ToRef>::Ref::size() + <T2 as ToRef>::Ref::size() + <T3 as ToRef>::Ref::size() + <T4 as ToRef>::Ref::size()) {
            Some(head) => {
                self.0.4.lemma_round_trip(head, img, lo, hi);
            },
            None => {},
        }
        match head_at::<<T6 as ToRef>::Ref>(img, r as int + <T1 as ToRef>::Ref::size() + <T2 as ToRef>::Ref::size() + <T3 as ToRef>::Ref::size() + <T4 as ToRef>::Ref::size() + <T5 as ToRef>::Ref::size()) {
            Some(head) => {
                self.0.5.lemma_round_trip(head, img, lo, hi);
            },
            None => {},
        }
        match head_at::<<T7 as ToRef>::Ref>(img, r as int + <T1 as ToRef>::Ref::size() + <T2 as ToRef>::Ref::size() + <T3 as ToRef>::Ref::size() + <T4 as ToRef>::Ref::size() + <T5 as ToRef>::Ref::size() + <T6 as ToRef>::Ref::size()) {
            Some(head) => {
                self.0.6.lemma_round_trip(head, img, lo, hi);
            },
            None => {},
        }
    }

    fn from_ref<M: MemoryRead>(r: &usize, mem: &M) -> (o: Option<Self>) {
        let mut addr: usize = *r;
        let size0 = <T1 as ToRef>::Ref::size_of();
        if size0 > usize::MAX - addr {
            return None;
        }
        let start0 = addr;
        addr = addr + size0;
        let size1 = <T2 as ToRef>::Ref::size_of();
        if size1 > usize::MAX - addr {
            return None;
        }
        let start1 = addr;
        addr = addr + size1;
        let size2 = <T3 as ToRef>::Ref::size_of();
        if size2 > usize::MAX - addr {
            return None;
        }
        let start2 = addr;
        addr = addr + size2;
        let size3 = <T4 as ToRef>::Ref::size_of();
        if size3 > usize::MAX - addr {
            return None;
        }
        let start3 = addr;
        addr = addr + size3;
        let size4 = <T5 as ToRef>::Ref::size_of();
        if size4 > usize::MAX - addr {
            return None;
        }
        let start4 = addr;
        addr = addr + size4;
        let size5 = <T6 as ToRef>::Ref::size_of();
        if size5 > usize::MAX - addr {
            return None;
        }
        let start5 = addr;
        addr = addr + size5;
        let size6 = <T7 as ToRef>::Ref::size_of();
        if size6 > usize::MAX - addr {
            return None;
        }
        let start6 = addr;
        addr = addr + size6;
        let v0 = match mem.read(start0, size0) {
            Some(bytes) => {
                let head = <T1 as ToRef>::Ref::from_bytes(&bytes);
                match <T1 as FromRef>::from_ref(&head, mem) {
                    Some(v) => v,
                    None => {
                        return None;
                    },
                }
            },
            None => {
                return None;
            },
        };
        let v1 = match mem.read(start1, size1) {
            Some(bytes) => {
                let head = <T2 as ToRef>::Ref::from_bytes(&bytes);
                match <T2 as FromRef>::from_ref(&head, mem) {
                    Some(v) => v,
                    None => {
                        return None;
                    },
                }
            },
            None => {
                return None;
            },
        };
        let v2 = match mem.read(start2, size2) {
            Some(bytes) => {
                let head = <T3 as ToRef>::Ref::from_bytes(&bytes);
                match <T3 as FromRef>::from_ref(&head, mem) {
                    Some(v) => v,
                    None => {
                        return None;
                    },
                }
            },
            None => {
                return None;
            },
        };
        let v3 = match mem.read(start3, size3) {
            Some(bytes) => {
                let head = <T4 as ToRef>::Ref::from_bytes(&bytes);
                match <T4 as FromRef>::from_ref(&head, mem) {
                    Some(v) => v,
                    None => {
                        return None;
                    },
                }
            },
            None => {
                return None;
            },
        };
        let v4 = match mem.read(start4, size4) {
            Some(bytes) => {
                let head = <T5 as ToRef>::Ref::from_bytes(&bytes);
                match <T5 as FromRef>::from_ref(&head, mem) {
                    Some(v) => v,
                    None => {
                        return None;
                    },
                }
            },
            None => {
                return None;
            },
        };
        let v5 = match mem.read(start5, size5) {
            Some(bytes) => {
                let head = <T6 as ToRef>::Ref::from_bytes(&bytes);
                match <T6 as FromRef>::from_ref(&head, mem) {
                    Some(v) => v,
                    None => {
                        return None;
                    },
                }
            },
            None => {
                return None;
            },
        };
        let v6 = match mem.read(start6, size6) {
            Some(bytes) => {
                let head = <T7 as ToRef>::Ref::from_bytes(&bytes);
                match <T7 as FromRef>::from_ref(&head, mem) {
                    Some(v) => v,
                    None => {
                        return None;
                    },
                }
            },
            None => {
                return None;
            },
        };
        Some(CopyStruct((v0, v1, v2, v3, v4, v5, v6)))
    }
}

impl<T1: ToRef, T2: ToRef, T3: ToRef, T4: ToRef, T5: ToRef, T6: ToRef, T7: ToRef, T8: ToRef> ToRef for CopyStruct<(T1, T2, T3, T4, T5, T6, T7, T8)> where T1::Ref: Pod, T2::Ref: Pod, T3::Ref: Pod, T4::Ref: Pod, T5::Ref: Pod, T6::Ref: Pod, T7::Ref: Pod, T8::Ref: Pod {
    type Ref = usize;

    open spec fn mem_type() -> MemType {
        MemType::Complex
    }

    open spec fn size(&self) -> nat {
        self.0.size() + T1::Ref::size() + T2::Ref::size() + T3::Ref::size() + T4::Ref::size() + T5::Ref::size() + T6::Ref::size() + T7::Ref::size() + T8::Ref::size()
    }

    open spec fn views(&self, r: usize, img: Image, lo: int, hi: int, deep: bool) -> bool {
        &&& r + T1::Ref::size() + T2::Ref::size() + T3::Ref::size() + T4::Ref::size() + T5::Ref::size() + T6::Ref::size() + T7::Ref::size() + T8::Ref::size() <= usize::MAX
        &&& T1::Ref::size() + T2::Ref::size() + T3::Ref::size() + T4::Ref::size() + T5::Ref::size() + T6::Ref::size() + T7::Ref::size() + T8::Ref::size() > 0 ==> lo <= r && r + T1::Ref::size() + T2::Ref::size() + T3::Ref::size() + T4::Ref::size() + T5::Ref::size() + T6::Ref::size() + T7::Ref::size() + T8::Ref::size() <= hi
        &&& head_views(self.0.0, r as int, img, lo, hi, deep)
        &&& head_views(self.0.1, r as int + T1::Ref::size(), img, lo, hi, deep)
        &&& head_views(self.0.2, r as int + T1::Ref::size() + T2::Ref::size(), img, lo, hi, deep)
        &&& head_views(self.0.3, r as int + T1::Ref::size() + T2::Ref::size() + T3::Ref::size(), img, lo, hi, deep)
        &&& head_views(self.0.4, r as int + T1::Ref::size() + T2::Ref::size() + T3::Ref::size() + T4::Ref::size(), img, lo, hi, deep)
        &&& head_views(self.0.5, r as int + T1::Ref::size() + T2::Ref::size() + T3::Ref::size() + T4::Ref::size() + T5::Ref::size(), img, lo, hi, deep)
        &&& head_views(self.0.6, r as int + T1::Ref::size() + T2::Ref::size() + T3::Ref::size() + T4::Ref::size() + T5::Ref::size() + T6::Ref::size(), img, lo, hi, deep)
        &&& head_views(self.0.7, r as int + T1::Ref::size() + T2::Ref::size() + T3::Ref::size() + T4::Ref::size() + T5::Ref::size() + T6::Ref::size() + T7::Ref::size(), img, lo, hi, deep)
    }

    open spec fn flat(&self) -> usize {
        0
    }

    open spec fn pins(&self, r: usize, img: Image) -> Seq<Piece> {
        head_pins(self.0.0, r as int, img) + head_pins(self.0.1, r as int + T1::Ref::size(), img) + head_pins(self.0.2, r as int + T1::Ref::size() + T2::Ref::size(), img) + head_pins(self.0.3, r as int + T1::Ref::size() + T2::Ref::size() + T3::Ref::size(), img) + head_pins(self.0.4, r as int + T1::Ref::size() + T2::Ref::size() + T3::Ref::size() + T4::Ref::size(), img) + head_pins(self.0.5, r as int + T1::Ref::size() + T2::Ref::size() + T3::Ref::size() + T4::Ref::size() + T5::Ref::size(), img) + head_pins(self.0.6, r as int + T1::Ref::size() + T2::Ref::size() + T3::Ref::size() + T4::Ref::size() + T5::Ref::size() + T6::Ref::size(), img) + head_pins(self.0.7, r as int + T1::Ref::size() + T2::Ref::size() + T3::Ref::size() + T4::Ref::size() + T5::Ref::size() + T6::Ref::size() + T7::Ref::size(), img)
    }

    proof fn lemma_flat(&self) {
    }

    proof fn lemma_primitive(&self, r: usize, img: Image, lo: int, hi: int, deep: bool) {
    }

    proof fn lemma_deepen(&self, r: usize, img: Image, other: Image, lo: int, hi: int) {
        lemma_holds_all_concat(other, head_pins(self.0.0, r as int, img) + head_pins(self.0.1, r as int + T1::Ref::size(), img) + head_pins(self.0.2, r as int + T1::Ref::size() + T2::Ref::size(), img) + head_pins(self.0.3, r as int + T1::Ref::size() + T2::Ref::size() + T3::Ref::size(), img) + head_pins(self.0.4, r as int + T1::Ref::size() + T2::Ref::size() + T3::Ref::size() + T4::Ref::size(), img) + head_pins(self.0.5, r as int + T1::Ref::size() + T2::Ref::size() + T3::Ref::size() + T4::Ref::size() + T5::Ref::size(), img) + head_pins(self.0.6, r as int + T1::Ref::size() + T2::Ref::size() + T3::Ref::size() + T4::Ref::size() + T5::Ref::size() + T6::Ref::size(), img), head_pins(self.0.7, r as int + T1::Ref::size() + T2::Ref::size() + T3::Ref::size() + T4::Ref::size() + T5::Ref::size() + T6::Ref::size() + T7::Ref::size(), img));
        lemma_holds_all_concat(other, head_pins(self.0.0, r as int, img) + head_pins(self.0.1, r as int + T1::Ref::size(), img) + head_pins(self.0.2, r as int + T1::Ref::size() + T2::Ref::size(), img) + head_pins(self.0.3, r as int + T1::Ref::size() + T2::Ref::size() + T3::Ref::size(), img) + head_pins(self.0.4, r as int + T1::Ref::size() + T2::Ref::size() + T3::Ref::size() + T4::Ref::size(), img) + head_pins(self.0.5, r as int + T1::Ref::size() + T2::Ref::size() + T3::Ref::size() + T4::Ref::size() + T5::Ref::size(), img), head_pins(self.0.6, r as int + T1::Ref::size() + T2::Ref::size() + T3::Ref::size() + T4::Ref::size() + T5::Ref::size() + T6::Ref::size(), img));
        lemma_holds_all_concat(other, head_pins(self.0.0, r as int, img) + head_pins(self.0.1, r as int + T1::Ref::size(), img) + head_pins(self.0.2, r as int + T1::Ref::size() + T2::Ref::size(), img) + head_pins(self.0.3, r as int + T1::Ref::size() + T2::Ref::size() + T3::Ref::size(), img) + head_pins(self.0.4, r as int + T1::Ref::size() + T2::Ref::size() + T3::Ref::size() + T4::Ref::size(), img), head_pins(self.0.5, r as int + T1::Ref::size() + T2::Ref::size() + T3::Ref::size() + T4::Ref::size() + T5::Ref::size(), img));
        lemma_holds_all_concat(other, head_pins(self.0.0, r as int, img) + head_pins(self.0.1, r as int + T1::Ref::size(), img) + head_pins(self.0.2, r as int + T1::Ref::size() + T2::Ref::size(), img) + head_pins(self.0.3, r as int + T1::Ref::size() + T2::Ref::size() + T3::Ref::size(), img), head_pins(self.0.4, r as int + T1::Ref::size() + T2::Ref::size() + T3::Ref::size() + T4::Ref::size(), img));
        lemma_holds_all_concat(other, head_pins(self.0.0, r as int, img) + head_pins(self.0.1, r as int + T1::Ref::size(), img) + head_pins(self.0.2, r as int + T1::Ref::size() + T2::Ref::size(), img), head_pins(self.0.3, r as int + T1::Ref::size() + T2::Ref::size() + T3::Ref::size(), img));
        lemma_holds_all_concat(other, head_pins(self.0.0, r as int, img) + head_pins(self.0.1, r as int + T1::Ref::size(), img), head_pins(self.0.2, r as int + T1::Ref::size() + T2::Ref::size(), img));
        lemma_holds_all_concat(other, head_pins(self.0.0, r as int, img), head_pins(self.0.1, r as int + T1::Ref::size(), img));
        lemma_head_deepen(self.0.0, r as int, img, other, lo, hi);
        lemma_head_deepen(self.0.1, r as int + T1::Ref::size(), img, other, lo, hi);
        lemma_head_deepen(self.0.2, r as int + T1::Ref::size() + T2::Ref::size(), img, other, lo, hi);
        lemma_head_deepen(self.0.3, r as int + T1::Ref::size() + T2::Ref::size() + T3::Ref::size(), img, other, lo, hi);
        lemma_head_deepen(self.0.4, r as int + T1::Ref::size() + T2::Ref::size() + T3::Ref::size() + T4::Ref::size(), img, other, lo, hi);
        lemma_head_deepen(self.0.5, r as int + T1::Ref::size() + T2::Ref::size() + T3::Ref::size() + T4::Ref::size() + T5::Ref::size(), img, other, lo, hi);
        lemma_head_deepen(self.0.6, r as int + T1::Ref::size() + T2::Ref::size() + T3::Ref::size() + T4::Ref::size() + T5::Ref::size() + T6::Ref::size(), img, other, lo, hi);
        lemma_head_deepen(self.0.7, r as int + T1::Ref::size() + T2::Ref::size() + T3::Ref::size() + T4::Ref::size() + T5::Ref::size() + T6::Ref::size() + T7::Ref::size(), img, other, lo, hi);
    }

    proof fn lemma_frame(&self, r: usize, img: Image, other: Image, lo: int, hi: int, deep: bool) {
        lemma_head_frame(self.0.0, r as int, img, other, lo, hi, deep);
        lemma_head_frame(self.0.1, r as int + T1::Ref::size(), img, other, lo, hi, deep);
        lemma_head_frame(self.0.2, r as int + T1::Ref::size() + T2::Ref::size(), img, other, lo, hi, deep);
        lemma_head_frame(self.0.3, r as int + T1::Ref::size() + T2::Ref::size() + T3::Ref::size(), img, other, lo, hi, deep);
        lemma_head_frame(self.0.4, r as int + T1::Ref::size() + T2::Ref::size() + T3::Ref::size() + T4::Ref::size(), img, other, lo, hi, deep);
        lemma_head_frame(self.0.5, r as int + T1::Ref::size() + T2::Ref::size() + T3::Ref::size() + T4::Ref::size() + T5::Ref::size(), img, other, lo, hi, deep);
        lemma_head_frame(self.0.6, r as int + T1::Ref::size() + T2::Ref::size() + T3::Ref::size() + T4::Ref::size() + T5::Ref::size() + T6::Ref::size(), img, other, lo, hi, deep);
        lemma_head_frame(self.0.7, r as int + T1::Ref::size() + T2::Ref::size() + T3::Ref::size() + T4::Ref::size() + T5::Ref::size() + T6::Ref::size() + T7::Ref::size(), img, other, lo, hi, deep);
    }

    proof fn lemma_widen(
        &self,
        r: usize,
        img: Image,
        lo: int,
        hi: int,
        wide_lo: int,
        wide_hi: int,
        deep: bool,
    ) {
        match head_at::<T1::Ref>(img, r as int) {
            Some(head) => {
                self.0.0.lemma_widen(head, img, lo, hi, wide_lo, wide_hi, deep);
            },
            None => {},
        }
        match head_at::<T2::Ref>(img, r as int + T1::Ref::size()) {
            Some(head) => {
                self.0.1.lemma_widen(head, img, lo, hi, wide_lo, wide_hi, deep);
            },
            None => {},
        }
        match head_at::<T3::Ref>(img, r as int + T1::Ref::size() + T2::Ref::size()) {
            Some(head) => {
                self.0.2.lemma_widen(head, img, lo, hi, wide_lo, wide_hi, deep);
            },
            None => {},
        }
        match head_at::<T4::Ref>(img, r as int + T1::Ref::size() + T2::Ref::size() + T3::Ref::size()) {
            Some(head) => {
                self.0.3.lemma_widen(head, img, lo, hi, wide_lo, wide_hi, deep);
            },
            None => {},
        }
        match head_at::<T5::Ref>(img, r as int + T1::Ref::size() + T2::Ref::size() + T3::Ref::size() + T4::Ref::size()) {
            Some(head) => {
                self.0.4.lemma_widen(head, img, lo, hi, wide_lo, wide_hi, deep);
            },
            None => {},
        }
        match head_at::<T6::Ref>(img, r as int + T1::Ref::size() + T2::Ref::size() + T3::Ref::size() + T4::Ref::size() + T5::Ref::size()) {
            Some(head) => {
                self.0.5.lemma_widen(head, img, lo, hi, wide_lo, wide_hi, deep);
            },
            None => {},
        }
        match head_at::<T7::Ref>(img, r as int + T1::Ref::size() + T2::Ref::size() + T3::Ref::size() + T4::Ref::size() + T5::Ref::size() + T6::Ref::size()) {
            Some(head) => {
                self.0.6.lemma_widen(head, img, lo, hi, wide_lo, wide_hi, deep);
            },
            None => {},
        }
        match head_at::<T8::Ref>(img, r as int + T1::Ref::size() + T2::Ref::size() + T3::Ref::size() + T4::Ref::size() + T5::Ref::size() + T6::Ref::size() + T7::Ref::size()) {
            Some(head) => {
                self.0.7.lemma_widen(head, img, lo, hi, wide_lo, wide_hi, deep);
            },
            None => {},
        }
    }

    fn mem_type_of() -> (t: MemType) {
        MemType::Complex
    }

    fn to_size(&self, acc: &mut usize) {
        self.0.to_size(acc);
        *acc = *acc + T1::Ref::size_of();
        *acc = *acc + T2::Ref::size_of();
        *acc = *acc + T3::Ref::size_of();
        *acc = *acc + T4::Ref::size_of();
        *acc = *acc + T5::Ref::size_of();
        *acc = *acc + T6::Ref::size_of();
        *acc = *acc + T7::Ref::size_of();
        *acc = *acc + T8::Ref::size_of();
    }

    fn checked_size(&self, acc: usize) -> (sum: Option<usize>) {
        let mut sum = match self.0.checked_size(acc) {
            Some(next) => next,
            None => {
                return None;
            },
        };
        let size0 = T1::Ref::size_of();
        if size0 > usize::MAX - sum {
            return None;
        }
        sum = sum + size0;
        let size1 = T2::Ref::size_of();
        if size1 > usize::MAX - sum {
            return None;
        }
        sum = sum + size1;
        let size2 = T3::Ref::size_of();
        if size2 > usize::MAX - sum {
            return None;
        }
        sum = sum + size2;
        let size3 = T4::Ref::size_of();
        if size3 > usize::MAX - sum {
            return None;
        }
        sum = sum + size3;
        let size4 = T5::Ref::size_of();
        if size4 > usize::MAX - sum {
            return None;
        }
        sum = sum + size4;
        let size5 = T6::Ref::size_of();
        if size5 > usize::MAX - sum {
            return None;
        }
        sum = sum + size5;
        let size6 = T7::Ref::size_of();
        if size6 > usize::MAX - sum {
            return None;
        }
        sum = sum + size6;
        let size7 = T8::Ref::size_of();
        if size7 > usize::MAX - sum {
            return None;
        }
        sum = sum + size7;
        Some(sum)
    }

    #[verifier::rlimit(40)]
    fn to_ref(&self, writer: &mut Writer) -> (r: usize) {
        let ghost base = writer.base() as int;
        let ghost w0 = *writer;
        proof {
            writer.lemma_bounds();
        }
        let heads = self.0.to_ref(writer);
        let ghost v0 = *writer;
        proof {
            writer.lemma_bounds();
        }
        let ptr = writer.as_ptr();
        writer.put(&heads.0);
        let ghost v1 = *writer;
        proof {
            writer.lemma_bounds();
            T1::Ref::lemma_size();
            heads.0.lemma_layout();
            lemma_image_put(v0, v1, heads.0.encode());
        }
        writer.put(&heads.1);
        let ghost v2 = *writer;
        proof {
            writer.lemma_bounds();
            T2::Ref::lemma_size();
            heads.1.lemma_layout();
            lemma_image_put(v1, v2, heads.1.encode());
        }
        writer.put(&heads.2);
        let ghost v3 = *writer;
        proof {
            writer.lemma_bounds();
            T3::Ref::lemma_size();
            heads.2.lemma_layout();
            lemma_image_put(v2, v3, heads.2.encode());
        }
        writer.put(&heads.3);
        let ghost v4 = *writer;
        proof {
            writer.lemma_bounds();
            T4::Ref::lemma_size();
            heads.3.lemma_layout();
            lemma_image_put(v3, v4, heads.3.encode());
        }
        writer.put(&heads.4);
        let ghost v5 = *writer;
        proof {
            writer.lemma_bounds();
            T5::Ref::lemma_size();
            heads.4.lemma_layout();
            lemma_image_put(v4, v5, heads.4.encode());
        }
        writer.put(&heads.5);
        let ghost v6 = *writer;
        proof {
            writer.lemma_bounds();
            T6::Ref::lemma_size();
            heads.5.lemma_layout();
            lemma_image_put(v5, v6, heads.5.encode());
        }
        writer.put(&heads.6);
        let ghost v7 = *writer;
        proof {
            writer.lemma_bounds();
            T7::Ref::lemma_size();
            heads.6.lemma_layout();
            lemma_image_put(v6, v7, heads.6.encode());
        }
        writer.put(&heads.7);
        let ghost v8 = *writer;
        proof {
            writer.lemma_bounds();
            T8::Ref::lemma_size();
            heads.7.lemma_layout();
            lemma_image_put(v7, v8, heads.7.encode());
        }
        proof {
            lemma_keeps_same(v8.arena(), v8.cursor());
            lemma_keeps_trans(v7.arena(), v8.arena(), v8.arena(), v7.cursor(), v8.cursor());
            lemma_keeps_trans(v6.arena(), v7.arena(), v8.arena(), v6.cursor(), v7.cursor());
            lemma_keeps_trans(v5.arena(), v6.arena(), v8.arena(), v5.cursor(), v6.cursor());
            lemma_keeps_trans(v4.arena(), v5.arena(), v8.arena(), v4.cursor(), v5.cursor());
            lemma_keeps_trans(v3.arena(), v4.arena(), v8.arena(), v3.cursor(), v4.cursor());
            lemma_keeps_trans(v2.arena(), v3.arena(), v8.arena(), v2.cursor(), v3.cursor());
            lemma_keeps_trans(v1.arena(), v2.arena(), v8.arena(), v1.cursor(), v2.cursor());
            lemma_keeps_trans(v0.arena(), v1.arena(), v8.arena(), v0.cursor(), v1.cursor());
            lemma_keeps_trans(w0.arena(), v0.arena(), v8.arena(), w0.cursor(), v0.cursor());
            lemma_view_stays(&self.0.0, heads.0, v0, v8, base + w0.cursor(), base + v0.cursor());
            self.0.0.lemma_widen(heads.0, v8.image(), base + w0.cursor(), base + v0.cursor(), base + w0.cursor(), base + v8.cursor(), false);
            lemma_head_put(self.0.0, heads.0, v0, v1, v8, ptr as int, base + w0.cursor(), base + v8.cursor());
            lemma_view_stays(&self.0.1, heads.1, v0, v8, base + w0.cursor(), base + v0.cursor());
            self.0.1.lemma_widen(heads.1, v8.image(), base + w0.cursor(), base + v0.cursor(), base + w0.cursor(), base + v8.cursor(), false);
            lemma_head_put(self.0.1, heads.1, v1, v2, v8, ptr as int + T1::Ref::size(), base + w0.cursor(), base + v8.cursor());
            lemma_view_stays(&self.0.2, heads.2, v0, v8, base + w0.cursor(), base + v0.cursor());
            self.0.2.lemma_widen(heads.2, v8.image(), base + w0.cursor(), base + v0.cursor(), base + w0.cursor(), base + v8.cursor(), false);
            lemma_head_put(self.0.2, heads.2, v2, v3, v8, ptr as int + T1::Ref::size() + T2::Ref::size(), base + w0.cursor(), base + v8.cursor());
            lemma_view_stays(&self.0.3, heads.3, v0, v8, base + w0.cursor(), base + v0.cursor());
            self.0.3.lemma_widen(heads.3, v8.image(), base + w0.cursor(), base + v0.cursor(), base + w0.cursor(), base + v8.cursor(), false);
            lemma_head_put(self.0.3, heads.3, v3, v4, v8, ptr as int + T1::Ref::size() + T2::Ref::size() + T3::Ref::size(), base + w0.cursor(), base + v8.cursor());
            lemma_view_stays(&self.0.4, heads.4, v0, v8, base + w0.cursor(), base + v0.cursor());
            self.0.4.lemma_widen(heads.4, v8.image(), base + w0.cursor(), base + v0.cursor(), base + w0.cursor(), base + v8.cursor(), false);
            lemma_head_put(self.0.4, heads.4, v4, v5, v8, ptr as int + T1::Ref::size() + T2::Ref::size() + T3::Ref::size() + T4::Ref::size(), base + w0.cursor(), base + v8.cursor());
            lemma_view_stays(&self.0.5, heads.5, v0, v8, base + w0.cursor(), base + v0.cursor());
            self.0.5.lemma_widen(heads.5, v8.image(), base + w0.cursor(), base + v0.cursor(), base + w0.cursor(), base + v8.cursor(), false);
            lemma_head_put(self.0.5, heads.5, v5, v6, v8, ptr as int + T1::Ref::size() + T2::Ref::size() + T3::Ref::size() + T4::Ref::size() + T5::Ref::size(), base + w0.cursor(), base + v8.cursor());
            lemma_view_stays(&self.0.6, heads.6, v0, v8, base + w0.cursor(), base + v0.cursor());
            self.0.6.lemma_widen(heads.6, v8.image(), base + w0.cursor(), base + v0.cursor(), base + w0.cursor(), base + v8.cursor(), false);
            lemma_head_put(self.0.6, heads.6, v6, v7, v8, ptr as int + T1::Ref::size() + T2::Ref::size() + T3::Ref::size() + T4::Ref::size() + T5::Ref::size() + T6::Ref::size(), base + w0.cursor(), base + v8.cursor());
            lemma_view_stays(&self.0.7, heads.7, v0, v8, base + w0.cursor(), base + v0.cursor());
            self.0.7.lemma_widen(heads.7, v8.image(), base + w0.cursor(), base + v0.cursor(), base + w0.cursor(), base + v8.cursor(), false);
            lemma_head_put(self.0.7, heads.7, v7, v8, v8, ptr as int + T1::Ref::size() + T2::Ref::size() + T3::Ref::size() + T4::Ref::size() + T5::Ref::size() + T6::Ref::size() + T7::Ref::size(), base + w0.cursor(), base + v8.cursor());
        }
        ptr
    }

    fn pinned<M: MemoryRead>(&self, r: &usize, mem: &M, out: &mut Vec<Segment>) {
        let mut addr: usize = *r;
        match mem.read(addr, T1::Ref::size_of()) {
            Some(bytes) => {
                let head = T1::Ref::from_bytes(&bytes);
                self.0.0.pinned(&head, mem, out);
            },
            None => {
                assert(false);
                return ;
            },
        }
        addr = addr + T1::Ref::size_of();
        match mem.read(addr, T2::Ref::size_of()) {
            Some(bytes) => {
                let head = T2::Ref::from_bytes(&bytes);
                self.0.1.pinned(&head, mem, out);
            },
            None => {
                assert(false);
                return ;
            },
        }
        addr = addr + T2::Ref::size_of();
        match mem.read(addr, T3::Ref::size_of()) {
            Some(bytes) => {
                let head = T3::Ref::from_bytes(&bytes);
                self.0.2.pinned(&head, mem, out);
            },
            None => {
                assert(false);
                return ;
            },
        }
        addr = addr + T3::Ref::size_of();
        match mem.read(addr, T4::Ref::size_of()) {
            Some(bytes) => {
                let head = T4::Ref::from_bytes(&bytes);
                self.0.3.pinned(&head, mem, out);
            },
            None => {
                assert(false);
                return ;
            },
        }
        addr = addr + T4::Ref::size_of();
        match mem.read(addr, T5::Ref::size_of()) {
            Some(bytes) => {
                let head = T5::Ref::from_bytes(&bytes);
                self.0.4.pinned(&head, mem, out);
            },
            None => {
                assert(false);
                return ;
            },
        }
        addr = addr + T5::Ref::size_of();
        match mem.read(addr, T6::Ref::size_of()) {
            Some(bytes) => {
                let head = T6::Ref::from_bytes(&bytes);
                self.0.5.pinned(&head, mem, out);
            },
            None => {
                assert(false);
                return ;
            },
        }
        addr = addr + T6::Ref::size_of();
        match mem.read(addr, T7::Ref::size_of()) {
            Some(bytes) => {
                let head = T7::Ref::from_bytes(&bytes);
                self.0.6.pinned(&head, mem, out);
            },
            None => {
                assert(false);
                return ;
            },
        }
        addr = addr + T7::Ref::size_of();
        match mem.read(addr, T8::Ref::size_of()) {
            Some(bytes) => {
                let head = T8::Ref::from_bytes(&bytes);
                self.0.7.pinned(&head, mem, out);
            },
            None => {
                assert(false);
                return ;
            },
        }
        addr = addr + T8::Ref::size_of();
        assert(pieces_of(out@) =~= pieces_of(old(out)@) + self.pins(*r, mem.image()));
    }
}

impl<T1: FromRef, T2: FromRef, T3: FromRef, T4: FromRef, T5: FromRef, T6: FromRef, T7: FromRef, T8: FromRef> FromRef for CopyStruct<(T1, T2, T3, T4, T5, T6, T7, T8)> where <T1 as ToRef>::Ref: Pod, <T2 as ToRef>::Ref: Pod, <T3 as ToRef>::Ref: Pod, <T4 as ToRef>::Ref: Pod, <T5 as ToRef>::Ref: Pod, <T6 as ToRef>::Ref: Pod, <T7 as ToRef>::Ref: Pod, <T8 as ToRef>::Ref: Pod {
    open spec fn decoded(r: usize, img: Image) -> Option<(<T1 as DeepView>::V, <T2 as DeepView>::V, <T3 as DeepView>::V, <T4 as DeepView>::V, <T5 as DeepView>::V, <T6 as DeepView>::V, <T7 as DeepView>::V, <T8 as DeepView>::V)> {
        if r + <T1 as ToRef>::Ref::size() + <T2 as ToRef>::Ref::size() + <T3 as ToRef>::Ref::size() + <T4 as ToRef>::Ref::size() + <T5 as ToRef>::Ref::size() + <T6 as ToRef>::Ref::size() + <T7 as ToRef>::Ref::size() + <T8 as ToRef>::Ref::size() > usize::MAX {
            None
        } else {
            match (head_decoded::<T1>(r as int, img), head_decoded::<T2>(r as int + <T1 as ToRef>::Ref::size(), img), head_decoded::<T3>(r as int + <T1 as ToRef>::Ref::size() + <T2 as ToRef>::Ref::size(), img), head_decoded::<T4>(r as int + <T1 as ToRef>::Ref::size() + <T2 as ToRef>::Ref::size() + <T3 as ToRef>::Ref::size(), img), head_decoded::<T5>(r as int + <T1 as ToRef>::Ref::size() + <T2 as ToRef>::Ref::size() + <T3 as ToRef>::Ref::size() + <T4 as ToRef>::Ref::size(), img), head_decoded::<T6>(r as int + <T1 as ToRef>::Ref::size() + <T2 as ToRef>::Ref::size() + <T3 as ToRef>::Ref::size() + <T4 as ToRef>::Ref::size() + <T5 as ToRef>::Ref::size(), img), head_decoded::<T7>(r as int + <T1 as ToRef>::Ref::size() + <T2 as ToRef>::Ref::size() + <T3 as ToRef>::Ref::size() + <T4 as ToRef>::Ref::size() + <T5 as ToRef>::Ref::size() + <T6 as ToRef>::Ref::size(), img), head_decoded::<T8>(r as int + <T1 as ToRef>::Ref::size() + <T2 as ToRef>::Ref::size() + <T3 as ToRef>::Ref::size() + <T4 as ToRef>::Ref::size() + <T5 as ToRef>::Ref::size() + <T6 as ToRef>::Ref::size() + <T7 as ToRef>::Ref::size(), img)) {
                (Some(v0), Some(v1), Some(v2), Some(v3), Some(v4), Some(v5), Some(v6), Some(v7)) => Some((v0, v1, v2, v3, v4, v5, v6, v7)),
                _ => None,
            }
        }
    }

    proof fn lemma_round_trip(&self, r: usize, img: Image, lo: int, hi: int) {
        match head_at::<<T1 as ToRef>::Ref>(img, r as int) {
            Some(head) => {
                self.0.0.lemma_round_trip(head, img, lo, hi);
            },
            None => {},
        }
        match head_at::<<T2 as ToRef>::Ref>(img, r as int + <T1 as ToRef>::Ref::size()) {
            Some(head) => {
                self.0.1.lemma_round_trip(head, img, lo, hi);
            },
            None => {},
        }
        match head_at::<<T3 as ToRef>::Ref>(img, r as int + <T1 as ToRef>::Ref::size() + <T2 as ToRef>::Ref::size()) {
            Some(head) => {
                self.0.2.lemma_round_trip(head, img, lo, hi);
            },
            None => {},
        }
        match head_at::<<T4 as ToRef>::Ref>(img, r as int + <T1 as ToRef>::Ref::size() + <T2 as ToRef>::Ref::size() + <T3 as ToRef>::Ref::size()) {
            Some(head) => {
                self.0.3.lemma_round_trip(head, img, lo, hi);
            },
            None => {},
        }
        match head_at::<<T5 as ToRef>::Ref>(img, r as int + <T1 as ToRef>::Ref::size() + <T2 as ToRef>::Ref::size() + <T3 as ToRef>::Ref::size() + <T4 as ToRef>::Ref::size()) {
            Some(head) => {
                self.0.4.lemma_round_trip(head, img, lo, hi);
            },
            None => {},
        }
        match head_at::<<T6 as ToRef>::Ref>(img, r as int + <T1 as ToRef>::Ref::size() + <T2 as ToRef>::Ref::size() + <T3 as ToRef>::Ref::size() + <T4 as ToRef>::Ref::size() + <T5 as ToRef>::Ref::size()) {
            Some(head) => {
                self.0.5.lemma_round_trip(head, img, lo, hi);
            },
            None => {},
        }
        match head_at::<<T7 as ToRef>::Ref>(img, r as int + <T1 as ToRef>::Ref::size() + <T2 as ToRef>::Ref::size() + <T3 as ToRef>::Ref::size() + <T4 as ToRef>::Ref::size() + <T5 as ToRef>::Ref::size() + <T6 as ToRef>::Ref::size()) {
            Some(head) => {
                self.0.6.lemma_round_trip(head, img, lo, hi);
            },
            None => {},
        }
        match head_at::<<T8 as ToRef>::Ref>(img, r as int + <T1 as ToRef>::Ref::size() + <T2 as ToRef>::Ref::size() + <T3 as ToRef>::Ref::size() + <T4 as ToRef>::Ref::size() + <T5 as ToRef>::Ref::size() + <T6 as ToRef>::Ref::size() + <T7 as ToRef>::Ref::size()) {
            Some(head) => {
                self.0.7.lemma_round_trip(head, img, lo, hi);
            },
            None => {},
        }
    }

    fn from_ref<M: MemoryRead>(r: &usize, mem: &M) -> (o: Option<Self>) {
        let mut addr: usize = *r;
        let size0 = <T1 as ToRef>::Ref::size_of();
        if size0 > usize::MAX - addr {
            return None;
        }
        let start0 = addr;
        addr = addr + size0;
        let size1 = <T2 as ToRef>::Ref::size_of();
        if size1 > usize::MAX - addr {
            return None;
        }
        let start1 = addr;
        addr = addr + size1;
        let size2 = <T3 as ToRef>::Ref::size_of();
        if size2 > usize::MAX - addr {
            return None;
        }
        let start2 = addr;
        addr = addr + size2;
        let size3 = <T4 as ToRef>::Ref::size_of();
        if size3 > usize::MAX - addr {
            return None;
        }
        let start3 = addr;
        addr = addr + size3;
        let size4 = <T5 as ToRef>::Ref::size_of();
        if size4 > usize::MAX - addr {
            return None;
        }
        let start4 = addr;
        addr = addr + size4;
        let size5 = <T6 as ToRef>::Ref::size_of();
        if size5 > usize::MAX - addr {
            return None;
        }
        let start5 = addr;
        addr = addr + size5;
        let size6 = <T7 as ToRef>::Ref::size_of();
        if size6 > usize::MAX - addr {
            return None;
        }
        let start6 = addr;
        addr = addr + size6;
        let size7 = <T8 as ToRef>::Ref::size_of();
        if size7 > usize::MAX - addr {
            return None;
        }
        let start7 = addr;
        addr = addr + size7;
        let v0 = match mem.read(start0, size0) {
            Some(bytes) => {
                let head = <T1 as ToRef>::Ref::from_bytes(&bytes);
                match <T1 as FromRef>::from_ref(&head, mem) {
                    Some(v) => v,
                    None => {
                        return None;
                    },
                }
            },
            None => {
                return None;
            },
        };
        let v1 = match mem.read(start1, size1) {
            Some(bytes) => {
                let head = <T2 as ToRef>::Ref::from_bytes(&bytes);
                match <T2 as FromRef>::from_ref(&head, mem) {
                    Some(v) => v,
                    None => {
                        return None;
                    },
                }
            },
            None => {
                return None;
            },
        };
        let v2 = match mem.read(start2, size2) {
            Some(bytes) => {
                let head = <T3 as ToRef>::Ref::from_bytes(&bytes);
                match <T3 as FromRef>::from_ref(&head, mem) {
                    Some(v) => v,
                    None => {
                        return None;
                    },
                }
            },
            None => {
                return None;
            },
        };
        let v3 = match mem.read(start3, size3) {
            Some(bytes) => {
                let head = <T4 as ToRef>::Ref::from_bytes(&bytes);
                match <T4 as FromRef>::from_ref(&head, mem) {
                    Some(v) => v,
                    None => {
                        return None;
                    },
                }
            },
            None => {
                return None;
            },
        };
        let v4 = match mem.read(start4, size4) {
            Some(bytes) => {
                let head = <T5 as ToRef>::Ref::from_bytes(&bytes);
                match <T5 as FromRef>::from_ref(&head, mem) {
                    Some(v) => v,
                    None => {
                        return None;
                    },
                }
            },
            None => {
                return None;
            },
        };
        let v5 = match mem.read(start5, size5) {
            Some(bytes) => {
                let head = <T6 as ToRef>::Ref::from_bytes(&bytes);
                match <T6 as FromRef>::from_ref(&head, mem) {
                    Some(v) => v,
                    None => {
                        return None;
                    },
                }
            },
            None => {
                return None;
            },
        };
        let v6 = match mem.read(start6, size6) {
            Some(bytes) => {
                let head = <T7 as ToRef>::Ref::from_bytes(&bytes);
                match <T7 as FromRef>::from_ref(&head, mem) {
                    Some(v) => v,
                    None => {
                        return None;
                    },
                }
            },
            None => {
                return None;
            },
        };
        let v7 = match mem.read(start7, size7) {
            Some(bytes) => {
                let head = <T8 as ToRef>::Ref::from_bytes(&bytes);
                match <T8 as FromRef>::from_ref(&head, mem) {
                    Some(v) => v,
                    None => {
                        return None;
                    },
                }
            },
            None => {
                return None;
            },
        };
        Some(CopyStruct((v0, v1, v2, v3, v4, v5, v6, v7)))
    }
}

impl<T1: ToRef, T2: ToRef, T3: ToRef, T4: ToRef, T5: ToRef, T6: ToRef, T7: ToRef, T8: ToRef, T9: ToRef> ToRef for CopyStruct<(T1, T2, T3, T4, T5, T6, T7, T8, T9)> where T1::Ref: Pod, T2::Ref: Pod, T3::Ref: Pod, T4::Ref: Pod, T5::Ref: Pod, T6::Ref: Pod, T7::Ref: Pod, T8::Ref: Pod, T9::Ref: Pod {
    type Ref = usize;

    open spec fn mem_type() -> MemType {
        MemType::Complex
    }

    open spec fn size(&self) -> nat {
        self.0.size() + T1::Ref::size() + T2::Ref::size() + T3::Ref::size() + T4::Ref::size() + T5::Ref::size() + T6::Ref::size() + T7::Ref::size() + T8::Ref::size() + T9::Ref::size()
    }

    open spec fn views(&self, r: usize, img: Image, lo: int, hi: int, deep: bool) -> bool {
        &&& r + T1::Ref::size() + T2::Ref::size() + T3::Ref::size() + T4::Ref::size() + T5::Ref::size() + T6::Ref::size() + T7::Ref::size() + T8::Ref::size() + T9::Ref::size() <= usize::MAX
        &&& T1::Ref::size() + T2::Ref::size() + T3::Ref::size() + T4::Ref::size() + T5::Ref::size() + T6::Ref::size() + T7::Ref::size() + T8::Ref::size() + T9::Ref::size() > 0 ==> lo <= r && r + T1::Ref::size() + T2::Ref::size() + T3::Ref::size() + T4::Ref::size() + T5::Ref::size() + T6::Ref::size() + T7::Ref::size() + T8::Ref::size() + T9::Ref::size() <= hi
        &&& head_views(self.0.0, r as int, img, lo, hi, deep)
        &&& head_views(self.0.1, r as int + T1::Ref::size(), img, lo, hi, deep)
        &&& head_views(self.0.2, r as int + T1::Ref::size() + T2::Ref::size(), img, lo, hi, deep)
        &&& head_views(self.0.3, r as int + T1::Ref::size() + T2::Ref::size() + T3::Ref::size(), img, lo, hi, deep)
        &&& head_views(self.0.4, r as int + T1::Ref::size() + T2::Ref::size() + T3::Ref::size() + T4::Ref::size(), img, lo, hi, deep)
        &&& head_views(self.0.5, r as int + T1::Ref::size() + T2::Ref::size() + T3::Ref::size() + T4::Ref::size() + T5::Ref::size(), img, lo, hi, deep)
        &&& head_views(self.0.6, r as int + T1::Ref::size() + T2::Ref::size() + T3::Ref::size() + T4::Ref::size() + T5::Ref::size() + T6::Ref::size(), img, lo, hi, deep)
        &&& head_views(self.0.7, r as int + T1::Ref::size() + T2::Ref::size() + T3::Ref::size() + T4::Ref::size() + T5::Ref::size() + T6::Ref::size() + T7::Ref::size(), img, lo, hi, deep)
        &&& head_views(self.0.8, r as int + T1::Ref::size() + T2::Ref::size() + T3::Ref::size() + T4::Ref::size() + T5::Ref::size() + T6::Ref::size() + T7::Ref::size() + T8::Ref::size(), img, lo, hi, deep)
    }

    open spec fn flat(&self) -> usize {
        0
    }

    open spec fn pins(&self, r: usize, img: Image) -> Seq<Piece> {
        head_pins(self.0.0, r as int, img) + head_pins(self.0.1, r as int + T1::Ref::size(), img) + head_pins(self.0.2, r as int + T1::Ref::size() + T2::Ref::size(), img) + head_pins(self.0.3, r as int + T1::Ref::size() + T2::Ref::size() + T3::Ref::size(), img) + head_pins(self.0.4, r as int + T1::Ref::size() + T2::Ref::size() + T3::Ref::size() + T4::Ref::size(), img) + head_pins(self.0.5, r as int + T1::Ref::size() + T2::Ref::size() + T3::Ref::size() + T4::Ref::size() + T5::Ref::size(), img) + head_pins(self.0.6, r as int + T1::Ref::size() + T2::Ref::size() + T3::Ref::size() + T4::Ref::size() + T5::Ref::size() + T6::Ref::size(), img) + head_pins(self.0.7, r as int + T1::Ref::size() + T2::Ref::size() + T3::Ref::size() + T4::Ref::size() + T5::Ref::size() + T6::Ref::size() + T7::Ref::size(), img) + head_pins(self.0.8, r as int + T1::Ref::size() + T2::Ref::size() + T3::Ref::size() + T4::Ref::size() + T5::Ref::size() + T6::Ref::size() + T7::Ref::size() + T8::Ref::size(), img)
    }

    proof fn lemma_flat(&self) {
    }

    proof fn lemma_primitive(&self, r: usize, img: Image, lo: int, hi: int, deep: bool) {
    }

    proof fn lemma_deepen(&self, r: usize, img: Image, other: Image, lo: int, hi: int) {
        lemma_holds_all_concat(other, head_pins(self.0.0, r as int, img) + head_pins(self.0.1, r as int + T1::Ref::size(), img) + head_pins(self.0.2, r as int + T1::Ref::size() + T2::Ref::size(), img) + head_pins(self.0.3, r as int + T1::Ref::size() + T2::Ref::size() + T3::Ref::size(), img) + head_pins(self.0.4, r as int + T1::Ref::size() + T2::Ref::size() + T3::Ref::size() + T4::Ref::size(), img) + head_pins(self.0.5, r as int + T1::Ref::size() + T2::Ref::size() + T3::Ref::size() + T4::Ref::size() + T5::Ref::size(), img) + head_pins(self.0.6, r as int + T1::Ref::size() + T2::Ref::size() + T3::Ref::size() + T4::Ref::size() + T5::Ref::size() + T6::Ref::size(), img) + head_pins(self.0.7, r as int + T1::Ref::size() + T2::Ref::size() + T3::Ref::size() + T4::Ref::size() + T5::Ref::size() + T6::Ref::size() + T7::Ref::size(), img), head_pins(self.0.8, r as int + T1::Ref::size() + T2::Ref::size() + T3::Ref::size() + T4::Ref::size() + T5::Ref::size() + T6::Ref::size() + T7::Ref::size() + T8::Ref::size(), img));
        lemma_holds_all_concat(other, head_pins(self.0.0, r as int, img) + head_pins(self.0.1, r as int + T1::Ref::size(), img) + head_pins(self.0.2, r as int + T1::Ref::size() + T2::Ref::size(), img) + head_pins(self.0.3, r as int + T1::Ref::size() + T2::Ref::size() + T3::Ref::size(), img) + head_pins(self.0.4, r as int + T1::Ref::size() + T2::Ref::size() + T3::Ref::size() + T4::Ref::size(), img) + head_pins(self.0.5, r as int + T1::Ref::size() + T2::Ref::size() + T3::Ref::size() + T4::Ref::size() + T5::Ref::size(), img) + head_pins(self.0.6, r as int + T1::Ref::size() + T2::Ref::size() + T3::Ref::size() + T4::Ref::size() + T5::Ref::size() + T6::Ref::size(), img), head_pins(self.0.7, r as int + T1::Ref::size() + T2::Ref::size() + T3::Ref::size() + T4::Ref::size() + T5::Ref::size() + T6::Ref::size() + T7::Ref::size(), img));
        lemma_holds_all_concat(other, head_pins(self.0.0, r as int, img) + head_pins(self.0.1, r as int + T1::Ref::size(), img) + head_pins(self.0.2, r as int + T1::Ref::size() + T2::Ref::size(), img) + head_pins(self.0.3, r as int + T1::Ref::size() + T2::Ref::size() + T3::Ref::size(), img) + head_pins(self.0.4, r as int + T1::Ref::size() + T2::Ref::size() + T3::Ref::size() + T4::Ref::size(), img) + head_pins(self.0.5, r as int + T1::Ref::size() + T2::Ref::size() + T3::Ref::size() + T4::Ref::size() + T5::Ref::size(), img), head_pins(self.0.6, r as int + T1::Ref::size() + T2::Ref::size() + T3::Ref::size() + T4::Ref::size() + T5::Ref::size() + T6::Ref::size(), img));
        lemma_holds_all_concat(other, head_pins(self.0.0, r as int, img) + head_pins(self.0.1, r as int + T1::Ref::size(), img) + head_pins(self.0.2, r as int + T1::Ref::size() + T2::Ref::size(), img) + head_pins(self.0.3, r as int + T1::Ref::size() + T2::Ref::size() + T3::Ref::size(), img) + head_pins(self.0.4, r as int + T1::Ref::size() + T2::Ref::size() + T3::Ref::size() + T4::Ref::size(), img), head_pins(self.0.5, r as int + T1::Ref::size() + T2::Ref::size() + T3::Ref::size() + T4::Ref::size() + T5::Ref::size(), img));
        lemma_holds_all_concat(other, head_pins(self.0.0, r as int, img) + head_pins(self.0.1, r as int + T1::Ref::size(), img) + head_pins(self.0.2, r as int + T1::Ref::size() + T2::Ref::size(), img) + head_pins(self.0.3, r as int + T1::Ref::size() + T2::Ref::size() + T3::Ref::size(), img), head_pins(self.0.4, r as int + T1::Ref::size() + T2::Ref::size() + T3::Ref::size() + T4::Ref::size(), img));
        lemma_holds_all_concat(other, head_pins(self.0.0, r as int, img) + head_pins(self.0.1, r as int + T1::Ref::size(), img) + head_pins(self.0.2, r as int + T1::Ref::size() + T2::Ref::size(), img), head_pins(self.0.3, r as int + T1::Ref::size() + T2::Ref::size() + T3::Ref::size(), img));
        lemma_holds_all_concat(other, head_pins(self.0.0, r as int, img) + head_pins(self.0.1, r as int + T1::Ref::size(), img), head_pins(self.0.2, r as int + T1::Ref::size() + T2::Ref::size(), img));
        lemma_holds_all_concat(other, head_pins(self.0.0, r as int, img), head_pins(self.0.1, r as int + T1::Ref::size(), img));
        lemma_head_deepen(self.0.0, r as int, img, other, lo, hi);
        lemma_head_deepen(self.0.1, r as int + T1::Ref::size(), img, other, lo, hi);
        lemma_head_deepen(self.0.2, r as int + T1::Ref::size() + T2::Ref::size(), img, other, lo, hi);
        lemma_head_deepen(self.0.3, r as int + T1::Ref::size() + T2::Ref::size() + T3::Ref::size(), img, other, lo, hi);
        lemma_head_deepen(self.0.4, r as int + T1::Ref::size() + T2::Ref::size() + T3::Ref::size() + T4::Ref::size(), img, other, lo, hi);
        lemma_head_deepen(self.0.5, r as int + T1::Ref::size() + T2::Ref::size() + T3::Ref::size() + T4::Ref::size() + T5::Ref::size(), img, other, lo, hi);
        lemma_head_deepen(self.0.6, r as int + T1::Ref::size() + T2::Ref::size() + T3::Ref::size() + T4::Ref::size() + T5::Ref::size() + T6::Ref::size(), img, other, lo, hi);
        lemma_head_deepen(self.0.7, r as int + T1::Ref::size() + T2::Ref::size() + T3::Ref::size() + T4::Ref::size() + T5::Ref::size() + T6::Ref::size() + T7::Ref::size(), img, other, lo, hi);
        lemma_head_deepen(self.0.8, r as int + T1::Ref::size() + T2::Ref::size() + T3::Ref::size() + T4::Ref::size() + T5::Ref::size() + T6::Ref::size() + T7::Ref::size() + T8::Ref::size(), img, other, lo, hi);
    }

    proof fn lemma_frame(&self, r: usize, img: Image, other: Image, lo: int, hi: int, deep: bool) {
        lemma_head_frame(self.0.0, r as int, img, other, lo, hi, deep);
        lemma_head_frame(self.0.1, r as int + T1::Ref::size(), img, other, lo, hi, deep);
        lemma_head_frame(self.0.2, r as int + T1::Ref::size() + T2::Ref::size(), img, other, lo, hi, deep);
        lemma_head_frame(self.0.3, r as int + T1::Ref::size() + T2::Ref::size() + T3::Ref::size(), img, other, lo, hi, deep);
        lemma_head_frame(self.0.4, r as int + T1::Ref::size() + T2::Ref::size() + T3::Ref::size() + T4::Ref::size(), img, other, lo, hi, deep);
        lemma_head_frame(self.0.5, r as int + T1::Ref::size() + T2::Ref::size() + T3::Ref::size() + T4::Ref::size() + T5::Ref::size(), img, other, lo, hi, deep);
        lemma_head_frame(self.0.6, r as int + T1::Ref::size() + T2::Ref::size() + T3::Ref::size() + T4::Ref::size() + T5::Ref::size() + T6::Ref::size(), img, other, lo, hi, deep);
        lemma_head_frame(self.0.7, r as int + T1::Ref::size() + T2::Ref::size() + T3::Ref::size() + T4::Ref::size() + T5::Ref::size() + T6::Ref::size() + T7::Ref::size(), img, other, lo, hi, deep);
        lemma_head_frame(self.0.8, r as int + T1::Ref::size() + T2::Ref::size() + T3::Ref::size() + T4::Ref::size() + T5::Ref::size() + T6::Ref::size() + T7::Ref::size() + T8::Ref::size(), img, other, lo, hi, deep);
    }

    proof fn lemma_widen(
        &self,
        r: usize,
        img: Image,
        lo: int,
        hi: int,
        wide_lo: int,
        wide_hi: int,
        deep: bool,
    ) {
        match head_at::<T1::Ref>(img, r as int) {
            Some(head) => {
                self.0.0.lemma_widen(head, img, lo, hi, wide_lo, wide_hi, deep);
            },
            None => {},
        }
        match head_at::<T2::Ref>(img, r as int + T1::Ref::size()) {
            Some(head) => {
                self.0.1.lemma_widen(head, img, lo, hi, wide_lo, wide_hi, deep);
            },
            None => {},
        }
        match head_at::<T3::Ref>(img, r as int + T1::Ref::size() + T2::Ref::size()) {
            Some(head) => {
                self.0.2.lemma_widen(head, img, lo, hi, wide_lo, wide_hi, deep);
            },
            None => {},
        }
        match head_at::<T4::Ref>(img, r as int + T1::Ref::size() + T2::Ref::size() + T3::Ref::size()) {
            Some(head) => {
                self.0.3.lemma_widen(head, img, lo, hi, wide_lo, wide_hi, deep);
            },
            None => {},
        }
        match head_at::<T5::Ref>(img, r as int + T1::Ref::size() + T2::Ref::size() + T3::Ref::size() + T4::Ref::size()) {
            Some(head) => {
                self.0.4.lemma_widen(head, img, lo, hi, wide_lo, wide_hi, deep);
            },
            None => {},
        }
        match head_at::<T6::Ref>(img, r as int + T1::Ref::size() + T2::Ref::size() + T3::Ref::size() + T4::Ref::size() + T5::Ref::size()) {
            Some(head) => {
                self.0.5.lemma_widen(head, img, lo, hi, wide_lo, wide_hi, deep);
            },
            None => {},
        }
        match head_at::<T7::Ref>(img, r as int + T1::Ref::size() + T2::Ref::size() + T3::Ref::size() + T4::Ref::size() + T5::Ref::size() + T6::Ref::size()) {
            Some(head) => {
                self.0.6.lemma_widen(head, img, lo, hi, wide_lo, wide_hi, deep);
            },
            None => {},
        }
        match head_at::<T8::Ref>(img, r as int + T1::Ref::size() + T2::Ref::size() + T3::Ref::size() + T4::Ref::size() + T5::Ref::size() + T6::Ref::size() + T7::Ref::size()) {
            Some(head) => {
                self.0.7.lemma_widen(head, img, lo, hi, wide_lo, wide_hi, deep);
            },
            None => {},
        }
        match head_at::<T9::Ref>(img, r as int + T1::Ref::size() + T2::Ref::size() + T3::Ref::size() + T4::Ref::size() + T5::Ref::size() + T6::Ref::size() + T7::Ref::size() + T8::Ref::size()) {
            Some(head) => {
                self.0.8.lemma_widen(head, img, lo, hi, wide_lo, wide_hi, deep);
            },
            None => {},
        }
    }

    fn mem_type_of() -> (t: MemType) {
        MemType::Complex
    }

    fn to_size(&self, acc: &mut usize) {
        self.0.to_size(acc);
        *acc = *acc + T1::Ref::size_of();
        *acc = *acc + T2::Ref::size_of();
        *acc = *acc + T3::Ref::size_of();
        *acc = *acc + T4::Ref::size_of();
        *acc = *acc + T5::Ref::size_of();
        *acc = *acc + T6::Ref::size_of();
        *acc = *acc + T7::Ref::size_of();
        *acc = *acc + T8::Ref::size_of();
        *acc = *acc + T9::Ref::size_of();
    }

    fn checked_size(&self, acc: usize) -> (sum: Option<usize>) {
        let mut sum = match self.0.checked_size(acc) {
            Some(next) => next,
            None => {
                return None;
            },
        };
        let size0 = T1::Ref::size_of();
        if size0 > usize::MAX - sum {
            return None;
        }
        sum = sum + size0;
        let size1 = T2::Ref::size_of();
        if size1 > usize::MAX - sum {
            return None;
        }
        sum = sum + size1;
        let size2 = T3::Ref::size_of();
        if size2 > usize::MAX - sum {
            return None;
        }
        sum = sum + size2;
        let size3 = T4::Ref::size_of();
        if size3 > usize::MAX - sum {
            return None;
        }
        sum = sum + size3;
        let size4 = T5::Ref::size_of();
        if size4 > usize::MAX - sum {
            return None;
        }
        sum = sum + size4;
        let size5 = T6::Ref::size_of();
        if size5 > usize::MAX - sum {
            return None;
        }
        sum = sum + size5;
        let size6 = T7::Ref::size_of();
        if size6 > usize::MAX - sum {
            return None;
        }
        sum = sum + size6;
        let size7 = T8::Ref::size_of();
        if size7 > usize::MAX - sum {
            return None;
        }
        sum = sum + size7;
        let size8 = T9::Ref::size_of();
        if size8 > usize::MAX - sum {
            return None;
        }
        sum = sum + size8;
        Some(sum)
    }

    #[verifier::rlimit(40)]
    fn to_ref(&self, writer: &mut Writer) -> (r: usize) {
        let ghost base = writer.base() as int;
        let ghost w0 = *writer;
        proof {
            writer.lemma_bounds();
        }
        let heads = self.0.to_ref(writer);
        let ghost v0 = *writer;
        proof {
            writer.lemma_bounds();
        }
        let ptr = writer.as_ptr();
        writer.put(&heads.0);
        let ghost v1 = *writer;
        proof {
            writer.lemma_bounds();
            T1::Ref::lemma_size();
            heads.0.lemma_layout();
            lemma_image_put(v0, v1, heads.0.encode());
        }
        writer.put(&heads.1);
        let ghost v2 = *writer;
        proof {
            writer.lemma_bounds();
            T2::Ref::lemma_size();
            heads.1.lemma_layout();
            lemma_image_put(v1, v2, heads.1.encode());
        }
        writer.put(&heads.2);
        let ghost v3 = *writer;
        proof {
            writer.lemma_bounds();
            T3::Ref::lemma_size();
            heads.2.lemma_layout();
            lemma_image_put(v2, v3, heads.2.encode());
        }
        writer.put(&heads.3);
        let ghost v4 = *writer;
        proof {
            writer.lemma_bounds();
            T4::Ref::lemma_size();
            heads.3.lemma_layout();
            lemma_image_put(v3, v4, heads.3.encode());
        }
        writer.put(&heads.4);
        let ghost v5 = *writer;
        proof {
            writer.lemma_bounds();
            T5::Ref::lemma_size();
            heads.4.lemma_layout();
            lemma_image_put(v4, v5, heads.4.encode());
        }
        writer.put(&heads.5);
        let ghost v6 = *writer;
        proof {
            writer.lemma_bounds();
            T6::Ref::lemma_size();
            heads.5.lemma_layout();
            lemma_image_put(v5, v6, heads.5.encode());
        }
        writer.put(&heads.6);
        let ghost v7 = *writer;
        proof {
            writer.lemma_bounds();
            T7::Ref::lemma_size();
            heads.6.lemma_layout();
            lemma_image_put(v6, v7, heads.6.encode());
        }
        writer.put(&heads.7);
        let ghost v8 = *writer;
        proof {
            writer.lemma_bounds();
            T8::Ref::lemma_size();
            heads.7.lemma_layout();
            lemma_image_put(v7, v8, heads.7.encode());
        }
        writer.put(&heads.8);
        let ghost v9 = *writer;
        proof {
            writer.lemma_bounds();
            T9::Ref::lemma_size();
            heads.8.lemma_layout();
            lemma_image_put(v8, v9, heads.8.encode());
        }
        proof {
            lemma_keeps_same(v9.arena(), v9.cursor());
            lemma_keeps_trans(v8.arena(), v9.arena(), v9.arena(), v8.cursor(), v9.cursor());
            lemma_keeps_trans(v7.arena(), v8.arena(), v9.arena(), v7.cursor(), v8.cursor());
            lemma_keeps_trans(v6.arena(), v7.arena(), v9.arena(), v6.cursor(), v7.cursor());
            lemma_keeps_trans(v5.arena(), v6.arena(), v9.arena(), v5.cursor(), v6.cursor());
            lemma_keeps_trans(v4.arena(), v5.arena(), v9.arena(), v4.cursor(), v5.cursor());
            lemma_keeps_trans(v3.arena(), v4.arena(), v9.arena(), v3.cursor(), v4.cursor());
            lemma_keeps_trans(v2.arena(), v3.arena(), v9.arena(), v2.cursor(), v3.cursor());
            lemma_keeps_trans(v1.arena(), v2.arena(), v9.arena(), v1.cursor(), v2.cursor());
            lemma_keeps_trans(v0.arena(), v1.arena(), v9.arena(), v0.cursor(), v1.cursor());
            lemma_keeps_trans(w0.arena(), v0.arena(), v9.arena(), w0.cursor(), v0.cursor());
            lemma_view_stays(&self.0.0, heads.0, v0, v9, base + w0.cursor(), base + v0.cursor());
            self.0.0.lemma_widen(heads.0, v9.image(), base + w0.cursor(), base + v0.cursor(), base + w0.cursor(), base + v9.cursor(), false);
            lemma_head_put(self.0.0, heads.0, v0, v1, v9, ptr as int, base + w0.cursor(), base + v9.cursor());
            lemma_view_stays(&self.0.1, heads.1, v0, v9, base + w0.cursor(), base + v0.cursor());
            self.0.1.lemma_widen(heads.1, v9.image(), base + w0.cursor(), base + v0.cursor(), base + w0.cursor(), base + v9.cursor(), false);
            lemma_head_put(self.0.1, heads.1, v1, v2, v9, ptr as int + T1::Ref::size(), base + w0.cursor(), base + v9.cursor());
            lemma_view_stays(&self.0.2, heads.2, v0, v9, base + w0.cursor(), base + v0.cursor());
            self.0.2.lemma_widen(heads.2, v9.image(), base + w0.cursor(), base + v0.cursor(), base + w0.cursor(), base + v9.cursor(), false);
            lemma_head_put(self.0.2, heads.2, v2, v3, v9, ptr as int + T1::Ref::size() + T2::Ref::size(), base + w0.cursor(), base + v9.cursor());
            lemma_view_stays(&self.0.3, heads.3, v0, v9, base + w0.cursor(), base + v0.cursor());
            self.0.3.lemma_widen(heads.3, v9.image(), base + w0.cursor(), base + v0.cursor(), base + w0.cursor(), base + v9.cursor(), false);
            lemma_head_put(self.0.3, heads.3, v3, v4, v9, ptr as int + T1::Ref::size() + T2::Ref::size() + T3::Ref::size(), base + w0.cursor(), base + v9.cursor());
            lemma_view_stays(&self.0.4, heads.4, v0, v9, base + w0.cursor(), base + v0.cursor());
            self.0.4.lemma_widen(heads.4, v9.image(), base + w0.cursor(), base + v0.cursor(), base + w0.cursor(), base + v9.cursor(), false);
            lemma_head_put(self.0.4, heads.4, v4, v5, v9, ptr as int + T1::Ref::size() + T2::Ref::size() + T3::Ref::size() + T4::Ref::size(), base + w0.cursor(), base + v9.cursor());
            lemma_view_stays(&self.0.5, heads.5, v0, v9, base + w0.cursor(), base + v0.cursor());
            self.0.5.lemma_widen(heads.5, v9.image(), base + w0.cursor(), base + v0.cursor(), base + w0.cursor(), base + v9.cursor(), false);
            lemma_head_put(self.0.5, heads.5, v5, v6, v9, ptr as int + T1::Ref::size() + T2::Ref::size() + T3::Ref::size() + T4::Ref::size() + T5::Ref::size(), base + w0.cursor(), base + v9.cursor());
            lemma_view_stays(&self.0.6, heads.6, v0, v9, base + w0.cursor(), base + v0.cursor());
            self.0.6.lemma_widen(heads.6, v9.image(), base + w0.cursor(), base + v0.cursor(), base + w0.cursor(), base + v9.cursor(), false);
            lemma_head_put(self.0.6, heads.6, v6, v7, v9, ptr as int + T1::Ref::size() + T2::Ref::size() + T3::Ref::size() + T4::Ref::size() + T5::Ref::size() + T6::Ref::size(), base + w0.cursor(), base + v9.cursor());
            lemma_view_stays(&self.0.7, heads.7, v0, v9, base + w0.cursor(), base + v0.cursor());
            self.0.7.lemma_widen(heads.7, v9.image(), base + w0.cursor(), base + v0.cursor(), base + w0.cursor(), base + v9.cursor(), false);
            lemma_head_put(self.0.7, heads.7, v7, v8, v9, ptr as int + T1::Ref::size() + T2::Ref::size() + T3::Ref::size() + T4::Ref::size() + T5::Ref::size() + T6::Ref::size() + T7::Ref::size(), base + w0.cursor(), base + v9.cursor());
            lemma_view_stays(&self.0.8, heads.8, v0, v9, base + w0.cursor(), base + v0.cursor());
            self.0.8.lemma_widen(heads.8, v9.image(), base + w0.cursor(), base + v0.cursor(), base + w0.cursor(), base + v9.cursor(), false);
            lemma_head_put(self.0.8, heads.8, v8, v9, v9, ptr as int + T1::Ref::size() + T2::Ref::size() + T3::Ref::size() + T4::Ref::size() + T5::Ref::size() + T6::Ref::size() + T7::Ref::size() + T8::Ref::size(), base + w0.cursor(), base + v9.cursor());
        }
        ptr
    }

    fn pinned<M: MemoryRead>(&self, r: &usize, mem: &M, out: &mut Vec<Segment>) {
        let mut addr: usize = *r;
        match mem.read(addr, T1::Ref::size_of()) {
            Some(bytes) => {
                let head = T1::Ref::from_bytes(&bytes);
                self.0.0.pinned(&head, mem, out);
            },
            None => {
                assert(false);
                return ;
            },
        }
        addr = addr + T1::Ref::size_of();
        match mem.read(addr, T2::Ref::size_of()) {
            Some(bytes) => {
                let head = T2::Ref::from_bytes(&bytes);
                self.0.1.pinned(&head, mem, out);
            },
            None => {
                assert(false);
                return ;
            },
        }
        addr = addr + T2::Ref::size_of();
        match mem.read(addr, T3::Ref::size_of()) {
            Some(bytes) => {
                let head = T3::Ref::from_bytes(&bytes);
                self.0.2.pinned(&head, mem, out);
            },
            None => {
                assert(false);
                return ;
            },
        }
        addr = addr + T3::Ref::size_of();
        match mem.read(addr, T4::Ref::size_of()) {
            Some(bytes) => {
                let head = T4::Ref::from_bytes(&bytes);
                self.0.3.pinned(&head, mem, out);
            },
            None => {
                assert(false);
                return ;
            },
        }
        addr = addr + T4::Ref::size_of();
        match mem.read(addr, T5::Ref::size_of()) {
            Some(bytes) => {
                let head = T5::Ref::from_bytes(&bytes);
                self.0.4.pinned(&head, mem, out);
            },
            None => {
                assert(false);
                return ;
            },
        }
        addr = addr + T5::Ref::size_of();
        match mem.read(addr, T6::Ref::size_of()) {
            Some(bytes) => {
                let head = T6::Ref::from_bytes(&bytes);
                self.0.5.pinned(&head, mem, out);
            },
            None => {
                assert(false);
                return ;
            },
        }
        addr = addr + T6::Ref::size_of();
        match mem.read(addr, T7::Ref::size_of()) {
            Some(bytes) => {
                let head = T7::Ref::from_bytes(&bytes);
                self.0.6.pinned(&head, mem, out);
            },
            None => {
                assert(false);
                return ;
            },
        }
        addr = addr + T7::Ref::size_of();
        match mem.read(addr, T8::Ref::size_of()) {
            Some(bytes) => {
                let head = T8::Ref::from_bytes(&bytes);
                self.0.7.pinned(&head, mem, out);
            },
            None => {
                assert(false);
                return ;
            },
        }
        addr = addr + T8::Ref::size_of();
        match mem.read(addr, T9::Ref::size_of()) {
            Some(bytes) => {
                let head = T9::Ref::from_bytes(&bytes);
                self.0.8.pinned(&head, mem, out);
            },
            None => {
                assert(false);
                return ;
            },
        }
        addr = addr + T9::Ref::size_of();
        assert(pieces_of(out@) =~= pieces_of(old(out)@) + self.pins(*r, mem.image()));
    }
}

impl<T1: FromRef, T2: FromRef, T3: FromRef, T4: FromRef, T5: FromRef, T6: FromRef, T7: FromRef, T8: FromRef, T9: FromRef> FromRef for CopyStruct<(T1, T2, T3, T4, T5, T6, T7, T8, T9)> where <T1 as ToRef>::Ref: Pod, <T2 as ToRef>::Ref: Pod, <T3 as ToRef>::Ref: Pod, <T4 as ToRef>::Ref: Pod, <T5 as ToRef>::Ref: Pod, <T6 as ToRef>::Ref: Pod, <T7 as ToRef>::Ref: Pod, <T8 as ToRef>::Ref: Pod, <T9 as ToRef>::Ref: Pod {
    open spec fn decoded(r: usize, img: Image) -> Option<(<T1 as DeepView>::V, <T2 as DeepView>::V, <T3 as DeepView>::V, <T4 as DeepView>::V, <T5 as DeepView>::V, <T6 as DeepView>::V, <T7 as DeepView>::V, <T8 as DeepView>::V, <T9 as DeepView>::V)> {
        if r + <T1 as ToRef>::Ref::size() + <T2 as ToRef>::Ref::size() + <T3 as ToRef>::Ref::size() + <T4 as ToRef>::Ref::size() + <T5 as ToRef>::Ref::size() + <T6 as ToRef>::Ref::size() + <T7 as ToRef>::Ref::size() + <T8 as ToRef>::Ref::size() + <T9 as ToRef>::Ref::size() > usize::MAX {
            None
        } else {
            match (head_decoded::<T1>(r as int, img), head_decoded::<T2>(r as int + <T1 as ToRef>::Ref::size(), img), head_decoded::<T3>(r as int + <T1 as ToRef>::Ref::size() + <T2 as ToRef>::Ref::size(), img), head_decoded::<T4>(r as int + <T1 as ToRef>::Ref::size() + <T2 as ToRef>::Ref::size() + <T3 as ToRef>::Ref::size(), img), head_decoded::<T5>(r as int + <T1 as ToRef>::Ref::size() + <T2 as ToRef>::Ref::size() + <T3 as ToRef>::Ref::size() + <T4 as ToRef>::Ref::size(), img), head_decoded::<T6>(r as int + <T1 as ToRef>::Ref::size() + <T2 as ToRef>::Ref::size() + <T3 as ToRef>::Ref::size() + <T4 as ToRef>::Ref::size() + <T5 as ToRef>::Ref::size(), img), head_decoded::<T7>(r as int + <T1 as ToRef>::Ref::size() + <T2 as ToRef>::Ref::size() + <T3 as ToRef>::Ref::size() + <T4 as ToRef>::Ref::size() + <T5 as ToRef>::Ref::size() + <T6 as ToRef>::Ref::size(), img), head_decoded::<T8>(r as int + <T1 as ToRef>::Ref::size() + <T2 as ToRef>::Ref::size() + <T3 as ToRef>::Ref::size() + <T4 as ToRef>::Ref::size() + <T5 as ToRef>::Ref::size() + <T6 as ToRef>::Ref::size() + <T7 as ToRef>::Ref::size(), img), head_decoded::<T9>(r as int + <T1 as ToRef>::Ref::size() + <T2 as ToRef>::Ref::size() + <T3 as ToRef>::Ref::size() + <T4 as ToRef>::Ref::size() + <T5 as ToRef>::Ref::size() + <T6 as ToRef>::Ref::size() + <T7 as ToRef>::Ref::size() + <T8 as ToRef>::Ref::size(), img)) {
                (Some(v0), Some(v1), Some(v2), Some(v3), Some(v4), Some(v5), Some(v6), Some(v7), Some(v8)) => Some((v0, v1, v2, v3, v4, v5, v6, v7, v8)),
                _ => None,
            }
        }
    }

    proof fn lemma_round_trip(&self, r: usize, img: Image, lo: int, hi: int) {
        match head_at::<<T1 as ToRef>::Ref>(img, r as int) {
            Some(head) => {
                self.0.0.lemma_round_trip(head, img, lo, hi);
            },
            None => {},
        }
        match head_at::<<T2 as ToRef>::Ref>(img, r as int + <T1 as ToRef>::Ref::size()) {
            Some(head) => {
                self.0.1.lemma_round_trip(head, img, lo, hi);
            },
            None => {},
        }
        match head_at::<<T3 as ToRef>::Ref>(img, r as int + <T1 as ToRef>::Ref::size() + <T2 as ToRef>::Ref::size()) {
            Some(head) => {
                self.0.2.lemma_round_trip(head, img, lo, hi);
            },
            None => {},
        }
        match head_at::<<T4 as ToRef>::Ref>(img, r as int + <T1 as ToRef>::Ref::size() + <T2 as ToRef>::Ref::size() + <T3 as ToRef>::Ref::size()) {
            Some(head) => {
                self.0.3.lemma_round_trip(head, img, lo, hi);
            },
            None => {},
        }
        match head_at::<<T5 as ToRef>::Ref>(img, r as int + <T1 as ToRef>::Ref::size() + <T2 as ToRef>::Ref::size() + <T3 as ToRef>::Ref::size() + <T4 as ToRef>::Ref::size()) {
            Some(head) => {
                self.0.4.lemma_round_trip(head, img, lo, hi);
            },
            None => {},
        }
        match head_at::<<T6 as ToRef>::Ref>(img, r as int + <T1 as ToRef>::Ref::size() + <T2 as ToRef>::Ref::size() + <T3 as ToRef>::Ref::size() + <T4 as ToRef>::Ref::size() + <T5 as ToRef>::Ref::size()) {
            Some(head) => {
                self.0.5.lemma_round_trip(head, img, lo, hi);
            },
            None => {},
        }
        match head_at::<<T7 as ToRef>::Ref>(img, r as int + <T1 as ToRef>::Ref::size() + <T2 as ToRef>::Ref::size() + <T3 as ToRef>::Ref::size() + <T4 as ToRef>::Ref::size() + <T5 as ToRef>::Ref::size() + <T6 as ToRef>::Ref::size()) {
            Some(head) => {
                self.0.6.lemma_round_trip(head, img, lo, hi);
            },
            None => {},
        }
        match head_at::<<T8 as ToRef>::Ref>(img, r as int + <T1 as ToRef>::Ref::size() + <T2 as ToRef>::Ref::size() + <T3 as ToRef>::Ref::size() + <T4 as ToRef>::Ref::size() + <T5 as ToRef>::Ref::size() + <T6 as ToRef>::Ref::size() + <T7 as ToRef>::Ref::size()) {
            Some(head) => {
                self.0.7.lemma_round_trip(head, img, lo, hi);
            },
            None => {},
        }
        match head_at::<<T9 as ToRef>::Ref>(img, r as int + <T1 as ToRef>::Ref::size() + <T2 as ToRef>::Ref::size() + <T3 as ToRef>::Ref::size() + <T4 as ToRef>::Ref::size() + <T5 as ToRef>::Ref::size() + <T6 as ToRef>::Ref::size() + <T7 as ToRef>::Ref::size() + <T8 as ToRef>::Ref::size()) {
            Some(head) => {
                self.0.8.lemma_round_trip(head, img, lo, hi);
            },
            None => {},
        }
    }

    fn from_ref<M: MemoryRead>(r: &usize, mem: &M) -> (o: Option<Self>) {
        let mut addr: usize = *r;
        let size0 = <T1 as ToRef>::Ref::size_of();
        if size0 > usize::MAX - addr {
            return None;
        }
        let start0 = addr;
        addr = addr + size0;
        let size1 = <T2 as ToRef>::Ref::size_of();
        if size1 > usize::MAX - addr {
            return None;
        }
        let start1 = addr;
        addr = addr + size1;
        let size2 = <T3 as ToRef>::Ref::size_of();
        if size2 > usize::MAX - addr {
            return None;
        }
        let start2 = addr;
        addr = addr + size2;
        let size3 = <T4 as ToRef>::Ref::size_of();
        if size3 > usize::MAX - addr {
            return None;
        }
        let start3 = addr;
        addr = addr + size3;
        let size4 = <T5 as ToRef>::Ref::size_of();
        if size4 > usize::MAX - addr {
            return None;
        }
        let start4 = addr;
        addr = addr + size4;
        let size5 = <T6 as ToRef>::Ref::size_of();
        if size5 > usize::MAX - addr {
            return None;
        }
        let start5 = addr;
        addr = addr + size5;
        let size6 = <T7 as ToRef>::Ref::size_of();
        if size6 > usize::MAX - addr {
            return None;
        }
        let start6 = addr;
        addr = addr + size6;
        let size7 = <T8 as ToRef>::Ref::size_of();
        if size7 > usize::MAX - addr {
            return None;
        }
        let start7 = addr;
        addr = addr + size7;
        let size8 = <T9 as ToRef>::Ref::size_of();
        if size8 > usize::MAX - addr {
            return None;
        }
        let start8 = addr;
        addr = addr + size8;
        let v0 = match mem.read(start0, size0) {
            Some(bytes) => {
                let head = <T1 as ToRef>::Ref::from_bytes(&bytes);
                match <T1 as FromRef>::from_ref(&head, mem) {
                    Some(v) => v,
                    None => {
                        return None;
                    },
                }
            },
            None => {
                return None;
            },
        };
        let v1 = match mem.read(start1, size1) {
            Some(bytes) => {
                let head = <T2 as ToRef>::Ref::from_bytes(&bytes);
                match <T2 as FromRef>::from_ref(&head, mem) {
                    Some(v) => v,
                    None => {
                        return None;
                    },
                }
            },
            None => {
                return None;
            },
        };
        let v2 = match mem.read(start2, size2) {
            Some(bytes) => {
                let head = <T3 as ToRef>::Ref::from_bytes(&bytes);
                match <T3 as FromRef>::from_ref(&head, mem) {
                    Some(v) => v,
                    None => {
                        return None;
                    },
                }
            },
            None => {
                return None;
            },
        };
        let v3 = match mem.read(start3, size3) {
            Some(bytes) => {
                let head = <T4 as ToRef>::Ref::from_bytes(&bytes);
                match <T4 as FromRef>::from_ref(&head, mem) {
                    Some(v) => v,
                    None => {
                        return None;
                    },
                }
            },
            None => {
                return None;
            },
        };
        let v4 = match mem.read(start4, size4) {
            Some(bytes) => {
                let head = <T5 as ToRef>::Ref::from_bytes(&bytes);
                match <T5 as FromRef>::from_ref(&head, mem) {
                    Some(v) => v,
                    None => {
                        return None;
                    },
                }
            },
            None => {
                return None;
            },
        };
        let v5 = match mem.read(start5, size5) {
            Some(bytes) => {
                let head = <T6 as ToRef>::Ref::from_bytes(&bytes);
                match <T6 as FromRef>::from_ref(&head, mem) {
                    Some(v) => v,
                    None => {
                        return None;
                    },
                }
            },
            None => {
                return None;
            },
        };
        let v6 = match mem.read(start6, size6) {
            Some(bytes) => {
                let head = <T7 as ToRef>::Ref::from_bytes(&bytes);
                match <T7 as FromRef>::from_ref(&head, mem) {
                    Some(v) => v,
                    None => {
                        return None;
                    },
                }
            },
            None => {
                return None;
            },
        };
        let v7 = match mem.read(start7, size7) {
            Some(bytes) => {
                let head = <T8 as ToRef>::Ref::from_bytes(&bytes);
                match <T8 as FromRef>::from_ref(&head, mem) {
                    Some(v) => v,
                    None => {
                        return None;
                    },
                }
            },
            None => {
                return None;
            },
        };
        let v8 = match mem.read(start8, size8) {
            Some(bytes) => {
                let head = <T9 as ToRef>::Ref::from_bytes(&bytes);
                match <T9 as FromRef>::from_ref(&head, mem) {
                    Some(v) => v,
                    None => {
                        return None;
                    },
                }
            },
            None => {
                return None;
            },
        };
        Some(CopyStruct((v0, v1, v2, v3, v4, v5, v6, v7, v8)))
    }
}

impl<T1: ToRef, T2: ToRef, T3: ToRef, T4: ToRef, T5: ToRef, T6: ToRef, T7: ToRef, T8: ToRef, T9: ToRef, T10: ToRef> ToRef for CopyStruct<(T1, T2, T3, T4, T5, T6, T7, T8, T9, T10)> where T1::Ref: Pod, T2::Ref: Pod, T3::Ref: Pod, T4::Ref: Pod, T5::Ref: Pod, T6::Ref: Pod, T7::Ref: Pod, T8::Ref: Pod, T9::Ref: Pod, T10::Ref: Pod {
    type Ref = usize;

    open spec fn mem_type() -> MemType {
        MemType::Complex
    }

    open spec fn size(&self) -> nat {
        self.0.size() + T1::Ref::size() + T2::Ref::size() + T3::Ref::size() + T4::Ref::size() + T5::Ref::size() + T6::Ref::size() + T7::Ref::size() + T8::Ref::size() + T9::Ref::size() + T10::Ref::size()
    }

    open spec fn views(&self, r: usize, img: Image, lo: int, hi: int, deep: bool) -> bool {
        &&& r + T1::Ref::size() + T2::Ref::size() + T3::Ref::size() + T4::Ref::size() + T5::Ref::size() + T6::Ref::size() + T7::Ref::size() + T8::Ref::size() + T9::Ref::size() + T10::Ref::size() <= usize::MAX
        &&& T1::Ref::size() + T2::Ref::size() + T3::Ref::size() + T4::Ref::size() + T5::Ref::size() + T6::Ref::size() + T7::Ref::size() + T8::Ref::size() + T9::Ref::size() + T10::Ref::size() > 0 ==> lo <= r && r + T1::Ref::size() + T2::Ref::size() + T3::Ref::size() + T4::Ref::size() + T5::Ref::size() + T6::Ref::size() + T7::Ref::size() + T8::Ref::size() + T9::Ref::size() + T10::Ref::size() <= hi
        &&& head_views(self.0.0, r as int, img, lo, hi, deep)
        &&& head_views(self.0.1, r as int + T1::Ref::size(), img, lo, hi, deep)
        &&& head_views(self.0.2, r as int + T1::Ref::size() + T2::Ref::size(), img, lo, hi, deep)
        &&& head_views(self.0.3, r as int + T1::Ref::size() + T2::Ref::size() + T3::Ref::size(), img, lo, hi, deep)
        &&& head_views(self.0.4, r as int + T1::Ref::size() + T2::Ref::size() + T3::Ref::size() + T4::Ref::size(), img, lo, hi, deep)
        &&& head_views(self.0.5, r as int + T1::Ref::size() + T2::Ref::size() + T3::Ref::size() + T4::Ref::size() + T5::Ref::size(), img, lo, hi, deep)
        &&& head_views(self.0.6, r as int + T1::Ref::size() + T2::Ref::size() + T3::Ref::size() + T4::Ref::size() + T5::Ref::size() + T6::Ref::size(), img, lo, hi, deep)
        &&& head_views(self.0.7, r as int + T1::Ref::size() + T2::Ref::size() + T3::Ref::size() + T4::Ref::size() + T5::Ref::size() + T6::Ref::size() + T7::Ref::size(), img, lo, hi, deep)
        &&& head_views(self.0.8, r as int + T1::Ref::size() + T2::Ref::size() + T3::Ref::size() + T4::Ref::size() + T5::Ref::size() + T6::Ref::size() + T7::Ref::size() + T8::Ref::size(), img, lo, hi, deep)
        &&& head_views(self.0.9, r as int + T1::Ref::size() + T2::Ref::size() + T3::Ref::size() + T4::Ref::size() + T5::Ref::size() + T6::Ref::size() + T7::Ref::size() + T8::Ref::size() + T9::Ref::size(), img, lo, hi, deep)
    }

    open spec fn flat(&self) -> usize {
        0
    }

    open spec fn pins(&self, r: usize, img: Image) -> Seq<Piece> {
        head_pins(self.0.0, r as int, img) + head_pins(self.0.1, r as int + T1::Ref::size(), img) + head_pins(self.0.2, r as int + T1::Ref::size() + T2::Ref::size(), img) + head_pins(self.0.3, r as int + T1::Ref::size() + T2::Ref::size() + T3::Ref::size(), img) + head_pins(self.0.4, r as int + T1::Ref::size() + T2::Ref::size() + T3::Ref::size() + T4::Ref::size(), img) + head_pins(self.0.5, r as int + T1::Ref::size() + T2::Ref::size() + T3::Ref::size() + T4::Ref::size() + T5::Ref::size(), img) + head_pins(self.0.6, r as int + T1::Ref::size() + T2::Ref::size() + T3::Ref::size() + T4::Ref::size() + T5::Ref::size() + T6::Ref::size(), img) + head_pins(self.0.7, r as int + T1::Ref::size() + T2::Ref::size() + T3::Ref::size() + T4::Ref::size() + T5::Ref::size() + T6::Ref::size() + T7::Ref::size(), img) + head_pins(self.0.8, r as int + T1::Ref::size() + T2::Ref::size() + T3::Ref::size() + T4::Ref::size() + T5::Ref::size() + T6::Ref::size() + T7::Ref::size() + T8::Ref::size(), img) + head_pins(self.0.9, r as int + T1::Ref::size() + T2::Ref::size() + T3::Ref::size() + T4::Ref::size() + T5::Ref::size() + T6::Ref::size() + T7::Ref::size() + T8::Ref::size() + T9::Ref::size(), img)
    }

    proof fn lemma_flat(&self) {
    }

    proof fn lemma_primitive(&self, r: usize, img: Image, lo: int, hi: int, deep: bool) {
    }

    proof fn lemma_deepen(&self, r: usize, img: Image, other: Image, lo: int, hi: int) {
        lemma_holds_all_concat(other, head_pins(self.0.0, r as int, img) + head_pins(self.0.1, r as int + T1::Ref::size(), img) + head_pins(self.0.2, r as int + T1::Ref::size() + T2::Ref::size(), img) + head_pins(self.0.3, r as int + T1::Ref::size() + T2::Ref::size() + T3::Ref::size(), img) + head_pins(self.0.4, r as int + T1::Ref::size() + T2::Ref::size() + T3::Ref::size() + T4::Ref::size(), img) + head_pins(self.0.5, r as int + T1::Ref::size() + T2::Ref::size() + T3::Ref::size() + T4::Ref::size() + T5::Ref::size(), img) + head_pins(self.0.6, r as int + T1::Ref::size() + T2::Ref::size() + T3::Ref::size() + T4::Ref::size() + T5::Ref::size() + T6::Ref::size(), img) + head_pins(self.0.7, r as int + T1::Ref::size() + T2::Ref::size() + T3::Ref::size() + T4::Ref::size() + T5::Ref::size() + T6::Ref::size() + T7::Ref::size(), img) + head_pins(self.0.8, r as int + T1::Ref::size() + T2::Ref::size() + T3::Ref::size() + T4::Ref::size() + T5::Ref::size() + T6::Ref::size() + T7::Ref::size() + T8::Ref::size(), img), head_pins(self.0.9, r as int + T1::Ref::size() + T2::Ref::size() + T3::Ref::size() + T4::Ref::size() + T5::Ref::size() + T6::Ref::size() + T7::Ref::size() + T8::Ref::size() + T9::Ref::size(), img));
        lemma_holds_all_concat(other, head_pins(self.0.0, r as int, img) + head_pins(self.0.1, r as int + T1::Ref::size(), img) + head_pins(self.0.2, r as int + T1::Ref::size() + T2::Ref::size(), img) + head_pins(self.0.3, r as int + T1::Ref::size() + T2::Ref::size() + T3::Ref::size(), img) + head_pins(self.0.4, r as int + T1::Ref::size() + T2::Ref::size() + T3::Ref::size() + T4::Ref::size(), img) + head_pins(self.0.5, r as int + T1::Ref::size() + T2::Ref::size() + T3::Ref::size() + T4::Ref::size() + T5::Ref::size(), img) + head_pins(self.0.6, r as int + T1::Ref::size() + T2::Ref::size() + T3::Ref::size() + T4::Ref::size() + T5::Ref::size() + T6::Ref::size(), img) + head_pins(self.0.7, r as int + T1::Ref::size() + T2::Ref::size() + T3::Ref::size() + T4::Ref::size() + T5::Ref::size() + T6::Ref::size() + T7::Ref::size(), img), head_pins(self.0.8, r as int + T1::Ref::size() + T2::Ref::size() + T3::Ref::size() + T4::Ref::size() + T5::Ref::size() + T6::Ref::size() + T7::Ref::size() + T8::Ref::size(), img));
        lemma_holds_all_concat(other, head_pins(self.0.0, r as int, img) + head_pins(self.0.1, r as int + T1::Ref::size(), img) + head_pins(self.0.2, r as int + T1::Ref::size() + T2::Ref::size(), img) + head_pins(self.0.3, r as int + T1::Ref::size() + T2::Ref::size() + T3::Ref::size(), img) + head_pins(self.0.4, r as int + T1::Ref::size() + T2::Ref::size() + T3::Ref::size() + T4::Ref::size(), img) + head_pins(self.0.5, r as int + T1::Ref::size() + T2::Ref::size() + T3::Ref::size() + T4::Ref::size() + T5::Ref::size(), img) + head_pins(self.0.6, r as int + T1::Ref::size() + T2::Ref::size() + T3::Ref::size() + T4::Ref::size() + T5::Ref::size() + T6::Ref::size(), img), head_pins(self.0.7, r as int + T1::Ref::size() + T2::Ref::size() + T3::Ref::size() + T4::Ref::size() + T5::Ref::size() + T6::Ref::size() + T7::Ref::size(), img));
        lemma_holds_all_concat(other, head_pins(self.0.0, r as int, img) + head_pins(self.0.1, r as int + T1::Ref::size(), img) + head_pins(self.0.2, r as int + T1::Ref::size() + T2::Ref::size(), img) + head_pins(self.0.3, r as int + T1::Ref::size() + T2::Ref::size() + T3::Ref::size(), img) + head_pins(self.0.4, r as int + T1::Ref::size() + T2::Ref::size() + T3::Ref::size() + T4::Ref::size(), img) + head_pins(self.0.5, r as int + T1::Ref::size() + T2::Ref::size() + T3::Ref::size() + T4::Ref::size() + T5::Ref::size(), img), head_pins(self.0.6, r as int + T1::Ref::size() + T2::Ref::size() + T3::Ref::size() + T4::Ref::size() + T5::Ref::size() + T6::Ref::size(), img));
        lemma_holds_all_concat(other, head_pins(self.0.0, r as int, img) + head_pins(self.0.1, r as int + T1::Ref::size(), img) + head_pins(self.0.2, r as int + T1::Ref::size() + T2::Ref::size(), img) + head_pins(self.0.3, r as int + T1::Ref::size() + T2::Ref::size() + T3::Ref::size(), img) + head_pins(self.0.4, r as int + T1::Ref::size() + T2::Ref::size() + T3::Ref::size() + T4::Ref::size(), img), head_pins(self.0.5, r as int + T1::Ref::size() + T2::Ref::size() + T3::Ref::size() + T4::Ref::size() + T5::Ref::size(), img));
        lemma_holds_all_concat(other, head_pins(self.0.0, r as int, img) + head_pins(self.0.1, r as int + T1::Ref::size(), img) + head_pins(self.0.2, r as int + T1::Ref::size() + T2::Ref::size(), img) + head_pins(self.0.3, r as int + T1::Ref::size() + T2::Ref::size() + T3::Ref::size(), img), head_pins(self.0.4, r as int + T1::Ref::size() + T2::Ref::size() + T3::Ref::size() + T4::Ref::size(), img));
        lemma_holds_all_concat(other, head_pins(self.0.0, r as int, img) + head_pins(self.0.1, r as int + T1::Ref::size(), img) + head_pins(self.0.2, r as int + T1::Ref::size() + T2::Ref::size(), img), head_pins(self.0.3, r as int + T1::Ref::size() + T2::Ref::size() + T3::Ref::size(), img));
        lemma_holds_all_concat(other, head_pins(self.0.0, r as int, img) + head_pins(self.0.1, r as int + T1::Ref::size(), img), head_pins(self.0.2, r as int + T1::Ref::size() + T2::Ref::size(), img));
        lemma_holds_all_concat(other, head_pins(self.0.0, r as int, img), head_pins(self.0.1, r as int + T1::Ref::size(), img));
        lemma_head_deepen(self.0.0, r as int, img, other, lo, hi);
        lemma_head_deepen(self.0.1, r as int + T1::Ref::size(), img, other, lo, hi);
        lemma_head_deepen(self.0.2, r as int + T1::Ref::size() + T2::Ref::size(), img, other, lo, hi);
        lemma_head_deepen(self.0.3, r as int + T1::Ref::size() + T2::Ref::size() + T3::Ref::size(), img, other, lo, hi);
        lemma_head_deepen(self.0.4, r as int + T1::Ref::size() + T2::Ref::size() + T3::Ref::size() + T4::Ref::size(), img, other, lo, hi);
        lemma_head_deepen(self.0.5, r as int + T1::Ref::size() + T2::Ref::size() + T3::Ref::size() + T4::Ref::size() + T5::Ref::size(), img, other, lo, hi);
        lemma_head_deepen(self.0.6, r as int + T1::Ref::size() + T2::Ref::size() + T3::Ref::size() + T4::Ref::size() + T5::Ref::size() + T6::Ref::size(), img, other, lo, hi);
        lemma_head_deepen(self.0.7, r as int + T1::Ref::size() + T2::Ref::size() + T3::Ref::size() + T4::Ref::size() + T5::Ref::size() + T6::Ref::size() + T7::Ref::size(), img, other, lo, hi);
        lemma_head_deepen(self.0.8, r as int + T1::Ref::size() + T2::Ref::size() + T3::Ref::size() + T4::Ref::size() + T5::Ref::size() + T6::Ref::size() + T7::Ref::size() + T8::Ref::size(), img, other, lo, hi);
        lemma_head_deepen(self.0.9, r as int + T1::Ref::size() + T2::Ref::size() + T3::Ref::size() + T4::Ref::size() + T5::Ref::size() + T6::Ref::size() + T7::Ref::size() + T8::Ref::size() + T9::Ref::size(), img, other, lo, hi);
    }

    proof fn lemma_frame(&self, r: usize, img: Image, other: Image, lo: int, hi: int, deep: bool) {
        lemma_head_frame(self.0.0, r as int, img, other, lo, hi, deep);
        lemma_head_frame(self.0.1, r as int + T1::Ref::size(), img, other, lo, hi, deep);
        lemma_head_frame(self.0.2, r as int + T1::Ref::size() + T2::Ref::size(), img, other, lo, hi, deep);
        lemma_head_frame(self.0.3, r as int + T1::Ref::size() + T2::Ref::size() + T3::Ref::size(), img, other, lo, hi, deep);
        lemma_head_frame(self.0.4, r as int + T1::Ref::size() + T2::Ref::size() + T3::Ref::size() + T4::Ref::size(), img, other, lo, hi, deep);
        lemma_head_frame(self.0.5, r as int + T1::Ref::size() + T2::Ref::size() + T3::Ref::size() + T4::Ref::size() + T5::Ref::size(), img, other, lo, hi, deep);
        lemma_head_frame(self.0.6, r as int + T1::Ref::size() + T2::Ref::size() + T3::Ref::size() + T4::Ref::size() + T5::Ref::size() + T6::Ref::size(), img, other, lo, hi, deep);
        lemma_head_frame(self.0.7, r as int + T1::Ref::size() + T2::Ref::size() + T3::Ref::size() + T4::Ref::size() + T5::Ref::size() + T6::Ref::size() + T7::Ref::size(), img, other, lo, hi, deep);
        lemma_head_frame(self.0.8, r as int + T1::Ref::size() + T2::Ref::size() + T3::Ref::size() + T4::Ref::size() + T5::Ref::size() + T6::Ref::size() + T7::Ref::size() + T8::Ref::size(), img, other, lo, hi, deep);
        lemma_head_frame(self.0.9, r as int + T1::Ref::size() + T2::Ref::size() + T3::Ref::size() + T4::Ref::size() + T5::Ref::size() + T6::Ref::size() + T7::Ref::size() + T8::Ref::size() + T9::Ref::size(), img, other, lo, hi, deep);
    }

    proof fn lemma_widen(
        &self,
        r: usize,
        img: Image,
        lo: int,
        hi: int,
        wide_lo: int,
        wide_hi: int,
        deep: bool,
    ) {
        match head_at::<T1::Ref>(img, r as int) {
            Some(head) => {
                self.0.0.lemma_widen(head, img, lo, hi, wide_lo, wide_hi, deep);
            },
            None => {},
        }
        match head_at::<T2::Ref>(img, r as int + T1::Ref::size()) {
            Some(head) => {
                self.0.1.lemma_widen(head, img, lo, hi, wide_lo, wide_hi, deep);
            },
            None => {},
        }
        match head_at::<T3::Ref>(img, r as int + T1::Ref::size() + T2::Ref::size()) {
            Some(head) => {
                self.0.2.lemma_widen(head, img, lo, hi, wide_lo, wide_hi, deep);
            },
            None => {},
        }
        match head_at::<T4::Ref>(img, r as int + T1::Ref::size() + T2::Ref::size() + T3::Ref::size()) {
            Some(head) => {
                self.0.3.lemma_widen(head, img, lo, hi, wide_lo, wide_hi, deep);
            },
            None => {},
        }
        match head_at::<T5::Ref>(img, r as int + T1::Ref::size() + T2::Ref::size() + T3::Ref::size() + T4::Ref::size()) {
            Some(head) => {
                self.0.4.lemma_widen(head, img, lo, hi, wide_lo, wide_hi, deep);
            },
            None => {},
        }
        match head_at::<T6::Ref>(img, r as int + T1::Ref::size() + T2::Ref::size() + T3::Ref::size() + T4::Ref::size() + T5::Ref::size()) {
            Some(head) => {
                self.0.5.lemma_widen(head, img, lo, hi, wide_lo, wide_hi, deep);
            },
            None => {},
        }
        match head_at::<T7::Ref>(img, r as int + T1::Ref::size() + T2::Ref::size() + T3::Ref::size() + T4::Ref::size() + T5::Ref::size() + T6::Ref::size()) {
            Some(head) => {
                self.0.6.lemma_widen(head, img, lo, hi, wide_lo, wide_hi, deep);
            },
            None => {},
        }
        match head_at::<T8::Ref>(img, r as int + T1::Ref::size() + T2::Ref::size() + T3::Ref::size() + T4::Ref::size() + T5::Ref::size() + T6::Ref::size() + T7::Ref::size()) {
            Some(head) => {
                self.0.7.lemma_widen(head, img, lo, hi, wide_lo, wide_hi, deep);
            },
            None => {},
        }
        match head_at::<T9::Ref>(img, r as int + T1::Ref::size() + T2::Ref::size() + T3::Ref::size() + T4::Ref::size() + T5::Ref::size() + T6::Ref::size() + T7::Ref::size() + T8::Ref::size()) {
            Some(head) => {
                self.0.8.lemma_widen(head, img, lo, hi, wide_lo, wide_hi, deep);
            },
            None => {},
        }
        match head_at::<T10::Ref>(img, r as int + T1::Ref::size() + T2::Ref::size() + T3::Ref::size() + T4::Ref::size() + T5::Ref::size() + T6::Ref::size() + T7::Ref::size() + T8::Ref::size() + T9::Ref::size()) {
            Some(head) => {
                self.0.9.lemma_widen(head, img, lo, hi, wide_lo, wide_hi, deep);
            },
            None => {},
        }
    }

    fn mem_type_of() -> (t: MemType) {
        MemType::Complex
    }

    fn to_size(&self, acc: &mut usize) {
        self.0.to_size(acc);
        *acc = *acc + T1::Ref::size_of();
        *acc = *acc + T2::Ref::size_of();
        *acc = *acc + T3::Ref::size_of();
        *acc = *acc + T4::Ref::size_of();
        *acc = *acc + T5::Ref::size_of();
        *acc = *acc + T6::Ref::size_of();
        *acc = *acc + T7::Ref::size_of();
        *acc = *acc + T8::Ref::size_of();
        *acc = *acc + T9::Ref::size_of();
        *acc = *acc + T10::Ref::size_of();
    }

    fn checked_size(&self, acc: usize) -> (sum: Option<usize>) {
        let mut sum = match self.0.checked_size(acc) {
            Some(next) => next,
            None => {
                return None;
            },
        };
        let size0 = T1::Ref::size_of();
        if size0 > usize::MAX - sum {
            return None;
        }
        sum = sum + size0;
        let size1 = T2::Ref::size_of();
        if size1 > usize::MAX - sum {
            return None;
        }
        sum = sum + size1;
        let size2 = T3::Ref::size_of();
        if size2 > usize::MAX - sum {
            return None;
        }
        sum = sum + size2;
        let size3 = T4::Ref::size_of();
        if size3 > usize::MAX - sum {
            return None;
        }
        sum = sum + size3;
        let size4 = T5::Ref::size_of();
        if size4 > usize::MAX - sum {
            return None;
        }
        sum = sum + size4;
        let size5 = T6::Ref::size_of();
        if size5 > usize::MAX - sum {
            return None;
        }
        sum = sum + size5;
        let size6 = T7::Ref::size_of();
        if size6 > usize::MAX - sum {
            return None;
        }
        sum = sum + size6;
        let size7 = T8::Ref::size_of();
        if size7 > usize::MAX - sum {
            return None;
        }
        sum = sum + size7;
        let size8 = T9::Ref::size_of();
        if size8 > usize::MAX - sum {
            return None;
        }
        sum = sum + size8;
        let size9 = T10::Ref::size_of();
        if size9 > usize::MAX - sum {
            return None;
        }
        sum = sum + size9;
        Some(sum)
    }

    #[verifier::rlimit(40)]
    fn to_ref(&self, writer: &mut Writer) -> (r: usize) {
        let ghost base = writer.base() as int;
        let ghost w0 = *writer;
        proof {
            writer.lemma_bounds();
        }
        let heads = self.0.to_ref(writer);
        let ghost v0 = *writer;
        proof {
            writer.lemma_bounds();
        }
        let ptr = writer.as_ptr();
        writer.put(&heads.0);
        let ghost v1 = *writer;
        proof {
            writer.lemma_bounds();
            T1::Ref::lemma_size();
            heads.0.lemma_layout();
            lemma_image_put(v0, v1, heads.0.encode());
        }
        writer.put(&heads.1);
        let ghost v2 = *writer;
        proof {
            writer.lemma_bounds();
            T2::Ref::lemma_size();
            heads.1.lemma_layout();
            lemma_image_put(v1, v2, heads.1.encode());
        }
        writer.put(&heads.2);
        let ghost v3 = *writer;
        proof {
            writer.lemma_bounds();
            T3::Ref::lemma_size();
            heads.2.lemma_layout();
            lemma_image_put(v2, v3, heads.2.encode());
        }
        writer.put(&heads.3);
        let ghost v4 = *writer;
        proof {
            writer.lemma_bounds();
            T4::Ref::lemma_size();
            heads.3.lemma_layout();
            lemma_image_put(v3, v4, heads.3.encode());
        }
        writer.put(&heads.4);
        let ghost v5 = *writer;
        proof {
            writer.lemma_bounds();
            T5::Ref::lemma_size();
            heads.4.lemma_layout();
            lemma_image_put(v4, v5, heads.4.encode());
        }
        writer.put(&heads.5);
        let ghost v6 = *writer;
        proof {
            writer.lemma_bounds();
            T6::Ref::lemma_size();
            heads.5.lemma_layout();
            lemma_image_put(v5, v6, heads.5.encode());
        }
        writer.put(&heads.6);
        let ghost v7 = *writer;
        proof {
            writer.lemma_bounds();
            T7::Ref::lemma_size();
            heads.6.lemma_layout();
            lemma_image_put(v6, v7, heads.6.encode());
        }
        writer.put(&heads.7);
        let ghost v8 = *writer;
        proof {
            writer.lemma_bounds();
            T8::Ref::lemma_size();
            heads.7.lemma_layout();
            lemma_image_put(v7, v8, heads.7.encode());
        }
        writer.put(&heads.8);
        let ghost v9 = *writer;
        proof {
            writer.lemma_bounds();
            T9::Ref::lemma_size();
            heads.8.lemma_layout();
            lemma_image_put(v8, v9, heads.8.encode());
        }
        writer.put(&heads.9);
        let ghost v10 = *writer;
        proof {
            writer.lemma_bounds();
            T10::Ref::lemma_size();
            heads.9.lemma_layout();
            lemma_image_put(v9, v10, heads.9.encode());
        }
        proof {
            lemma_keeps_same(v10.arena(), v10.cursor());
            lemma_keeps_trans(v9.arena(), v10.arena(), v10.arena(), v9.cursor(), v10.cursor());
            lemma_keeps_trans(v8.arena(), v9.arena(), v10.arena(), v8.cursor(), v9.cursor());
            lemma_keeps_trans(v7.arena(), v8.arena(), v10.arena(), v7.cursor(), v8.cursor());
            lemma_keeps_trans(v6.arena(), v7.arena(), v10.arena(), v6.cursor(), v7.cursor());
            lemma_keeps_trans(v5.arena(), v6.arena(), v10.arena(), v5.cursor(), v6.cursor());
            lemma_keeps_trans(v4.arena(), v5.arena(), v10.arena(), v4.cursor(), v5.cursor());
            lemma_keeps_trans(v3.arena(), v4.arena(), v10.arena(), v3.cursor(), v4.cursor());
            lemma_keeps_trans(v2.arena(), v3.arena(), v10.arena(), v2.cursor(), v3.cursor());
            lemma_keeps_trans(v1.arena(), v2.arena(), v10.arena(), v1.cursor(), v2.cursor());
            lemma_keeps_trans(v0.arena(), v1.arena(), v10.arena(), v0.cursor(), v1.cursor());
            lemma_keeps_trans(w0.arena(), v0.arena(), v10.arena(), w0.cursor(), v0.cursor());
            lemma_view_stays(&self.0.0, heads.0, v0, v10, base + w0.cursor(), base + v0.cursor());
            self.0.0.lemma_widen(heads.0, v10.image(), base + w0.cursor(), base + v0.cursor(), base + w0.cursor(), base + v10.cursor(), false);
            lemma_head_put(self.0.0, heads.0, v0, v1, v10, ptr as int, base + w0.cursor(), base + v10.cursor());
            lemma_view_stays(&self.0.1, heads.1, v0, v10, base + w0.cursor(), base + v0.cursor());
            self.0.1.lemma_widen(heads.1, v10.image(), base + w0.cursor(), base + v0.cursor(), base + w0.cursor(), base + v10.cursor(), false);
            lemma_head_put(self.0.1, heads.1, v1, v2, v10, ptr as int + T1::Ref::size(), base + w0.cursor(), base + v10.cursor());
            lemma_view_stays(&self.0.2, heads.2, v0, v10, base + w0.cursor(), base + v0.cursor());
            self.0.2.lemma_widen(heads.2, v10.image(), base + w0.cursor(), base + v0.cursor(), base + w0.cursor(), base + v10.cursor(), false);
            lemma_head_put(self.0.2, heads.2, v2, v3, v10, ptr as int + T1::Ref::size() + T2::Ref::size(), base + w0.cursor(), base + v10.cursor());
            lemma_view_stays(&self.0.3, heads.3, v0, v10, base + w0.cursor(), base + v0.cursor());
            self.0.3.lemma_widen(heads.3, v10.image(), base + w0.cursor(), base + v0.cursor(), base + w0.cursor(), base + v10.cursor(), false);
            lemma_head_put(self.0.3, heads.3, v3, v4, v10, ptr as int + T1::Ref::size() + T2::Ref::size() + T3::Ref::size(), base + w0.cursor(), base + v10.cursor());
            lemma_view_stays(&self.0.4, heads.4, v0, v10, base + w0.cursor(), base + v0.cursor());
            self.0.4.lemma_widen(heads.4, v10.image(), base + w0.cursor(), base + v0.cursor(), base + w0.cursor(), base + v10.cursor(), false);
            lemma_head_put(self.0.4, heads.4, v4, v5, v10, ptr as int + T1::Ref::size() + T2::Ref::size() + T3::Ref::size() + T4::Ref::size(), base + w0.cursor(), base + v10.cursor());
            lemma_view_stays(&self.0.5, heads.5, v0, v10, base + w0.cursor(), base + v0.cursor());
            self.0.5.lemma_widen(heads.5, v10.image(), base + w0.cursor(), base + v0.cursor(), base + w0.cursor(), base + v10.cursor(), false);
            lemma_head_put(self.0.5, heads.5, v5, v6, v10, ptr as int + T1::Ref::size() + T2::Ref::size() + T3::Ref::size() + T4::Ref::size() + T5::Ref::size(), base + w0.cursor(), base + v10.cursor());
            lemma_view_stays(&self.0.6, heads.6, v0, v10, base + w0.cursor(), base + v0.cursor());
            self.0.6.lemma_widen(heads.6, v10.image(), base + w0.cursor(), base + v0.cursor(), base + w0.cursor(), base + v10.cursor(), false);
            lemma_head_put(self.0.6, heads.6, v6, v7, v10, ptr as int + T1::Ref::size() + T2::Ref::size() + T3::Ref::size() + T4::Ref::size() + T5::Ref::size() + T6::Ref::size(), base + w0.cursor(), base + v10.cursor());
            lemma_view_stays(&self.0.7, heads.7, v0, v10, base + w0.cursor(), base + v0.cursor());
            self.0.7.lemma_widen(heads.7, v10.image(), base + w0.cursor(), base + v0.cursor(), base + w0.cursor(), base + v10.cursor(), false);
            lemma_head_put(self.0.7, heads.7, v7, v8, v10, ptr as int + T1::Ref::size() + T2::Ref::size() + T3::Ref::size() + T4::Ref::size() + T5::Ref::size() + T6::Ref::size() + T7::Ref::size(), base + w0.cursor(), base + v10.cursor());
            lemma_view_stays(&self.0.8, heads.8, v0, v10, base + w0.cursor(), base + v0.cursor());
            self.0.8.lemma_widen(heads.8, v10.image(), base + w0.cursor(), base + v0.cursor(), base + w0.cursor(), base + v10.cursor(), false);
            lemma_head_put(self.0.8, heads.8, v8, v9, v10, ptr as int + T1::Ref::size() + T2::Ref::size() + T3::Ref::size() + T4::Ref::size() + T5::Ref::size() + T6::Ref::size() + T7::Ref::size() + T8::Ref::size(), base + w0.cursor(), base + v10.cursor());
            lemma_view_stays(&self.0.9, heads.9, v0, v10, base + w0.cursor(), base + v0.cursor());
            self.0.9.lemma_widen(heads.9, v10.image(), base + w0.cursor(), base + v0.cursor(), base + w0.cursor(), base + v10.cursor(), false);
            lemma_head_put(self.0.9, heads.9, v9, v10, v10, ptr as int + T1::Ref::size() + T2::Ref::size() + T3::Ref::size() + T4::Ref::size() + T5::Ref::size() + T6::Ref::size() + T7::Ref::size() + T8::Ref::size() + T9::Ref::size(), base + w0.cursor(), base + v10.cursor());
        }
        ptr
    }

    fn pinned<M: MemoryRead>(&self, r: &usize, mem: &M, out: &mut Vec<Segment>) {
        let mut addr: usize = *r;
        match mem.read(addr, T1::Ref::size_of()) {
            Some(bytes) => {
                let head = T1::Ref::from_bytes(&bytes);
                self.0.0.pinned(&head, mem, out);
            },
            None => {
                assert(false);
                return ;
            },
        }
        addr = addr + T1::Ref::size_of();
        match mem.read(addr, T2::Ref::size_of()) {
            Some(bytes) => {
                let head = T2::Ref::from_bytes(&bytes);
                self.0.1.pinned(&head, mem, out);
            },
            None => {
                assert(false);
                return ;
            },
        }
        addr = addr + T2::Ref::size_of();
        match mem.read(addr, T3::Ref::size_of()) {
            Some(bytes) => {
                let head = T3::Ref::from_bytes(&bytes);
                self.0.2.pinned(&head, mem, out);
            },
            None => {
                assert(false);
                return ;
            },
        }
        addr = addr + T3::Ref::size_of();
        match mem.read(addr, T4::Ref::size_of()) {
            Some(bytes) => {
                let head = T4::Ref::from_bytes(&bytes);
                self.0.3.pinned(&head, mem, out);
            },
            None => {
                assert(false);
                return ;
            },
        }
        addr = addr + T4::Ref::size_of();
        match mem.read(addr, T5::Ref::size_of()) {
            Some(bytes) => {
                let head = T5::Ref::from_bytes(&bytes);
                self.0.4.pinned(&head, mem, out);
            },
            None => {
                assert(false);
                return ;
            },
        }
        addr = addr + T5::Ref::size_of();
        match mem.read(addr, T6::Ref::size_of()) {
            Some(bytes) => {
                let head = T6::Ref::from_bytes(&bytes);
                self.0.5.pinned(&head, mem, out);
            },
            None => {
                assert(false);
                return ;
            },
        }
        addr = addr + T6::Ref::size_of();
        match mem.read(addr, T7::Ref::size_of()) {
            Some(bytes) => {
                let head = T7::Ref::from_bytes(&bytes);
                self.0.6.pinned(&head, mem, out);
            },
            None => {
                assert(false);
                return ;
            },
        }
        addr = addr + T7::Ref::size_of();
        match mem.read(addr, T8::Ref::size_of()) {
            Some(bytes) => {
                let head = T8::Ref::from_bytes(&bytes);
                self.0.7.pinned(&head, mem, out);
            },
            None => {
                assert(false);
                return ;
            },
        }
        addr = addr + T8::Ref::size_of();
        match mem.read(addr, T9::Ref::size_of()) {
            Some(bytes) => {
                let head = T9::Ref::from_bytes(&bytes);
                self.0.8.pinned(&head, mem, out);
            },
            None => {
                assert(false);
                return ;
            },
        }
        addr = addr + T9::Ref::size_of();
        match mem.read(addr, T10::Ref::size_of()) {
            Some(bytes) => {
                let head = T10::Ref::from_bytes(&bytes);
                self.0.9.pinned(&head, mem, out);
            },
            None => {
                assert(false);
                return ;
            },
        }
        addr = addr + T10::Ref::size_of();
        assert(pieces_of(out@) =~= pieces_of(old(out)@) + self.pins(*r, mem.image()));
    }
}

impl<T1: FromRef, T2: FromRef, T3: FromRef, T4: FromRef, T5: FromRef, T6: FromRef, T7: FromRef, T8: FromRef, T9: FromRef, T10: FromRef> FromRef for CopyStruct<(T1, T2, T3, T4, T5, T6, T7, T8, T9, T10)> where <T1 as ToRef>::Ref: Pod, <T2 as ToRef>::Ref: Pod, <T3 as ToRef>::Ref: Pod, <T4 as ToRef>::Ref: Pod, <T5 as ToRef>::Ref: Pod, <T6 as ToRef>::Ref: Pod, <T7 as ToRef>::Ref: Pod, <T8 as ToRef>::Ref: Pod, <T9 as ToRef>::Ref: Pod, <T10 as ToRef>::Ref: Pod {
    open spec fn decoded(r: usize, img: Image) -> Option<(<T1 as DeepView>::V, <T2 as DeepView>::V, <T3 as DeepView>::V, <T4 as DeepView>::V, <T5 as DeepView>::V, <T6 as DeepView>::V, <T7 as DeepView>::V, <T8 as DeepView>::V, <T9 as DeepView>::V, <T10 as DeepView>::V)> {
        if r + <T1 as ToRef>::Ref::size() + <T2 as ToRef>::Ref::size() + <T3 as ToRef>::Ref::size() + <T4 as ToRef>::Ref::size() + <T5 as ToRef>::Ref::size() + <T6 as ToRef>::Ref::size() + <T7 as ToRef>::Ref::size() + <T8 as ToRef>::Ref::size() + <T9 as ToRef>::Ref::size() + <T10 as ToRef>::Ref::size() > usize::MAX {
            None
        } else {
            match (head_decoded::<T1>(r as int, img), head_decoded::<T2>(r as int + <T1 as ToRef>::Ref::size(), img), head_decoded::<T3>(r as int + <T1 as ToRef>::Ref::size() + <T2 as ToRef>::Ref::size(), img), head_decoded::<T4>(r as int + <T1 as ToRef>::Ref::size() + <T2 as ToRef>::Ref::size() + <T3 as ToRef>::Ref::size(), img), head_decoded::<T5>(r as int + <T1 as ToRef>::Ref::size() + <T2 as ToRef>::Ref::size() + <T3 as ToRef>::Ref::size() + <T4 as ToRef>::Ref::size(), img), head_decoded::<T6>(r as int + <T1 as ToRef>::Ref::size() + <T2 as ToRef>::Ref::size() + <T3 as ToRef>::Ref::size() + <T4 as ToRef>::Ref::size() + <T5 as ToRef>::Ref::size(), img), head_decoded::<T7>(r as int + <T1 as ToRef>::Ref::size() + <T2 as ToRef>::Ref::size() + <T3 as ToRef>::Ref::size() + <T4 as ToRef>::Ref::size() + <T5 as ToRef>::Ref::size() + <T6 as ToRef>::Ref::size(), img), head_decoded::<T8>(r as int + <T1 as ToRef>::Ref::size() + <T2 as ToRef>::Ref::size() + <T3 as ToRef>::Ref::size() + <T4 as ToRef>::Ref::size() + <T5 as ToRef>::Ref::size() + <T6 as ToRef>::Ref::size() + <T7 as ToRef>::Ref::size(), img), head_decoded::<T9>(r as int + <T1 as ToRef>::Ref::size() + <T2 as ToRef>::Ref::size() + <T3 as ToRef>::Ref::size() + <T4 as ToRef>::Ref::size() + <T5 as ToRef>::Ref::size() + <T6 as ToRef>::Ref::size() + <T7 as ToRef>::Ref::size() + <T8 as ToRef>::Ref::size(), img), head_decoded::<T10>(r as int + <T1 as ToRef>::Ref::size() + <T2 as ToRef>::Ref::size() + <T3 as ToRef>::Ref::size() + <T4 as ToRef>::Ref::size() + <T5 as ToRef>::Ref::size() + <T6 as ToRef>::Ref::size() + <T7 as ToRef>::Ref::size() + <T8 as ToRef>::Ref::size() + <T9 as ToRef>::Ref::size(), img)) {
                (Some(v0), Some(v1), Some(v2), Some(v3), Some(v4), Some(v5), Some(v6), Some(v7), Some(v8), Some(v9)) => Some((v0, v1, v2, v3, v4, v5, v6, v7, v8, v9)),
                _ => None,
            }
        }
    }

    proof fn lemma_round_trip(&self, r: usize, img: Image, lo: int, hi: int) {
        match head_at::<<T1 as ToRef>::Ref>(img, r as int) {
            Some(head) => {
                self.0.0.lemma_round_trip(head, img, lo, hi);
            },
            None => {},
        }
        match head_at::<<T2 as ToRef>::Ref>(img, r as int + <T1 as ToRef>::Ref::size()) {
            Some(head) => {
                self.0.1.lemma_round_trip(head, img, lo, hi);
            },
            None => {},
        }
        match head_at::<<T3 as ToRef>::Ref>(img, r as int + <T1 as ToRef>::Ref::size() + <T2 as ToRef>::Ref::size()) {
            Some(head) => {
                self.0.2.lemma_round_trip(head, img, lo, hi);
            },
            None => {},
        }
        match head_at::<<T4 as ToRef>::Ref>(img, r as int + <T1 as ToRef>::Ref::size() + <T2 as ToRef>::Ref::size() + <T3 as ToRef>::Ref::size()) {
            Some(head) => {
                self.0.3.lemma_round_trip(head, img, lo, hi);
            },
            None => {},
        }
        match head_at::<<T5 as ToRef>::Ref>(img, r as int + <T1 as ToRef>::Ref::size() + <T2 as ToRef>::Ref::size() + <T3 as ToRef>::Ref::size() + <T4 as ToRef>::Ref::size()) {
            Some(head) => {
                self.0.4.lemma_round_trip(head, img, lo, hi);
            },
            None => {},
        }
        match head_at::<<T6 as ToRef>::Ref>(img, r as int + <T1 as ToRef>::Ref::size() + <T2 as ToRef>::Ref::size() + <T3 as ToRef>::Ref::size() + <T4 as ToRef>::Ref::size() + <T5 as ToRef>::Ref::size()) {
            Some(head) => {
                self.0.5.lemma_round_trip(head, img, lo, hi);
            },
            None => {},
        }
        match head_at::<<T7 as ToRef>::Ref>(img, r as int + <T1 as ToRef>::Ref::size() + <T2 as ToRef>::Ref::size() + <T3 as ToRef>::Ref::size() + <T4 as ToRef>::Ref::size() + <T5 as ToRef>::Ref::size() + <T6 as ToRef>::Ref::size()) {
            Some(head) => {
                self.0.6.lemma_round_trip(head, img, lo, hi);
            },
            None => {},
        }
        match head_at::<<T8 as ToRef>::Ref>(img, r as int + <T1 as ToRef>::Ref::size() + <T2 as ToRef>::Ref::size() + <T3 as ToRef>::Ref::size() + <T4 as ToRef>::Ref::size() + <T5 as ToRef>::Ref::size() + <T6 as ToRef>::Ref::size() + <T7 as ToRef>::Ref::size()) {
            Some(head) => {
                self.0.7.lemma_round_trip(head, img, lo, hi);
            },
            None => {},
        }
        match head_at::<<T9 as ToRef>::Ref>(img, r as int + <T1 as ToRef>::Ref::size() + <T2 as ToRef>::Ref::size() + <T3 as ToRef>::Ref::size() + <T4 as ToRef>::Ref::size() + <T5 as ToRef>::Ref::size() + <T6 as ToRef>::Ref::size() + <T7 as ToRef>::Ref::size() + <T8 as ToRef>::Ref::size()) {
            Some(head) => {
                self.0.8.lemma_round_trip(head, img, lo, hi);
            },
            None => {},
        }
        match head_at::<<T10 as ToRef>::Ref>(img, r as int + <T1 as ToRef>::Ref::size() + <T2 as ToRef>::Ref::size() + <T3 as ToRef>::Ref::size() + <T4 as ToRef>::Ref::size() + <T5 as ToRef>::Ref::size() + <T6 as ToRef>::Ref::size() + <T7 as ToRef>::Ref::size() + <T8 as ToRef>::Ref::size() + <T9 as ToRef>::Ref::size()) {
            Some(head) => {
                self.0.9.lemma_round_trip(head, img, lo, hi);
            },
            None => {},
        }
    }

    fn from_ref<M: MemoryRead>(r: &usize, mem: &M) -> (o: Option<Self>) {
        let mut addr: usize = *r;
        let size0 = <T1 as ToRef>::Ref::size_of();
        if size0 > usize::MAX - addr {
            return None;
        }
        let start0 = addr;
        addr = addr + size0;
        let size1 = <T2 as ToRef>::Ref::size_of();
        if size1 > usize::MAX - addr {
            return None;
        }
        let start1 = addr;
        addr = addr + size1;
        let size2 = <T3 as ToRef>::Ref::size_of();
        if size2 > usize::MAX - addr {
            return None;
        }
        let start2 = addr;
        addr = addr + size2;
        let size3 = <T4 as ToRef>::Ref::size_of();
        if size3 > usize::MAX - addr {
            return None;
        }
        let start3 = addr;
        addr = addr + size3;
        let size4 = <T5 as ToRef>::Ref::size_of();
        if size4 > usize::MAX - addr {
            return None;
        }
        let start4 = addr;
        addr = addr + size4;
        let size5 = <T6 as ToRef>::Ref::size_of();
        if size5 > usize::MAX - addr {
            return None;
        }
        let start5 = addr;
        addr = addr + size5;
        let size6 = <T7 as ToRef>::Ref::size_of();
        if size6 > usize::MAX - addr {
            return None;
        }
        let start6 = addr;
        addr = addr + size6;
        let size7 = <T8 as ToRef>::Ref::size_of();
        if size7 > usize::MAX - addr {
            return None;
        }
        let start7 = addr;
        addr = addr + size7;
        let size8 = <T9 as ToRef>::Ref::size_of();
        if size8 > usize::MAX - addr {
            return None;
        }
        let start8 = addr;
        addr = addr + size8;
        let size9 = <T10 as ToRef>::Ref::size_of();
        if size9 > usize::MAX - addr {
            return None;
        }
        let start9 = addr;
        addr = addr + size9;
        let v0 = match mem.read(start0, size0) {
            Some(bytes) => {
                let head = <T1 as ToRef>::Ref::from_bytes(&bytes);
                match <T1 as FromRef>::from_ref(&head, mem) {
                    Some(v) => v,
                    None => {
                        return None;
                    },
                }
            },
            None => {
                return None;
            },
        };
        let v1 = match mem.read(start1, size1) {
            Some(bytes) => {
                let head = <T2 as ToRef>::Ref::from_bytes(&bytes);
                match <T2 as FromRef>::from_ref(&head, mem) {
                    Some(v) => v,
                    None => {
                        return None;
                    },
                }
            },
            None => {
                return None;
            },
        };
        let v2 = match mem.read(start2, size2) {
            Some(bytes) => {
                let head = <T3 as ToRef>::Ref::from_bytes(&bytes);
                match <T3 as FromRef>::from_ref(&head, mem) {
                    Some(v) => v,
                    None => {
                        return None;
                    },
                }
            },
            None => {
                return None;
            },
        };
        let v3 = match mem.read(start3, size3) {
            Some(bytes) => {
                let head = <T4 as ToRef>::Ref::from_bytes(&bytes);
                match <T4 as FromRef>::from_ref(&head, mem) {
                    Some(v) => v,
                    None => {
                        return None;
                    },
                }
            },
            None => {
                return None;
            },
        };
        let v4 = match mem.read(start4, size4) {
            Some(bytes) => {
                let head = <T5 as ToRef>::Ref::from_bytes(&bytes);
                match <T5 as FromRef>::from_ref(&head, mem) {
                    Some(v) => v,
                    None => {
                        return None;
                    },
                }
            },
            None => {
                return None;
            },
        };
        let v5 = match mem.read(start5, size5) {
            Some(bytes) => {
                let head = <T6 as ToRef>::Ref::from_bytes(&bytes);
                match <T6 as FromRef>::from_ref(&head, mem) {
                    Some(v) => v,
                    None => {
                        return None;
                    },
                }
            },
            None => {
                return None;
            },
        };
        let v6 = match mem.read(start6, size6) {
            Some(bytes) => {
                let head = <T7 as ToRef>::Ref::from_bytes(&bytes);
                match <T7 as FromRef>::from_ref(&head, mem) {
                    Some(v) => v,
                    None => {
                        return None;
                    },
                }
            },
            None => {
                return None;
            },
        };
        let v7 = match mem.read(start7, size7) {
            Some(bytes) => {
                let head = <T8 as ToRef>::Ref::from_bytes(&bytes);
                match <T8 as FromRef>::from_ref(&head, mem) {
                    Some(v) => v,
                    None => {
                        return None;
                    },
                }
            },
            None => {
                return None;
            },
        };
        let v8 = match mem.read(start8, size8) {
            Some(bytes) => {
                let head = <T9 as ToRef>::Ref::from_bytes(&bytes);
                match <T9 as FromRef>::from_ref(&head, mem) {
                    Some(v) => v,
                    None => {
                        return None;
                    },
                }
            },
            None => {
                return None;
            },
        };
        let v9 = match mem.read(start9, size9) {
            Some(bytes) => {
                let head = <T10 as ToRef>::Ref::from_bytes(&bytes);
                match <T10 as FromRef>::from_ref(&head, mem) {
                    Some(v) => v,
                    None => {
                        return None;
                    },
                }
            },
            None => {
                return None;
            },
        };
        Some(CopyStruct((v0, v1, v2, v3, v4, v5, v6, v7, v8, v9)))
    }
}

impl<T1: ToRef, T2: ToRef, T3: ToRef, T4: ToRef, T5: ToRef, T6: ToRef, T7: ToRef, T8: ToRef, T9: ToRef, T10: ToRef, T11: ToRef> ToRef for CopyStruct<(T1, T2, T3, T4, T5, T6, T7, T8, T9, T10, T11)> where T1::Ref: Pod, T2::Ref: Pod, T3::Ref: Pod, T4::Ref: Pod, T5::Ref: Pod, T6::Ref: Pod, T7::Ref: Pod, T8::Ref: Pod, T9::Ref: Pod, T10::Ref: Pod, T11::Ref: Pod {
    type Ref = usize;

    open spec fn mem_type() -> MemType {
        MemType::Complex
    }

    open spec fn size(&self) -> nat {
        self.0.size() + T1::Ref::size() + T2::Ref::size() + T3::Ref::size() + T4::Ref::size() + T5::Ref::size() + T6::Ref::size() + T7::Ref::size() + T8::Ref::size() + T9::Ref::size() + T10::Ref::size() + T11::Ref::size()
    }

    open spec fn views(&self, r: usize, img: Image, lo: int, hi: int, deep: bool) -> bool {
        &&& r + T1::Ref::size() + T2::Ref::size() + T3::Ref::size() + T4::Ref::size() + T5::Ref::size() + T6::Ref::size() + T7::Ref::size() + T8::Ref::size() + T9::Ref::size() + T10::Ref::size() + T11::Ref::size() <= usize::MAX
        &&& T1::Ref::size() + T2::Ref::size() + T3::Ref::size() + T4::Ref::size() + T5::Ref::size() + T6::Ref::size() + T7::Ref::size() + T8::Ref::size() + T9::Ref::size() + T10::Ref::size() + T11::Ref::size() > 0 ==> lo <= r && r + T1::Ref::size() + T2::Ref::size() + T3::Ref::size() + T4::Ref::size() + T5::Ref::size() + T6::Ref::size() + T7::Ref::size() + T8::Ref::size() + T9::Ref::size() + T10::Ref::size() + T11::Ref::size() <= hi
        &&& head_views(self.0.0, r as int, img, lo, hi, deep)
        &&& head_views(self.0.1, r as int + T1::Ref::size(), img, lo, hi, deep)
        &&& head_views(self.0.2, r as int + T1::Ref::size() + T2::Ref::size(), img, lo, hi, deep)
        &&& head_views(self.0.3, r as int + T1::Ref::size() + T2::Ref::size() + T3::Ref::size(), img, lo, hi, deep)
        &&& head_views(self.0.4, r as int + T1::Ref::size() + T2::Ref::size() + T3::Ref::size() + T4::Ref::size(), img, lo, hi, deep)
        &&& head_views(self.0.5, r as int + T1::Ref::size() + T2::Ref::size() + T3::Ref::size() + T4::Ref::size() + T5::Ref::size(), img, lo, hi, deep)
        &&& head_views(self.0.6, r as int + T1::Ref::size() + T2::Ref::size() + T3::Ref::size() + T4::Ref::size() + T5::Ref::size() + T6::Ref::size(), img, lo, hi, deep)
        &&& head_views(self.0.7, r as int + T1::Ref::size() + T2::Ref::size() + T3::Ref::size() + T4::Ref::size() + T5::Ref::size() + T6::Ref::size() + T7::Ref::size(), img, lo, hi, deep)
        &&& head_views(self.0.8, r as int + T1::Ref::size() + T2::Ref::size() + T3::Ref::size() + T4::Ref::size() + T5::Ref::size() + T6::Ref::size() + T7::Ref::size() + T8::Ref::size(), img, lo, hi, deep)
        &&& head_views(self.0.9, r as int + T1::Ref::size() + T2::Ref::size() + T3::Ref::size() + T4::Ref::size() + T5::Ref::size() + T6::Ref::size() + T7::Ref::size() + T8::Ref::size() + T9::Ref::size(), img, lo, hi, deep)
        &&& head_views(self.0.10, r as int + T1::Ref::size() + T2::Ref::size() + T3::Ref::size() + T4::Ref::size() + T5::Ref::size() + T6::Ref::size() + T7::Ref::size() + T8::Ref::size() + T9::Ref::size() + T10::Ref::size(), img, lo, hi, deep)
    }

    open spec fn flat(&self) -> usize {
        0
    }

    open spec fn pins(&self, r: usize, img: Image) -> Seq<Piece> {
        head_pins(self.0.0, r as int, img) + head_pins(self.0.1, r as int + T1::Ref::size(), img) + head_pins(self.0.2, r as int + T1::Ref::size() + T2::Ref::size(), img) + head_pins(self.0.3, r as int + T1::Ref::size() + T2::Ref::size() + T3::Ref::size(), img) + head_pins(self.0.4, r as int + T1::Ref::size() + T2::Ref::size() + T3::Ref::size() + T4::Ref::size(), img) + head_pins(self.0.5, r as int + T1::Ref::size() + T2::Ref::size() + T3::Ref::size() + T4::Ref::size() + T5::Ref::size(), img) + head_pins(self.0.6, r as int + T1::Ref::size() + T2::Ref::size() + T3::Ref::size() + T4::Ref::size() + T5::Ref::size() + T6::Ref::size(), img) + head_pins(self.0.7, r as int + T1::Ref::size() + T2::Ref::size() + T3::Ref::size() + T4::Ref::size() + T5::Ref::size() + T6::Ref::size() + T7::Ref::size(), img) + head_pins(self.0.8, r as int + T1::Ref::size() + T2::Ref::size() + T3::Ref::size() + T4::Ref::size() + T5::Ref::size() + T6::Ref::size() + T7::Ref::size() + T8::Ref::size(), img) + head_pins(self.0.9, r as int + T1::Ref::size() + T2::Ref::size() + T3::Ref::size() + T4::Ref::size() + T5::Ref::size() + T6::Ref::size() + T7::Ref::size() + T8::Ref::size() + T9::Ref::size(), img) + head_pins(self.0.10, r as int + T1::Ref::size() + T2::Ref::size() + T3::Ref::size() + T4::Ref::size() + T5::Ref::size() + T6::Ref::size() + T7::Ref::size() + T8::Ref::size() + T9::Ref::size() + T10::Ref::size(), img)
    }

    proof fn lemma_flat(&self) {
    }

    proof fn lemma_primitive(&self, r: usize, img: Image, lo: int, hi: int, deep: bool) {
    }

    proof fn lemma_deepen(&self, r: usize, img: Image, other: Image, lo: int, hi: int) {
        lemma_holds_all_concat(other, head_pins(self.0.0, r as int, img) + head_pins(self.0.1, r as int + T1::Ref::size(), img) + head_pins(self.0.2, r as int + T1::Ref::size() + T2::Ref::size(), img) + head_pins(self.0.3, r as int + T1::Ref::size() + T2::Ref::size() + T3::Ref::size(), img) + head_pins(self.0.4, r as int + T1::Ref::size() + T2::Ref::size() + T3::Ref::size() + T4::Ref::size(), img) + head_pins(self.0.5, r as int + T1::Ref::size() + T2::Ref::size() + T3::Ref::size() + T4::Ref::size() + T5::Ref::size(), img) + head_pins(self.0.6, r as int + T1::Ref::size() + T2::Ref::size() + T3::Ref::size() + T4::Ref::size() + T5::Ref::size() + T6::Ref::size(), img) + head_pins(self.0.7, r as int + T1::Ref::size() + T2::Ref::size() + T3::Ref::size() + T4::Ref::size() + T5::Ref::size() + T6::Ref::size() + T7::Ref::size(), img) + head_pins(self.0.8, r as int + T1::Ref::size() + T2::Ref::size() + T3::Ref::size() + T4::Ref::size() + T5::Ref::size() + T6::Ref::size() + T7::Ref::size() + T8::Ref::size(), img) + head_pins(self.0.9, r as int + T1::Ref::size() + T2::Ref::size() + T3::Ref::size() + T4::Ref::size() + T5::Ref::size() + T6::Ref::size() + T7::Ref::size() + T8::Ref::size() + T9::Ref::size(), img), head_pins(self.0.10, r as int + T1::Ref::size() + T2::Ref::size() + T3::Ref::size() + T4::Ref::size() + T5::Ref::size() + T6::Ref::size() + T7::Ref::size() + T8::Ref::size() + T9::Ref::size() + T10::Ref::size(), img));
        lemma_holds_all_concat(other, head_pins(self.0.0, r as int, img) + head_pins(self.0.1, r as int + T1::Ref::size(), img) + head_pins(self.0.2, r as int + T1::Ref::size() + T2::Ref::size(), img) + head_pins(self.0.3, r as int + T1::Ref::size() + T2::Ref::size() + T3::Ref::size(), img) + head_pins(self.0.4, r as int + T1::Ref::size() + T2::Ref::size() + T3::Ref::size() + T4::Ref::size(), img) + head_pins(self.0.5, r as int + T1::Ref::size() + T2::Ref::size() + T3::Ref::size() + T4::Ref::size() + T5::Ref::size(), img) + head_pins(self.0.6, r as int + T1::Ref::size() + T2::Ref::size() + T3::Ref::size() + T4::Ref::size() + T5::Ref::size() + T6::Ref::size(), img) + head_pins(self.0.7, r as int + T1::Ref::size() + T2::Ref::size() + T3::Ref::size() + T4::Ref::size() + T5::Ref::size() + T6::Ref::size() + T7::Ref::size(), img) + head_pins(self.0.8, r as int + T1::Ref::size() + T2::Ref::size() + T3::Ref::size() + T4::Ref::size() + T5::Ref::size() + T6::Ref::size() + T7::Ref::size() + T8::Ref::size(), img), head_pins(self.0.9, r as int + T1::Ref::size() + T2::Ref::size() + T3::Ref::size() + T4::Ref::size() + T5::Ref::size() + T6::Ref::size() + T7::Ref::size() + T8::Ref::size() + T9::Ref::size(), img));
        lemma_holds_all_concat(other, head_pins(self.0.0, r as int, img) + head_pins(self.0.1, r as int + T1::Ref::size(), img) + head_pins(self.0.2, r as int + T1::Ref::size() + T2::Ref::size(), img) + head_pins(self.0.3, r as int + T1::Ref::size() + T2::Ref::size() + T3::Ref::size(), img) + head_pins(self.0.4, r as int + T1::Ref::size() + T2::Ref::size() + T3::Ref::size() + T4::Ref::size(), img) + head_pins(self.0.5, r as int + T1::Ref::size() + T2::Ref::size() + T3::Ref::size() + T4::Ref::size() + T5::Ref::size(), img) + head_pins(self.0.6, r as int + T1::Ref::size() + T2::Ref::size() + T3::Ref::size() + T4::Ref::size() + T5::Ref::size() + T6::Ref::size(), img) + head_pins(self.0.7, r as int + T1::Ref::size() + T2::Ref::size() + T3::Ref::size() + T4::Ref::size() + T5::Ref::size() + T6::Ref::size() + T7::Ref::size(), img), head_pins(self.0.8, r as int + T1::Ref::size() + T2::Ref::size() + T3::Ref::size() + T4::Ref::size() + T5::Ref::size() + T6::Ref::size() + T7::Ref::size() + T8::Ref::size(), img));
        lemma_holds_all_concat(other, head_pins(self.0.0, r as int, img) + head_pins(self.0.1, r as int + T1::Ref::size(), img) + head_pins(self.0.2, r as int + T1::Ref::size() + T2::Ref::size(), img) + head_pins(self.0.3, r as int + T1::Ref::size() + T2::Ref::size() + T3::Ref::size(), img) + head_pins(self.0.4, r as int + T1::Ref::size() + T2::Ref::size() + T3::Ref::size() + T4::Ref::size(), img) + head_pins(self.0.5, r as int + T1::Ref::size() + T2::Ref::size() + T3::Ref::size() + T4::Ref::size() + T5::Ref::size(), img) + head_pins(self.0.6, r as int + T1::Ref::size() + T2::Ref::size() + T3::Ref::size() + T4::Ref::size() + T5::Ref::size() + T6::Ref::size(), img), head_pins(self.0.7, r as int + T1::Ref::size() + T2::Ref::size() + T3::Ref::size() + T4::Ref::size() + T5::Ref::size() + T6::Ref::size() + T7::Ref::size(), img));
        lemma_holds_all_concat(other, head_pins(self.0.0, r as int, img) + head_pins(self.0.1, r as int + T1::Ref::size(), img) + head_pins(self.0.2, r as int + T1::Ref::size() + T2::Ref::size(), img) + head_pins(self.0.3, r as int + T1::Ref::size() + T2::Ref::size() + T3::Ref::size(), img) + head_pins(self.0.4, r as int + T1::Ref::size() + T2::Ref::size() + T3::Ref::size() + T4::Ref::size(), img) + head_pins(self.0.5, r as int + T1::Ref::size() + T2::Ref::size() + T3::Ref::size() + T4::Ref::size() + T5::Ref::size(), img), head_pins(self.0.6, r as int + T1::Ref::size() + T2::Ref::size() + T3::Ref::size() + T4::Ref::size() + T5::Ref::size() + T6::Ref::size(), img));
        lemma_holds_all_concat(other, head_pins(self.0.0, r as int, img) + head_pins(self.0.1, r as int + T1::Ref::size(), img) + head_pins(self.0.2, r as int + T1::Ref::size() + T2::Ref::size(), img) + head_pins(self.0.3, r as int + T1::Ref::size() + T2::Ref::size() + T3::Ref::size(), img) + head_pins(self.0.4, r as int + T1::Ref::size() + T2::Ref::size() + T3::Ref::size() + T4::Ref::size(), img), head_pins(self.0.5, r as int + T1::Ref::size() + T2::Ref::size() + T3::Ref::size() + T4::Ref::size() + T5::Ref::size(), img));
        lemma_holds_all_concat(other, head_pins(self.0.0, r as int, img) + head_pins(self.0.1, r as int + T1::Ref::size(), img) + head_pins(self.0.2, r as int + T1::Ref::size() + T2::Ref::size(), img) + head_pins(self.0.3, r as int + T1::Ref::size() + T2::Ref::size() + T3::Ref::size(), img), head_pins(self.0.4, r as int + T1::Ref::size() + T2::Ref::size() + T3::Ref::size() + T4::Ref::size(), img));
        lemma_holds_all_concat(other, head_pins(self.0.0, r as int, img) + head_pins(self.0.1, r as int + T1::Ref::size(), img) + head_pins(self.0.2, r as int + T1::Ref::size() + T2::Ref::size(), img), head_pins(self.0.3, r as int + T1::Ref::size() + T2::Ref::size() + T3::Ref::size(), img));
        lemma_holds_all_concat(other, head_pins(self.0.0, r as int, img) + head_pins(self.0.1, r as int + T1::Ref::size(), img), head_pins(self.0.2, r as int + T1::Ref::size() + T2::Ref::size(), img));
        lemma_holds_all_concat(other, head_pins(self.0.0, r as int, img), head_pins(self.0.1, r as int + T1::Ref::size(), img));
        lemma_head_deepen(self.0.0, r as int, img, other, lo, hi);
        lemma_head_deepen(self.0.1, r as int + T1::Ref::size(), img, other, lo, hi);
        lemma_head_deepen(self.0.2, r as int + T1::Ref::size() + T2::Ref::size(), img, other, lo, hi);
        lemma_head_deepen(self.0.3, r as int + T1::Ref::size() + T2::Ref::size() + T3::Ref::size(), img, other, lo, hi);
        lemma_head_deepen(self.0.4, r as int + T1::Ref::size() + T2::Ref::size() + T3::Ref::size() + T4::Ref::size(), img, other, lo, hi);
        lemma_head_deepen(self.0.5, r as int + T1::Ref::size() + T2::Ref::size() + T3::Ref::size() + T4::Ref::size() + T5::Ref::size(), img, other, lo, hi);
        lemma_head_deepen(self.0.6, r as int + T1::Ref::size() + T2::Ref::size() + T3::Ref::size() + T4::Ref::size() + T5::Ref::size() + T6::Ref::size(), img, other, lo, hi);
        lemma_head_deepen(self.0.7, r as int + T1::Ref::size() + T2::Ref::size() + T3::Ref::size() + T4::Ref::size() + T5::Ref::size() + T6::Ref::size() + T7::Ref::size(), img, other, lo, hi);
        lemma_head_deepen(self.0.8, r as int + T1::Ref::size() + T2::Ref::size() + T3::Ref::size() + T4::Ref::size() + T5::Ref::size() + T6::Ref::size() + T7::Ref::size() + T8::Ref::size(), img, other, lo, hi);
        lemma_head_deepen(self.0.9, r as int + T1::Ref::size() + T2::Ref::size() + T3::Ref::size() + T4::Ref::size() + T5::Ref::size() + T6::Ref::size() + T7::Ref::size() + T8::Ref::size() + T9::Ref::size(), img, other, lo, hi);
        lemma_head_deepen(self.0.10, r as int + T1::Ref::size() + T2::Ref::size() + T3::Ref::size() + T4::Ref::size() + T5::Ref::size() + T6::Ref::size() + T7::Ref::size() + T8::Ref::size() + T9::Ref::size() + T10::Ref::size(), img, other, lo, hi);
    }

    proof fn lemma_frame(&self, r: usize, img: Image, other: Image, lo: int, hi: int, deep: bool) {
        lemma_head_frame(self.0.0, r as int, img, other, lo, hi, deep);
        lemma_head_frame(self.0.1, r as int + T1::Ref::size(), img, other, lo, hi, deep);
        lemma_head_frame(self.0.2, r as int + T1::Ref::size() + T2::Ref::size(), img, other, lo, hi, deep);
        lemma_head_frame(self.0.3, r as int + T1::Ref::size() + T2::Ref::size() + T3::Ref::size(), img, other, lo, hi, deep);
        lemma_head_frame(self.0.4, r as int + T1::Ref::size() + T2::Ref::size() + T3::Ref::size() + T4::Ref::size(), img, other, lo, hi, deep);
        lemma_head_frame(self.0.5, r as int + T1::Ref::size() + T2::Ref::size() + T3::Ref::size() + T4::Ref::size() + T5::Ref::size(), img, other, lo, hi, deep);
        lemma_head_frame(self.0.6, r as int + T1::Ref::size() + T2::Ref::size() + T3::Ref::size() + T4::Ref::size() + T5::Ref::size() + T6::Ref::size(), img, other, lo, hi, deep);
        lemma_head_frame(self.0.7, r as int + T1::Ref::size() + T2::Ref::size() + T3::Ref::size() + T4::Ref::size() + T5::Ref::size() + T6::Ref::size() + T7::Ref::size(), img, other, lo, hi, deep);
        lemma_head_frame(self.0.8, r as int + T1::Ref::size() + T2::Ref::size() + T3::Ref::size() + T4::Ref::size() + T5::Ref::size() + T6::Ref::size() + T7::Ref::size() + T8::Ref::size(), img, other, lo, hi, deep);
        lemma_head_frame(self.0.9, r as int + T1::Ref::size() + T2::Ref::size() + T3::Ref::size() + T4::Ref::size() + T5::Ref::size() + T6::Ref::size() + T7::Ref::size() + T8::Ref::size() + T9::Ref::size(), img, other, lo, hi, deep);
        lemma_head_frame(self.0.10, r as int + T1::Ref::size() + T2::Ref::size() + T3::Ref::size() + T4::Ref::size() + T5::Ref::size() + T6::Ref::size() + T7::Ref::size() + T8::Ref::size() + T9::Ref::size() + T10::Ref::size(), img, other, lo, hi, deep);
    }

    proof fn lemma_widen(
        &self,
        r: usize,
        img: Image,
        lo: int,
        hi: int,
        wide_lo: int,
        wide_hi: int,
        deep: bool,
    ) {
        match head_at::<T1::Ref>(img, r as int) {
            Some(head) => {
                self.0.0.lemma_widen(head, img, lo, hi, wide_lo, wide_hi, deep);
            },
            None => {},
        }
        match head_at::<T2::Ref>(img, r as int + T1::Ref::size()) {
            Some(head) => {
                self.0.1.lemma_widen(head, img, lo, hi, wide_lo, wide_hi, deep);
            },
            None => {},
        }
        match head_at::<T3::Ref>(img, r as int + T1::Ref::size() + T2::Ref::size()) {
            Some(head) => {
                self.0.2.lemma_widen(head, img, lo, hi, wide_lo, wide_hi, deep);
            },
            None => {},
        }
        match head_at::<T4::Ref>(img, r as int + T1::Ref::size() + T2::Ref::size() + T3::Ref::size()) {
            Some(head) => {
                self.0.3.lemma_widen(head, img, lo, hi, wide_lo, wide_hi, deep);
            },
            None => {},
        }
        match head_at::<T5::Ref>(img, r as int + T1::Ref::size() + T2::Ref::size() + T3::Ref::size() + T4::Ref::size()) {
            Some(head) => {
                self.0.4.lemma_widen(head, img, lo, hi, wide_lo, wide_hi, deep);
            },
            None => {},
        }
        match head_at::<T6::Ref>(img, r as int + T1::Ref::size() + T2::Ref::size() + T3::Ref::size() + T4::Ref::size() + T5::Ref::size()) {
            Some(head) => {
                self.0.5.lemma_widen(head, img, lo, hi, wide_lo, wide_hi, deep);
            },
            None => {},
        }
        match head_at::<T7::Ref>(img, r as int + T1::Ref::size() + T2::Ref::size() + T3::Ref::size() + T4::Ref::size() + T5::Ref::size() + T6::Ref::size()) {
            Some(head) => {
                self.0.6.lemma_widen(head, img, lo, hi, wide_lo, wide_hi, deep);
            },
            None => {},
        }
        match head_at::<T8::Ref>(img, r as int + T1::Ref::size() + T2::Ref::size() + T3::Ref::size() + T4::Ref::size() + T5::Ref::size() + T6::Ref::size() + T7::Ref::size()) {
            Some(head) => {
                self.0.7.lemma_widen(head, img, lo, hi, wide_lo, wide_hi, deep);
            },
            None => {},
        }
        match head_at::<T9::Ref>(img, r as int + T1::Ref::size() + T2::Ref::size() + T3::Ref::size() + T4::Ref::size() + T5::Ref::size() + T6::Ref::size() + T7::Ref::size() + T8::Ref::size()) {
            Some(head) => {
                self.0.8.lemma_widen(head, img, lo, hi, wide_lo, wide_hi, deep);
            },
            None => {},
        }
        match head_at::<T10::Ref>(img, r as int + T1::Ref::size() + T2::Ref::size() + T3::Ref::size() + T4::Ref::size() + T5::Ref::size() + T6::Ref::size() + T7::Ref::size() + T8::Ref::size() + T9::Ref::size()) {
            Some(head) => {
                self.0.9.lemma_widen(head, img, lo, hi, wide_lo, wide_hi, deep);
            },
            None => {},
        }
        match head_at::<T11::Ref>(img, r as int + T1::Ref::size() + T2::Ref::size() + T3::Ref::size() + T4::Ref::size() + T5::Ref::size() + T6::Ref::size() + T7::Ref::size() + T8::Ref::size() + T9::Ref::size() + T10::Ref::size()) {
            Some(head) => {
                self.0.10.lemma_widen(head, img, lo, hi, wide_lo, wide_hi, deep);
            },
            None => {},
        }
    }

    fn mem_type_of() -> (t: MemType) {
        MemType::Complex
    }

    fn to_size(&self, acc: &mut usize) {
        self.0.to_size(acc);
        *acc = *acc + T1::Ref::size_of();
        *acc = *acc + T2::Ref::size_of();
        *acc = *acc + T3::Ref::size_of();
        *acc = *acc + T4::Ref::size_of();
        *acc = *acc + T5::Ref::size_of();
        *acc = *acc + T6::Ref::size_of();
        *acc = *acc + T7::Ref::size_of();
        *acc = *acc + T8::Ref::size_of();
        *acc = *acc + T9::Ref::size_of();
        *acc = *acc + T10::Ref::size_of();
        *acc = *acc + T11::Ref::size_of();
    }

    fn checked_size(&self, acc: usize) -> (sum: Option<usize>) {
        let mut sum = match self.0.checked_size(acc) {
            Some(next) => next,
            None => {
                return None;
            },
        };
        let size0 = T1::Ref::size_of();
        if size0 > usize::MAX - sum {
            return None;
        }
        sum = sum + size0;
        let size1 = T2::Ref::size_of();
        if size1 > usize::MAX - sum {
            return None;
        }
        sum = sum + size1;
        let size2 = T3::Ref::size_of();
        if size2 > usize::MAX - sum {
            return None;
        }
        sum = sum + size2;
        let size3 = T4::Ref::size_of();
        if size3 > usize::MAX - sum {
            return None;
        }
        sum = sum + size3;
        let size4 = T5::Ref::size_of();
        if size4 > usize::MAX - sum {
            return None;
        }
        sum = sum + size4;
        let size5 = T6::Ref::size_of();
        if size5 > usize::MAX - sum {
            return None;
        }
        sum = sum + size5;
        let size6 = T7::Ref::size_of();
        if size6 > usize::MAX - sum {
            return None;
        }
        sum = sum + size6;
        let size7 = T8::Ref::size_of();
        if size7 > usize::MAX - sum {
            return None;
        }
        sum = sum + size7;
        let size8 = T9::Ref::size_of();
        if size8 > usize::MAX - sum {
            return None;
        }
        sum = sum + size8;
        let size9 = T10::Ref::size_of();
        if size9 > usize::MAX - sum {
            return None;
        }
        sum = sum + size9;
        let size10 = T11::Ref::size_of();
        if size10 > usize::MAX - sum {
            return None;
        }
        sum = sum + size10;
        Some(sum)
    }

    #[verifier::rlimit(40)]
    fn to_ref(&self, writer: &mut Writer) -> (r: usize) {
        let ghost base = writer.base() as int;
        let ghost w0 = *writer;
        proof {
            writer.lemma_bounds();
        }
        let heads = self.0.to_ref(writer);
        let ghost v0 = *writer;
        proof {
            writer.lemma_bounds();
        }
        let ptr = writer.as_ptr();
        writer.put(&heads.0);
        let ghost v1 = *writer;
        proof {
            writer.lemma_bounds();
            T1::Ref::lemma_size();
            heads.0.lemma_layout();
            lemma_image_put(v0, v1, heads.0.encode());
        }
        writer.put(&heads.1);
        let ghost v2 = *writer;
        proof {
            writer.lemma_bounds();
            T2::Ref::lemma_size();
            heads.1.lemma_layout();
            lemma_image_put(v1, v2, heads.1.encode());
        }
        writer.put(&heads.2);
        let ghost v3 = *writer;
        proof {
            writer.lemma_bounds();
            T3::Ref::lemma_size();
            heads.2.lemma_layout();
            lemma_image_put(v2, v3, heads.2.encode());
        }
        writer.put(&heads.3);
        let ghost v4 = *writer;
        proof {
            writer.lemma_bounds();
            T4::Ref::lemma_size();
            heads.3.lemma_layout();
            lemma_image_put(v3, v4, heads.3.encode());
        }
        writer.put(&heads.4);
        let ghost v5 = *writer;
        proof {
            writer.lemma_bounds();
            T5::Ref::lemma_size();
            heads.4.lemma_layout();
            lemma_image_put(v4, v5, heads.4.encode());
        }
        writer.put(&heads.5);
        let ghost v6 = *writer;
        proof {
            writer.lemma_bounds();
            T6::Ref::lemma_size();
            heads.5.lemma_layout();
            lemma_image_put(v5, v6, heads.5.encode());
        }
        writer.put(&heads.6);
        let ghost v7 = *writer;
        proof {
            writer.lemma_bounds();
            T7::Ref::lemma_size();
            heads.6.lemma_layout();
            lemma_image_put(v6, v7, heads.6.encode());
        }
        writer.put(&heads.7);
        let ghost v8 = *writer;
        proof {
            writer.lemma_bounds();
            T8::Ref::lemma_size();
            heads.7.lemma_layout();
            lemma_image_put(v7, v8, heads.7.encode());
        }
        writer.put(&heads.8);
        let ghost v9 = *writer;
        proof {
            writer.lemma_bounds();
            T9::Ref::lemma_size();
            heads.8.lemma_layout();
            lemma_image_put(v8, v9, heads.8.encode());
        }
        writer.put(&heads.9);
        let ghost v10 = *writer;
        proof {
            writer.lemma_bounds();
            T10::Ref::lemma_size();
            heads.9.lemma_layout();
            lemma_image_put(v9, v10, heads.9.encode());
        }
        writer.put(&heads.10);
        let ghost v11 = *writer;
        proof {
            writer.lemma_bounds();
            T11::Ref::lemma_size();
            heads.10.lemma_layout();
            lemma_image_put(v10, v11, heads.10.encode());
        }
        proof {
            lemma_keeps_same(v11.arena(), v11.cursor());
            lemma_keeps_trans(v10.arena(), v11.arena(), v11.arena(), v10.cursor(), v11.cursor());
            lemma_keeps_trans(v9.arena(), v10.arena(), v11.arena(), v9.cursor(), v10.cursor());
            lemma_keeps_trans(v8.arena(), v9.arena(), v11.arena(), v8.cursor(), v9.cursor());
            lemma_keeps_trans(v7.arena(), v8.arena(), v11.arena(), v7.cursor(), v8.cursor());
            lemma_keeps_trans(v6.arena(), v7.arena(), v11.arena(), v6.cursor(), v7.cursor());
            lemma_keeps_trans(v5.arena(), v6.arena(), v11.arena(), v5.cursor(), v6.cursor());
            lemma_keeps_trans(v4.arena(), v5.arena(), v11.arena(), v4.cursor(), v5.cursor());
            lemma_keeps_trans(v3.arena(), v4.arena(), v11.arena(), v3.cursor(), v4.cursor());
            lemma_keeps_trans(v2.arena(), v3.arena(), v11.arena(), v2.cursor(), v3.cursor());
            lemma_keeps_trans(v1.arena(), v2.arena(), v11.arena(), v1.cursor(), v2.cursor());
            lemma_keeps_trans(v0.arena(), v1.arena(), v11.arena(), v0.cursor(), v1.cursor());
            lemma_keeps_trans(w0.arena(), v0.arena(), v11.arena(), w0.cursor(), v0.cursor());
            lemma_view_stays(&self.0.0, heads.0, v0, v11, base + w0.cursor(), base + v0.cursor());
            self.0.0.lemma_widen(heads.0, v11.image(), base + w0.cursor(), base + v0.cursor(), base + w0.cursor(), base + v11.cursor(), false);
            lemma_head_put(self.0.0, heads.0, v0, v1, v11, ptr as int, base + w0.cursor(), base + v11.cursor());
            lemma_view_stays(&self.0.1, heads.1, v0, v11, base + w0.cursor(), base + v0.cursor());
            self.0.1.lemma_widen(heads.1, v11.image(), base + w0.cursor(), base + v0.cursor(), base + w0.cursor(), base + v11.cursor(), false);
            lemma_head_put(self.0.1, heads.1, v1, v2, v11, ptr as int + T1::Ref::size(), base + w0.cursor(), base + v11.cursor());
            lemma_view_stays(&self.0.2, heads.2, v0, v11, base + w0.cursor(), base + v0.cursor());
            self.0.2.lemma_widen(heads.2, v11.image(), base + w0.cursor(), base + v0.cursor(), base + w0.cursor(), base + v11.cursor(), false);
            lemma_head_put(self.0.2, heads.2, v2, v3, v11, ptr as int + T1::Ref::size() + T2::Ref::size(), base + w0.cursor(), base + v11.cursor());
            lemma_view_stays(&self.0.3, heads.3, v0, v11, base + w0.cursor(), base + v0.cursor());
            self.0.3.lemma_widen(heads.3, v11.image(), base + w0.cursor(), base + v0.cursor(), base + w0.cursor(), base + v11.cursor(), false);
            lemma_head_put(self.0.3, heads.3, v3, v4, v11, ptr as int + T1::Ref::size() + T2::Ref::size() + T3::Ref::size(), base + w0.cursor(), base + v11.cursor());
            lemma_view_stays(&self.0.4, heads.4, v0, v11, base + w0.cursor(), base + v0.cursor());
            self.0.4.lemma_widen(heads.4, v11.image(), base + w0.cursor(), base + v0.cursor(), base + w0.cursor(), base + v11.cursor(), false);
            lemma_head_put(self.0.4, heads.4, v4, v5, v11, ptr as int + T1::Ref::size() + T2::Ref::size() + T3::Ref::size() + T4::Ref::size(), base + w0.cursor(), base + v11.cursor());
            lemma_view_stays(&self.0.5, heads.5, v0, v11, base + w0.cursor(), base + v0.cursor());
            self.0.5.lemma_widen(heads.5, v11.image(), base + w0.cursor(), base + v0.cursor(), base + w0.cursor(), base + v11.cursor(), false);
            lemma_head_put(self.0.5, heads.5, v5, v6, v11, ptr as int + T1::Ref::size() + T2::Ref::size() + T3::Ref::size() + T4::Ref::size() + T5::Ref::size(), base + w0.cursor(), base + v11.cursor());
            lemma_view_stays(&self.0.6, heads.6, v0, v11, base + w0.cursor(), base + v0.cursor());
            self.0.6.lemma_widen(heads.6, v11.image(), base + w0.cursor(), base + v0.cursor(), base + w0.cursor(), base + v11.cursor(), false);
            lemma_head_put(self.0.6, heads.6, v6, v7, v11, ptr as int + T1::Ref::size() + T2::Ref::size() + T3::Ref::size() + T4::Ref::size() + T5::Ref::size() + T6::Ref::size(), base + w0.cursor(), base + v11.cursor());
            lemma_view_stays(&self.0.7, heads.7, v0, v11, base + w0.cursor(), base + v0.cursor());
            self.0.7.lemma_widen(heads.7, v11.image(), base + w0.cursor(), base + v0.cursor(), base + w0.cursor(), base + v11.cursor(), false);
            lemma_head_put(self.0.7, heads.7, v7, v8, v11, ptr as int + T1::Ref::size() + T2::Ref::size() + T3::Ref::size() + T4::Ref::size() + T5::Ref::size() + T6::Ref::size() + T7::Ref::size(), base + w0.cursor(), base + v11.cursor());
            lemma_view_stays(&self.0.8, heads.8, v0, v11, base + w0.cursor(), base + v0.cursor());
            self.0.8.lemma_widen(heads.8, v11.image(), base + w0.cursor(), base + v0.cursor(), base + w0.cursor(), base + v11.cursor(), false);
            lemma_head_put(self.0.8, heads.8, v8, v9, v11, ptr as int + T1::Ref::size() + T2::Ref::size() + T3::Ref::size() + T4::Ref::size() + T5::Ref::size() + T6::Ref::size() + T7::Ref::size() + T8::Ref::size(), base + w0.cursor(), base + v11.cursor());
            lemma_view_stays(&self.0.9, heads.9, v0, v11, base + w0.cursor(), base + v0.cursor());
            self.0.9.lemma_widen(heads.9, v11.image(), base + w0.cursor(), base + v0.cursor(), base + w0.cursor(), base + v11.cursor(), false);
            lemma_head_put(self.0.9, heads.9, v9, v10, v11, ptr as int + T1::Ref::size() + T2::Ref::size() + T3::Ref::size() + T4::Ref::size() + T5::Ref::size() + T6::Ref::size() + T7::Ref::size() + T8::Ref::size() + T9::Ref::size(), base + w0.cursor(), base + v11.cursor());
            lemma_view_stays(&self.0.10, heads.10, v0, v11, base + w0.cursor(), base + v0.cursor());
            self.0.10.lemma_widen(heads.10, v11.image(), base + w0.cursor(), base + v0.cursor(), base + w0.cursor(), base + v11.cursor(), false);
            lemma_head_put(self.0.10, heads.10, v10, v11, v11, ptr as int + T1::Ref::size() + T2::Ref::size() + T3::Ref::size() + T4::Ref::size() + T5::Ref::size() + T6::Ref::size() + T7::Ref::size() + T8::Ref::size() + T9::Ref::size() + T10::Ref::size(), base + w0.cursor(), base + v11.cursor());
        }
        ptr
    }

    fn pinned<M: MemoryRead>(&self, r: &usize, mem: &M, out: &mut Vec<Segment>) {
        let mut addr: usize = *r;
        match mem.read(addr, T1::Ref::size_of()) {
            Some(bytes) => {
                let head = T1::Ref::from_bytes(&bytes);
                self.0.0.pinned(&head, mem, out);
            },
            None => {
                assert(false);
                return ;
            },
        }
        addr = addr + T1::Ref::size_of();
        match mem.read(addr, T2::Ref::size_of()) {
            Some(bytes) => {
                let head = T2::Ref::from_bytes(&bytes);
                self.0.1.pinned(&head, mem, out);
            },
            None => {
                assert(false);
                return ;
            },
        }
        addr = addr + T2::Ref::size_of();
        match mem.read(addr, T3::Ref::size_of()) {
            Some(bytes) => {
                let head = T3::Ref::from_bytes(&bytes);
                self.0.2.pinned(&head, mem, out);
            },
            None => {
                assert(false);
                return ;
            },
        }
        addr = addr + T3::Ref::size_of();
        match mem.read(addr, T4::Ref::size_of()) {
            Some(bytes) => {
                let head = T4::Ref::from_bytes(&bytes);
                self.0.3.pinned(&head, mem, out);
            },
            None => {
                assert(false);
                return ;
            },
        }
        addr = addr + T4::Ref::size_of();
        match mem.read(addr, T5::Ref::size_of()) {
            Some(bytes) => {
                let head = T5::Ref::from_bytes(&bytes);
                self.0.4.pinned(&head, mem, out);
            },
            None => {
                assert(false);
                return ;
            },
        }
        addr = addr + T5::Ref::size_of();
        match mem.read(addr, T6::Ref::size_of()) {
            Some(bytes) => {
                let head = T6::Ref::from_bytes(&bytes);
                self.0.5.pinned(&head, mem, out);
            },
            None => {
                assert(false);
                return ;
            },
        }
        addr = addr + T6::Ref::size_of();
        match mem.read(addr, T7::Ref::size_of()) {
            Some(bytes) => {
                let head = T7::Ref::from_bytes(&bytes);
                self.0.6.pinned(&head, mem, out);
            },
            None => {
                assert(false);
                return ;
            },
        }
        addr = addr + T7::Ref::size_of();
        match mem.read(addr, T8::Ref::size_of()) {
            Some(bytes) => {
                let head = T8::Ref::from_bytes(&bytes);
                self.0.7.pinned(&head, mem, out);
            },
            None => {
                assert(false);
                return ;
            },
        }
        addr = addr + T8::Ref::size_of();
        match mem.read(addr, T9::Ref::size_of()) {
            Some(bytes) => {
                let head = T9::Ref::from_bytes(&bytes);
                self.0.8.pinned(&head, mem, out);
            },
            None => {
                assert(false);
                return ;
            },
        }
        addr = addr + T9::Ref::size_of();
        match mem.read(addr, T10::Ref::size_of()) {
            Some(bytes) => {
                let head = T10::Ref::from_bytes(&bytes);
                self.0.9.pinned(&head, mem, out);
            },
            None => {
                assert(false);
                return ;
            },
        }
        addr = addr + T10::Ref::size_of();
        match mem.read(addr, T11::Ref::size_of()) {
            Some(bytes) => {
                let head = T11::Ref::from_bytes(&bytes);
                self.0.10.pinned(&head, mem, out);
            },
            None => {
                assert(false);
                return ;
            },
        }
        addr = addr + T11::Ref::size_of();
        assert(pieces_of(out@) =~= pieces_of(old(out)@) + self.pins(*r, mem.image()));
    }
}

impl<T1: FromRef, T2: FromRef, T3: FromRef, T4: FromRef, T5: FromRef, T6: FromRef, T7: FromRef, T8: FromRef, T9: FromRef, T10: FromRef, T11: FromRef> FromRef for CopyStruct<(T1, T2, T3, T4, T5, T6, T7, T8, T9, T10, T11)> where <T1 as ToRef>::Ref: Pod, <T2 as ToRef>::Ref: Pod, <T3 as ToRef>::Ref: Pod, <T4 as ToRef>::Ref: Pod, <T5 as ToRef>::Ref: Pod, <T6 as ToRef>::Ref: Pod, <T7 as ToRef>::Ref: Pod, <T8 as ToRef>::Ref: Pod, <T9 as ToRef>::Ref: Pod, <T10 as ToRef>::Ref: Pod, <T11 as ToRef>::Ref: Pod {
    open spec fn decoded(r: usize, img: Image) -> Option<(<T1 as DeepView>::V, <T2 as DeepView>::V, <T3 as DeepView>::V, <T4 as DeepView>::V, <T5 as DeepView>::V, <T6 as DeepView>::V, <T7 as DeepView>::V, <T8 as DeepView>::V, <T9 as DeepView>::V, <T10 as DeepView>::V, <T11 as DeepView>::V)> {
        if r + <T1 as ToRef>::Ref::size() + <T2 as ToRef>::Ref::size() + <T3 as ToRef>::Ref::size() + <T4 as ToRef>::Ref::size() + <T5 as ToRef>::Ref::size() + <T6 as ToRef>::Ref::size() + <T7 as ToRef>::Ref::size() + <T8 as ToRef>::Ref::size() + <T9 as ToRef>::Ref::size() + <T10 as ToRef>::Ref::size() + <T11 as ToRef>::Ref::size() > usize::MAX {
            None
        } else {
            match (head_decoded::<T1>(r as int, img), head_decoded::<T2>(r as int + <T1 as ToRef>::Ref::size(), img), head_decoded::<T3>(r as int + <T1 as ToRef>::Ref::size() + <T2 as ToRef>::Ref::size(), img), head_decoded::<T4>(r as int + <T1 as ToRef>::Ref::size() + <T2 as ToRef>::Ref::size() + <T3 as ToRef>::Ref::size(), img), head_decoded::<T5>(r as int + <T1 as ToRef>::Ref::size() + <T2 as ToRef>::Ref::size() + <T3 as ToRef>::Ref::size() + <T4 as ToRef>::Ref::size(), img), head_decoded::<T6>(r as int + <T1 as ToRef>::Ref::size() + <T2 as ToRef>::Ref::size() + <T3 as ToRef>::Ref::size() + <T4 as ToRef>::Ref::size() + <T5 as ToRef>::Ref::size(), img), head_decoded::<T7>(r as int + <T1 as ToRef>::Ref::size() + <T2 as ToRef>::Ref::size() + <T3 as ToRef>::Ref::size() + <T4 as ToRef>::Ref::size() + <T5 as ToRef>::Ref::size() + <T6 as ToRef>::Ref::size(), img), head_decoded::<T8>(r as int + <T1 as ToRef>::Ref::size() + <T2 as ToRef>::Ref::size() + <T3 as ToRef>::Ref::size() + <T4 as ToRef>::Ref::size() + <T5 as ToRef>::Ref::size() + <T6 as ToRef>::Ref::size() + <T7 as ToRef>::Ref::size(), img), head_decoded::<T9>(r as int + <T1 as ToRef>::Ref::size() + <T2 as ToRef>::Ref::size() + <T3 as ToRef>::Ref::size() + <T4 as ToRef>::Ref::size() + <T5 as ToRef>::Ref::size() + <T6 as ToRef>::Ref::size() + <T7 as ToRef>::Ref::size() + <T8 as ToRef>::Ref::size(), img), head_decoded::<T10>(r as int + <T1 as ToRef>::Ref::size() + <T2 as ToRef>::Ref::size() + <T3 as ToRef>::Ref::size() + <T4 as ToRef>::Ref::size() + <T5 as ToRef>::Ref::size() + <T6 as ToRef>::Ref::size() + <T7 as ToRef>::Ref::size() + <T8 as ToRef>::Ref::size() + <T9 as ToRef>::Ref::size(), img), head_decoded::<T11>(r as int + <T1 as ToRef>::Ref::size() + <T2 as ToRef>::Ref::size() + <T3 as ToRef>::Ref::size() + <T4 as ToRef>::Ref::size() + <T5 as ToRef>::Ref::size() + <T6 as ToRef>::Ref::size() + <T7 as ToRef>::Ref::size() + <T8 as ToRef>::Ref::size() + <T9 as ToRef>::Ref::size() + <T10 as ToRef>::Ref::size(), img)) {
                (Some(v0), Some(v1), Some(v2), Some(v3), Some(v4), Some(v5), Some(v6), Some(v7), Some(v8), Some(v9), Some(v10)) => Some((v0, v1, v2, v3, v4, v5, v6, v7, v8, v9, v10)),
                _ => None,
            }
        }
    }

    proof fn lemma_round_trip(&self, r: usize, img: Image, lo: int, hi: int) {
        match head_at::<<T1 as ToRef>::Ref>(img, r as int) {
            Some(head) => {
                self.0.0.lemma_round_trip(head, img, lo, hi);
            },
            None => {},
        }
        match head_at::<<T2 as ToRef>::Ref>(img, r as int + <T1 as ToRef>::Ref::size()) {
            Some(head) => {
                self.0.1.lemma_round_trip(head, img, lo, hi);
            },
            None => {},
        }
        match head_at::<<T3 as ToRef>::Ref>(img, r as int + <T1 as ToRef>::Ref::size() + <T2 as ToRef>::Ref::size()) {
            Some(head) => {
                self.0.2.lemma_round_trip(head, img, lo, hi);
            },
            None => {},
        }
        match head_at::<<T4 as ToRef>::Ref>(img, r as int + <T1 as ToRef>::Ref::size() + <T2 as ToRef>::Ref::size() + <T3 as ToRef>::Ref::size()) {
            Some(head) => {
                self.0.3.lemma_round_trip(head, img, lo, hi);
            },
            None => {},
        }
        match head_at::<<T5 as ToRef>::Ref>(img, r as int + <T1 as ToRef>::Ref::size() + <T2 as ToRef>::Ref::size() + <T3 as ToRef>::Ref::size() + <T4 as ToRef>::Ref::size()) {
            Some(head) => {
                self.0.4.lemma_round_trip(head, img, lo, hi);
            },
            None => {},
        }
        match head_at::<<T6 as ToRef>::Ref>(img, r as int + <T1 as ToRef>::Ref::size() + <T2 as ToRef>::Ref::size() + <T3 as ToRef>::Ref::size() + <T4 as ToRef>::Ref::size() + <T5 as ToRef>::Ref::size()) {
            Some(head) => {
                self.0.5.lemma_round_trip(head, img, lo, hi);
            },
            None => {},
        }
        match head_at::<<T7 as ToRef>::Ref>(img, r as int + <T1 as ToRef>::Ref::size() + <T2 as ToRef>::Ref::size() + <T3 as ToRef>::Ref::size() + <T4 as ToRef>::Ref::size() + <T5 as ToRef>::Ref::size() + <T6 as ToRef>::Ref::size()) {
            Some(head) => {
                self.0.6.lemma_round_trip(head, img, lo, hi);
            },
            None => {},
        }
        match head_at::<<T8 as ToRef>::Ref>(img, r as int + <T1 as ToRef>::Ref::size() + <T2 as ToRef>::Ref::size() + <T3 as ToRef>::Ref::size() + <T4 as ToRef>::Ref::size() + <T5 as ToRef>::Ref::size() + <T6 as ToRef>::Ref::size() + <T7 as ToRef>::Ref::size()) {
            Some(head) => {
                self.0.7.lemma_round_trip(head, img, lo, hi);
            },
            None => {},
        }
        match head_at::<<T9 as ToRef>::Ref>(img, r as int + <T1 as ToRef>::Ref::size() + <T2 as ToRef>::Ref::size() + <T3 as ToRef>::Ref::size() + <T4 as ToRef>::Ref::size() + <T5 as ToRef>::Ref::size() + <T6 as ToRef>::Ref::size() + <T7 as ToRef>::Ref::size() + <T8 as ToRef>::Ref::size()) {
            Some(head) => {
                self.0.8.lemma_round_trip(head, img, lo, hi);
            },
            None => {},
        }
        match head_at::<<T10 as ToRef>::Ref>(img, r as int + <T1 as ToRef>::Ref::size() + <T2 as ToRef>::Ref::size() + <T3 as ToRef>::Ref::size() + <T4 as ToRef>::Ref::size() + <T5 as ToRef>::Ref::size() + <T6 as ToRef>::Ref::size() + <T7 as ToRef>::Ref::size() + <T8 as ToRef>::Ref::size() + <T9 as ToRef>::Ref::size()) {
            Some(head) => {
                self.0.9.lemma_round_trip(head, img, lo, hi);
            },
            None => {},
        }
        match head_at::<<T11 as ToRef>::Ref>(img, r as int + <T1 as ToRef>::Ref::size() + <T2 as ToRef>::Ref::size() + <T3 as ToRef>::Ref::size() + <T4 as ToRef>::Ref::size() + <T5 as ToRef>::Ref::size() + <T6 as ToRef>::Ref::size() + <T7 as ToRef>::Ref::size() + <T8 as ToRef>::Ref::size() + <T9 as ToRef>::Ref::size() + <T10 as ToRef>::Ref::size()) {
            Some(head) => {
                self.0.10.lemma_round_trip(head, img, lo, hi);
            },
            None => {},
        }
    }

    fn from_ref<M: MemoryRead>(r: &usize, mem: &M) -> (o: Option<Self>) {
        let mut addr: usize = *r;
        let size0 = <T1 as ToRef>::Ref::size_of();
        if size0 > usize::MAX - addr {
            return None;
        }
        let start0 = addr;
        addr = addr + size0;
        let size1 = <T2 as ToRef>::Ref::size_of();
        if size1 > usize::MAX - addr {
            return None;
        }
        let start1 = addr;
        addr = addr + size1;
        let size2 = <T3 as ToRef>::Ref::size_of();
        if size2 > usize::MAX - addr {
            return None;
        }
        let start2 = addr;
        addr = addr + size2;
        let size3 = <T4 as ToRef>::Ref::size_of();
        if size3 > usize::MAX - addr {
            return None;
        }
        let start3 = addr;
        addr = addr + size3;
        let size4 = <T5 as ToRef>::Ref::size_of();
        if size4 > usize::MAX - addr {
            return None;
        }
        let start4 = addr;
        addr = addr + size4;
        let size5 = <T6 as ToRef>::Ref::size_of();
        if size5 > usize::MAX - addr {
            return None;
        }
        let start5 = addr;
        addr = addr + size5;
        let size6 = <T7 as ToRef>::Ref::size_of();
        if size6 > usize::MAX - addr {
            return None;
        }
        let start6 = addr;
        addr = addr + size6;
        let size7 = <T8 as ToRef>::Ref::size_of();
        if size7 > usize::MAX - addr {
            return None;
        }
        let start7 = addr;
        addr = addr + size7;
        let size8 = <T9 as ToRef>::Ref::size_of();
        if size8 > usize::MAX - addr {
            return None;
        }
        let start8 = addr;
        addr = addr + size8;
        let size9 = <T10 as ToRef>::Ref::size_of();
        if size9 > usize::MAX - addr {
            return None;
        }
        let start9 = addr;
        addr = addr + size9;
        let size10 = <T11 as ToRef>::Ref::size_of();
        if size10 > usize::MAX - addr {
            return None;
        }
        let start10 = addr;
        addr = addr + size10;
        let v0 = match mem.read(start0, size0) {
            Some(bytes) => {
                let head = <T1 as ToRef>::Ref::from_bytes(&bytes);
                match <T1 as FromRef>::from_ref(&head, mem) {
                    Some(v) => v,
                    None => {
                        return None;
                    },
                }
            },
            None => {
                return None;
            },
        };
        let v1 = match mem.read(start1, size1) {
            Some(bytes) => {
                let head = <T2 as ToRef>::Ref::from_bytes(&bytes);
                match <T2 as FromRef>::from_ref(&head, mem) {
                    Some(v) => v,
                    None => {
                        return None;
                    },
                }
            },
            None => {
                return None;
            },
        };
        let v2 = match mem.read(start2, size2) {
            Some(bytes) => {
                let head = <T3 as ToRef>::Ref::from_bytes(&bytes);
                match <T3 as FromRef>::from_ref(&head, mem) {
                    Some(v) => v,
                    None => {
                        return None;
                    },
                }
            },
            None => {
                return None;
            },
        };
        let v3 = match mem.read(start3, size3) {
            Some(bytes) => {
                let head = <T4 as ToRef>::Ref::from_bytes(&bytes);
                match <T4 as FromRef>::from_ref(&head, mem) {
                    Some(v) => v,
                    None => {
                        return None;
                    },
                }
            },
            None => {
                return None;
            },
        };
        let v4 = match mem.read(start4, size4) {
            Some(bytes) => {
                let head = <T5 as ToRef>::Ref::from_bytes(&bytes);
                match <T5 as FromRef>::from_ref(&head, mem) {
                    Some(v) => v,
                    None => {
                        return None;
                    },
                }
            },
            None => {
                return None;
            },
        };
        let v5 = match mem.read(start5, size5) {
            Some(bytes) => {
                let head = <T6 as ToRef>::Ref::from_bytes(&bytes);
                match <T6 as FromRef>::from_ref(&head, mem) {
                    Some(v) => v,
                    None => {
                        return None;
                    },
                }
            },
            None => {
                return None;
            },
        };
        let v6 = match mem.read(start6, size6) {
            Some(bytes) => {
                let head = <T7 as ToRef>::Ref::from_bytes(&bytes);
                match <T7 as FromRef>::from_ref(&head, mem) {
                    Some(v) => v,
                    None => {
                        return None;
                    },
                }
            },
            None => {
                return None;
            },
        };
        let v7 = match mem.read(start7, size7) {
            Some(bytes) => {
                let head = <T8 as ToRef>::Ref::from_bytes(&bytes);
                match <T8 as FromRef>::from_ref(&head, mem) {
                    Some(v) => v,
                    None => {
                        return None;
                    },
                }
            },
            None => {
                return None;
            },
        };
        let v8 = match mem.read(start8, size8) {
            Some(bytes) => {
                let head = <T9 as ToRef>::Ref::from_bytes(&bytes);
                match <T9 as FromRef>::from_ref(&head, mem) {
                    Some(v) => v,
                    None => {
                        return None;
                    },
                }
            },
            None => {
                return None;
            },
        };
        let v9 = match mem.read(start9, size9) {
            Some(bytes) => {
                let head = <T10 as ToRef>::Ref::from_bytes(&bytes);
                match <T10 as FromRef>::from_ref(&head, mem) {
                    Some(v) => v,
                    None => {
                        return None;
                    },
                }
            },
            None => {
                return None;
            },
        };
        let v10 = match mem.read(start10, size10) {
            Some(bytes) => {
                let head = <T11 as ToRef>::Ref::from_bytes(&bytes);
                match <T11 as FromRef>::from_ref(&head, mem) {
                    Some(v) => v,
                    None => {
                        return None;
                    },
                }
            },
            None => {
                return None;
            },
        };
        Some(CopyStruct((v0, v1, v2, v3, v4, v5, v6, v7, v8, v9, v10)))
    }
}

impl<T1: ToRef, T2: ToRef, T3: ToRef, T4: ToRef, T5: ToRef, T6: ToRef, T7: ToRef, T8: ToRef, T9: ToRef, T10: ToRef, T11: ToRef, T12: ToRef> ToRef for CopyStruct<(T1, T2, T3, T4, T5, T6, T7, T8, T9, T10, T11, T12)> where T1::Ref: Pod, T2::Ref: Pod, T3::Ref: Pod, T4::Ref: Pod, T5::Ref: Pod, T6::Ref: Pod, T7::Ref: Pod, T8::Ref: Pod, T9::Ref: Pod, T10::Ref: Pod, T11::Ref: Pod, T12::Ref: Pod {
    type Ref = usize;

    open spec fn mem_type() -> MemType {
        MemType::Complex
    }

    open spec fn size(&self) -> nat {
        self.0.size() + T1::Ref::size() + T2::Ref::size() + T3::Ref::size() + T4::Ref::size() + T5::Ref::size() + T6::Ref::size() + T7::Ref::size() + T8::Ref::size() + T9::Ref::size() + T10::Ref::size() + T11::Ref::size() + T12::Ref::size()
    }

    open spec fn views(&self, r: usize, img: Image, lo: int, hi: int, deep: bool) -> bool {
        &&& r + T1::Ref::size() + T2::Ref::size() + T3::Ref::size() + T4::Ref::size() + T5::Ref::size() + T6::Ref::size() + T7::Ref::size() + T8::Ref::size() + T9::Ref::size() + T10::Ref::size() + T11::Ref::size() + T12::Ref::size() <= usize::MAX
        &&& T1::Ref::size() + T2::Ref::size() + T3::Ref::size() + T4::Ref::size() + T5::Ref::size() + T6::Ref::size() + T7::Ref::size() + T8::Ref::size() + T9::Ref::size() + T10::Ref::size() + T11::Ref::size() + T12::Ref::size() > 0 ==> lo <= r && r + T1::Ref::size() + T2::Ref::size() + T3::Ref::size() + T4::Ref::size() + T5::Ref::size() + T6::Ref::size() + T7::Ref::size() + T8::Ref::size() + T9::Ref::size() + T10::Ref::size() + T11::Ref::size() + T12::Ref::size() <= hi
        &&& head_views(self.0.0, r as int, img, lo, hi, deep)
        &&& head_views(self.0.1, r as int + T1::Ref::size(), img, lo, hi, deep)
        &&& head_views(self.0.2, r as int + T1::Ref::size() + T2::Ref::size(), img, lo, hi, deep)
        &&& head_views(self.0.3, r as int + T1::Ref::size() + T2::Ref::size() + T3::Ref::size(), img, lo, hi, deep)
        &&& head_views(self.0.4, r as int + T1::Ref::size() + T2::Ref::size() + T3::Ref::size() + T4::Ref::size(), img, lo, hi, deep)
        &&& head_views(self.0.5, r as int + T1::Ref::size() + T2::Ref::size() + T3::Ref::size() + T4::Ref::size() + T5::Ref::size(), img, lo, hi, deep)
        &&& head_views(self.0.6, r as int + T1::Ref::size() + T2::Ref::size() + T3::Ref::size() + T4::Ref::size() + T5::Ref::size() + T6::Ref::size(), img, lo, hi, deep)
        &&& head_views(self.0.7, r as int + T1::Ref::size() + T2::Ref::size() + T3::Ref::size() + T4::Ref::size() + T5::Ref::size() + T6::Ref::size() + T7::Ref::size(), img, lo, hi, deep)
        &&& head_views(self.0.8, r as int + T1::Ref::size() + T2::Ref::size() + T3::Ref::size() + T4::Ref::size() + T5::Ref::size() + T6::Ref::size() + T7::Ref::size() + T8::Ref::size(), img, lo, hi, deep)
        &&& head_views(self.0.9, r as int + T1::Ref::size() + T2::Ref::size() + T3::Ref::size() + T4::Ref::size() + T5::Ref::size() + T6::Ref::size() + T7::Ref::size() + T8::Ref::size() + T9::Ref::size(), img, lo, hi, deep)
        &&& head_views(self.0.10, r as int + T1::Ref::size() + T2::Ref::size() + T3::Ref::size() + T4::Ref::size() + T5::Ref::size() + T6::Ref::size() + T7::Ref::size() + T8::Ref::size() + T9::Ref::size() + T10::Ref::size(), img, lo, hi, deep)
        &&& head_views(self.0.11, r as int + T1::Ref::size() + T2::Ref::size() + T3::Ref::size() + T4::Ref::size() + T5::Ref::size() + T6::Ref::size() + T7::Ref::size() + T8::Ref::size() + T9::Ref::size() + T10::Ref::size() + T11::Ref::size(), img, lo, hi, deep)
    }

    open spec fn flat(&self) -> usize {
        0
    }

    open spec fn pins(&self, r: usize, img: Image) -> Seq<Piece> {
        head_pins(self.0.0, r as int, img) + head_pins(self.0.1, r as int + T1::Ref::size(), img) + head_pins(self.0.2, r as int + T1::Ref::size() + T2::Ref::size(), img) + head_pins(self.0.3, r as int + T1::Ref::size() + T2::Ref::size() + T3::Ref::size(), img) + head_pins(self.0.4, r as int + T1::Ref::size() + T2::Ref::size() + T3::Ref::size() + T4::Ref::size(), img) + head_pins(self.0.5, r as int + T1::Ref::size() + T2::Ref::size() + T3::Ref::size() + T4::Ref::size() + T5::Ref::size(), img) + head_pins(self.0.6, r as int + T1::Ref::size() + T2::Ref::size() + T3::Ref::size() + T4::Ref::size() + T5::Ref::size() + T6::Ref::size(), img) + head_pins(self.0.7, r as int + T1::Ref::size() + T2::Ref::size() + T3::Ref::size() + T4::Ref::size() + T5::Ref::size() + T6::Ref::size() + T7::Ref::size(), img) + head_pins(self.0.8, r as int + T1::Ref::size() + T2::Ref::size() + T3::Ref::size() + T4::Ref::size() + T5::Ref::size() + T6::Ref::size() + T7::Ref::size() + T8::Ref::size(), img) + head_pins(self.0.9, r as int + T1::Ref::size() + T2::Ref::size() + T3::Ref::size() + T4::Ref::size() + T5::Ref::size() + T6::Ref::size() + T7::Ref::size() + T8::Ref::size() + T9::Ref::size(), img) + head_pins(self.0.10, r as int + T1::Ref::size() + T2::Ref::size() + T3::Ref::size() + T4::Ref::size() + T5::Ref::size() + T6::Ref::size() + T7::Ref::size() + T8::Ref::size() + T9::Ref::size() + T10::Ref::size(), img) + head_pins(self.0.11, r as int + T1::Ref::size() + T2::Ref::size() + T3::Ref::size() + T4::Ref::size() + T5::Ref::size() + T6::Ref::size() + T7::Ref::size() + T8::Ref::size() + T9::Ref::size() + T10::Ref::size() + T11::Ref::size(), img)
    }

    proof fn lemma_flat(&self) {
    }

    proof fn lemma_primitive(&self, r: usize, img: Image, lo: int, hi: int, deep: bool) {
    }

    proof fn lemma_deepen(&self, r: usize, img: Image, other: Image, lo: int, hi: int) {
        lemma_holds_all_concat(other, head_pins(self.0.0, r as int, img) + head_pins(self.0.1, r as int + T1::Ref::size(), img) + head_pins(self.0.2, r as int + T1::Ref::size() + T2::Ref::size(), img) + head_pins(self.0.3, r as int + T1::Ref::size() + T2::Ref::size() + T3::Ref::size(), img) + head_pins(self.0.4, r as int + T1::Ref::size() + T2::Ref::size() + T3::Ref::size() + T4::Ref::size(), img) + head_pins(self.0.5, r as int + T1::Ref::size() + T2::Ref::size() + T3::Ref::size() + T4::Ref::size() + T5::Ref::size(), img) + head_pins(self.0.6, r as int + T1::Ref::size() + T2::Ref::size() + T3::Ref::size() + T4::Ref::size() + T5::Ref::size() + T6::Ref::size(), img) + head_pins(self.0.7, r as int + T1::Ref::size() + T2::Ref::size() + T3::Ref::size() + T4::Ref::size() + T5::Ref::size() + T6::Ref::size() + T7::Ref::size(), img) + head_pins(self.0.8, r as int + T1::Ref::size() + T2::Ref::size() + T3::Ref::size() + T4::Ref::size() + T5::Ref::size() + T6::Ref::size() + T7::Ref::size() + T8::Ref::size(), img) + head_pins(self.0.9, r as int + T1::Ref::size() + T2::Ref::size() + T3::Ref::size() + T4::Ref::size() + T5::Ref::size() + T6::Ref::size() + T7::Ref::size() + T8::Ref::size() + T9::Ref::size(), img) + head_pins(self.0.10, r as int + T1::Ref::size() + T2::Ref::size() + T3::Ref::size() + T4::Ref::size() + T5::Ref::size() + T6::Ref::size() + T7::Ref::size() + T8::Ref::size() + T9::Ref::size() + T10::Ref::size(), img), head_pins(self.0.11, r as int + T1::Ref::size() + T2::Ref::size() + T3::Ref::size() + T4::Ref::size() + T5::Ref::size() + T6::Ref::size() + T7::Ref::size() + T8::Ref::size() + T9::Ref::size() + T10::Ref::size() + T11::Ref::size(), img));
        lemma_holds_all_concat(other, head_pins(self.0.0, r as int, img) + head_pins(self.0.1, r as int + T1::Ref::size(), img) + head_pins(self.0.2, r as int + T1::Ref::size() + T2::Ref::size(), img) + head_pins(self.0.3, r as int + T1::Ref::size() + T2::Ref::size() + T3::Ref::size(), img) + head_pins(self.0.4, r as int + T1::Ref::size() + T2::Ref::size() + T3::Ref::size() + T4::Ref::size(), img) + head_pins(self.0.5, r as int + T1::Ref::size() + T2::Ref::size() + T3::Ref::size() + T4::Ref::size() + T5::Ref::size(), img) + head_pins(self.0.6, r as int + T1::Ref::size() + T2::Ref::size() + T3::Ref::size() + T4::Ref::size() + T5::Ref::size() + T6::Ref::size(), img) + head_pins(self.0.7, r as int + T1::Ref::size() + T2::Ref::size() + T3::Ref::size() + T4::Ref::size() + T5::Ref::size() + T6::Ref::size() + T7::Ref::size(), img) + head_pins(self.0.8, r as int + T1::Ref::size() + T2::Ref::size() + T3::Ref::size() + T4::Ref::size() + T5::Ref::size() + T6::Ref::size() + T7::Ref::size() + T8::Ref::size(), img) + head_pins(self.0.9, r as int + T1::Ref::size() + T2::Ref::size() + T3::Ref::size() + T4::Ref::size() + T5::Ref::size() + T6::Ref::size() + T7::Ref::size() + T8::Ref::size() + T9::Ref::size(), img), head_pins(self.0.10, r as int + T1::Ref::size() + T2::Ref::size() + T3::Ref::size() + T4::Ref::size() + T5::Ref::size() + T6::Ref::size() + T7::Ref::size() + T8::Ref::size() + T9::Ref::size() + T10::Ref::size(), img));
        lemma_holds_all_concat(other, head_pins(self.0.0, r as int, img) + head_pins(self.0.1, r as int + T1::Ref::size(), img) + head_pins(self.0.2, r as int + T1::Ref::size() + T2::Ref::size(), img) + head_pins(self.0.3, r as int + T1::Ref::size() + T2::Ref::size() + T3::Ref::size(), img) + head_pins(self.0.4, r as int + T1::Ref::size() + T2::Ref::size() + T3::Ref::size() + T4::Ref::size(), img) + head_pins(self.0.5, r as int + T1::Ref::size() + T2::Ref::size() + T3::Ref::size() + T4::Ref::size() + T5::Ref::size(), img) + head_pins(self.0.6, r as int + T1::Ref::size() + T2::Ref::size() + T3::Ref::size() + T4::Ref::size() + T5::Ref::size() + T6::Ref::size(), img) + head_pins(self.0.7, r as int + T1::Ref::size() + T2::Ref::size() + T3::Ref::size() + T4::Ref::size() + T5::Ref::size() + T6::Ref::size() + T7::Ref::size(), img) + head_pins(self.0.8, r as int + T1::Ref::size() + T2::Ref::size() + T3::Ref::size() + T4::Ref::size() + T5::Ref::size() + T6::Ref::size() + T7::Ref::size() + T8::Ref::size(), img), head_pins(self.0.9, r as int + T1::Ref::size() + T2::Ref::size() + T3::Ref::size() + T4::Ref::size() + T5::Ref::size() + T6::Ref::size() + T7::Ref::size() + T8::Ref::size() + T9::Ref::size(), img));
        lemma_holds_all_concat(other, head_pins(self.0.0, r as int, img) + head_pins(self.0.1, r as int + T1::Ref::size(), img) + head_pins(self.0.2, r as int + T1::Ref::size() + T2::Ref::size(), img) + head_pins(self.0.3, r as int + T1::Ref::size() + T2::Ref::size() + T3::Ref::size(), img) + head_pins(self.0.4, r as int + T1::Ref::size() + T2::Ref::size() + T3::Ref::size() + T4::Ref::size(), img) + head_pins(self.0.5, r as int + T1::Ref::size() + T2::Ref::size() + T3::Ref::size() + T4::Ref::size() + T5::Ref::size(), img) + head_pins(self.0.6, r as int + T1::Ref::size() + T2::Ref::size() + T3::Ref::size() + T4::Ref::size() + T5::Ref::size() + T6::Ref::size(), img) + head_pins(self.0.7, r as int + T1::Ref::size() + T2::Ref::size() + T3::Ref::size() + T4::Ref::size() + T5::Ref::size() + T6::Ref::size() + T7::Ref::size(), img), head_pins(self.0.8, r as int + T1::Ref::size() + T2::Ref::size() + T3::Ref::size() + T4::Ref::size() + T5::Ref::size() + T6::Ref::size() + T7::Ref::size() + T8::Ref::size(), img));
        lemma_holds_all_concat(other, head_pins(self.0.0, r as int, img) + head_pins(self.0.1, r as int + T1::Ref::size(), img) + head_pins(self.0.2, r as int + T1::Ref::size() + T2::Ref::size(), img) + head_pins(self.0.3, r as int + T1::Ref::size() + T2::Ref::size() + T3::Ref::size(), img) + head_pins(self.0.4, r as int + T1::Ref::size() + T2::Ref::size() + T3::Ref::size() + T4::Ref::size(), img) + head_pins(self.0.5, r as int + T1::Ref::size() + T2::Ref::size() + T3::Ref::size() + T4::Ref::size() + T5::Ref::size(), img) + head_pins(self.0.6, r as int + T1::Ref::size() + T2::Ref::size() + T3::Ref::size() + T4::Ref::size() + T5::Ref::size() + T6::Ref::size(), img), head_pins(self.0.7, r as int + T1::Ref::size() + T2::Ref::size() + T3::Ref::size() + T4::Ref::size() + T5::Ref::size() + T6::Ref::size() + T7::Ref::size(), img));
        lemma_holds_all_concat(other, head_pins(self.0.0, r as int, img) + head_pins(self.0.1, r as int + T1::Ref::size(), img) + head_pins(self.0.2, r as int + T1::Ref::size() + T2::Ref::size(), img) + head_pins(self.0.3, r as int + T1::Ref::size() + T2::Ref::size() + T3::Ref::size(), img) + head_pins(self.0.4, r as int + T1::Ref::size() + T2::Ref::size() + T3::Ref::size() + T4::Ref::size(), img) + head_pins(self.0.5, r as int + T1::Ref::size() + T2::Ref::size() + T3::Ref::size() + T4::Ref::size() + T5::Ref::size(), img), head_pins(self.0.6, r as int + T1::Ref::size() + T2::Ref::size() + T3::Ref::size() + T4::Ref::size() + T5::Ref::size() + T6::Ref::size(), img));
        lemma_holds_all_concat(other, head_pins(self.0.0, r as int, img) + head_pins(self.0.1, r as int + T1::Ref::size(), img) + head_pins(self.0.2, r as int + T1::Ref::size() + T2::Ref::size(), img) + head_pins(self.0.3, r as int + T1::Ref::size() + T2::Ref::size() + T3::Ref::size(), img) + head_pins(self.0.4, r as int + T1::Ref::size() + T2::Ref::size() + T3::Ref::size() + T4::Ref::size(), img), head_pins(self.0.5, r as int + T1::Ref::size() + T2::Ref::size() + T3::Ref::size() + T4::Ref::size() + T5::Ref::size(), img));
        lemma_holds_all_concat(other, head_pins(self.0.0, r as int, img) + head_pins(self.0.1, r as int + T1::Ref::size(), img) + head_pins(self.0.2, r as int + T1::Ref::size() + T2::Ref::size(), img) + head_pins(self.0.3, r as int + T1::Ref::size() + T2::Ref::size() + T3::Ref::size(), img), head_pins(self.0.4, r as int + T1::Ref::size() + T2::Ref::size() + T3::Ref::size() + T4::Ref::size(), img));
        lemma_holds_all_concat(other, head_pins(self.0.0, r as int, img) + head_pins(self.0.1, r as int + T1::Ref::size(), img) + head_pins(self.0.2, r as int + T1::Ref::size() + T2::Ref::size(), img), head_pins(self.0.3, r as int + T1::Ref::size() + T2::Ref::size() + T3::Ref::size(), img));
        lemma_holds_all_concat(other, head_pins(self.0.0, r as int, img) + head_pins(self.0.1, r as int + T1::Ref::size(), img), head_pins(self.0.2, r as int + T1::Ref::size() + T2::Ref::size(), img));
        lemma_holds_all_concat(other, head_pins(self.0.0, r as int, img), head_pins(self.0.1, r as int + T1::Ref::size(), img));
        lemma_head_deepen(self.0.0, r as int, img, other, lo, hi);
        lemma_head_deepen(self.0.1, r as int + T1::Ref::size(), img, other, lo, hi);
        lemma_head_deepen(self.0.2, r as int + T1::Ref::size() + T2::Ref::size(), img, other, lo, hi);
        lemma_head_deepen(self.0.3, r as int + T1::Ref::size() + T2::Ref::size() + T3::Ref::size(), img, other, lo, hi);
        lemma_head_deepen(self.0.4, r as int + T1::Ref::size() + T2::Ref::size() + T3::Ref::size() + T4::Ref::size(), img, other, lo, hi);
        lemma_head_deepen(self.0.5, r as int + T1::Ref::size() + T2::Ref::size() + T3::Ref::size() + T4::Ref::size() + T5::Ref::size(), img, other, lo, hi);
        lemma_head_deepen(self.0.6, r as int + T1::Ref::size() + T2::Ref::size() + T3::Ref::size() + T4::Ref::size() + T5::Ref::size() + T6::Ref::size(), img, other, lo, hi);
        lemma_head_deepen(self.0.7, r as int + T1::Ref::size() + T2::Ref::size() + T3::Ref::size() + T4::Ref::size() + T5::Ref::size() + T6::Ref::size() + T7::Ref::size(), img, other, lo, hi);
        lemma_head_deepen(self.0.8, r as int + T1::Ref::size() + T2::Ref::size() + T3::Ref::size() + T4::Ref::size() + T5::Ref::size() + T6::Ref::size() + T7::Ref::size() + T8::Ref::size(), img, other, lo, hi);
        lemma_head_deepen(self.0.9, r as int + T1::Ref::size() + T2::Ref::size() + T3::Ref::size() + T4::Ref::size() + T5::Ref::size() + T6::Ref::size() + T7::Ref::size() + T8::Ref::size() + T9::Ref::size(), img, other, lo, hi);
        lemma_head_deepen(self.0.10, r as int + T1::Ref::size() + T2::Ref::size() + T3::Ref::size() + T4::Ref::size() + T5::Ref::size() + T6::Ref::size() + T7::Ref::size() + T8::Ref::size() + T9::Ref::size() + T10::Ref::size(), img, other, lo, hi);
        lemma_head_deepen(self.0.11, r as int + T1::Ref::size() + T2::Ref::size() + T3::Ref::size() + T4::Ref::size() + T5::Ref::size() + T6::Ref::size() + T7::Ref::size() + T8::Ref::size() + T9::Ref::size() + T10::Ref::size() + T11::Ref::size(), img, other, lo, hi);
    }

    proof fn lemma_frame(&self, r: usize, img: Image, other: Image, lo: int, hi: int, deep: bool) {
        lemma_head_frame(self.0.0, r as int, img, other, lo, hi, deep);
        lemma_head_frame(self.0.1, r as int + T1::Ref::size(), img, other, lo, hi, deep);
        lemma_head_frame(self.0.2, r as int + T1::Ref::size() + T2::Ref::size(), img, other, lo, hi, deep);
        lemma_head_frame(self.0.3, r as int + T1::Ref::size() + T2::Ref::size() + T3::Ref::size(), img, other, lo, hi, deep);
        lemma_head_frame(self.0.4, r as int + T1::Ref::size() + T2::Ref::size() + T3::Ref::size() + T4::Ref::size(), img, other, lo, hi, deep);
        lemma_head_frame(self.0.5, r as int + T1::Ref::size() + T2::Ref::size() + T3::Ref::size() + T4::Ref::size() + T5::Ref::size(), img, other, lo, hi, deep);
        lemma_head_frame(self.0.6, r as int + T1::Ref::size() + T2::Ref::size() + T3::Ref::size() + T4::Ref::size() + T5::Ref::size() + T6::Ref::size(), img, other, lo, hi, deep);
        lemma_head_frame(self.0.7, r as int + T1::Ref::size() + T2::Ref::size() + T3::Ref::size() + T4::Ref::size() + T5::Ref::size() + T6::Ref::size() + T7::Ref::size(), img, other, lo, hi, deep);
        lemma_head_frame(self.0.8, r as int + T1::Ref::size() + T2::Ref::size() + T3::Ref::size() + T4::Ref::size() + T5::Ref::size() + T6::Ref::size() + T7::Ref::size() + T8::Ref::size(), img, other, lo, hi, deep);
        lemma_head_frame(self.0.9, r as int + T1::Ref::size() + T2::Ref::size() + T3::Ref::size() + T4::Ref::size() + T5::Ref::size() + T6::Ref::size() + T7::Ref::size() + T8::Ref::size() + T9::Ref::size(), img, other, lo, hi, deep);
        lemma_head_frame(self.0.10, r as int + T1::Ref::size() + T2::Ref::size() + T3::Ref::size() + T4::Ref::size() + T5::Ref::size() + T6::Ref::size() + T7::Ref::size() + T8::Ref::size() + T9::Ref::size() + T10::Ref::size(), img, other, lo, hi, deep);
        lemma_head_frame(self.0.11, r as int + T1::Ref::size() + T2::Ref::size() + T3::Ref::size() + T4::Ref::size() + T5::Ref::size() + T6::Ref::size() + T7::Ref::size() + T8::Ref::size() + T9::Ref::size() + T10::Ref::size() + T11::Ref::size(), img, other, lo, hi, deep);
    }

    proof fn lemma_widen(
        &self,
        r: usize,
        img: Image,
        lo: int,
        hi: int,
        wide_lo: int,
        wide_hi: int,
        deep: bool,
    ) {
        match head_at::<T1::Ref>(img, r as int) {
            Some(head) => {
                self.0.0.lemma_widen(head, img, lo, hi, wide_lo, wide_hi, deep);
            },
            None => {},
        }
        match head_at::<T2::Ref>(img, r as int + T1::Ref::size()) {
            Some(head) => {
                self.0.1.lemma_widen(head, img, lo, hi, wide_lo, wide_hi, deep);
            },
            None => {},
        }
        match head_at::<T3::Ref>(img, r as int + T1::Ref::size() + T2::Ref::size()) {
            Some(head) => {
                self.0.2.lemma_widen(head, img, lo, hi, wide_lo, wide_hi, deep);
            },
            None => {},
        }
        match head_at::<T4::Ref>(img, r as int + T1::Ref::size() + T2::Ref::size() + T3::Ref::size()) {
            Some(head) => {
                self.0.3.lemma_widen(head, img, lo, hi, wide_lo, wide_hi, deep);
            },
            None => {},
        }
        match head_at::<T5::Ref>(img, r as int + T1::Ref::size() + T2::Ref::size() + T3::Ref::size() + T4::Ref::size()) {
            Some(head) => {
                self.0.4.lemma_widen(head, img, lo, hi, wide_lo, wide_hi, deep);
            },
            None => {},
        }
        match head_at::<T6::Ref>(img, r as int + T1::Ref::size() + T2::Ref::size() + T3::Ref::size() + T4::Ref::size() + T5::Ref::size()) {
            Some(head) => {
                self.0.5.lemma_widen(head, img, lo, hi, wide_lo, wide_hi, deep);
            },
            None => {},
        }
        match head_at::<T7::Ref>(img, r as int + T1::Ref::size() + T2::Ref::size() + T3::Ref::size() + T4::Ref::size() + T5::Ref::size() + T6::Ref::size()) {
            Some(head) => {
                self.0.6.lemma_widen(head, img, lo, hi, wide_lo, wide_hi, deep);
            },
            None => {},
        }
        match head_at::<T8::Ref>(img, r as int + T1::Ref::size() + T2::Ref::size() + T3::Ref::size() + T4::Ref::size() + T5::Ref::size() + T6::Ref::size() + T7::Ref::size()) {
            Some(head) => {
                self.0.7.lemma_widen(head, img, lo, hi, wide_lo, wide_hi, deep);
            },
            None => {},
        }
        match head_at::<T9::Ref>(img, r as int + T1::Ref::size() + T2::Ref::size() + T3::Ref::size() + T4::Ref::size() + T5::Ref::size() + T6::Ref::size() + T7::Ref::size() + T8::Ref::size()) {
            Some(head) => {
                self.0.8.lemma_widen(head, img, lo, hi, wide_lo, wide_hi, deep);
            },
            None => {},
        }
        match head_at::<T10::Ref>(img, r as int + T1::Ref::size() + T2::Ref::size() + T3::Ref::size() + T4::Ref::size() + T5::Ref::size() + T6::Ref::size() + T7::Ref::size() + T8::Ref::size() + T9::Ref::size()) {
            Some(head) => {
                self.0.9.lemma_widen(head, img, lo, hi, wide_lo, wide_hi, deep);
            },
            None => {},
        }
        match head_at::<T11::Ref>(img, r as int + T1::Ref::size() + T2::Ref::size() + T3::Ref::size() + T4::Ref::size() + T5::Ref::size() + T6::Ref::size() + T7::Ref::size() + T8::Ref::size() + T9::Ref::size() + T10::Ref::size()) {
            Some(head) => {
                self.0.10.lemma_widen(head, img, lo, hi, wide_lo, wide_hi, deep);
            },
            None => {},
        }
        match head_at::<T12::Ref>(img, r as int + T1::Ref::size() + T2::Ref::size() + T3::Ref::size() + T4::Ref::size() + T5::Ref::size() + T6::Ref::size() + T7::Ref::size() + T8::Ref::size() + T9::Ref::size() + T10::Ref::size() + T11::Ref::size()) {
            Some(head) => {
                self.0.11.lemma_widen(head, img, lo, hi, wide_lo, wide_hi, deep);
            },
            None => {},
        }
    }

    fn mem_type_of() -> (t: MemType) {
        MemType::Complex
    }

    fn to_size(&self, acc: &mut usize) {
        self.0.to_size(acc);
        *acc = *acc + T1::Ref::size_of();
        *acc = *acc + T2::Ref::size_of();
        *acc = *acc + T3::Ref::size_of();
        *acc = *acc + T4::Ref::size_of();
        *acc = *acc + T5::Ref::size_of();
        *acc = *acc + T6::Ref::size_of();
        *acc = *acc + T7::Ref::size_of();
        *acc = *acc + T8::Ref::size_of();
        *acc = *acc + T9::Ref::size_of();
        *acc = *acc + T10::Ref::size_of();
        *acc = *acc + T11::Ref::size_of();
        *acc = *acc + T12::Ref::size_of();
    }

    fn checked_size(&self, acc: usize) -> (sum: Option<usize>) {
        let mut sum = match self.0.checked_size(acc) {
            Some(next) => next,
            None => {
                return None;
            },
        };
        let size0 = T1::Ref::size_of();
        if size0 > usize::MAX - sum {
            return None;
        }
        sum = sum + size0;
        let size1 = T2::Ref::size_of();
        if size1 > usize::MAX - sum {
            return None;
        }
        sum = sum + size1;
        let size2 = T3::Ref::size_of();
        if size2 > usize::MAX - sum {
            return None;
        }
        sum = sum + size2;
        let size3 = T4::Ref::size_of();
        if size3 > usize::MAX - sum {
            return None;
        }
        sum = sum + size3;
        let size4 = T5::Ref::size_of();
        if size4 > usize::MAX - sum {
            return None;
        }
        sum = sum + size4;
        let size5 = T6::Ref::size_of();
        if size5 > usize::MAX - sum {
            return None;
        }
        sum = sum + size5;
        let size6 = T7::Ref::size_of();
        if size6 > usize::MAX - sum {
            return None;
        }
        sum = sum + size6;
        let size7 = T8::Ref::size_of();
        if size7 > usize::MAX - sum {
            return None;
        }
        sum = sum + size7;
        let size8 = T9::Ref::size_of();
        if size8 > usize::MAX - sum {
            return None;
        }
        sum = sum + size8;
        let size9 = T10::Ref::size_of();
        if size9 > usize::MAX - sum {
            return None;
        }
        sum = sum + size9;
        let size10 = T11::Ref::size_of();
        if size10 > usize::MAX - sum {
            return None;
        }
        sum = sum + size10;
        let size11 = T12::Ref::size_of();
        if size11 > usize::MAX - sum {
            return None;
        }
        sum = sum + size11;
        Some(sum)
    }

    #[verifier::rlimit(40)]
    fn to_ref(&self, writer: &mut Writer) -> (r: usize) {
        let ghost base = writer.base() as int;
        let ghost w0 = *writer;
        proof {
            writer.lemma_bounds();
        }
        let heads = self.0.to_ref(writer);
        let ghost v0 = *writer;
        proof {
            writer.lemma_bounds();
        }
        let ptr = writer.as_ptr();
        writer.put(&heads.0);
        let ghost v1 = *writer;
        proof {
            writer.lemma_bounds();
            T1::Ref::lemma_size();
            heads.0.lemma_layout();
            lemma_image_put(v0, v1, heads.0.encode());
        }
        writer.put(&heads.1);
        let ghost v2 = *writer;
        proof {
            writer.lemma_bounds();
            T2::Ref::lemma_size();
            heads.1.lemma_layout();
            lemma_image_put(v1, v2, heads.1.encode());
        }
        writer.put(&heads.2);
        let ghost v3 = *writer;
        proof {
            writer.lemma_bounds();
            T3::Ref::lemma_size();
            heads.2.lemma_layout();
            lemma_image_put(v2, v3, heads.2.encode());
        }
        writer.put(&heads.3);
        let ghost v4 = *writer;
        proof {
            writer.lemma_bounds();
            T4::Ref::lemma_size();
            heads.3.lemma_layout();
            lemma_image_put(v3, v4, heads.3.encode());
        }
        writer.put(&heads.4);
        let ghost v5 = *writer;
        proof {
            writer.lemma_bounds();
            T5::Ref::lemma_size();
            heads.4.lemma_layout();
            lemma_image_put(v4, v5, heads.4.encode());
        }
        writer.put(&heads.5);
        let ghost v6 = *writer;
        proof {
            writer.lemma_bounds();
            T6::Ref::lemma_size();
            heads.5.lemma_layout();
            lemma_image_put(v5, v6, heads.5.encode());
        }
        writer.put(&heads.6);
        let ghost v7 = *writer;
        proof {
            writer.lemma_bounds();
            T7::Ref::lemma_size();
            heads.6.lemma_layout();
            lemma_image_put(v6, v7, heads.6.encode());
        }
        writer.put(&heads.7);
        let ghost v8 = *writer;
        proof {
            writer.lemma_bounds();
            T8::Ref::lemma_size();
            heads.7.lemma_layout();
            lemma_image_put(v7, v8, heads.7.encode());
        }
        writer.put(&heads.8);
        let ghost v9 = *writer;
        proof {
            writer.lemma_bounds();
            T9::Ref::lemma_size();
            heads.8.lemma_layout();
            lemma_image_put(v8, v9, heads.8.encode());
        }
        writer.put(&heads.9);
        let ghost v10 = *writer;
        proof {
            writer.lemma_bounds();
            T10::Ref::lemma_size();
            heads.9.lemma_layout();
            lemma_image_put(v9, v10, heads.9.encode());
        }
        writer.put(&heads.10);
        let ghost v11 = *writer;
        proof {
            writer.lemma_bounds();
            T11::Ref::lemma_size();
            heads.10.lemma_layout();
            lemma_image_put(v10, v11, heads.10.encode());
        }
        writer.put(&heads.11);
        let ghost v12 = *writer;
        proof {
            writer.lemma_bounds();
            T12::Ref::lemma_size();
            heads.11.lemma_layout();
            lemma_image_put(v11, v12, heads.11.encode());
        }
        proof {
            lemma_keeps_same(v12.arena(), v12.cursor());
            lemma_keeps_trans(v11.arena(), v12.arena(), v12.arena(), v11.cursor(), v12.cursor());
            lemma_keeps_trans(v10.arena(), v11.arena(), v12.arena(), v10.cursor(), v11.cursor());
            lemma_keeps_trans(v9.arena(), v10.arena(), v12.arena(), v9.cursor(), v10.cursor());
            lemma_keeps_trans(v8.arena(), v9.arena(), v12.arena(), v8.cursor(), v9.cursor());
            lemma_keeps_trans(v7.arena(), v8.arena(), v12.arena(), v7.cursor(), v8.cursor());
            lemma_keeps_trans(v6.arena(), v7.arena(), v12.arena(), v6.cursor(), v7.cursor());
            lemma_keeps_trans(v5.arena(), v6.arena(), v12.arena(), v5.cursor(), v6.cursor());
            lemma_keeps_trans(v4.arena(), v5.arena(), v12.arena(), v4.cursor(), v5.cursor());
            lemma_keeps_trans(v3.arena(), v4.arena(), v12.arena(), v3.cursor(), v4.cursor());
            lemma_keeps_trans(v2.arena(), v3.arena(), v12.arena(), v2.cursor(), v3.cursor());
            lemma_keeps_trans(v1.arena(), v2.arena(), v12.arena(), v1.cursor(), v2.cursor());
            lemma_keeps_trans(v0.arena(), v1.arena(), v12.arena(), v0.cursor(), v1.cursor());
            lemma_keeps_trans(w0.arena(), v0.arena(), v12.arena(), w0.cursor(), v0.cursor());
            lemma_view_stays(&self.0.0, heads.0, v0, v12, base + w0.cursor(), base + v0.cursor());
            self.0.0.lemma_widen(heads.0, v12.image(), base + w0.cursor(), base + v0.cursor(), base + w0.cursor(), base + v12.cursor(), false);
            lemma_head_put(self.0.0, heads.0, v0, v1, v12, ptr as int, base + w0.cursor(), base + v12.cursor());
            lemma_view_stays(&self.0.1, heads.1, v0, v12, base + w0.cursor(), base + v0.cursor());
            self.0.1.lemma_widen(heads.1, v12.image(), base + w0.cursor(), base + v0.cursor(), base + w0.cursor(), base + v12.cursor(), false);
            lemma_head_put(self.0.1, heads.1, v1, v2, v12, ptr as int + T1::Ref::size(), base + w0.cursor(), base + v12.cursor());
            lemma_view_stays(&self.0.2, heads.2, v0, v12, base + w0.cursor(), base + v0.cursor());
            self.0.2.lemma_widen(heads.2, v12.image(), base + w0.cursor(), base + v0.cursor(), base + w0.cursor(), base + v12.cursor(), false);
            lemma_head_put(self.0.2, heads.2, v2, v3, v12, ptr as int + T1::Ref::size() + T2::Ref::size(), base + w0.cursor(), base + v12.cursor());
            lemma_view_stays(&self.0.3, heads.3, v0, v12, base + w0.cursor(), base + v0.cursor());
            self.0.3.lemma_widen(heads.3, v12.image(), base + w0.cursor(), base + v0.cursor(), base + w0.cursor(), base + v12.cursor(), false);
            lemma_head_put(self.0.3, heads.3, v3, v4, v12, ptr as int + T1::Ref::size() + T2::Ref::size() + T3::Ref::size(), base + w0.cursor(), base + v12.cursor());
            lemma_view_stays(&self.0.4, heads.4, v0, v12, base + w0.cursor(), base + v0.cursor());
            self.0.4.lemma_widen(heads.4, v12.image(), base + w0.cursor(), base + v0.cursor(), base + w0.cursor(), base + v12.cursor(), false);
            lemma_head_put(self.0.4, heads.4, v4, v5, v12, ptr as int + T1::Ref::size() + T2::Ref::size() + T3::Ref::size() + T4::Ref::size(), base + w0.cursor(), base + v12.cursor());
            lemma_view_stays(&self.0.5, heads.5, v0, v12, base + w0.cursor(), base + v0.cursor());
            self.0.5.lemma_widen(heads.5, v12.image(), base + w0.cursor(), base + v0.cursor(), base + w0.cursor(), base + v12.cursor(), false);
            lemma_head_put(self.0.5, heads.5, v5, v6, v12, ptr as int + T1::Ref::size() + T2::Ref::size() + T3::Ref::size() + T4::Ref::size() + T5::Ref::size(), base + w0.cursor(), base + v12.cursor());
            lemma_view_stays(&self.0.6, heads.6, v0, v12, base + w0.cursor(), base + v0.cursor());
            self.0.6.lemma_widen(heads.6, v12.image(), base + w0.cursor(), base + v0.cursor(), base + w0.cursor(), base + v12.cursor(), false);
            lemma_head_put(self.0.6, heads.6, v6, v7, v12, ptr as int + T1::Ref::size() + T2::Ref::size() + T3::Ref::size() + T4::Ref::size() + T5::Ref::size() + T6::Ref::size(), base + w0.cursor(), base + v12.cursor());
            lemma_view_stays(&self.0.7, heads.7, v0, v12, base + w0.cursor(), base + v0.cursor());
            self.0.7.lemma_widen(heads.7, v12.image(), base + w0.cursor(), base + v0.cursor(), base + w0.cursor(), base + v12.cursor(), false);
            lemma_head_put(self.0.7, heads.7, v7, v8, v12, ptr as int + T1::Ref::size() + T2::Ref::size() + T3::Ref::size() + T4::Ref::size() + T5::Ref::size() + T6::Ref::size() + T7::Ref::size(), base + w0.cursor(), base + v12.cursor());
            lemma_view_stays(&self.0.8, heads.8, v0, v12, base + w0.cursor(), base + v0.cursor());
            self.0.8.lemma_widen(heads.8, v12.image(), base + w0.cursor(), base + v0.cursor(), base + w0.cursor(), base + v12.cursor(), false);
            lemma_head_put(self.0.8, heads.8, v8, v9, v12, ptr as int + T1::Ref::size() + T2::Ref::size() + T3::Ref::size() + T4::Ref::size() + T5::Ref::size() + T6::Ref::size() + T7::Ref::size() + T8::Ref::size(), base + w0.cursor(), base + v12.cursor());
            lemma_view_stays(&self.0.9, heads.9, v0, v12, base + w0.cursor(), base + v0.cursor());
            self.0.9.lemma_widen(heads.9, v12.image(), base + w0.cursor(), base + v0.cursor(), base + w0.cursor(), base + v12.cursor(), false);
            lemma_head_put(self.0.9, heads.9, v9, v10, v12, ptr as int + T1::Ref::size() + T2::Ref::size() + T3::Ref::size() + T4::Ref::size() + T5::Ref::size() + T6::Ref::size() + T7::Ref::size() + T8::Ref::size() + T9::Ref::size(), base + w0.cursor(), base + v12.cursor());
            lemma_view_stays(&self.0.10, heads.10, v0, v12, base + w0.cursor(), base + v0.cursor());
            self.0.10.lemma_widen(heads.10, v12.image(), base + w0.cursor(), base + v0.cursor(), base + w0.cursor(), base + v12.cursor(), false);
            lemma_head_put(self.0.10, heads.10, v10, v11, v12, ptr as int + T1::Ref::size() + T2::Ref::size() + T3::Ref::size() + T4::Ref::size() + T5::Ref::size() + T6::Ref::size() + T7::Ref::size() + T8::Ref::size() + T9::Ref::size() + T10::Ref::size(), base + w0.cursor(), base + v12.cursor());
            lemma_view_stays(&self.0.11, heads.11, v0, v12, base + w0.cursor(), base + v0.cursor());
            self.0.11.lemma_widen(heads.11, v12.image(), base + w0.cursor(), base + v0.cursor(), base + w0.cursor(), base + v12.cursor(), false);
            lemma_head_put(self.0.11, heads.11, v11, v12, v12, ptr as int + T1::Ref::size() + T2::Ref::size() + T3::Ref::size() + T4::Ref::size() + T5::Ref::size() + T6::Ref::size() + T7::Ref::size() + T8::Ref::size() + T9::Ref::size() + T10::Ref::size() + T11::Ref::size(), base + w0.cursor(), base + v12.cursor());
        }
        ptr
    }

    fn pinned<M: MemoryRead>(&self, r: &usize, mem: &M, out: &mut Vec<Segment>) {
        let mut addr: usize = *r;
        match mem.read(addr, T1::Ref::size_of()) {
            Some(bytes) => {
                let head = T1::Ref::from_bytes(&bytes);
                self.0.0.pinned(&head, mem, out);
            },
            None => {
                assert(false);
                return ;
            },
        }
        addr = addr + T1::Ref::size_of();
        match mem.read(addr, T2::Ref::size_of()) {
            Some(bytes) => {
                let head = T2::Ref::from_bytes(&bytes);
                self.0.1.pinned(&head, mem, out);
            },
            None => {
                assert(false);
                return ;
            },
        }
        addr = addr + T2::Ref::size_of();
        match mem.read(addr, T3::Ref::size_of()) {
            Some(bytes) => {
                let head = T3::Ref::from_bytes(&bytes);
                self.0.2.pinned(&head, mem, out);
            },
            None => {
                assert(false);
                return ;
            },
        }
        addr = addr + T3::Ref::size_of();
        match mem.read(addr, T4::Ref::size_of()) {
            Some(bytes) => {
                let head = T4::Ref::from_bytes(&bytes);
                self.0.3.pinned(&head, mem, out);
            },
            None => {
                assert(false);
                return ;
            },
        }
        addr = addr + T4::Ref::size_of();
        match mem.read(addr, T5::Ref::size_of()) {
            Some(bytes) => {
                let head = T5::Ref::from_bytes(&bytes);
                self.0.4.pinned(&head, mem, out);
            },
            None => {
                assert(false);
                return ;
            },
        }
        addr = addr + T5::Ref::size_of();
        match mem.read(addr, T6::Ref::size_of()) {
            Some(bytes) => {
                let head = T6::Ref::from_bytes(&bytes);
                self.0.5.pinned(&head, mem, out);
            },
            None => {
                assert(false);
                return ;
            },
        }
        addr = addr + T6::Ref::size_of();
        match mem.read(addr, T7::Ref::size_of()) {
            Some(bytes) => {
                let head = T7::Ref::from_bytes(&bytes);
                self.0.6.pinned(&head, mem, out);
            },
            None => {
                assert(false);
                return ;
            },
        }
        addr = addr + T7::Ref::size_of();
        match mem.read(addr, T8::Ref::size_of()) {
            Some(bytes) => {
                let head = T8::Ref::from_bytes(&bytes);
                self.0.7.pinned(&head, mem, out);
            },
            None => {
                assert(false);
                return ;
            },
        }
        addr = addr + T8::Ref::size_of();
        match mem.read(addr, T9::Ref::size_of()) {
            Some(bytes) => {
                let head = T9::Ref::from_bytes(&bytes);
                self.0.8.pinned(&head, mem, out);
            },
            None => {
                assert(false);
                return ;
            },
        }
        addr = addr + T9::Ref::size_of();
        match mem.read(addr, T10::Ref::size_of()) {
            Some(bytes) => {
                let head = T10::Ref::from_bytes(&bytes);
                self.0.9.pinned(&head, mem, out);
            },
            None => {
                assert(false);
                return ;
            },
        }
        addr = addr + T10::Ref::size_of();
        match mem.read(addr, T11::Ref::size_of()) {
            Some(bytes) => {
                let head = T11::Ref::from_bytes(&bytes);
                self.0.10.pinned(&head, mem, out);
            },
            None => {
                assert(false);
                return ;
            },
        }
        addr = addr + T11::Ref::size_of();
        match mem.read(addr, T12::Ref::size_of()) {
            Some(bytes) => {
                let head = T12::Ref::from_bytes(&bytes);
                self.0.11.pinned(&head, mem, out);
            },
            None => {
                assert(false);
                return ;
            },
        }
        addr = addr + T12::Ref::size_of();
        assert(pieces_of(out@) =~= pieces_of(old(out)@) + self.pins(*r, mem.image()));
    }
}

impl<T1: FromRef, T2: FromRef, T3: FromRef, T4: FromRef, T5: FromRef, T6: FromRef, T7: FromRef, T8: FromRef, T9: FromRef, T10: FromRef, T11: FromRef, T12: FromRef> FromRef for CopyStruct<(T1, T2, T3, T4, T5, T6, T7, T8, T9, T10, T11, T12)> where <T1 as ToRef>::Ref: Pod, <T2 as ToRef>::Ref: Pod, <T3 as ToRef>::Ref: Pod, <T4 as ToRef>::Ref: Pod, <T5 as ToRef>::Ref: Pod, <T6 as ToRef>::Ref: Pod, <T7 as ToRef>::Ref: Pod, <T8 as ToRef>::Ref: Pod, <T9 as ToRef>::Ref: Pod, <T10 as ToRef>::Ref: Pod, <T11 as ToRef>::Ref: Pod, <T12 as ToRef>::Ref: Pod {
    open spec fn decoded(r: usize, img: Image) -> Option<(<T1 as DeepView>::V, <T2 as DeepView>::V, <T3 as DeepView>::V, <T4 as DeepView>::V, <T5 as DeepView>::V, <T6 as DeepView>::V, <T7 as DeepView>::V, <T8 as DeepView>::V, <T9 as DeepView>::V, <T10 as DeepView>::V, <T11 as DeepView>::V, <T12 as DeepView>::V)> {
        if r + <T1 as ToRef>::Ref::size() + <T2 as ToRef>::Ref::size() + <T3 as ToRef>::Ref::size() + <T4 as ToRef>::Ref::size() + <T5 as ToRef>::Ref::size() + <T6 as ToRef>::Ref::size() + <T7 as ToRef>::Ref::size() + <T8 as ToRef>::Ref::size() + <T9 as ToRef>::Ref::size() + <T10 as ToRef>::Ref::size() + <T11 as ToRef>::Ref::size() + <T12 as ToRef>::Ref::size() > usize::MAX {
            None
        } else {
            match (head_decoded::<T1>(r as int, img), head_decoded::<T2>(r as int + <T1 as ToRef>::Ref::size(), img), head_decoded::<T3>(r as int + <T1 as ToRef>::Ref::size() + <T2 as ToRef>::Ref::size(), img), head_decoded::<T4>(r as int + <T1 as ToRef>::Ref::size() + <T2 as ToRef>::Ref::size() + <T3 as ToRef>::Ref::size(), img), head_decoded::<T5>(r as int + <T1 as ToRef>::Ref::size() + <T2 as ToRef>::Ref::size() + <T3 as ToRef>::Ref::size() + <T4 as ToRef>::Ref::size(), img), head_decoded::<T6>(r as int + <T1 as ToRef>::Ref::size() + <T2 as ToRef>::Ref::size() + <T3 as ToRef>::Ref::size() + <T4 as ToRef>::Ref::size() + <T5 as ToRef>::Ref::size(), img), head_decoded::<T7>(r as int + <T1 as ToRef>::Ref::size() + <T2 as ToRef>::Ref::size() + <T3 as ToRef>::Ref::size() + <T4 as ToRef>::Ref::size() + <T5 as ToRef>::Ref::size() + <T6 as ToRef>::Ref::size(), img), head_decoded::<T8>(r as int + <T1 as ToRef>::Ref::size() + <T2 as ToRef>::Ref::size() + <T3 as ToRef>::Ref::size() + <T4 as ToRef>::Ref::size() + <T5 as ToRef>::Ref::size() + <T6 as ToRef>::Ref::size() + <T7 as ToRef>::Ref::size(), img), head_decoded::<T9>(r as int + <T1 as ToRef>::Ref::size() + <T2 as ToRef>::Ref::size() + <T3 as ToRef>::Ref::size() + <T4 as ToRef>::Ref::size() + <T5 as ToRef>::Ref::size() + <T6 as ToRef>::Ref::size() + <T7 as ToRef>::Ref::size() + <T8 as ToRef>::Ref::size(), img), head_decoded::<T10>(r as int + <T1 as ToRef>::Ref::size() + <T2 as ToRef>::Ref::size() + <T3 as ToRef>::Ref::size() + <T4 as ToRef>::Ref::size() + <T5 as ToRef>::Ref::size() + <T6 as ToRef>::Ref::size() + <T7 as ToRef>::Ref::size() + <T8 as ToRef>::Ref::size() + <T9 as ToRef>::Ref::size(), img), head_decoded::<T11>(r as int + <T1 as ToRef>::Ref::size() + <T2 as ToRef>::Ref::size() + <T3 as ToRef>::Ref::size() + <T4 as ToRef>::Ref::size() + <T5 as ToRef>::Ref::size() + <T6 as ToRef>::Ref::size() + <T7 as ToRef>::Ref::size() + <T8 as ToRef>::Ref::size() + <T9 as ToRef>::Ref::size() + <T10 as ToRef>::Ref::size(), img), head_decoded::<T12>(r as int + <T1 as ToRef>::Ref::size() + <T2 as ToRef>::Ref::size() + <T3 as ToRef>::Ref::size() + <T4 as ToRef>::Ref::size() + <T5 as ToRef>::Ref::size() + <T6 as ToRef>::Ref::size() + <T7 as ToRef>::Ref::size() + <T8 as ToRef>::Ref::size() + <T9 as ToRef>::Ref::size() + <T10 as ToRef>::Ref::size() + <T11 as ToRef>::Ref::size(), img)) {
                (Some(v0), Some(v1), Some(v2), Some(v3), Some(v4), Some(v5), Some(v6), Some(v7), Some(v8), Some(v9), Some(v10), Some(v11)) => Some((v0, v1, v2, v3, v4, v5, v6, v7, v8, v9, v10, v11)),
                _ => None,
            }
        }
    }

    proof fn lemma_round_trip(&self, r: usize, img: Image, lo: int, hi: int) {
        match head_at::<<T1 as ToRef>::Ref>(img, r as int) {
            Some(head) => {
                self.0.0.lemma_round_trip(head, img, lo, hi);
            },
            None => {},
        }
        match head_at::<<T2 as ToRef>::Ref>(img, r as int + <T1 as ToRef>::Ref::size()) {
            Some(head) => {
                self.0.1.lemma_round_trip(head, img, lo, hi);
            },
            None => {},
        }
        match head_at::<<T3 as ToRef>::Ref>(img, r as int + <T1 as ToRef>::Ref::size() + <T2 as ToRef>::Ref::size()) {
            Some(head) => {
                self.0.2.lemma_round_trip(head, img, lo, hi);
            },
            None => {},
        }
        match head_at::<<T4 as ToRef>::Ref>(img, r as int + <T1 as ToRef>::Ref::size() + <T2 as ToRef>::Ref::size() + <T3 as ToRef>::Ref::size()) {
            Some(head) => {
                self.0.3.lemma_round_trip(head, img, lo, hi);
            },
            None => {},
        }
        match head_at::<<T5 as ToRef>::Ref>(img, r as int + <T1 as ToRef>::Ref::size() + <T2 as ToRef>::Ref::size() + <T3 as ToRef>::Ref::size() + <T4 as ToRef>::Ref::size()) {
            Some(head) => {
                self.0.4.lemma_round_trip(head, img, lo, hi);
            },
            None => {},
        }
        match head_at::<<T6 as ToRef>::Ref>(img, r as int + <T1 as ToRef>::Ref::size() + <T2 as ToRef>::Ref::size() + <T3 as ToRef>::Ref::size() + <T4 as ToRef>::Ref::size() + <T5 as ToRef>::Ref::size()) {
            Some(head) => {
                self.0.5.lemma_round_trip(head, img, lo, hi);
            },
            None => {},
        }
        match head_at::<<T7 as ToRef>::Ref>(img, r as int + <T1 as ToRef>::Ref::size() + <T2 as ToRef>::Ref::size() + <T3 as ToRef>::Ref::size() + <T4 as ToRef>::Ref::size() + <T5 as ToRef>::Ref::size() + <T6 as ToRef>::Ref::size()) {
            Some(head) => {
                self.0.6.lemma_round_trip(head, img, lo, hi);
            },
            None => {},
        }
        match head_at::<<T8 as ToRef>::Ref>(img, r as int + <T1 as ToRef>::Ref::size() + <T2 as ToRef>::Ref::size() + <T3 as ToRef>::Ref::size() + <T4 as ToRef>::Ref::size() + <T5 as ToRef>::Ref::size() + <T6 as ToRef>::Ref::size() + <T7 as ToRef>::Ref::size()) {
            Some(head) => {
                self.0.7.lemma_round_trip(head, img, lo, hi);
            },
            None => {},
        }
        match head_at::<<T9 as ToRef>::Ref>(img, r as int + <T1 as ToRef>::Ref::size() + <T2 as ToRef>::Ref::size() + <T3 as ToRef>::Ref::size() + <T4 as ToRef>::Ref::size() + <T5 as ToRef>::Ref::size() + <T6 as ToRef>::Ref::size() + <T7 as ToRef>::Ref::size() + <T8 as ToRef>::Ref::size()) {
            Some(head) => {
                self.0.8.lemma_round_trip(head, img, lo, hi);
            },
            None => {},
        }
        match head_at::<<T10 as ToRef>::Ref>(img, r as int + <T1 as ToRef>::Ref::size() + <T2 as ToRef>::Ref::size() + <T3 as ToRef>::Ref::size() + <T4 as ToRef>::Ref::size() + <T5 as ToRef>::Ref::size() + <T6 as ToRef>::Ref::size() + <T7 as ToRef>::Ref::size() + <T8 as ToRef>::Ref::size() + <T9 as ToRef>::Ref::size()) {
            Some(head) => {
                self.0.9.lemma_round_trip(head, img, lo, hi);
            },
            None => {},
        }
        match head_at::<<T11 as ToRef>::Ref>(img, r as int + <T1 as ToRef>::Ref::size() + <T2 as ToRef>::Ref::size() + <T3 as ToRef>::Ref::size() + <T4 as ToRef>::Ref::size() + <T5 as ToRef>::Ref::size() + <T6 as ToRef>::Ref::size() + <T7 as ToRef>::Ref::size() + <T8 as ToRef>::Ref::size() + <T9 as ToRef>::Ref::size() + <T10 as ToRef>::Ref::size()) {
            Some(head) => {
                self.0.10.lemma_round_trip(head, img, lo, hi);
            },
            None => {},
        }
        match head_at::<<T12 as ToRef>::Ref>(img, r as int + <T1 as ToRef>::Ref::size() + <T2 as ToRef>::Ref::size() + <T3 as ToRef>::Ref::size() + <T4 as ToRef>::Ref::size() + <T5 as ToRef>::Ref::size() + <T6 as ToRef>::Ref::size() + <T7 as ToRef>::Ref::size() + <T8 as ToRef>::Ref::size() + <T9 as ToRef>::Ref::size() + <T10 as ToRef>::Ref::size() + <T11 as ToRef>::Ref::size()) {
            Some(head) => {
                self.0.11.lemma_round_trip(head, img, lo, hi);
            },
            None => {},
        }
    }

    fn from_ref<M: MemoryRead>(r: &usize, mem: &M) -> (o: Option<Self>) {
        let mut addr: usize = *r;
        let size0 = <T1 as ToRef>::Ref::size_of();
        if size0 > usize::MAX - addr {
            return None;
        }
        let start0 = addr;
        addr = addr + size0;
        let size1 = <T2 as ToRef>::Ref::size_of();
        if size1 > usize::MAX - addr {
            return None;
        }
        let start1 = addr;
        addr = addr + size1;
        let size2 = <T3 as ToRef>::Ref::size_of();
        if size2 > usize::MAX - addr {
            return None;
        }
        let start2 = addr;
        addr = addr + size2;
        let size3 = <T4 as ToRef>::Ref::size_of();
        if size3 > usize::MAX - addr {
            return None;
        }
        let start3 = addr;
        addr = addr + size3;
        let size4 = <T5 as ToRef>::Ref::size_of();
        if size4 > usize::MAX - addr {
            return None;
        }
        let start4 = addr;
        addr = addr + size4;
        let size5 = <T6 as ToRef>::Ref::size_of();
        if size5 > usize::MAX - addr {
            return None;
        }
        let start5 = addr;
        addr = addr + size5;
        let size6 = <T7 as ToRef>::Ref::size_of();
        if size6 > usize::MAX - addr {
            return None;
        }
        let start6 = addr;
        addr = addr + size6;
        let size7 = <T8 as ToRef>::Ref::size_of();
        if size7 > usize::MAX - addr {
            return None;
        }
        let start7 = addr;
        addr = addr + size7;
        let size8 = <T9 as ToRef>::Ref::size_of();
        if size8 > usize::MAX - addr {
            return None;
        }
        let start8 = addr;
        addr = addr + size8;
        let size9 = <T10 as ToRef>::Ref::size_of();
        if size9 > usize::MAX - addr {
            return None;
        }
        let start9 = addr;
        addr = addr + size9;
        let size10 = <T11 as ToRef>::Ref::size_of();
        if size10 > usize::MAX - addr {
            return None;
        }
        let start10 = addr;
        addr = addr + size10;
        let size11 = <T12 as ToRef>::Ref::size_of();
        if size11 > usize::MAX - addr {
            return None;
        }
        let start11 = addr;
        addr = addr + size11;
        let v0 = match mem.read(start0, size0) {
            Some(bytes) => {
                let head = <T1 as ToRef>::Ref::from_bytes(&bytes);
                match <T1 as FromRef>::from_ref(&head, mem) {
                    Some(v) => v,
                    None => {
                        return None;
                    },
                }
            },
            None => {
                return None;
            },
        };
        let v1 = match mem.read(start1, size1) {
            Some(bytes) => {
                let head = <T2 as ToRef>::Ref::from_bytes(&bytes);
                match <T2 as FromRef>::from_ref(&head, mem) {
                    Some(v) => v,
                    None => {
                        return None;
                    },
                }
            },
            None => {
                return None;
            },
        };
        let v2 = match mem.read(start2, size2) {
            Some(bytes) => {
                let head = <T3 as ToRef>::Ref::from_bytes(&bytes);
                match <T3 as FromRef>::from_ref(&head, mem) {
                    Some(v) => v,
                    None => {
                        return None;
                    },
                }
            },
            None => {
                return None;
            },
        };
        let v3 = match mem.read(start3, size3) {
            Some(bytes) => {
                let head = <T4 as ToRef>::Ref::from_bytes(&bytes);
                match <T4 as FromRef>::from_ref(&head, mem) {
                    Some(v) => v,
                    None => {
                        return None;
                    },
                }
            },
            None => {
                return None;
            },
        };
        let v4 = match mem.read(start4, size4) {
            Some(bytes) => {
                let head = <T5 as ToRef>::Ref::from_bytes(&bytes);
                match <T5 as FromRef>::from_ref(&head, mem) {
                    Some(v) => v,
                    None => {
                        return None;
                    },
                }
            },
            None => {
                return None;
            },
        };
        let v5 = match mem.read(start5, size5) {
            Some(bytes) => {
                let head = <T6 as ToRef>::Ref::from_bytes(&bytes);
                match <T6 as FromRef>::from_ref(&head, mem) {
                    Some(v) => v,
                    None => {
                        return None;
                    },
                }
            },
            None => {
                return None;
            },
        };
        let v6 = match mem.read(start6, size6) {
            Some(bytes) => {
                let head = <T7 as ToRef>::Ref::from_bytes(&bytes);
                match <T7 as FromRef>::from_ref(&head, mem) {
                    Some(v) => v,
                    None => {
                        return None;
                    },
                }
            },
            None => {
                return None;
            },
        };
        let v7 = match mem.read(start7, size7) {
            Some(bytes) => {
                let head = <T8 as ToRef>::Ref::from_bytes(&bytes);
                match <T8 as FromRef>::from_ref(&head, mem) {
                    Some(v) => v,
                    None => {
                        return None;
                    },
                }
            },
            None => {
                return None;
            },
        };
        let v8 = match mem.read(start8, size8) {
            Some(bytes) => {
                let head = <T9 as ToRef>::Ref::from_bytes(&bytes);
                match <T9 as FromRef>::from_ref(&head, mem) {
                    Some(v) => v,
                    None => {
                        return None;
                    },
                }
            },
            None => {
                return None;
            },
        };
        let v9 = match mem.read(start9, size9) {
            Some(bytes) => {
                let head = <T10 as ToRef>::Ref::from_bytes(&bytes);
                match <T10 as FromRef>::from_ref(&head, mem) {
                    Some(v) => v,
                    None => {
                        return None;
                    },
                }
            },
            None => {
                return None;
            },
        };
        let v10 = match mem.read(start10, size10) {
            Some(bytes) => {
                let head = <T11 as ToRef>::Ref::from_bytes(&bytes);
                match <T11 as FromRef>::from_ref(&head, mem) {
                    Some(v) => v,
                    None => {
                        return None;
                    },
                }
            },
            None => {
                return None;
            },
        };
        let v11 = match mem.read(start11, size11) {
            Some(bytes) => {
                let head = <T12 as ToRef>::Ref::from_bytes(&bytes);
                match <T12 as FromRef>::from_ref(&head, mem) {
                    Some(v) => v,
                    None => {
                        return None;
                    },
                }
            },
            None => {
                return None;
            },
        };
        Some(CopyStruct((v0, v1, v2, v3, v4, v5, v6, v7, v8, v9, v10, v11)))
    }
}

impl<T1: ToRef, T2: ToRef, T3: ToRef, T4: ToRef, T5: ToRef, T6: ToRef, T7: ToRef, T8: ToRef, T9: ToRef, T10: ToRef, T11: ToRef, T12: ToRef, T13: ToRef> ToRef for CopyStruct<(T1, T2, T3, T4, T5, T6, T7, T8, T9, T10, T11, T12, T13)> where T1::Ref: Pod, T2::Ref: Pod, T3::Ref: Pod, T4::Ref: Pod, T5::Ref: Pod, T6::Ref: Pod, T7::Ref: Pod, T8::Ref: Pod, T9::Ref: Pod, T10::Ref: Pod, T11::Ref: Pod, T12::Ref: Pod, T13::Ref: Pod {
    type Ref = usize;

    open spec fn mem_type() -> MemType {
        MemType::Complex
    }

    open spec fn size(&self) -> nat {
        self.0.size() + T1::Ref::size() + T2::Ref::size() + T3::Ref::size() + T4::Ref::size() + T5::Ref::size() + T6::Ref::size() + T7::Ref::size() + T8::Ref::size() + T9::Ref::size() + T10::Ref::size() + T11::Ref::size() + T12::Ref::size() + T13::Ref::size()
    }

    open spec fn views(&self, r: usize, img: Image, lo: int, hi: int, deep: bool) -> bool {
        &&& r + T1::Ref::size() + T2::Ref::size() + T3::Ref::size() + T4::Ref::size() + T5::Ref::size() + T6::Ref::size() + T7::Ref::size() + T8::Ref::size() + T9::Ref::size() + T10::Ref::size() + T11::Ref::size() + T12::Ref::size() + T13::Ref::size() <= usize::MAX
        &&& T1::Ref::size() + T2::Ref::size() + T3::Ref::size() + T4::Ref::size() + T5::Ref::size() + T6::Ref::size() + T7::Ref::size() + T8::Ref::size() + T9::Ref::size() + T10::Ref::size() + T11::Ref::size() + T12::Ref::size() + T13::Ref::size() > 0 ==> lo <= r && r + T1::Ref::size() + T2::Ref::size() + T3::Ref::size() + T4::Ref::size() + T5::Ref::size() + T6::Ref::size() + T7::Ref::size() + T8::Ref::size() + T9::Ref::size() + T10::Ref::size() + T11::Ref::size() + T12::Ref::size() + T13::Ref::size() <= hi
        &&& head_views(self.0.0, r as int, img, lo, hi, deep)
        &&& head_views(self.0.1, r as int + T1::Ref::size(), img, lo, hi, deep)
        &&& head_views(self.0.2, r as int + T1::Ref::size() + T2::Ref::size(), img, lo, hi, deep)
        &&& head_views(self.0.3, r as int + T1::Ref::size() + T2::Ref::size() + T3::Ref::size(), img, lo, hi, deep)
        &&& head_views(self.0.4, r as int + T1::Ref::size() + T2::Ref::size() + T3::Ref::size() + T4::Ref::size(), img, lo, hi, deep)
        &&& head_views(self.0.5, r as int + T1::Ref::size() + T2::Ref::size() + T3::Ref::size() + T4::Ref::size() + T5::Ref::size(), img, lo, hi, deep)
        &&& head_views(self.0.6, r as int + T1::Ref::size() + T2::Ref::size() + T3::Ref::size() + T4::Ref::size() + T5::Ref::size() + T6::Ref::size(), img, lo, hi, deep)
        &&& head_views(self.0.7, r as int + T1::Ref::size() + T2::Ref::size() + T3::Ref::size() + T4::Ref::size() + T5::Ref::size() + T6::Ref::size() + T7::Ref::size(), img, lo, hi, deep)
        &&& head_views(self.0.8, r as int + T1::Ref::size() + T2::Ref::size() + T3::Ref::size() + T4::Ref::size() + T5::Ref::size() + T6::Ref::size() + T7::Ref::size() + T8::Ref::size(), img, lo, hi, deep)
        &&& head_views(self.0.9, r as int + T1::Ref::size() + T2::Ref::size() + T3::Ref::size() + T4::Ref::size() + T5::Ref::size() + T6::Ref::size() + T7::Ref::size() + T8::Ref::size() + T9::Ref::size(), img, lo, hi, deep)
        &&& head_views(self.0.10, r as int + T1::Ref::size() + T2::Ref::size() + T3::Ref::size() + T4::Ref::size() + T5::Ref::size() + T6::Ref::size() + T7::Ref::size() + T8::Ref::size() + T9::Ref::size() + T10::Ref::size(), img, lo, hi, deep)
        &&& head_views(self.0.11, r as int + T1::Ref::size() + T2::Ref::size() + T3::Ref::size() + T4::Ref::size() + T5::Ref::size() + T6::Ref::size() + T7::Ref::size() + T8::Ref::size() + T9::Ref::size() + T10::Ref::size() + T11::Ref::size(), img, lo, hi, deep)
        &&& head_views(self.0.12, r as int + T1::Ref::size() + T2::Ref::size() + T3::Ref::size() + T4::Ref::size() + T5::Ref::size() + T6::Ref::size() + T7::Ref::size() + T8::Ref::size() + T9::Ref::size() + T10::Ref::size() + T11::Ref::size() + T12::Ref::size(), img, lo, hi, deep)
    }

    open spec fn flat(&self) -> usize {
        0
    }

    open spec fn pins(&self, r: usize, img: Image) -> Seq<Piece> {
        head_pins(self.0.0, r as int, img) + head_pins(self.0.1, r as int + T1::Ref::size(), img) + head_pins(self.0.2, r as int + T1::Ref::size() + T2::Ref::size(), img) + head_pins(self.0.3, r as int + T1::Ref::size() + T2::Ref::size() + T3::Ref::size(), img) + head_pins(self.0.4, r as int + T1::Ref::size() + T2::Ref::size() + T3::Ref::size() + T4::Ref::size(), img) + head_pins(self.0.5, r as int + T1::Ref::size() + T2::Ref::size() + T3::Ref::size() + T4::Ref::size() + T5::Ref::size(), img) + head_pins(self.0.6, r as int + T1::Ref::size() + T2::Ref::size() + T3::Ref::size() + T4::Ref::size() + T5::Ref::size() + T6::Ref::size(), img) + head_pins(self.0.7, r as int + T1::Ref::size() + T2::Ref::size() + T3::Ref::size() + T4::Ref::size() + T5::Ref::size() + T6::Ref::size() + T7::Ref::size(), img) + head_pins(self.0.8, r as int + T1::Ref::size() + T2::Ref::size() + T3::Ref::size() + T4::Ref::size() + T5::Ref::size() + T6::Ref::size() + T7::Ref::size() + T8::Ref::size(), img) + head_pins(self.0.9, r as int + T1::Ref::size() + T2::Ref::size() + T3::Ref::size() + T4::Ref::size() + T5::Ref::size() + T6::Ref::size() + T7::Ref::size() + T8::Ref::size() + T9::Ref::size(), img) + head_pins(self.0.10, r as int + T1::Ref::size() + T2::Ref::size() + T3::Ref::size() + T4::Ref::size() + T5::Ref::size() + T6::Ref::size() + T7::Ref::size() + T8::Ref::size() + T9::Ref::size() + T10::Ref::size(), img) + head_pins(self.0.11, r as int + T1::Ref::size() + T2::Ref::size() + T3::Ref::size() + T4::Ref::size() + T5::Ref::size() + T6::Ref::size() + T7::Ref::size() + T8::Ref::size() + T9::Ref::size() + T10::Ref::size() + T11::Ref::size(), img) + head_pins(self.0.12, r as int + T1::Ref::size() + T2::Ref::size() + T3::Ref::size() + T4::Ref::size() + T5::Ref::size() + T6::Ref::size() + T7::Ref::size() + T8::Ref::size() + T9::Ref::size() + T10::Ref::size() + T11::Ref::size() + T12::Ref::size(), img)
    }

    proof fn lemma_flat(&self) {
    }

    proof fn lemma_primitive(&self, r: usize, img: Image, lo: int, hi: int, deep: bool) {
    }

    proof fn lemma_deepen(&self, r: usize, img: Image, other: Image, lo: int, hi: int) {
        lemma_holds_all_concat(other, head_pins(self.0.0, r as int, img) + head_pins(self.0.1, r as int + T1::Ref::size(), img) + head_pins(self.0.2, r as int + T1::Ref::size() + T2::Ref::size(), img) + head_pins(self.0.3, r as int + T1::Ref::size() + T2::Ref::size() + T3::Ref::size(), img) + head_pins(self.0.4, r as int + T1::Ref::size() + T2::Ref::size() + T3::Ref::size() + T4::Ref::size(), img) + head_pins(self.0.5, r as int + T1::Ref::size() + T2::Ref::size() + T3::Ref::size() + T4::Ref::size() + T5::Ref::size(), img) + head_pins(self.0.6, r as int + T1::Ref::size() + T2::Ref::size() + T3::Ref::size() + T4::Ref::size() + T5::Ref::size() + T6::Ref::size(), img) + head_pins(self.0.7, r as int + T1::Ref::size() + T2::Ref::size() + T3::Ref::size() + T4::Ref::size() + T5::Ref::size() + T6::Ref::size() + T7::Ref::size(), img) + head_pins(self.0.8, r as int + T1::Ref::size() + T2::Ref::size() + T3::Ref::size() + T4::Ref::size() + T5::Ref::size() + T6::Ref::size() + T7::Ref::size() + T8::Ref::size(), img) + head_pins(self.0.9, r as int + T1::Ref::size() + T2::Ref::size() + T3::Ref::size() + T4::Ref::size() + T5::Ref::size() + T6::Ref::size() + T7::Ref::size() + T8::Ref::size() + T9::Ref::size(), img) + head_pins(self.0.10, r as int + T1::Ref::size() + T2::Ref::size() + T3::Ref::size() + T4::Ref::size() + T5::Ref::size() + T6::Ref::size() + T7::Ref::size() + T8::Ref::size() + T9::Ref::size() + T10::Ref::size(), img) + head_pins(self.0.11, r as int + T1::Ref::size() + T2::Ref::size() + T3::Ref::size() + T4::Ref::size() + T5::Ref::size() + T6::Ref::size() + T7::Ref::size() + T8::Ref::size() + T9::Ref::size() + T10::Ref::size() + T11::Ref::size(), img), head_pins(self.0.12, r as int + T1::Ref::size() + T2::Ref::size() + T3::Ref::size() + T4::Ref::size() + T5::Ref::size() + T6::Ref::size() + T7::Ref::size() + T8::Ref::size() + T9::Ref::size() + T10::Ref::size() + T11::Ref::size() + T12::Ref::size(), img));
        lemma_holds_all_concat(other, head_pins(self.0.0, r as int, img) + head_pins(self.0.1, r as int + T1::Ref::size(), img) + head_pins(self.0.2, r as int + T1::Ref::size() + T2::Ref::size(), img) + head_pins(self.0.3, r as int + T1::Ref::size() + T2::Ref::size() + T3::Ref::size(), img) + head_pins(self.0.4, r as int + T1::Ref::size() + T2::Ref::size() + T3::Ref::size() + T4::Ref::size(), img) + head_pins(self.0.5, r as int + T1::Ref::size() + T2::Ref::size() + T3::Ref::size() + T4::Ref::size() + T5::Ref::size(), img) + head_pins(self.0.6, r as int + T1::Ref::size() + T2::Ref::size() + T3::Ref::size() + T4::Ref::size() + T5::Ref::size() + T6::Ref::size(), img) + head_pins(self.0.7, r as int + T1::Ref::size() + T2::Ref::size() + T3::Ref::size() + T4::Ref::size() + T5::Ref::size() + T6::Ref::size() + T7::Ref::size(), img) + head_pins(self.0.8, r as int + T1::Ref::size() + T2::Ref::size() + T3::Ref::size() + T4::Ref::size() + T5::Ref::size() + T6::Ref::size() + T7::Ref::size() + T8::Ref::size(), img) + head_pins(self.0.9, r as int + T1::Ref::size() + T2::Ref::size() + T3::Ref::size() + T4::Ref::size() + T5::Ref::size() + T6::Ref::size() + T7::Ref::size() + T8::Ref::size() + T9::Ref::size(), img) + head_pins(self.0.10, r as int + T1::Ref::size() + T2::Ref::size() + T3::Ref::size() + T4::Ref::size() + T5::Ref::size() + T6::Ref::size() + T7::Ref::size() + T8::Ref::size() + T9::Ref::size() + T10::Ref::size(), img), head_pins(self.0.11, r as int + T1::Ref::size() + T2::Ref::size() + T3::Ref::size() + T4::Ref::size() + T5::Ref::size() + T6::Ref::size() + T7::Ref::size() + T8::Ref::size() + T9::Ref::size() + T10::Ref::size() + T11::Ref::size(), img));
        lemma_holds_all_concat(other, head_pins(self.0.0, r as int, img) + head_pins(self.0.1, r as int + T1::Ref::size(), img) + head_pins(self.0.2, r as int + T1::Ref::size() + T2::Ref::size(), img) + head_pins(self.0.3, r as int + T1::Ref::size() + T2::Ref::size() + T3::Ref::size(), img) + head_pins(self.0.4, r as int + T1::Ref::size() + T2::Ref::size() + T3::Ref::size() + T4::Ref::size(), img) + head_pins(self.0.5, r as int + T1::Ref::size() + T2::Ref::size() + T3::Ref::size() + T4::Ref::size() + T5::Ref::size(), img) + head_pins(self.0.6, r as int + T1::Ref::size() + T2::Ref::size() + T3::Ref::size() + T4::Ref::size() + T5::Ref::size() + T6::Ref::size(), img) + head_pins(self.0.7, r as int + T1::Ref::size() + T2::Ref::size() + T3::Ref::size() + T4::Ref::size() + T5::Ref::size() + T6::Ref::size() + T7::Ref::size(), img) + head_pins(self.0.8, r as int + T1::Ref::size() + T2::Ref::size() + T3::Ref::size() + T4::Ref::size() + T5::Ref::size() + T6::Ref::size() + T7::Ref::size() + T8::Ref::size(), img) + head_pins(self.0.9, r as int + T1::Ref::size() + T2::Ref::size() + T3::Ref::size() + T4::Ref::size() + T5::Ref::size() + T6::Ref::size() + T7::Ref::size() + T8::Ref::size() + T9::Ref::size(), img), head_pins(self.0.10, r as int + T1::Ref::size() + T2::Ref::size() + T3::Ref::size() + T4::Ref::size() + T5::Ref::size() + T6::Ref::size() + T7::Ref::size() + T8::Ref::size() + T9::Ref::size() + T10::Ref::size(), img));
        lemma_holds_all_concat(other, head_pins(self.0.0, r as int, img) + head_pins(self.0.1, r as int + T1::Ref::size(), img) + head_pins(self.0.2, r as int + T1::Ref::size() + T2::Ref::size(), img) + head_pins(self.0.3, r as int + T1::Ref::size() + T2::Ref::size() + T3::Ref::size(), img) + head_pins(self.0.4, r as int + T1::Ref::size() + T2::Ref::size() + T3::Ref::size() + T4::Ref::size(), img) + head_pins(self.0.5, r as int + T1::Ref::size() + T2::Ref::size() + T3::Ref::size() + T4::Ref::size() + T5::Ref::size(), img) + head_pins(self.0.6, r as int + T1::Ref::size() + T2::Ref::size() + T3::Ref::size() + T4::Ref::size() + T5::Ref::size() + T6::Ref::size(), img) + head_pins(self.0.7, r as int + T1::Ref::size() + T2::Ref::size() + T3::Ref::size() + T4::Ref::size() + T5::Ref::size() + T6::Ref::size() + T7::Ref::size(), img) + head_pins(self.0.8, r as int + T1::Ref::size() + T2::Ref::size() + T3::Ref::size() + T4::Ref::size() + T5::Ref::size() + T6::Ref::size() + T7::Ref::size() + T8::Ref::size(), img), head_pins(self.0.9, r as int + T1::Ref::size() + T2::Ref::size() + T3::Ref::size() + T4::Ref::size() + T5::Ref::size() + T6::Ref::size() + T7::Ref::size() + T8::Ref::size() + T9::Ref::size(), img));
        lemma_holds_all_concat(other, head_pins(self.0.0, r as int, img) + head_pins(self.0.1, r as int + T1::Ref::size(), img) + head_pins(self.0.2, r as int + T1::Ref::size() + T2::Ref::size(), img) + head_pins(self.0.3, r as int + T1::Ref::size() + T2::Ref::size() + T3::Ref::size(), img) + head_pins(self.0.4, r as int + T1::Ref::size() + T2::Ref::size() + T3::Ref::size() + T4::Ref::size(), img) + head_pins(self.0.5, r as int + T1::Ref::size() + T2::Ref::size() + T3::Ref::size() + T4::Ref::size() + T5::Ref::size(), img) + head_pins(self.0.6, r as int + T1::Ref::size() + T2::Ref::size() + T3::Ref::size() + T4::Ref::size() + T5::Ref::size() + T6::Ref::size(), img) + head_pins(self.0.7, r as int + T1::Ref::size() + T2::Ref::size() + T3::Ref::size() + T4::Ref::size() + T5::Ref::size() + T6::Ref::size() + T7::Ref::size(), img), head_pins(self.0.8, r as int + T1::Ref::size() + T2::Ref::size() + T3::Ref::size() + T4::Ref::size() + T5::Ref::size() + T6::Ref::size() + T7::Ref::size() + T8::Ref::size(), img));
        lemma_holds_all_concat(other, head_pins(self.0.0, r as int, img) + head_pins(self.0.1, r as int + T1::Ref::size(), img) + head_pins(self.0.2, r as int + T1::Ref::size() + T2::Ref::size(), img) + head_pins(self.0.3, r as int + T1::Ref::size() + T2::Ref::size() + T3::Ref::size(), img) + head_pins(self.0.4, r as int + T1::Ref::size() + T2::Ref::size() + T3::Ref::size() + T4::Ref::size(), img) + head_pins(self.0.5, r as int + T1::Ref::size() + T2::Ref::size() + T3::Ref::size() + T4::Ref::size() + T5::Ref::size(), img) + head_pins(self.0.6, r as int + T1::Ref::size() + T2::Ref::size() + T3::Ref::size() + T4::Ref::size() + T5::Ref::size() + T6::Ref::size(), img), head_pins(self.0.7, r as int + T1::Ref::size() + T2::Ref::size() + T3::Ref::size() + T4::Ref::size() + T5::Ref::size() + T6::Ref::size() + T7::Ref::size(), img));
        lemma_holds_all_concat(other, head_pins(self.0.0, r as int, img) + head_pins(self.0.1, r as int + T1::Ref::size(), img) + head_pins(self.0.2, r as int + T1::Ref::size() + T2::Ref::size(), img) + head_pins(self.0.3, r as int + T1::Ref::size() + T2::Ref::size() + T3::Ref::size(), img) + head_pins(self.0.4, r as int + T1::Ref::size() + T2::Ref::size() + T3::Ref::size() + T4::Ref::size(), img) + head_pins(self.0.5, r as int + T1::Ref::size() + T2::Ref::size() + T3::Ref::size() + T4::Ref::size() + T5::Ref::size(), img), head_pins(self.0.6, r as int + T1::Ref::size() + T2::Ref::size() + T3::Ref::size() + T4::Ref::size() + T5::Ref::size() + T6::Ref::size(), img));
        lemma_holds_all_concat(other, head_pins(self.0.0, r as int, img) + head_pins(self.0.1, r as int + T1::Ref::size(), img) + head_pins(self.0.2, r as int + T1::Ref::size() + T2::Ref::size(), img) + head_pins(self.0.3, r as int + T1::Ref::size() + T2::Ref::size() + T3::Ref::size(), img) + head_pins(self.0.4, r as int + T1::Ref::size() + T2::Ref::size() + T3::Ref::size() + T4::Ref::size(), img), head_pins(self.0.5, r as int + T1::Ref::size() + T2::Ref::size() + T3::Ref::size() + T4::Ref::size() + T5::Ref::size(), img));
        lemma_holds_all_concat(other, head_pins(self.0.0, r as int, img) + head_pins(self.0.1, r as int + T1::Ref::size(), img) + head_pins(self.0.2, r as int + T1::Ref::size() + T2::Ref::size(), img) + head_pins(self.0.3, r as int + T1::Ref::size() + T2::Ref::size() + T3::Ref::size(), img), head_pins(self.0.4, r as int + T1::Ref::size() + T2::Ref::size() + T3::Ref::size() + T4::Ref::size(), img));
        lemma_holds_all_concat(other, head_pins(self.0.0, r as int, img) + head_pins(self.0.1, r as int + T1::Ref::size(), img) + head_pins(self.0.2, r as int + T1::Ref::size() + T2::Ref::size(), img), head_pins(self.0.3, r as int + T1::Ref::size() + T2::Ref::size() + T3::Ref::size(), img));
        lemma_holds_all_concat(other, head_pins(self.0.0, r as int, img) + head_pins(self.0.1, r as int + T1::Ref::size(), img), head_pins(self.0.2, r as int + T1::Ref::size() + T2::Ref::size(), img));
        lemma_holds_all_concat(other, head_pins(self.0.0, r as int, img), head_pins(self.0.1, r as int + T1::Ref::size(), img));
        lemma_head_deepen(self.0.0, r as int, img, other, lo, hi);
        lemma_head_deepen(self.0.1, r as int + T1::Ref::size(), img, other, lo, hi);
        lemma_head_deepen(self.0.2, r as int + T1::Ref::size() + T2::Ref::size(), img, other, lo, hi);
        lemma_head_deepen(self.0.3, r as int + T1::Ref::size() + T2::Ref::size() + T3::Ref::size(), img, other, lo, hi);
        lemma_head_deepen(self.0.4, r as int + T1::Ref::size() + T2::Ref::size() + T3::Ref::size() + T4::Ref::size(), img, other, lo, hi);
        lemma_head_deepen(self.0.5, r as int + T1::Ref::size() + T2::Ref::size() + T3::Ref::size() + T4::Ref::size() + T5::Ref::size(), img, other, lo, hi);
        lemma_head_deepen(self.0.6, r as int + T1::Ref::size() + T2::Ref::size() + T3::Ref::size() + T4::Ref::size() + T5::Ref::size() + T6::Ref::size(), img, other, lo, hi);
        lemma_head_deepen(self.0.7, r as int + T1::Ref::size() + T2::Ref::size() + T3::Ref::size() + T4::Ref::size() + T5::Ref::size() + T6::Ref::size() + T7::Ref::size(), img, other, lo, hi);
        lemma_head_deepen(self.0.8, r as int + T1::Ref::size() + T2::Ref::size() + T3::Ref::size() + T4::Ref::size() + T5::Ref::size() + T6::Ref::size() + T7::Ref::size() + T8::Ref::size(), img, other, lo, hi);
        lemma_head_deepen(self.0.9, r as int + T1::Ref::size() + T2::Ref::size() + T3::Ref::size() + T4::Ref::size() + T5::Ref::size() + T6::Ref::size() + T7::Ref::size() + T8::Ref::size() + T9::Ref::size(), img, other, lo, hi);
        lemma_head_deepen(self.0.10, r as int + T1::Ref::size() + T2::Ref::size() + T3::Ref::size() + T4::Ref::size() + T5::Ref::size() + T6::Ref::size() + T7::Ref::size() + T8::Ref::size() + T9::Ref::size() + T10::Ref::size(), img, other, lo, hi);
        lemma_head_deepen(self.0.11, r as int + T1::Ref::size() + T2::Ref::size() + T3::Ref::size() + T4::Ref::size() + T5::Ref::size() + T6::Ref::size() + T7::Ref::size() + T8::Ref::size() + T9::Ref::size() + T10::Ref::size() + T11::Ref::size(), img, other, lo, hi);
        lemma_head_deepen(self.0.12, r as int + T1::Ref::size() + T2::Ref::size() + T3::Ref::size() + T4::Ref::size() + T5::Ref::size() + T6::Ref::size() + T7::Ref::size() + T8::Ref::size() + T9::Ref::size() + T10::Ref::size() + T11::Ref::size() + T12::Ref::size(), img, other, lo, hi);
    }

    proof fn lemma_frame(&self, r: usize, img: Image, other: Image, lo: int, hi: int, deep: bool) {
        lemma_head_frame(self.0.0, r as int, img, other, lo, hi, deep);
        lemma_head_frame(self.0.1, r as int + T1::Ref::size(), img, other, lo, hi, deep);
        lemma_head_frame(self.0.2, r as int + T1::Ref::size() + T2::Ref::size(), img, other, lo, hi, deep);
        lemma_head_frame(self.0.3, r as int + T1::Ref::size() + T2::Ref::size() + T3::Ref::size(), img, other, lo, hi, deep);
        lemma_head_frame(self.0.4, r as int + T1::Ref::size() + T2::Ref::size() + T3::Ref::size() + T4::Ref::size(), img, other, lo, hi, deep);
        lemma_head_frame(self.0.5, r as int + T1::Ref::size() + T2::Ref::size() + T3::Ref::size() + T4::Ref::size() + T5::Ref::size(), img, other, lo, hi, deep);
        lemma_head_frame(self.0.6, r as int + T1::Ref::size() + T2::Ref::size() + T3::Ref::size() + T4::Ref::size() + T5::Ref::size() + T6::Ref::size(), img, other, lo, hi, deep);
        lemma_head_frame(self.0.7, r as int + T1::Ref::size() + T2::Ref::size() + T3::Ref::size() + T4::Ref::size() + T5::Ref::size() + T6::Ref::size() + T7::Ref::size(), img, other, lo, hi, deep);
        lemma_head_frame(self.0.8, r as int + T1::Ref::size() + T2::Ref::size() + T3::Ref::size() + T4::Ref::size() + T5::Ref::size() + T6::Ref::size() + T7::Ref::size() + T8::Ref::size(), img, other, lo, hi, deep);
        lemma_head_frame(self.0.9, r as int + T1::Ref::size() + T2::Ref::size() + T3::Ref::size() + T4::Ref::size() + T5::Ref::size() + T6::Ref::size() + T7::Ref::size() + T8::Ref::size() + T9::Ref::size(), img, other, lo, hi, deep);
        lemma_head_frame(self.0.10, r as int + T1::Ref::size() + T2::Ref::size() + T3::Ref::size() + T4::Ref::size() + T5::Ref::size() + T6::Ref::size() + T7::Ref::size() + T8::Ref::size() + T9::Ref::size() + T10::Ref::size(), img, other, lo, hi, deep);
        lemma_head_frame(self.0.11, r as int + T1::Ref::size() + T2::Ref::size() + T3::Ref::size() + T4::Ref::size() + T5::Ref::size() + T6::Ref::size() + T7::Ref::size() + T8::Ref::size() + T9::Ref::size() + T10::Ref::size() + T11::Ref::size(), img, other, lo, hi, deep);
        lemma_head_frame(self.0.12, r as int + T1::Ref::size() + T2::Ref::size() + T3::Ref::size() + T4::Ref::size() + T5::Ref::size() + T6::Ref::size() + T7::Ref::size() + T8::Ref::size() + T9::Ref::size() + T10::Ref::size() + T11::Ref::size() + T12::Ref::size(), img, other, lo, hi, deep);
    }

    proof fn lemma_widen(
        &self,
        r: usize,
        img: Image,
        lo: int,
        hi: int,
        wide_lo: int,
        wide_hi: int,
        deep: bool,
    ) {
        match head_at::<T1::Ref>(img, r as int) {
            Some(head) => {
                self.0.0.lemma_widen(head, img, lo, hi, wide_lo, wide_hi, deep);
            },
            None => {},
        }
        match head_at::<T2::Ref>(img, r as int + T1::Ref::size()) {
            Some(head) => {
                self.0.1.lemma_widen(head, img, lo, hi, wide_lo, wide_hi, deep);
            },
            None => {},
        }
        match head_at::<T3::Ref>(img, r as int + T1::Ref::size() + T2::Ref::size()) {
            Some(head) => {
                self.0.2.lemma_widen(head, img, lo, hi, wide_lo, wide_hi, deep);
            },
            None => {},
        }
        match head_at::<T4::Ref>(img, r as int + T1::Ref::size() + T2::Ref::size() + T3::Ref::size()) {
            Some(head) => {
                self.0.3.lemma_widen(head, img, lo, hi, wide_lo, wide_hi, deep);
            },
            None => {},
        }
        match head_at::<T5::Ref>(img, r as int + T1::Ref::size() + T2::Ref::size() + T3::Ref::size() + T4::Ref::size()) {
            Some(head) => {
                self.0.4.lemma_widen(head, img, lo, hi, wide_lo, wide_hi, deep);
            },
            None => {},
        }
        match head_at::<T6::Ref>(img, r as int + T1::Ref::size() + T2::Ref::size() + T3::Ref::size() + T4::Ref::size() + T5::Ref::size()) {
            Some(head) => {
                self.0.5.lemma_widen(head, img, lo, hi, wide_lo, wide_hi, deep);
            },
            None => {},
        }
        match head_at::<T7::Ref>(img, r as int + T1::Ref::size() + T2::Ref::size() + T3::Ref::size() + T4::Ref::size() + T5::Ref::size() + T6::Ref::size()) {
            Some(head) => {
                self.0.6.lemma_widen(head, img, lo, hi, wide_lo, wide_hi, deep);
            },
            None => {},
        }
        match head_at::<T8::Ref>(img, r as int + T1::Ref::size() + T2::Ref::size() + T3::Ref::size() + T4::Ref::size() + T5::Ref::size() + T6::Ref::size() + T7::Ref::size()) {
            Some(head) => {
                self.0.7.lemma_widen(head, img, lo, hi, wide_lo, wide_hi, deep);
            },
            None => {},
        }
        match head_at::<T9::Ref>(img, r as int + T1::Ref::size() + T2::Ref::size() + T3::Ref::size() + T4::Ref::size() + T5::Ref::size() + T6::Ref::size() + T7::Ref::size() + T8::Ref::size()) {
            Some(head) => {
                self.0.8.lemma_widen(head, img, lo, hi, wide_lo, wide_hi, deep);
            },
            None => {},
        }
        match head_at::<T10::Ref>(img, r as int + T1::Ref::size() + T2::Ref::size() + T3::Ref::size() + T4::Ref::size() + T5::Ref::size() + T6::Ref::size() + T7::Ref::size() + T8::Ref::size() + T9::Ref::size()) {
            Some(head) => {
                self.0.9.lemma_widen(head, img, lo, hi, wide_lo, wide_hi, deep);
            },
            None => {},
        }
        match head_at::<T11::Ref>(img, r as int + T1::Ref::size() + T2::Ref::size() + T3::Ref::size() + T4::Ref::size() + T5::Ref::size() + T6::Ref::size() + T7::Ref::size() + T8::Ref::size() + T9::Ref::size() + T10::Ref::size()) {
            Some(head) => {
                self.0.10.lemma_widen(head, img, lo, hi, wide_lo, wide_hi, deep);
            },
            None => {},
        }
        match head_at::<T12::Ref>(img, r as int + T1::Ref::size() + T2::Ref::size() + T3::Ref::size() + T4::Ref::size() + T5::Ref::size() + T6::Ref::size() + T7::Ref::size() + T8::Ref::size() + T9::Ref::size() + T10::Ref::size() + T11::Ref::size()) {
            Some(head) => {
                self.0.11.lemma_widen(head, img, lo, hi, wide_lo, wide_hi, deep);
            },
            None => {},
        }
        match head_at::<T13::Ref>(img, r as int + T1::Ref::size() + T2::Ref::size() + T3::Ref::size() + T4::Ref::size() + T5::Ref::size() + T6::Ref::size() + T7::Ref::size() + T8::Ref::size() + T9::Ref::size() + T10::Ref::size() + T11::Ref::size() + T12::Ref::size()) {
            Some(head) => {
                self.0.12.lemma_widen(head, img, lo, hi, wide_lo, wide_hi, deep);
            },
            None => {},
        }
    }

    fn mem_type_of() -> (t: MemType) {
        MemType::Complex
    }

    fn to_size(&self, acc: &mut usize) {
        self.0.to_size(acc);
        *acc = *acc + T1::Ref::size_of();
        *acc = *acc + T2::Ref::size_of();
        *acc = *acc + T3::Ref::size_of();
        *acc = *acc + T4::Ref::size_of();
        *acc = *acc + T5::Ref::size_of();
        *acc = *acc + T6::Ref::size_of();
        *acc = *acc + T7::Ref::size_of();
        *acc = *acc + T8::Ref::size_of();
        *acc = *acc + T9::Ref::size_of();
        *acc = *acc + T10::Ref::size_of();
        *acc = *acc + T11::Ref::size_of();
        *acc = *acc + T12::Ref::size_of();
        *acc = *acc + T13::Ref::size_of();
    }

    fn checked_size(&self, acc: usize) -> (sum: Option<usize>) {
        let mut sum = match self.0.checked_size(acc) {
            Some(next) => next,
            None => {
                return None;
            },
        };
        let size0 = T1::Ref::size_of();
        if size0 > usize::MAX - sum {
            return None;
        }
        sum = sum + size0;
        let size1 = T2::Ref::size_of();
        if size1 > usize::MAX - sum {
            return None;
        }
        sum = sum + size1;
        let size2 = T3::Ref::size_of();
        if size2 > usize::MAX - sum {
            return None;
        }
        sum = sum + size2;
        let size3 = T4::Ref::size_of();
        if size3 > usize::MAX - sum {
            return None;
        }
        sum = sum + size3;
        let size4 = T5::Ref::size_of();
        if size4 > usize::MAX - sum {
            return None;
        }
        sum = sum + size4;
        let size5 = T6::Ref::size_of();
        if size5 > usize::MAX - sum {
            return None;
        }
        sum = sum + size5;
        let size6 = T7::Ref::size_of();
        if size6 > usize::MAX - sum {
            return None;
        }
        sum = sum + size6;
        let size7 = T8::Ref::size_of();
        if size7 > usize::MAX - sum {
            return None;
        }
        sum = sum + size7;
        let size8 = T9::Ref::size_of();
        if size8 > usize::MAX - sum {
            return None;
        }
        sum = sum + size8;
        let size9 = T10::Ref::size_of();
        if size9 > usize::MAX - sum {
            return None;
        }
        sum = sum + size9;
        let size10 = T11::Ref::size_of();
        if size10 > usize::MAX - sum {
            return None;
        }
        sum = sum + size10;
        let size11 = T12::Ref::size_of();
        if size11 > usize::MAX - sum {
            return None;
        }
        sum = sum + size11;
        let size12 = T13::Ref::size_of();
        if size12 > usize::MAX - sum {
            return None;
        }
        sum = sum + size12;
        Some(sum)
    }

    #[verifier::rlimit(40)]
    fn to_ref(&self, writer: &mut Writer) -> (r: usize) {
        let ghost base = writer.base() as int;
        let ghost w0 = *writer;
        proof {
            writer.lemma_bounds();
        }
        let heads = self.0.to_ref(writer);
        let ghost v0 = *writer;
        proof {
            writer.lemma_bounds();
        }
        let ptr = writer.as_ptr();
        writer.put(&heads.0);
        let ghost v1 = *writer;
        proof {
            writer.lemma_bounds();
            T1::Ref::lemma_size();
            heads.0.lemma_layout();
            lemma_image_put(v0, v1, heads.0.encode());
        }
        writer.put(&heads.1);
        let ghost v2 = *writer;
        proof {
            writer.lemma_bounds();
            T2::Ref::lemma_size();
            heads.1.lemma_layout();
            lemma_image_put(v1, v2, heads.1.encode());
        }
        writer.put(&heads.2);
        let ghost v3 = *writer;
        proof {
            writer.lemma_bounds();
            T3::Ref::lemma_size();
            heads.2.lemma_layout();
            lemma_image_put(v2, v3, heads.2.encode());
        }
        writer.put(&heads.3);
        let ghost v4 = *writer;
        proof {
            writer.lemma_bounds();
            T4::Ref::lemma_size();
            heads.3.lemma_layout();
            lemma_image_put(v3, v4, heads.3.encode());
        }
        writer.put(&heads.4);
        let ghost v5 = *writer;
        proof {
            writer.lemma_bounds();
            T5::Ref::lemma_size();
            heads.4.lemma_layout();
            lemma_image_put(v4, v5, heads.4.encode());
        }
        writer.put(&heads.5);
        let ghost v6 = *writer;
        proof {
            writer.lemma_bounds();
            T6::Ref::lemma_size();
            heads.5.lemma_layout();
            lemma_image_put(v5, v6, heads.5.encode());
        }
        writer.put(&heads.6);
        let ghost v7 = *writer;
        proof {
            writer.lemma_bounds();
            T7::Ref::lemma_size();
            heads.6.lemma_layout();
            lemma_image_put(v6, v7, heads.6.encode());
        }
        writer.put(&heads.7);
        let ghost v8 = *writer;
        proof {
            writer.lemma_bounds();
            T8::Ref::lemma_size();
            heads.7.lemma_layout();
            lemma_image_put(v7, v8, heads.7.encode());
        }
        writer.put(&heads.8);
        let ghost v9 = *writer;
        proof {
            writer.lemma_bounds();
            T9::Ref::lemma_size();
            heads.8.lemma_layout();
            lemma_image_put(v8, v9, heads.8.encode());
        }
        writer.put(&heads.9);
        let ghost v10 = *writer;
        proof {
            writer.lemma_bounds();
            T10::Ref::lemma_size();
            heads.9.lemma_layout();
            lemma_image_put(v9, v10, heads.9.encode());
        }
        writer.put(&heads.10);
        let ghost v11 = *writer;
        proof {
            writer.lemma_bounds();
            T11::Ref::lemma_size();
            heads.10.lemma_layout();
            lemma_image_put(v10, v11, heads.10.encode());
        }
        writer.put(&heads.11);
        let ghost v12 = *writer;
        proof {
            writer.lemma_bounds();
            T12::Ref::lemma_size();
            heads.11.lemma_layout();
            lemma_image_put(v11, v12, heads.11.encode());
        }
        writer.put(&heads.12);
        let ghost v13 = *writer;
        proof {
            writer.lemma_bounds();
            T13::Ref::lemma_size();
            heads.12.lemma_layout();
            lemma_image_put(v12, v13, heads.12.encode());
        }
        proof {
            lemma_keeps_same(v13.arena(), v13.cursor());
            lemma_keeps_trans(v12.arena(), v13.arena(), v13.arena(), v12.cursor(), v13.cursor());
            lemma_keeps_trans(v11.arena(), v12.arena(), v13.arena(), v11.cursor(), v12.cursor());
            lemma_keeps_trans(v10.arena(), v11.arena(), v13.arena(), v10.cursor(), v11.cursor());
            lemma_keeps_trans(v9.arena(), v10.arena(), v13.arena(), v9.cursor(), v10.cursor());
            lemma_keeps_trans(v8.arena(), v9.arena(), v13.arena(), v8.cursor(), v9.cursor());
            lemma_keeps_trans(v7.arena(), v8.arena(), v13.arena(), v7.cursor(), v8.cursor());
            lemma_keeps_trans(v6.arena(), v7.arena(), v13.arena(), v6.cursor(), v7.cursor());
            lemma_keeps_trans(v5.arena(), v6.arena(), v13.arena(), v5.cursor(), v6.cursor());
            lemma_keeps_trans(v4.arena(), v5.arena(), v13.arena(), v4.cursor(), v5.cursor());
            lemma_keeps_trans(v3.arena(), v4.arena(), v13.arena(), v3.cursor(), v4.cursor());
            lemma_keeps_trans(v2.arena(), v3.arena(), v13.arena(), v2.cursor(), v3.cursor());
            lemma_keeps_trans(v1.arena(), v2.arena(), v13.arena(), v1.cursor(), v2.cursor());
            lemma_keeps_trans(v0.arena(), v1.arena(), v13.arena(), v0.cursor(), v1.cursor());
            lemma_keeps_trans(w0.arena(), v0.arena(), v13.arena(), w0.cursor(), v0.cursor());
            lemma_view_stays(&self.0.0, heads.0, v0, v13, base + w0.cursor(), base + v0.cursor());
            self.0.0.lemma_widen(heads.0, v13.image(), base + w0.cursor(), base + v0.cursor(), base + w0.cursor(), base + v13.cursor(), false);
            lemma_head_put(self.0.0, heads.0, v0, v1, v13, ptr as int, base + w0.cursor(), base + v13.cursor());
            lemma_view_stays(&self.0.1, heads.1, v0, v13, base + w0.cursor(), base + v0.cursor());
            self.0.1.lemma_widen(heads.1, v13.image(), base + w0.cursor(), base + v0.cursor(), base + w0.cursor(), base + v13.cursor(), false);
            lemma_head_put(self.0.1, heads.1, v1, v2, v13, ptr as int + T1::Ref::size(), base + w0.cursor(), base + v13.cursor());
            lemma_view_stays(&self.0.2, heads.2, v0, v13, base + w0.cursor(), base + v0.cursor());
            self.0.2.lemma_widen(heads.2, v13.image(), base + w0.cursor(), base + v0.cursor(), base + w0.cursor(), base + v13.cursor(), false);
            lemma_head_put(self.0.2, heads.2, v2, v3, v13, ptr as int + T1::Ref::size() + T2::Ref::size(), base + w0.cursor(), base + v13.cursor());
            lemma_view_stays(&self.0.3, heads.3, v0, v13, base + w0.cursor(), base + v0.cursor());
            self.0.3.lemma_widen(heads.3, v13.image(), base + w0.cursor(), base + v0.cursor(), base + w0.cursor(), base + v13.cursor(), false);
            lemma_head_put(self.0.3, heads.3, v3, v4, v13, ptr as int + T1::Ref::size() + T2::Ref::size() + T3::Ref::size(), base + w0.cursor(), base + v13.cursor());
            lemma_view_stays(&self.0.4, heads.4, v0, v13, base + w0.cursor(), base + v0.cursor());
            self.0.4.lemma_widen(heads.4, v13.image(), base + w0.cursor(), base + v0.cursor(), base + w0.cursor(), base + v13.cursor(), false);
            lemma_head_put(self.0.4, heads.4, v4, v5, v13, ptr as int + T1::Ref::size() + T2::Ref::size() + T3::Ref::size() + T4::Ref::size(), base + w0.cursor(), base + v13.cursor());
            lemma_view_stays(&self.0.5, heads.5, v0, v13, base + w0.cursor(), base + v0.cursor());
            self.0.5.lemma_widen(heads.5, v13.image(), base + w0.cursor(), base + v0.cursor(), base + w0.cursor(), base + v13.cursor(), false);
            lemma_head_put(self.0.5, heads.5, v5, v6, v13, ptr as int + T1::Ref::size() + T2::Ref::size() + T3::Ref::size() + T4::Ref::size() + T5::Ref::size(), base + w0.cursor(), base + v13.cursor());
            lemma_view_stays(&self.0.6, heads.6, v0, v13, base + w0.cursor(), base + v0.cursor());
            self.0.6.lemma_widen(heads.6, v13.image(), base + w0.cursor(), base + v0.cursor(), base + w0.cursor(), base + v13.cursor(), false);
            lemma_head_put(self.0.6, heads.6, v6, v7, v13, ptr as int + T1::Ref::size() + T2::Ref::size() + T3::Ref::size() + T4::Ref::size() + T5::Ref::size() + T6::Ref::size(), base + w0.cursor(), base + v13.cursor());
            lemma_view_stays(&self.0.7, heads.7, v0, v13, base + w0.cursor(), base + v0.cursor());
            self.0.7.lemma_widen(heads.7, v13.image(), base + w0.cursor(), base + v0.cursor(), base + w0.cursor(), base + v13.cursor(), false);
            lemma_head_put(self.0.7, heads.7, v7, v8, v13, ptr as int + T1::Ref::size() + T2::Ref::size() + T3::Ref::size() + T4::Ref::size() + T5::Ref::size() + T6::Ref::size() + T7::Ref::size(), base + w0.cursor(), base + v13.cursor());
            lemma_view_stays(&self.0.8, heads.8, v0, v13, base + w0.cursor(), base + v0.cursor());
            self.0.8.lemma_widen(heads.8, v13.image(), base + w0.cursor(), base + v0.cursor(), base + w0.cursor(), base + v13.cursor(), false);
            lemma_head_put(self.0.8, heads.8, v8, v9, v13, ptr as int + T1::Ref::size() + T2::Ref::size() + T3::Ref::size() + T4::Ref::size() + T5::Ref::size() + T6::Ref::size() + T7::Ref::size() + T8::Ref::size(), base + w0.cursor(), base + v13.cursor());
            lemma_view_stays(&self.0.9, heads.9, v0, v13, base + w0.cursor(), base + v0.cursor());
            self.0.9.lemma_widen(heads.9, v13.image(), base + w0.cursor(), base + v0.cursor(), base + w0.cursor(), base + v13.cursor(), false);
            lemma_head_put(self.0.9, heads.9, v9, v10, v13, ptr as int + T1::Ref::size() + T2::Ref::size() + T3::Ref::size() + T4::Ref::size() + T5::Ref::size() + T6::Ref::size() + T7::Ref::size() + T8::Ref::size() + T9::Ref::size(), base + w0.cursor(), base + v13.cursor());
            lemma_view_stays(&self.0.10, heads.10, v0, v13, base + w0.cursor(), base + v0.cursor());
            self.0.10.lemma_widen(heads.10, v13.image(), base + w0.cursor(), base + v0.cursor(), base + w0.cursor(), base + v13.cursor(), false);
            lemma_head_put(self.0.10, heads.10, v10, v11, v13, ptr as int + T1::Ref::size() + T2::Ref::size() + T3::Ref::size() + T4::Ref::size() + T5::Ref::size() + T6::Ref::size() + T7::Ref::size() + T8::Ref::size() + T9::Ref::size() + T10::Ref::size(), base + w0.cursor(), base + v13.cursor());
            lemma_view_stays(&self.0.11, heads.11, v0, v13, base + w0.cursor(), base + v0.cursor());
            self.0.11.lemma_widen(heads.11, v13.image(), base + w0.cursor(), base + v0.cursor(), base + w0.cursor(), base + v13.cursor(), false);
            lemma_head_put(self.0.11, heads.11, v11, v12, v13, ptr as int + T1::Ref::size() + T2::Ref::size() + T3::Ref::size() + T4::Ref::size() + T5::Ref::size() + T6::Ref::size() + T7::Ref::size() + T8::Ref::size() + T9::Ref::size() + T10::Ref::size() + T11::Ref::size(), base + w0.cursor(), base + v13.cursor());
            lemma_view_stays(&self.0.12, heads.12, v0, v13, base + w0.cursor(), base + v0.cursor());
            self.0.12.lemma_widen(heads.12, v13.image(), base + w0.cursor(), base + v0.cursor(), base + w0.cursor(), base + v13.cursor(), false);
            lemma_head_put(self.0.12, heads.12, v12, v13, v13, ptr as int + T1::Ref::size() + T2::Ref::size() + T3::Ref::size() + T4::Ref::size() + T5::Ref::size() + T6::Ref::size() + T7::Ref::size() + T8::Ref::size() + T9::Ref::size() + T10::Ref::size() + T11::Ref::size() + T12::Ref::size(), base + w0.cursor(), base + v13.cursor());
        }
        ptr
    }

    fn pinned<M: MemoryRead>(&self, r: &usize, mem: &M, out: &mut Vec<Segment>) {
        let mut addr: usize = *r;
        match mem.read(addr, T1::Ref::size_of()) {
            Some(bytes) => {
                let head = T1::Ref::from_bytes(&bytes);
                self.0.0.pinned(&head, mem, out);
            },
            None => {
                assert(false);
                return ;
            },
        }
        addr = addr + T1::Ref::size_of();
        match mem.read(addr, T2::Ref::size_of()) {
            Some(bytes) => {
                let head = T2::Ref::from_bytes(&bytes);
                self.0.1.pinned(&head, mem, out);
            },
            None => {
                assert(false);
                return ;
            },
        }
        addr = addr + T2::Ref::size_of();
        match mem.read(addr, T3::Ref::size_of()) {
            Some(bytes) => {
                let head = T3::Ref::from_bytes(&bytes);
                self.0.2.pinned(&head, mem, out);
            },
            None => {
                assert(false);
                return ;
            },
        }
        addr = addr + T3::Ref::size_of();
        match mem.read(addr, T4::Ref::size_of()) {
            Some(bytes) => {
                let head = T4::Ref::from_bytes(&bytes);
                self.0.3.pinned(&head, mem, out);
            },
            None => {
                assert(false);
                return ;
            },
        }
        addr = addr + T4::Ref::size_of();
        match mem.read(addr, T5::Ref::size_of()) {
            Some(bytes) => {
                let head = T5::Ref::from_bytes(&bytes);
                self.0.4.pinned(&head, mem, out);
            },
            None => {
                assert(false);
                return ;
            },
        }
        addr = addr + T5::Ref::size_of();
        match mem.read(addr, T6::Ref::size_of()) {
            Some(bytes) => {
                let head = T6::Ref::from_bytes(&bytes);
                self.0.5.pinned(&head, mem, out);
            },
            None => {
                assert(false);
                return ;
            },
        }
        addr = addr + T6::Ref::size_of();
        match mem.read(addr, T7::Ref::size_of()) {
            Some(bytes) => {
                let head = T7::Ref::from_bytes(&bytes);
                self.0.6.pinned(&head, mem, out);
            },
            None => {
                assert(false);
                return ;
            },
        }
        addr = addr + T7::Ref::size_of();
        match mem.read(addr, T8::Ref::size_of()) {
            Some(bytes) => {
                let head = T8::Ref::from_bytes(&bytes);
                self.0.7.pinned(&head, mem, out);
            },
            None => {
                assert(false);
                return ;
            },
        }
        addr = addr + T8::Ref::size_of();
        match mem.read(addr, T9::Ref::size_of()) {
            Some(bytes) => {
                let head = T9::Ref::from_bytes(&bytes);
                self.0.8.pinned(&head, mem, out);
            },
            None => {
                assert(false);
                return ;
            },
        }
        addr = addr + T9::Ref::size_of();
        match mem.read(addr, T10::Ref::size_of()) {
            Some(bytes) => {
                let head = T10::Ref::from_bytes(&bytes);
                self.0.9.pinned(&head, mem, out);
            },
            None => {
                assert(false);
                return ;
            },
        }
        addr = addr + T10::Ref::size_of();
        match mem.read(addr, T11::Ref::size_of()) {
            Some(bytes) => {
                let head = T11::Ref::from_bytes(&bytes);
                self.0.10.pinned(&head, mem, out);
            },
            None => {
                assert(false);
                return ;
            },
        }
        addr = addr + T11::Ref::size_of();
        match mem.read(addr, T12::Ref::size_of()) {
            Some(bytes) => {
                let head = T12::Ref::from_bytes(&bytes);
                self.0.11.pinned(&head, mem, out);
            },
            None => {
                assert(false);
                return ;
            },
        }
        addr = addr + T12::Ref::size_of();
        match mem.read(addr, T13::Ref::size_of()) {
            Some(bytes) => {
                let head = T13::Ref::from_bytes(&bytes);
                self.0.12.pinned(&head, mem, out);
            },
            None => {
                assert(false);
                return ;
            },
        }
        addr = addr + T13::Ref::size_of();
        assert(pieces_of(out@) =~= pieces_of(old(out)@) + self.pins(*r, mem.image()));
    }
}

impl<T1: ToRef, T2: ToRef, T3: ToRef, T4: ToRef, T5: ToRef, T6: ToRef, T7: ToRef, T8: ToRef, T9: ToRef, T10: ToRef, T11: ToRef, T12: ToRef, T13: ToRef, T14: ToRef> ToRef for CopyStruct<(T1, T2, T3, T4, T5, T6, T7, T8, T9, T10, T11, T12, T13, T14)> where T1::Ref: Pod, T2::Ref: Pod, T3::Ref: Pod, T4::Ref: Pod, T5::Ref: Pod, T6::Ref: Pod, T7::Ref: Pod, T8::Ref: Pod, T9::Ref: Pod, T10::Ref: Pod, T11::Ref: Pod, T12::Ref: Pod, T13::Ref: Pod, T14::Ref: Pod {
    type Ref = usize;

    open spec fn mem_type() -> MemType {
        MemType::Complex
    }

    open spec fn size(&self) -> nat {
        self.0.size() + T1::Ref::size() + T2::Ref::size() + T3::Ref::size() + T4::Ref::size() + T5::Ref::size() + T6::Ref::size() + T7::Ref::size() + T8::Ref::size() + T9::Ref::size() + T10::Ref::size() + T11::Ref::size() + T12::Ref::size() + T13::Ref::size() + T14::Ref::size()
    }

    open spec fn views(&self, r: usize, img: Image, lo: int, hi: int, deep: bool) -> bool {
        &&& r + T1::Ref::size() + T2::Ref::size() + T3::Ref::size() + T4::Ref::size() + T5::Ref::size() + T6::Ref::size() + T7::Ref::size() + T8::Ref::size() + T9::Ref::size() + T10::Ref::size() + T11::Ref::size() + T12::Ref::size() + T13::Ref::size() + T14::Ref::size() <= usize::MAX
        &&& T1::Ref::size() + T2::Ref::size() + T3::Ref::size() + T4::Ref::size() + T5::Ref::size() + T6::Ref::size() + T7::Ref::size() + T8::Ref::size() + T9::Ref::size() + T10::Ref::size() + T11::Ref::size() + T12::Ref::size() + T13::Ref::size() + T14::Ref::size() > 0 ==> lo <= r && r + T1::Ref::size() + T2::Ref::size() + T3::Ref::size() + T4::Ref::size() + T5::Ref::size() + T6::Ref::size() + T7::Ref::size() + T8::Ref::size() + T9::Ref::size() + T10::Ref::size() + T11::Ref::size() + T12::Ref::size() + T13::Ref::size() + T14::Ref::size() <= hi
        &&& head_views(self.0.0, r as int, img, lo, hi, deep)
        &&& head_views(self.0.1, r as int + T1::Ref::size(), img, lo, hi, deep)
        &&& head_views(self.0.2, r as int + T1::Ref::size() + T2::Ref::size(), img, lo, hi, deep)
        &&& head_views(self.0.3, r as int + T1::Ref::size() + T2::Ref::size() + T3::Ref::size(), img, lo, hi, deep)
        &&& head_views(self.0.4, r as int + T1::Ref::size() + T2::Ref::size() + T3::Ref::size() + T4::Ref::size(), img, lo, hi, deep)
        &&& head_views(self.0.5, r as int + T1::Ref::size() + T2::Ref::size() + T3::Ref::size() + T4::Ref::size() + T5::Ref::size(), img, lo, hi, deep)
        &&& head_views(self.0.6, r as int + T1::Ref::size() + T2::Ref::size() + T3::Ref::size() + T4::Ref::size() + T5::Ref::size() + T6::Ref::size(), img, lo, hi, deep)
        &&& head_views(self.0.7, r as int + T1::Ref::size() + T2::Ref::size() + T3::Ref::size() + T4::Ref::size() + T5::Ref::size() + T6::Ref::size() + T7::Ref::size(), img, lo, hi, deep)
        &&& head_views(self.0.8, r as int + T1::Ref::size() + T2::Ref::size() + T3::Ref::size() + T4::Ref::size() + T5::Ref::size() + T6::Ref::size() + T7::Ref::size() + T8::Ref::size(), img, lo, hi, deep)
        &&& head_views(self.0.9, r as int + T1::Ref::size() + T2::Ref::size() + T3::Ref::size() + T4::Ref::size() + T5::Ref::size() + T6::Ref::size() + T7::Ref::size() + T8::Ref::size() + T9::Ref::size(), img, lo, hi, deep)
        &&& head_views(self.0.10, r as int + T1::Ref::size() + T2::Ref::size() + T3::Ref::size() + T4::Ref::size() + T5::Ref::size() + T6::Ref::size() + T7::Ref::size() + T8::Ref::size() + T9::Ref::size() + T10::Ref::size(), img, lo, hi, deep)
        &&& head_views(self.0.11, r as int + T1::Ref::size() + T2::Ref::size() + T3::Ref::size() + T4::Ref::size() + T5::Ref::size() + T6::Ref::size() + T7::Ref::size() + T8::Ref::size() + T9::Ref::size() + T10::Ref::size() + T11::Ref::size(), img, lo, hi, deep)
        &&& head_views(self.0.12, r as int + T1::Ref::size() + T2::Ref::size() + T3::Ref::size() + T4::Ref::size() + T5::Ref::size() + T6::Ref::size() + T7::Ref::size() + T8::Ref::size() + T9::Ref::size() + T10::Ref::size() + T11::Ref::size() + T12::Ref::size(), img, lo, hi, deep)
        &&& head_views(self.0.13, r as int + T1::Ref::size() + T2::Ref::size() + T3::Ref::size() + T4::Ref::size() + T5::Ref::size() + T6::Ref::size() + T7::Ref::size() + T8::Ref::size() + T9::Ref::size() + T10::Ref::size() + T11::Ref::size() + T12::Ref::size() + T13::Ref::size(), img, lo, hi, deep)
    }

    open spec fn flat(&self) -> usize {
        0
    }

    open spec fn pins(&self, r: usize, img: Image) -> Seq<Piece> {
        head_pins(self.0.0, r as int, img) + head_pins(self.0.1, r as int + T1::Ref::size(), img) + head_pins(self.0.2, r as int + T1::Ref::size() + T2::Ref::size(), img) + head_pins(self.0.3, r as int + T1::Ref::size() + T2::Ref::size() + T3::Ref::size(), img) + head_pins(self.0.4, r as int + T1::Ref::size() + T2::Ref::size() + T3::Ref::size() + T4::Ref::size(), img) + head_pins(self.0.5, r as int + T1::Ref::size() + T2::Ref::size() + T3::Ref::size() + T4::Ref::size() + T5::Ref::size(), img) + head_pins(self.0.6, r as int + T1::Ref::size() + T2::Ref::size() + T3::Ref::size() + T4::Ref::size() + T5::Ref::size() + T6::Ref::size(), img) + head_pins(self.0.7, r as int + T1::Ref::size() + T2::Ref::size() + T3::Ref::size() + T4::Ref::size() + T5::Ref::size() + T6::Ref::size() + T7::Ref::size(), img) + head_pins(self.0.8, r as int + T1::Ref::size() + T2::Ref::size() + T3::Ref::size() + T4::Ref::size() + T5::Ref::size() + T6::Ref::size() + T7::Ref::size() + T8::Ref::size(), img) + head_pins(self.0.9, r as int + T1::Ref::size() + T2::Ref::size() + T3::Ref::size() + T4::Ref::size() + T5::Ref::size() + T6::Ref::size() + T7::Ref::size() + T8::Ref::size() + T9::Ref::size(), img) + head_pins(self.0.10, r as int + T1::Ref::size() + T2::Ref::size() + T3::Ref::size() + T4::Ref::size() + T5::Ref::size() + T6::Ref::size() + T7::Ref::size() + T8::Ref::size() + T9::Ref::size() + T10::Ref::size(), img) + head_pins(self.0.11, r as int + T1::Ref::size() + T2::Ref::size() + T3::Ref::size() + T4::Ref::size() + T5::Ref::size() + T6::Ref::size() + T7::Ref::size() + T8::Ref::size() + T9::Ref::size() + T10::Ref::size() + T11::Ref::size(), img) + head_pins(self.0.12, r as int + T1::Ref::size() + T2::Ref::size() + T3::Ref::size() + T4::Ref::size() + T5::Ref::size() + T6::Ref::size() + T7::Ref::size() + T8::Ref::size() + T9::Ref::size() + T10::Ref::size() + T11::Ref::size() + T12::Ref::size(), img) + head_pins(self.0.13, r as int + T1::Ref::size() + T2::Ref::size() + T3::Ref::size() + T4::Ref::size() + T5::Ref::size() + T6::Ref::size() + T7::Ref::size() + T8::Ref::size() + T9::Ref::size() + T10::Ref::size() + T11::Ref::size() + T12::Ref::size() + T13::Ref::size(), img)
    }

    proof fn lemma_flat(&self) {
    }

    proof fn lemma_primitive(&self, r: usize, img: Image, lo: int, hi: int, deep: bool) {
    }

    proof fn lemma_deepen(&self, r: usize, img: Image, other: Image, lo: int, hi: int) {
        lemma_holds_all_concat(other, head_pins(self.0.0, r as int, img) + head_pins(self.0.1, r as int + T1::Ref::size(), img) + head_pins(self.0.2, r as int + T1::Ref::size() + T2::Ref::size(), img) + head_pins(self.0.3, r as int + T1::Ref::size() + T2::Ref::size() + T3::Ref::size(), img) + head_pins(self.0.4, r as int + T1::Ref::size() + T2::Ref::size() + T3::Ref::size() + T4::Ref::size(), img) + head_pins(self.0.5, r as int + T1::Ref::size() + T2::Ref::size() + T3::Ref::size() + T4::Ref::size() + T5::Ref::size(), img) + head_pins(self.0.6, r as int + T1::Ref::size() + T2::Ref::size() + T3::Ref::size() + T4::Ref::size() + T5::Ref::size() + T6::Ref::size(), img) + head_pins(self.0.7, r as int + T1::Ref::size() + T2::Ref::size() + T3::Ref::size() + T4::Ref::size() + T5::Ref::size() + T6::Ref::size() + T7::Ref::size(), img) + head_pins(self.0.8, r as int + T1::Ref::size() + T2::Ref::size() + T3::Ref::size() + T4::Ref::size() + T5::Ref::size() + T6::Ref::size() + T7::Ref::size() + T8::Ref::size(), img) + head_pins(self.0.9, r as int + T1::Ref::size() + T2::Ref::size() + T3::Ref::size() + T4::Ref::size() + T5::Ref::size() + T6::Ref::size() + T7::Ref::size() + T8::Ref::size() + T9::Ref::size(), img) + head_pins(self.0.10, r as int + T1::Ref::size() + T2::Ref::size() + T3::Ref::size() + T4::Ref::size() + T5::Ref::size() + T6::Ref::size() + T7::Ref::size() + T8::Ref::size() + T9::Ref::size() + T10::Ref::size(), img) + head_pins(self.0.11, r as int + T1::Ref::size() + T2::Ref::size() + T3::Ref::size() + T4::Ref::size() + T5::Ref::size() + T6::Ref::size() + T7::Ref::size() + T8::Ref::size() + T9::Ref::size() + T10::Ref::size() + T11::Ref::size(), img) + head_pins(self.0.12, r as int + T1::Ref::size() + T2::Ref::size() + T3::Ref::size() + T4::Ref::size() + T5::Ref::size() + T6::Ref::size() + T7::Ref::size() + T8::Ref::size() + T9::Ref::size() + T10::Ref::size() + T11::Ref::size() + T12::Ref::size(), img), head_pins(self.0.13, r as int + T1::Ref::size() + T2::Ref::size() + T3::Ref::size() + T4::Ref::size() + T5::Ref::size() + T6::Ref::size() + T7::Ref::size() + T8::Ref::size() + T9::Ref::size() + T10::Ref::size() + T11::Ref::size() + T12::Ref::size() + T13::Ref::size(), img));
        lemma_holds_all_concat(other, head_pins(self.0.0, r as int, img) + head_pins(self.0.1, r as int + T1::Ref::size(), img) + head_pins(self.0.2, r as int + T1::Ref::size() + T2::Ref::size(), img) + head_pins(self.0.3, r as int + T1::Ref::size() + T2::Ref::size() + T3::Ref::size(), img) + head_pins(self.0.4, r as int + T1::Ref::size() + T2::Ref::size() + T3::Ref::size() + T4::Ref::size(), img) + head_pins(self.0.5, r as int + T1::Ref::size() + T2::Ref::size() + T3::Ref::size() + T4::Ref::size() + T5::Ref::size(), img) + head_pins(self.0.6, r as int + T1::Ref::size() + T2::Ref::size() + T3::Ref::size() + T4::Ref::size() + T5::Ref::size() + T6::Ref::size(), img) + head_pins(self.0.7, r as int + T1::Ref::size() + T2::Ref::size() + T3::Ref::size() + T4::Ref::size() + T5::Ref::size() + T6::Ref::size() + T7::Ref::size(), img) + head_pins(self.0.8, r as int + T1::Ref::size() + T2::Ref::size() + T3::Ref::size() + T4::Ref::size() + T5::Ref::size() + T6::Ref::size() + T7::Ref::size() + T8::Ref::size(), img) + head_pins(self.0.9, r as int + T1::Ref::size() + T2::Ref::size() + T3::Ref::size() + T4::Ref::size() + T5::Ref::size() + T6::Ref::size() + T7::Ref::size() + T8::Ref::size() + T9::Ref::size(), img) + head_pins(self.0.10, r as int + T1::Ref::size() + T2::Ref::size() + T3::Ref::size() + T4::Ref::size() + T5::Ref::size() + T6::Ref::size() + T7::Ref::size() + T8::Ref::size() + T9::Ref::size() + T10::Ref::size(), img) + head_pins(self.0.11, r as int + T1::Ref::size() + T2::Ref::size() + T3::Ref::size() + T4::Ref::size() + T5::Ref::size() + T6::Ref::size() + T7::Ref::size() + T8::Ref::size() + T9::Ref::size() + T10::Ref::size() + T11::Ref::size(), img), head_pins(self.0.12, r as int + T1::Ref::size() + T2::Ref::size() + T3::Ref::size() + T4::Ref::size() + T5::Ref::size() + T6::Ref::size() + T7::Ref::size() + T8::Ref::size() + T9::Ref::size() + T10::Ref::size() + T11::Ref::size() + T12::Ref::size(), img));
        lemma_holds_all_concat(other, head_pins(self.0.0, r as int, img) + head_pins(self.0.1, r as int + T1::Ref::size(), img) + head_pins(self.0.2, r as int + T1::Ref::size() + T2::Ref::size(), img) + head_pins(self.0.3, r as int + T1::Ref::size() + T2::Ref::size() + T3::Ref::size(), img) + head_pins(self.0.4, r as int + T1::Ref::size() + T2::Ref::size() + T3::Ref::size() + T4::Ref::size(), img) + head_pins(self.0.5, r as int + T1::Ref::size() + T2::Ref::size() + T3::Ref::size() + T4::Ref::size() + T5::Ref::size(), img) + head_pins(self.0.6, r as int + T1::Ref::size() + T2::Ref::size() + T3::Ref::size() + T4::Ref::size() + T5::Ref::size() + T6::Ref::size(), img) + head_pins(self.0.7, r as int + T1::Ref::size() + T2::Ref::size() + T3::Ref::size() + T4::Ref::size() + T5::Ref::size() + T6::Ref::size() + T7::Ref::size(), img) + head_pins(self.0.8, r as int + T1::Ref::size() + T2::Ref::size() + T3::Ref::size() + T4::Ref::size() + T5::Ref::size() + T6::Ref::size() + T7::Ref::size() + T8::Ref::size(), img) + head_pins(self.0.9, r as int + T1::Ref::size() + T2::Ref::size() + T3::Ref::size() + T4::Ref::size() + T5::Ref::size() + T6::Ref::size() + T7::Ref::size() + T8::Ref::size() + T9::Ref::size(), img) + head_pins(self.0.10, r as int + T1::Ref::size() + T2::Ref::size() + T3::Ref::size() + T4::Ref::size() + T5::Ref::size() + T6::Ref::size() + T7::Ref::size() + T8::Ref::size() + T9::Ref::size() + T10::Ref::size(), img), head_pins(self.0.11, r as int + T1::Ref::size() + T2::Ref::size() + T3::Ref::size() + T4::Ref::size() + T5::Ref::size() + T6::Ref::size() + T7::Ref::size() + T8::Ref::size() + T9::Ref::size() + T10::Ref::size() + T11::Ref::size(), img));
        lemma_holds_all_concat(other, head_pins(self.0.0, r as int, img) + head_pins(self.0.1, r as int + T1::Ref::size(), img) + head_pins(self.0.2, r as int + T1::Ref::size() + T2::Ref::size(), img) + head_pins(self.0.3, r as int + T1::Ref::size() + T2::Ref::size() + T3::Ref::size(), img) + head_pins(self.0.4, r as int + T1::Ref::size() + T2::Ref::size() + T3::Ref::size() + T4::Ref::size(), img) + head_pins(self.0.5, r as int + T1::Ref::size() + T2::Ref::size() + T3::Ref::size() + T4::Ref::size() + T5::Ref::size(), img) + head_pins(self.0.6, r as int + T1::Ref::size() + T2::Ref::size() + T3::Ref::size() + T4::Ref::size() + T5::Ref::size() + T6::Ref::size(), img) + head_pins(self.0.7, r as int + T1::Ref::size() + T2::Ref::size() + T3::Ref::size() + T4::Ref::size() + T5::Ref::size() + T6::Ref::size() + T7::Ref::size(), img) + head_pins(self.0.8, r as int + T1::Ref::size() + T2::Ref::size() + T3::Ref::size() + T4::Ref::size() + T5::Ref::size() + T6::Ref::size() + T7::Ref::size() + T8::Ref::size(), img) + head_pins(self.0.9, r as int + T1::Ref::size() + T2::Ref::size() + T3::Ref::size() + T4::Ref::size() + T5::Ref::size() + T6::Ref::size() + T7::Ref::size() + T8::Ref::size() + T9::Ref::size(), img), head_pins(self.0.10, r as int + T1::Ref::size() + T2::Ref::size() + T3::Ref::size() + T4::Ref::size() + T5::Ref::size() + T6::Ref::size() + T7::Ref::size() + T8::Ref::size() + T9::Ref::size() + T10::Ref::size(), img));
        lemma_holds_all_concat(other, head_pins(self.0.0, r as int, img) + head_pins(self.0.1, r as int + T1::Ref::size(), img) + head_pins(self.0.2, r as int + T1::Ref::size() + T2::Ref::size(), img) + head_pins(self.0.3, r as int + T1::Ref::size() + T2::Ref::size() + T3::Ref::size(), img) + head_pins(self.0.4, r as int + T1::Ref::size() + T2::Ref::size() + T3::Ref::size() + T4::Ref::size(), img) + head_pins(self.0.5, r as int + T1::Ref::size() + T2::Ref::size() + T3::Ref::size() + T4::Ref::size() + T5::Ref::size(), img) + head_pins(self.0.6, r as int + T1::Ref::size() + T2::Ref::size() + T3::Ref::size() + T4::Ref::size() + T5::Ref::size() + T6::Ref::size(), img) + head_pins(self.0.7, r as int + T1::Ref::size() + T2::Ref::size() + T3::Ref::size() + T4::Ref::size() + T5::Ref::size() + T6::Ref::size() + T7::Ref::size(), img) + head_pins(self.0.8, r as int + T1::Ref::size() + T2::Ref::size() + T3::Ref::size() + T4::Ref::size() + T5::Ref::size() + T6::Ref::size() + T7::Ref::size() + T8::Ref::size(), img), head_pins(self.0.9, r as int + T1::Ref::size() + T2::Ref::size() + T3::Ref::size() + T4::Ref::size() + T5::Ref::size() + T6::Ref::size() + T7::Ref::size() + T8::Ref::size() + T9::Ref::size(), img));
        lemma_holds_all_concat(other, head_pins(self.0.0, r as int, img) + head_pins(self.0.1, r as int + T1::Ref::size(), img) + head_pins(self.0.2, r as int + T1::Ref::size() + T2::Ref::size(), img) + head_pins(self.0.3, r as int + T1::Ref::size() + T2::Ref::size() + T3::Ref::size(), img) + head_pins(self.0.4, r as int + T1::Ref::size() + T2::Ref::size() + T3::Ref::size() + T4::Ref::size(), img) + head_pins(self.0.5, r as int + T1::Ref::size() + T2::Ref::size() + T3::Ref::size() + T4::Ref::size() + T5::Ref::size(), img) + head_pins(self.0.6, r as int + T1::Ref::size() + T2::Ref::size() + T3::Ref::size() + T4::Ref::size() + T5::Ref::size() + T6::Ref::size(), img) + head_pins(self.0.7, r as int + T1::Ref::size() + T2::Ref::size() + T3::Ref::size() + T4::Ref::size() + T5::Ref::size() + T6::Ref::size() + T7::Ref::size(), img), head_pins(self.0.8, r as int + T1::Ref::size() + T2::Ref::size() + T3::Ref::size() + T4::Ref::size() + T5::Ref::size() + T6::Ref::size() + T7::Ref::size() + T8::Ref::size(), img));
        lemma_holds_all_concat(other, head_pins(self.0.0, r as int, img) + head_pins(self.0.1, r as int + T1::Ref::size(), img) + head_pins(self.0.2, r as int + T1::Ref::size() + T2::Ref::size(), img) + head_pins(self.0.3, r as int + T1::Ref::size() + T2::Ref::size() + T3::Ref::size(), img) + head_pins(self.0.4, r as int + T1::Ref::size() + T2::Ref::size() + T3::Ref::size() + T4::Ref::size(), img) + head_pins(self.0.5, r as int + T1::Ref::size() + T2::Ref::size() + T3::Ref::size() + T4::Ref::size() + T5::Ref::size(), img) + head_pins(self.0.6, r as int + T1::Ref::size() + T2::Ref::size() + T3::Ref::size() + T4::Ref::size() + T5::Ref::size() + T6::Ref::size(), img), head_pins(self.0.7, r as int + T1::Ref::size() + T2::Ref::size() + T3::Ref::size() + T4::Ref::size() + T5::Ref::size() + T6::Ref::size() + T7::Ref::size(), img));
        lemma_holds_all_concat(other, head_pins(self.0.0, r as int, img) + head_pins(self.0.1, r as int + T1::Ref::size(), img) + head_pins(self.0.2, r as int + T1::Ref::size() + T2::Ref::size(), img) + head_pins(self.0.3, r as int + T1::Ref::size() + T2::Ref::size() + T3::Ref::size(), img) + head_pins(self.0.4, r as int + T1::Ref::size() + T2::Ref::size() + T3::Ref::size() + T4::Ref::size(), img) + head_pins(self.0.5, r as int + T1::Ref::size() + T2::Ref::size() + T3::Ref::size() + T4::Ref::size() + T5::Ref::size(), img), head_pins(self.0.6, r as int + T1::Ref::size() + T2::Ref::size() + T3::Ref::size() + T4::Ref::size() + T5::Ref::size() + T6::Ref::size(), img));
        lemma_holds_all_concat(other, head_pins(self.0.0, r as int, img) + head_pins(self.0.1, r as int + T1::Ref::size(), img) + head_pins(self.0.2, r as int + T1::Ref::size() + T2::Ref::size(), img) + head_pins(self.0.3, r as int + T1::Ref::size() + T2::Ref::size() + T3::Ref::size(), img) + head_pins(self.0.4, r as int + T1::Ref::size() + T2::Ref::size() + T3::Ref::size() + T4::Ref::size(), img), head_pins(self.0.5, r as int + T1::Ref::size() + T2::Ref::size() + T3::Ref::size() + T4::Ref::size() + T5::Ref::size(), img));
        lemma_holds_all_concat(other, head_pins(self.0.0, r as int, img) + head_pins(self.0.1, r as int + T1::Ref::size(), img) + head_pins(self.0.2, r as int + T1::Ref::size() + T2::Ref::size(), img) + head_pins(self.0.3, r as int + T1::Ref::size() + T2::Ref::size() + T3::Ref::size(), img), head_pins(self.0.4, r as int + T1::Ref::size() + T2::Ref::size() + T3::Ref::size() + T4::Ref::size(), img));
        lemma_holds_all_concat(other, head_pins(self.0.0, r as int, img) + head_pins(self.0.1, r as int + T1::Ref::size(), img) + head_pins(self.0.2, r as int + T1::Ref::size() + T2::Ref::size(), img), head_pins(self.0.3, r as int + T1::Ref::size() + T2::Ref::size() + T3::Ref::size(), img));
        lemma_holds_all_concat(other, head_pins(self.0.0, r as int, img) + head_pins(self.0.1, r as int + T1::Ref::size(), img), head_pins(self.0.2, r as int + T1::Ref::size() + T2::Ref::size(), img));
        lemma_holds_all_concat(other, head_pins(self.0.0, r as int, img), head_pins(self.0.1, r as int + T1::Ref::size(), img));
        lemma_head_deepen(self.0.0, r as int, img, other, lo, hi);
        lemma_head_deepen(self.0.1, r as int + T1::Ref::size(), img, other, lo, hi);
        lemma_head_deepen(self.0.2, r as int + T1::Ref::size() + T2::Ref::size(), img, other, lo, hi);
        lemma_head_deepen(self.0.3, r as int + T1::Ref::size() + T2::Ref::size() + T3::Ref::size(), img, other, lo, hi);
        lemma_head_deepen(self.0.4, r as int + T1::Ref::size() + T2::Ref::size() + T3::Ref::size() + T4::Ref::size(), img, other, lo, hi);
        lemma_head_deepen(self.0.5, r as int + T1::Ref::size() + T2::Ref::size() + T3::Ref::size() + T4::Ref::size() + T5::Ref::size(), img, other, lo, hi);
        lemma_head_deepen(self.0.6, r as int + T1::Ref::size() + T2::Ref::size() + T3::Ref::size() + T4::Ref::size() + T5::Ref::size() + T6::Ref::size(), img, other, lo, hi);
        lemma_head_deepen(self.0.7, r as int + T1::Ref::size() + T2::Ref::size() + T3::Ref::size() + T4::Ref::size() + T5::Ref::size() + T6::Ref::size() + T7::Ref::size(), img, other, lo, hi);
        lemma_head_deepen(self.0.8, r as int + T1::Ref::size() + T2::Ref::size() + T3::Ref::size() + T4::Ref::size() + T5::Ref::size() + T6::Ref::size() + T7::Ref::size() + T8::Ref::size(), img, other, lo, hi);
        lemma_head_deepen(self.0.9, r as int + T1::Ref::size() + T2::Ref::size() + T3::Ref::size() + T4::Ref::size() + T5::Ref::size() + T6::Ref::size() + T7::Ref::size() + T8::Ref::size() + T9::Ref::size(), img, other, lo, hi);
        lemma_head_deepen(self.0.10, r as int + T1::Ref::size() + T2::Ref::size() + T3::Ref::size() + T4::Ref::size() + T5::Ref::size() + T6::Ref::size() + T7::Ref::size() + T8::Ref::size() + T9::Ref::size() + T10::Ref::size(), img, other, lo, hi);
        lemma_head_deepen(self.0.11, r as int + T1::Ref::size() + T2::Ref::size() + T3::Ref::size() + T4::Ref::size() + T5::Ref::size() + T6::Ref::size() + T7::Ref::size() + T8::Ref::size() + T9::Ref::size() + T10::Ref::size() + T11::Ref::size(), img, other, lo, hi);
        lemma_head_deepen(self.0.12, r as int + T1::Ref::size() + T2::Ref::size() + T3::Ref::size() + T4::Ref::size() + T5::Ref::size() + T6::Ref::size() + T7::Ref::size() + T8::Ref::size() + T9::Ref::size() + T10::Ref::size() + T11::Ref::size() + T12::Ref::size(), img, other, lo, hi);
        lemma_head_deepen(self.0.13, r as int + T1::Ref::size() + T2::Ref::size() + T3::Ref::size() + T4::Ref::size() + T5::Ref::size() + T6::Ref::size() + T7::Ref::size() + T8::Ref::size() + T9::Ref::size() + T10::Ref::size() + T11::Ref::size() + T12::Ref::size() + T13::Ref::size(), img, other, lo, hi);
    }

    proof fn lemma_frame(&self, r: usize, img: Image, other: Image, lo: int, hi: int, deep: bool) {
        lemma_head_frame(self.0.0, r as int, img, other, lo, hi, deep);
        lemma_head_frame(self.0.1, r as int + T1::Ref::size(), img, other, lo, hi, deep);
        lemma_head_frame(self.0.2, r as int + T1::Ref::size() + T2::Ref::size(), img, other, lo, hi, deep);
        lemma_head_frame(self.0.3, r as int + T1::Ref::size() + T2::Ref::size() + T3::Ref::size(), img, other, lo, hi, deep);
        lemma_head_frame(self.0.4, r as int + T1::Ref::size() + T2::Ref::size() + T3::Ref::size() + T4::Ref::size(), img, other, lo, hi, deep);
        lemma_head_frame(self.0.5, r as int + T1::Ref::size() + T2::Ref::size() + T3::Ref::size() + T4::Ref::size() + T5::Ref::size(), img, other, lo, hi, deep);
        lemma_head_frame(self.0.6, r as int + T1::Ref::size() + T2::Ref::size() + T3::Ref::size() + T4::Ref::size() + T5::Ref::size() + T6::Ref::size(), img, other, lo, hi, deep);
        lemma_head_frame(self.0.7, r as int + T1::Ref::size() + T2::Ref::size() + T3::Ref::size() + T4::Ref::size() + T5::Ref::size() + T6::Ref::size() + T7::Ref::size(), img, other, lo, hi, deep);
        lemma_head_frame(self.0.8, r as int + T1::Ref::size() + T2::Ref::size() + T3::Ref::size() + T4::Ref::size() + T5::Ref::size() + T6::Ref::size() + T7::Ref::size() + T8::Ref::size(), img, other, lo, hi, deep);
        lemma_head_frame(self.0.9, r as int + T1::Ref::size() + T2::Ref::size() + T3::Ref::size() + T4::Ref::size() + T5::Ref::size() + T6::Ref::size() + T7::Ref::size() + T8::Ref::size() + T9::Ref::size(), img, other, lo, hi, deep);
        lemma_head_frame(self.0.10, r as int + T1::Ref::size() + T2::Ref::size() + T3::Ref::size() + T4::Ref::size() + T5::Ref::size() + T6::Ref::size() + T7::Ref::size() + T8::Ref::size() + T9::Ref::size() + T10::Ref::size(), img, other, lo, hi, deep);
        lemma_head_frame(self.0.11, r as int + T1::Ref::size() + T2::Ref::size() + T3::Ref::size() + T4::Ref::size() + T5::Ref::size() + T6::Ref::size() + T7::Ref::size() + T8::Ref::size() + T9::Ref::size() + T10::Ref::size() + T11::Ref::size(), img, other, lo, hi, deep);
        lemma_head_frame(self.0.12, r as int + T1::Ref::size() + T2::Ref::size() + T3::Ref::size() + T4::Ref::size() + T5::Ref::size() + T6::Ref::size() + T7::Ref::size() + T8::Ref::size() + T9::Ref::size() + T10::Ref::size() + T11::Ref::size() + T12::Ref::size(), img, other, lo, hi, deep);
        lemma_head_frame(self.0.13, r as int + T1::Ref::size() + T2::Ref::size() + T3::Ref::size() + T4::Ref::size() + T5::Ref::size() + T6::Ref::size() + T7::Ref::size() + T8::Ref::size() + T9::Ref::size() + T10::Ref::size() + T11::Ref::size() + T12::Ref::size() + T13::Ref::size(), img, other, lo, hi, deep);
    }

    proof fn lemma_widen(
        &self,
        r: usize,
        img: Image,
        lo: int,
        hi: int,
        wide_lo: int,
        wide_hi: int,
        deep: bool,
    ) {
        match head_at::<T1::Ref>(img, r as int) {
            Some(head) => {
                self.0.0.lemma_widen(head, img, lo, hi, wide_lo, wide_hi, deep);
            },
            None => {},
        }
        match head_at::<T2::Ref>(img, r as int + T1::Ref::size()) {
            Some(head) => {
                self.0.1.lemma_widen(head, img, lo, hi, wide_lo, wide_hi, deep);
            },
            None => {},
        }
        match head_at::<T3::Ref>(img, r as int + T1::Ref::size() + T2::Ref::size()) {
            Some(head) => {
                self.0.2.lemma_widen(head, img, lo, hi, wide_lo, wide_hi, deep);
            },
            None => {},
        }
        match head_at::<T4::Ref>(img, r as int + T1::Ref::size() + T2::Ref::size() + T3::Ref::size()) {
            Some(head) => {
                self.0.3.lemma_widen(head, img, lo, hi, wide_lo, wide_hi, deep);
            },
            None => {},
        }
        match head_at::<T5::Ref>(img, r as int + T1::Ref::size() + T2::Ref::size() + T3::Ref::size() + T4::Ref::size()) {
            Some(head) => {
                self.0.4.lemma_widen(head, img, lo, hi, wide_lo, wide_hi, deep);
            },
            None => {},
        }
        match head_at::<T6::Ref>(img, r as int + T1::Ref::size() + T2::Ref::size() + T3::Ref::size() + T4::Ref::size() + T5::Ref::size()) {
            Some(head) => {
                self.0.5.lemma_widen(head, img, lo, hi, wide_lo, wide_hi, deep);
            },
            None => {},
        }
        match head_at::<T7::Ref>(img, r as int + T1::Ref::size() + T2::Ref::size() + T3::Ref::size() + T4::Ref::size() + T5::Ref::size() + T6::Ref::size()) {
            Some(head) => {
                self.0.6.lemma_widen(head, img, lo, hi, wide_lo, wide_hi, deep);
            },
            None => {},
        }
        match head_at::<T8::Ref>(img, r as int + T1::Ref::size() + T2::Ref::size() + T3::Ref::size() + T4::Ref::size() + T5::Ref::size() + T6::Ref::size() + T7::Ref::size()) {
            Some(head) => {
                self.0.7.lemma_widen(head, img, lo, hi, wide_lo, wide_hi, deep);
            },
            None => {},
        }
        match head_at::<T9::Ref>(img, r as int + T1::Ref::size() + T2::Ref::size() + T3::Ref::size() + T4::Ref::size() + T5::Ref::size() + T6::Ref::size() + T7::Ref::size() + T8::Ref::size()) {
            Some(head) => {
                self.0.8.lemma_widen(head, img, lo, hi, wide_lo, wide_hi, deep);
            },
            None => {},
        }
        match head_at::<T10::Ref>(img, r as int + T1::Ref::size() + T2::Ref::size() + T3::Ref::size() + T4::Ref::size() + T5::Ref::size() + T6::Ref::size() + T7::Ref::size() + T8::Ref::size() + T9::Ref::size()) {
            Some(head) => {
                self.0.9.lemma_widen(head, img, lo, hi, wide_lo, wide_hi, deep);
            },
            None => {},
        }
        match head_at::<T11::Ref>(img, r as int + T1::Ref::size() + T2::Ref::size() + T3::Ref::size() + T4::Ref::size() + T5::Ref::size() + T6::Ref::size() + T7::Ref::size() + T8::Ref::size() + T9::Ref::size() + T10::Ref::size()) {
            Some(head) => {
                self.0.10.lemma_widen(head, img, lo, hi, wide_lo, wide_hi, deep);
            },
            None => {},
        }
        match head_at::<T12::Ref>(img, r as int + T1::Ref::size() + T2::Ref::size() + T3::Ref::size() + T4::Ref::size() + T5::Ref::size() + T6::Ref::size() + T7::Ref::size() + T8::Ref::size() + T9::Ref::size() + T10::Ref::size() + T11::Ref::size()) {
            Some(head) => {
                self.0.11.lemma_widen(head, img, lo, hi, wide_lo, wide_hi, deep);
            },
            None => {},
        }
        match head_at::<T13::Ref>(img, r as int + T1::Ref::size() + T2::Ref::size() + T3::Ref::size() + T4::Ref::size() + T5::Ref::size() + T6::Ref::size() + T7::Ref::size() + T8::Ref::size() + T9::Ref::size() + T10::Ref::size() + T11::Ref::size() + T12::Ref::size()) {
            Some(head) => {
                self.0.12.lemma_widen(head, img, lo, hi, wide_lo, wide_hi, deep);
            },
            None => {},
        }
        match head_at::<T14::Ref>(img, r as int + T1::Ref::size() + T2::Ref::size() + T3::Ref::size() + T4::Ref::size() + T5::Ref::size() + T6::Ref::size() + T7::Ref::size() + T8::Ref::size() + T9::Ref::size() + T10::Ref::size() + T11::Ref::size() + T12::Ref::size() + T13::Ref::size()) {
            Some(head) => {
                self.0.13.lemma_widen(head, img, lo, hi, wide_lo, wide_hi, deep);
            },
            None => {},
        }
    }

    fn mem_type_of() -> (t: MemType) {
        MemType::Complex
    }

    fn to_size(&self, acc: &mut usize) {
        self.0.to_size(acc);
        *acc = *acc + T1::Ref::size_of();
        *acc = *acc + T2::Ref::size_of();
        *acc = *acc + T3::Ref::size_of();
        *acc = *acc + T4::Ref::size_of();
        *acc = *acc + T5::Ref::size_of();
        *acc = *acc + T6::Ref::size_of();
        *acc = *acc + T7::Ref::size_of();
        *acc = *acc + T8::Ref::size_of();
        *acc = *acc + T9::Ref::size_of();
        *acc = *acc + T10::Ref::size_of();
        *acc = *acc + T11::Ref::size_of();
        *acc = *acc + T12::Ref::size_of();
        *acc = *acc + T13::Ref::size_of();
        *acc = *acc + T14::Ref::size_of();
    }

    fn checked_size(&self, acc: usize) -> (sum: Option<usize>) {
        let mut sum = match self.0.checked_size(acc) {
            Some(next) => next,
            None => {
                return None;
            },
        };
        let size0 = T1::Ref::size_of();
        if size0 > usize::MAX - sum {
            return None;
        }
        sum = sum + size0;
        let size1 = T2::Ref::size_of();
        if size1 > usize::MAX - sum {
            return None;
        }
        sum = sum + size1;
        let size2 = T3::Ref::size_of();
        if size2 > usize::MAX - sum {
            return None;
        }
        sum = sum + size2;
        let size3 = T4::Ref::size_of();
        if size3 > usize::MAX - sum {
            return None;
        }
        sum = sum + size3;
        let size4 = T5::Ref::size_of();
        if size4 > usize::MAX - sum {
            return None;
        }
        sum = sum + size4;
        let size5 = T6::Ref::size_of();
        if size5 > usize::MAX - sum {
            return None;
        }
        sum = sum + size5;
        let size6 = T7::Ref::size_of();
        if size6 > usize::MAX - sum {
            return None;
        }
        sum = sum + size6;
        let size7 = T8::Ref::size_of();
        if size7 > usize::MAX - sum {
            return None;
        }
        sum = sum + size7;
        let size8 = T9::Ref::size_of();
        if size8 > usize::MAX - sum {
            return None;
        }
        sum = sum + size8;
        let size9 = T10::Ref::size_of();
        if size9 > usize::MAX - sum {
            return None;
        }
        sum = sum + size9;
        let size10 = T11::Ref::size_of();
        if size10 > usize::MAX - sum {
            return None;
        }
        sum = sum + size10;
        let size11 = T12::Ref::size_of();
        if size11 > usize::MAX - sum {
            return None;
        }
        sum = sum + size11;
        let size12 = T13::Ref::size_of();
        if size12 > usize::MAX - sum {
            return None;
        }
        sum = sum + size12;
        let size13 = T14::Ref::size_of();
        if size13 > usize::MAX - sum {
            return None;
        }
        sum = sum + size13;
        Some(sum)
    }

    #[verifier::rlimit(40)]
    fn to_ref(&self, writer: &mut Writer) -> (r: usize) {
        let ghost base = writer.base() as int;
        let ghost w0 = *writer;
        proof {
            writer.lemma_bounds();
        }
        let heads = self.0.to_ref(writer);
        let ghost v0 = *writer;
        proof {
            writer.lemma_bounds();
        }
        let ptr = writer.as_ptr();
        writer.put(&heads.0);
        let ghost v1 = *writer;
        proof {
            writer.lemma_bounds();
            T1::Ref::lemma_size();
            heads.0.lemma_layout();
            lemma_image_put(v0, v1, heads.0.encode());
        }
        writer.put(&heads.1);
        let ghost v2 = *writer;
        proof {
            writer.lemma_bounds();
            T2::Ref::lemma_size();
            heads.1.lemma_layout();
            lemma_image_put(v1, v2, heads.1.encode());
        }
        writer.put(&heads.2);
        let ghost v3 = *writer;
        proof {
            writer.lemma_bounds();
            T3::Ref::lemma_size();
            heads.2.lemma_layout();
            lemma_image_put(v2, v3, heads.2.encode());
        }
        writer.put(&heads.3);
        let ghost v4 = *writer;
        proof {
            writer.lemma_bounds();
            T4::Ref::lemma_size();
            heads.3.lemma_layout();
            lemma_image_put(v3, v4, heads.3.encode());
        }
        writer.put(&heads.4);
        let ghost v5 = *writer;
        proof {
            writer.lemma_bounds();
            T5::Ref::lemma_size();
            heads.4.lemma_layout();
            lemma_image_put(v4, v5, heads.4.encode());
        }
        writer.put(&heads.5);
        let ghost v6 = *writer;
        proof {
            writer.lemma_bounds();
            T6::Ref::lemma_size();
            heads.5.lemma_layout();
            lemma_image_put(v5, v6, heads.5.encode());
        }
        writer.put(&heads.6);
        let ghost v7 = *writer;
        proof {
            writer.lemma_bounds();
            T7::Ref::lemma_size();
            heads.6.lemma_layout();
            lemma_image_put(v6, v7, heads.6.encode());
        }
        writer.put(&heads.7);
        let ghost v8 = *writer;
        proof {
            writer.lemma_bounds();
            T8::Ref::lemma_size();
            heads.7.lemma_layout();
            lemma_image_put(v7, v8, heads.7.encode());
        }
        writer.put(&heads.8);
        let ghost v9 = *writer;
        proof {
            writer.lemma_bounds();
            T9::Ref::lemma_size();
            heads.8.lemma_layout();
            lemma_image_put(v8, v9, heads.8.encode());
        }
        writer.put(&heads.9);
        let ghost v10 = *writer;
        proof {
            writer.lemma_bounds();
            T10::Ref::lemma_size();
            heads.9.lemma_layout();
            lemma_image_put(v9, v10, heads.9.encode());
        }
        writer.put(&heads.10);
        let ghost v11 = *writer;
        proof {
            writer.lemma_bounds();
            T11::Ref::lemma_size();
            heads.10.lemma_layout();
            lemma_image_put(v10, v11, heads.10.encode());
        }
        writer.put(&heads.11);
        let ghost v12 = *writer;
        proof {
            writer.lemma_bounds();
            T12::Ref::lemma_size();
            heads.11.lemma_layout();
            lemma_image_put(v11, v12, heads.11.encode());
        }
        writer.put(&heads.12);
        let ghost v13 = *writer;
        proof {
            writer.lemma_bounds();
            T13::Ref::lemma_size();
            heads.12.lemma_layout();
            lemma_image_put(v12, v13, heads.12.encode());
        }
        writer.put(&heads.13);
        let ghost v14 = *writer;
        proof {
            writer.lemma_bounds();
            T14::Ref::lemma_size();
            heads.13.lemma_layout();
            lemma_image_put(v13, v14, heads.13.encode());
        }
        proof {
            lemma_keeps_same(v14.arena(), v14.cursor());
            lemma_keeps_trans(v13.arena(), v14.arena(), v14.arena(), v13.cursor(), v14.cursor());
            lemma_keeps_trans(v12.arena(), v13.arena(), v14.arena(), v12.cursor(), v13.cursor());
            lemma_keeps_trans(v11.arena(), v12.arena(), v14.arena(), v11.cursor(), v12.cursor());
            lemma_keeps_trans(v10.arena(), v11.arena(), v14.arena(), v10.cursor(), v11.cursor());
            lemma_keeps_trans(v9.arena(), v10.arena(), v14.arena(), v9.cursor(), v10.cursor());
            lemma_keeps_trans(v8.arena(), v9.arena(), v14.arena(), v8.cursor(), v9.cursor());
            lemma_keeps_trans(v7.arena(), v8.arena(), v14.arena(), v7.cursor(), v8.cursor());
            lemma_keeps_trans(v6.arena(), v7.arena(), v14.arena(), v6.cursor(), v7.cursor());
            lemma_keeps_trans(v5.arena(), v6.arena(), v14.arena(), v5.cursor(), v6.cursor());
            lemma_keeps_trans(v4.arena(), v5.arena(), v14.arena(), v4.cursor(), v5.cursor());
            lemma_keeps_trans(v3.arena(), v4.arena(), v14.arena(), v3.cursor(), v4.cursor());
            lemma_keeps_trans(v2.arena(), v3.arena(), v14.arena(), v2.cursor(), v3.cursor());
            lemma_keeps_trans(v1.arena(), v2.arena(), v14.arena(), v1.cursor(), v2.cursor());
            lemma_keeps_trans(v0.arena(), v1.arena(), v14.arena(), v0.cursor(), v1.cursor());
            lemma_keeps_trans(w0.arena(), v0.arena(), v14.arena(), w0.cursor(), v0.cursor());
            lemma_view_stays(&self.0.0, heads.0, v0, v14, base + w0.cursor(), base + v0.cursor());
            self.0.0.lemma_widen(heads.0, v14.image(), base + w0.cursor(), base + v0.cursor(), base + w0.cursor(), base + v14.cursor(), false);
            lemma_head_put(self.0.0, heads.0, v0, v1, v14, ptr as int, base + w0.cursor(), base + v14.cursor());
            lemma_view_stays(&self.0.1, heads.1, v0, v14, base + w0.cursor(), base + v0.cursor());
            self.0.1.lemma_widen(heads.1, v14.image(), base + w0.cursor(), base + v0.cursor(), base + w0.cursor(), base + v14.cursor(), false);
            lemma_head_put(self.0.1, heads.1, v1, v2, v14, ptr as int + T1::Ref::size(), base + w0.cursor(), base + v14.cursor());
            lemma_view_stays(&self.0.2, heads.2, v0, v14, base + w0.cursor(), base + v0.cursor());
            self.0.2.lemma_widen(heads.2, v14.image(), base + w0.cursor(), base + v0.cursor(), base + w0.cursor(), base + v14.cursor(), false);
            lemma_head_put(self.0.2, heads.2, v2, v3, v14, ptr as int + T1::Ref::size() + T2::Ref::size(), base + w0.cursor(), base + v14.cursor());
            lemma_view_stays(&self.0.3, heads.3, v0, v14, base + w0.cursor(), base + v0.cursor());
            self.0.3.lemma_widen(heads.3, v14.image(), base + w0.cursor(), base + v0.cursor(), base + w0.cursor(), base + v14.cursor(), false);
            lemma_head_put(self.0.3, heads.3, v3, v4, v14, ptr as int + T1::Ref::size() + T2::Ref::size() + T3::Ref::size(), base + w0.cursor(), base + v14.cursor());
            lemma_view_stays(&self.0.4, heads.4, v0, v14, base + w0.cursor(), base + v0.cursor());
            self.0.4.lemma_widen(heads.4, v14.image(), base + w0.cursor(), base + v0.cursor(), base + w0.cursor(), base + v14.cursor(), false);
            lemma_head_put(self.0.4, heads.4, v4, v5, v14, ptr as int + T1::Ref::size() + T2::Ref::size() + T3::Ref::size() + T4::Ref::size(), base + w0.cursor(), base + v14.cursor());
            lemma_view_stays(&self.0.5, heads.5, v0, v14, base + w0.cursor(), base + v0.cursor());
            self.0.5.lemma_widen(heads.5, v14.image(), base + w0.cursor(), base + v0.cursor(), base + w0.cursor(), base + v14.cursor(), false);
            lemma_head_put(self.0.5, heads.5, v5, v6, v14, ptr as int + T1::Ref::size() + T2::Ref::size() + T3::Ref::size() + T4::Ref::size() + T5::Ref::size(), base + w0.cursor(), base + v14.cursor());
            lemma_view_stays(&self.0.6, heads.6, v0, v14, base + w0.cursor(), base + v0.cursor());
            self.0.6.lemma_widen(heads.6, v14.image(), base + w0.cursor(), base + v0.cursor(), base + w0.cursor(), base + v14.cursor(), false);
            lemma_head_put(self.0.6, heads.6, v6, v7, v14, ptr as int + T1::Ref::size() + T2::Ref::size() + T3::Ref::size() + T4::Ref::size() + T5::Ref::size() + T6::Ref::size(), base + w0.cursor(), base + v14.cursor());
            lemma_view_stays(&self.0.7, heads.7, v0, v14, base + w0.cursor(), base + v0.cursor());
            self.0.7.lemma_widen(heads.7, v14.image(), base + w0.cursor(), base + v0.cursor(), base + w0.cursor(), base + v14.cursor(), false);
            lemma_head_put(self.0.7, heads.7, v7, v8, v14, ptr as int + T1::Ref::size() + T2::Ref::size() + T3::Ref::size() + T4::Ref::size() + T5::Ref::size() + T6::Ref::size() + T7::Ref::size(), base + w0.cursor(), base + v14.cursor());
            lemma_view_stays(&self.0.8, heads.8, v0, v14, base + w0.cursor(), base + v0.cursor());
            self.0.8.lemma_widen(heads.8, v14.image(), base + w0.cursor(), base + v0.cursor(), base + w0.cursor(), base + v14.cursor(), false);
            lemma_head_put(self.0.8, heads.8, v8, v9, v14, ptr as int + T1::Ref::size() + T2::Ref::size() + T3::Ref::size() + T4::Ref::size() + T5::Ref::size() + T6::Ref::size() + T7::Ref::size() + T8::Ref::size(), base + w0.cursor(), base + v14.cursor());
            lemma_view_stays(&self.0.9, heads.9, v0, v14, base + w0.cursor(), base + v0.cursor());
            self.0.9.lemma_widen(heads.9, v14.image(), base + w0.cursor(), base + v0.cursor(), base + w0.cursor(), base + v14.cursor(), false);
            lemma_head_put(self.0.9, heads.9, v9, v10, v14, ptr as int + T1::Ref::size() + T2::Ref::size() + T3::Ref::size() + T4::Ref::size() + T5::Ref::size() + T6::Ref::size() + T7::Ref::size() + T8::Ref::size() + T9::Ref::size(), base + w0.cursor(), base + v14.cursor());
            lemma_view_stays(&self.0.10, heads.10, v0, v14, base + w0.cursor(), base + v0.cursor());
            self.0.10.lemma_widen(heads.10, v14.image(), base + w0.cursor(), base + v0.cursor(), base + w0.cursor(), base + v14.cursor(), false);
            lemma_head_put(self.0.10, heads.10, v10, v11, v14, ptr as int + T1::Ref::size() + T2::Ref::size() + T3::Ref::size() + T4::Ref::size() + T5::Ref::size() + T6::Ref::size() + T7::Ref::size() + T8::Ref::size() + T9::Ref::size() + T10::Ref::size(), base + w0.cursor(), base + v14.cursor());
            lemma_view_stays(&self.0.11, heads.11, v0, v14, base + w0.cursor(), base + v0.cursor());
            self.0.11.lemma_widen(heads.11, v14.image(), base + w0.cursor(), base + v0.cursor(), base + w0.cursor(), base + v14.cursor(), false);
            lemma_head_put(self.0.11, heads.11, v11, v12, v14, ptr as int + T1::Ref::size() + T2::Ref::size() + T3::Ref::size() + T4::Ref::size() + T5::Ref::size() + T6::Ref::size() + T7::Ref::size() + T8::Ref::size() + T9::Ref::size() + T10::Ref::size() + T11::Ref::size(), base + w0.cursor(), base + v14.cursor());
            lemma_view_stays(&self.0.12, heads.12, v0, v14, base + w0.cursor(), base + v0.cursor());
            self.0.12.lemma_widen(heads.12, v14.image(), base + w0.cursor(), base + v0.cursor(), base + w0.cursor(), base + v14.cursor(), false);
            lemma_head_put(self.0.12, heads.12, v12, v13, v14, ptr as int + T1::Ref::size() + T2::Ref::size() + T3::Ref::size() + T4::Ref::size() + T5::Ref::size() + T6::Ref::size() + T7::Ref::size() + T8::Ref::size() + T9::Ref::size() + T10::Ref::size() + T11::Ref::size() + T12::Ref::size(), base + w0.cursor(), base + v14.cursor());
            lemma_view_stays(&self.0.13, heads.13, v0, v14, base + w0.cursor(), base + v0.cursor());
            self.0.13.lemma_widen(heads.13, v14.image(), base + w0.cursor(), base + v0.cursor(), base + w0.cursor(), base + v14.cursor(), false);
            lemma_head_put(self.0.13, heads.13, v13, v14, v14, ptr as int + T1::Ref::size() + T2::Ref::size() + T3::Ref::size() + T4::Ref::size() + T5::Ref::size() + T6::Ref::size() + T7::Ref::size() + T8::Ref::size() + T9::Ref::size() + T10::Ref::size() + T11::Ref::size() + T12::Ref::size() + T13::Ref::size(), base + w0.cursor(), base + v14.cursor());
        }
        ptr
    }

    fn pinned<M: MemoryRead>(&self, r: &usize, mem: &M, out: &mut Vec<Segment>) {
        let mut addr: usize = *r;
        match mem.read(addr, T1::Ref::size_of()) {
            Some(bytes) => {
                let head = T1::Ref::from_bytes(&bytes);
                self.0.0.pinned(&head, mem, out);
            },
            None => {
                assert(false);
                return ;
            },
        }
        addr = addr + T1::Ref::size_of();
        match mem.read(addr, T2::Ref::size_of()) {
            Some(bytes) => {
                let head = T2::Ref::from_bytes(&bytes);
                self.0.1.pinned(&head, mem, out);
            },
            None => {
                assert(false);
                return ;
            },
        }
        addr = addr + T2::Ref::size_of();
        match mem.read(addr, T3::Ref::size_of()) {
            Some(bytes) => {
                let head = T3::Ref::from_bytes(&bytes);
                self.0.2.pinned(&head, mem, out);
            },
            None => {
                assert(false);
                return ;
            },
        }
        addr = addr + T3::Ref::size_of();
        match mem.read(addr, T4::Ref::size_of()) {
            Some(bytes) => {
                let head = T4::Ref::from_bytes(&bytes);
                self.0.3.pinned(&head, mem, out);
            },
            None => {
                assert(false);
                return ;
            },
        }
        addr = addr + T4::Ref::size_of();
        match mem.read(addr, T5::Ref::size_of()) {
            Some(bytes) => {
                let head = T5::Ref::from_bytes(&bytes);
                self.0.4.pinned(&head, mem, out);
            },
            None => {
                assert(false);
                return ;
            },
        }
        addr = addr + T5::Ref::size_of();
        match mem.read(addr, T6::Ref::size_of()) {
            Some(bytes) => {
                let head = T6::Ref::from_bytes(&bytes);
                self.0.5.pinned(&head, mem, out);
            },
            None => {
                assert(false);
                return ;
            },
        }
        addr = addr + T6::Ref::size_of();
        match mem.read(addr, T7::Ref::size_of()) {
            Some(bytes) => {
                let head = T7::Ref::from_bytes(&bytes);
                self.0.6.pinned(&head, mem, out);
            },
            None => {
                assert(false);
                return ;
            },
        }
        addr = addr + T7::Ref::size_of();
        match mem.read(addr, T8::Ref::size_of()) {
            Some(bytes) => {
                let head = T8::Ref::from_bytes(&bytes);
                self.0.7.pinned(&head, mem, out);
            },
            None => {
                assert(false);
                return ;
            },
        }
        addr = addr + T8::Ref::size_of();
        match mem.read(addr, T9::Ref::size_of()) {
            Some(bytes) => {
                let head = T9::Ref::from_bytes(&bytes);
                self.0.8.pinned(&head, mem, out);
            },
            None => {
                assert(false);
                return ;
            },
        }
        addr = addr + T9::Ref::size_of();
        match mem.read(addr, T10::Ref::size_of()) {
            Some(bytes) => {
                let head = T10::Ref::from_bytes(&bytes);
                self.0.9.pinned(&head, mem, out);
            },
            None => {
                assert(false);
                return ;
            },
        }
        addr = addr + T10::Ref::size_of();
        match mem.read(addr, T11::Ref::size_of()) {
            Some(bytes) => {
                let head = T11::Ref::from_bytes(&bytes);
                self.0.10.pinned(&head, mem, out);
            },
            None => {
                assert(false);
                return ;
            },
        }
        addr = addr + T11::Ref::size_of();
        match mem.read(addr, T12::Ref::size_of()) {
            Some(bytes) => {
                let head = T12::Ref::from_bytes(&bytes);
                self.0.11.pinned(&head, mem, out);
            },
            None => {
                assert(false);
                return ;
            },
        }
        addr = addr + T12::Ref::size_of();
        match mem.read(addr, T13::Ref::size_of()) {
            Some(bytes) => {
                let head = T13::Ref::from_bytes(&bytes);
                self.0.12.pinned(&head, mem, out);
            },
            None => {
                assert(false);
                return ;
            },
        }
        addr = addr + T13::Ref::size_of();
        match mem.read(addr, T14::Ref::size_of()) {
            Some(bytes) => {
                let head = T14::Ref::from_bytes(&bytes);
                self.0.13.pinned(&head, mem, out);
            },
            None => {
                assert(false);
                return ;
            },
        }
        addr = addr + T14::Ref::size_of();
        assert(pieces_of(out@) =~= pieces_of(old(out)@) + self.pins(*r, mem.image()));
    }
}

impl<T1: ToRef, T2: ToRef, T3: ToRef, T4: ToRef, T5: ToRef, T6: ToRef, T7: ToRef, T8: ToRef, T9: ToRef, T10: ToRef, T11: ToRef, T12: ToRef, T13: ToRef, T14: ToRef, T15: ToRef> ToRef for CopyStruct<(T1, T2, T3, T4, T5, T6, T7, T8, T9, T10, T11, T12, T13, T14, T15)> where T1::Ref: Pod, T2::Ref: Pod, T3::Ref: Pod, T4::Ref: Pod, T5::Ref: Pod, T6::Ref: Pod, T7::Ref: Pod, T8::Ref: Pod, T9::Ref: Pod, T10::Ref: Pod, T11::Ref: Pod, T12::Ref: Pod, T13::Ref: Pod, T14::Ref: Pod, T15::Ref: Pod {
    type Ref = usize;

    open spec fn mem_type() -> MemType {
        MemType::Complex
    }

    open spec fn size(&self) -> nat {
        self.0.size() + T1::Ref::size() + T2::Ref::size() + T3::Ref::size() + T4::Ref::size() + T5::Ref::size() + T6::Ref::size() + T7::Ref::size() + T8::Ref::size() + T9::Ref::size() + T10::Ref::size() + T11::Ref::size() + T12::Ref::size() + T13::Ref::size() + T14::Ref::size() + T15::Ref::size()
    }

    open spec fn views(&self, r: usize, img: Image, lo: int, hi: int, deep: bool) -> bool {
        &&& r + T1::Ref::size() + T2::Ref::size() + T3::Ref::size() + T4::Ref::size() + T5::Ref::size() + T6::Ref::size() + T7::Ref::size() + T8::Ref::size() + T9::Ref::size() + T10::Ref::size() + T11::Ref::size() + T12::Ref::size() + T13::Ref::size() + T14::Ref::size() + T15::Ref::size() <= usize::MAX
        &&& T1::Ref::size() + T2::Ref::size() + T3::Ref::size() + T4::Ref::size() + T5::Ref::size() + T6::Ref::size() + T7::Ref::size() + T8::Ref::size() + T9::Ref::size() + T10::Ref::size() + T11::Ref::size() + T12::Ref::size() + T13::Ref::size() + T14::Ref::size() + T15::Ref::size() > 0 ==> lo <= r && r + T1::Ref::size() + T2::Ref::size() + T3::Ref::size() + T4::Ref::size() + T5::Ref::size() + T6::Ref::size() + T7::Ref::size() + T8::Ref::size() + T9::Ref::size() + T10::Ref::size() + T11::Ref::size() + T12::Ref::size() + T13::Ref::size() + T14::Ref::size() + T15::Ref::size() <= hi
        &&& head_views(self.0.0, r as int, img, lo, hi, deep)
        &&& head_views(self.0.1, r as int + T1::Ref::size(), img, lo, hi, deep)
        &&& head_views(self.0.2, r as int + T1::Ref::size() + T2::Ref::size(), img, lo, hi, deep)
        &&& head_views(self.0.3, r as int + T1::Ref::size() + T2::Ref::size() + T3::Ref::size(), img, lo, hi, deep)
        &&& head_views(self.0.4, r as int + T1::Ref::size() + T2::Ref::size() + T3::Ref::size() + T4::Ref::size(), img, lo, hi, deep)
        &&& head_views(self.0.5, r as int + T1::Ref::size() + T2::Ref::size() + T3::Ref::size() + T4::Ref::size() + T5::Ref::size(), img, lo, hi, deep)
        &&& head_views(self.0.6, r as int + T1::Ref::size() + T2::Ref::size() + T3::Ref::size() + T4::Ref::size() + T5::Ref::size() + T6::Ref::size(), img, lo, hi, deep)
        &&& head_views(self.0.7, r as int + T1::Ref::size() + T2::Ref::size() + T3::Ref::size() + T4::Ref::size() + T5::Ref::size() + T6::Ref::size() + T7::Ref::size(), img, lo, hi, deep)
        &&& head_views(self.0.8, r as int + T1::Ref::size() + T2::Ref::size() + T3::Ref::size() + T4::Ref::size() + T5::Ref::size() + T6::Ref::size() + T7::Ref::size() + T8::Ref::size(), img, lo, hi, deep)
        &&& head_views(self.0.9, r as int + T1::Ref::size() + T2::Ref::size() + T3::Ref::size() + T4::Ref::size() + T5::Ref::size() + T6::Ref::size() + T7::Ref::size() + T8::Ref::size() + T9::Ref::size(), img, lo, hi, deep)
        &&& head_views(self.0.10, r as int + T1::Ref::size() + T2::Ref::size() + T3::Ref::size() + T4::Ref::size() + T5::Ref::size() + T6::Ref::size() + T7::Ref::size() + T8::Ref::size() + T9::Ref::size() + T10::Ref::size(), img, lo, hi, deep)
        &&& head_views(self.0.11, r as int + T1::Ref::size() + T2::Ref::size() + T3::Ref::size() + T4::Ref::size() + T5::Ref::size() + T6::Ref::size() + T7::Ref::size() + T8::Ref::size() + T9::Ref::size() + T10::Ref::size() + T11::Ref::size(), img, lo, hi, deep)
        &&& head_views(self.0.12, r as int + T1::Ref::size() + T2::Ref::size() + T3::Ref::size() + T4::Ref::size() + T5::Ref::size() + T6::Ref::size() + T7::Ref::size() + T8::Ref::size() + T9::Ref::size() + T10::Ref::size() + T11::Ref::size() + T12::Ref::size(), img, lo, hi, deep)
        &&& head_views(self.0.13, r as int + T1::Ref::size() + T2::Ref::size() + T3::Ref::size() + T4::Ref::size() + T5::Ref::size() + T6::Ref::size() + T7::Ref::size() + T8::Ref::size() + T9::Ref::size() + T10::Ref::size() + T11::Ref::size() + T12::Ref::size() + T13::Ref::size(), img, lo, hi, deep)
        &&& head_views(self.0.14, r as int + T1::Ref::size() + T2::Ref::size() + T3::Ref::size() + T4::Ref::size() + T5::Ref::size() + T6::Ref::size() + T7::Ref::size() + T8::Ref::size() + T9::Ref::size() + T10::Ref::size() + T11::Ref::size() + T12::Ref::size() + T13::Ref::size() + T14::Ref::size(), img, lo, hi, deep)
    }

    open spec fn flat(&self) -> usize {
        0
    }

    open spec fn pins(&self, r: usize, img: Image) -> Seq<Piece> {
        head_pins(self.0.0, r as int, img) + head_pins(self.0.1, r as int + T1::Ref::size(), img) + head_pins(self.0.2, r as int + T1::Ref::size() + T2::Ref::size(), img) + head_pins(self.0.3, r as int + T1::Ref::size() + T2::Ref::size() + T3::Ref::size(), img) + head_pins(self.0.4, r as int + T1::Ref::size() + T2::Ref::size() + T3::Ref::size() + T4::Ref::size(), img) + head_pins(self.0.5, r as int + T1::Ref::size() + T2::Ref::size() + T3::Ref::size() + T4::Ref::size() + T5::Ref::size(), img) + head_pins(self.0.6, r as int + T1::Ref::size() + T2::Ref::size() + T3::Ref::size() + T4::Ref::size() + T5::Ref::size() + T6::Ref::size(), img) + head_pins(self.0.7, r as int + T1::Ref::size() + T2::Ref::size() + T3::Ref::size() + T4::Ref::size() + T5::Ref::size() + T6::Ref::size() + T7::Ref::size(), img) + head_pins(self.0.8, r as int + T1::Ref::size() + T2::Ref::size() + T3::Ref::size() + T4::Ref::size() + T5::Ref::size() + T6::Ref::size() + T7::Ref::size() + T8::Ref::size(), img) + head_pins(self.0.9, r as int + T1::Ref::size() + T2::Ref::size() + T3::Ref::size() + T4::Ref::size() + T5::Ref::size() + T6::Ref::size() + T7::Ref::size() + T8::Ref::size() + T9::Ref::size(), img) + head_pins(self.0.10, r as int + T1::Ref::size() + T2::Ref::size() + T3::Ref::size() + T4::Ref::size() + T5::Ref::size() + T6::Ref::size() + T7::Ref::size() + T8::Ref::size() + T9::Ref::size() + T10::Ref::size(), img) + head_pins(self.0.11, r as int + T1::Ref::size() + T2::Ref::size() + T3::Ref::size() + T4::Ref::size() + T5::Ref::size() + T6::Ref::size() + T7::Ref::size() + T8::Ref::size() + T9::Ref::size() + T10::Ref::size() + T11::Ref::size(), img) + head_pins(self.0.12, r as int + T1::Ref::size() + T2::Ref::size() + T3::Ref::size() + T4::Ref::size() + T5::Ref::size() + T6::Ref::size() + T7::Ref::size() + T8::Ref::size() + T9::Ref::size() + T10::Ref::size() + T11::Ref::size() + T12::Ref::size(), img) + head_pins(self.0.13, r as int + T1::Ref::size() + T2::Ref::size() + T3::Ref::size() + T4::Ref::size() + T5::Ref::size() + T6::Ref::size() + T7::Ref::size() + T8::Ref::size() + T9::Ref::size() + T10::Ref::size() + T11::Ref::size() + T12::Ref::size() + T13::Ref::size(), img) + head_pins(self.0.14, r as int + T1::Ref::size() + T2::Ref::size() + T3::Ref::size() + T4::Ref::size() + T5::Ref::size() + T6::Ref::size() + T7::Ref::size() + T8::Ref::size() + T9::Ref::size() + T10::Ref::size() + T11::Ref::size() + T12::Ref::size() + T13::Ref::size() + T14::Ref::size(), img)
    }

    proof fn lemma_flat(&self) {
    }

    proof fn lemma_primitive(&self, r: usize, img: Image, lo: int, hi: int, deep: bool) {
    }

    proof fn lemma_deepen(&self, r: usize, img: Image, other: Image, lo: int, hi: int) {
        lemma_holds_all_concat(other, head_pins(self.0.0, r as int, img) + head_pins(self.0.1, r as int + T1::Ref::size(), img) + head_pins(self.0.2, r as int + T1::Ref::size() + T2::Ref::size(), img) + head_pins(self.0.3, r as int + T1::Ref::size() + T2::Ref::size() + T3::Ref::size(), img) + head_pins(self.0.4, r as int + T1::Ref::size() + T2::Ref::size() + T3::Ref::size() + T4::Ref::size(), img) + head_pins(self.0.5, r as int + T1::Ref::size() + T2::Ref::size() + T3::Ref::size() + T4::Ref::size() + T5::Ref::size(), img) + head_pins(self.0.6, r as int + T1::Ref::size() + T2::Ref::size() + T3::Ref::size() + T4::Ref::size() + T5::Ref::size() + T6::Ref::size(), img) + head_pins(self.0.7, r as int + T1::Ref::size() + T2::Ref::size() + T3::Ref::size() + T4::Ref::size() + T5::Ref::size() + T6::Ref::size() + T7::Ref::size(), img) + head_pins(self.0.8, r as int + T1::Ref::size() + T2::Ref::size() + T3::Ref::size() + T4::Ref::size() + T5::Ref::size() + T6::Ref::size() + T7::Ref::size() + T8::Ref::size(), img) + head_pins(self.0.9, r as int + T1::Ref::size() + T2::Ref::size() + T3::Ref::size() + T4::Ref::size() + T5::Ref::size() + T6::Ref::size() + T7::Ref::size() + T8::Ref::size() + T9::Ref::size(), img) + head_pins(self.0.10, r as int + T1::Ref::size() + T2::Ref::size() + T3::Ref::size() + T4::Ref::size() + T5::Ref::size() + T6::Ref::size() + T7::Ref::size() + T8::Ref::size() + T9::Ref::size() + T10::Ref::size(), img) + head_pins(self.0.11, r as int + T1::Ref::size() + T2::Ref::size() + T3::Ref::size() + T4::Ref::size() + T5::Ref::size() + T6::Ref::size() + T7::Ref::size() + T8::Ref::size() + T9::Ref::size() + T10::Ref::size() + T11::Ref::size(), img) + head_pins(self.0.12, r as int + T1::Ref::size() + T2::Ref::size() + T3::Ref::size() + T4::Ref::size() + T5::Ref::size() + T6::Ref::size() + T7::Ref::size() + T8::Ref::size() + T9::Ref::size() + T10::Ref::size() + T11::Ref::size() + T12::Ref::size(), img) + head_pins(self.0.13, r as int + T1::Ref::size() + T2::Ref::size() + T3::Ref::size() + T4::Ref::size() + T5::Ref::size() + T6::Ref::size() + T7::Ref::size() + T8::Ref::size() + T9::Ref::size() + T10::Ref::size() + T11::Ref::size() + T12::Ref::size() + T13::Ref::size(), img), head_pins(self.0.14, r as int + T1::Ref::size() + T2::Ref::size() + T3::Ref::size() + T4::Ref::size() + T5::Ref::size() + T6::Ref::size() + T7::Ref::size() + T8::Ref::size() + T9::Ref::size() + T10::Ref::size() + T11::Ref::size() + T12::Ref::size() + T13::Ref::size() + T14::Ref::size(), img));
        lemma_holds_all_concat(other, head_pins(self.0.0, r as int, img) + head_pins(self.0.1, r as int + T1::Ref::size(), img) + head_pins(self.0.2, r as int + T1::Ref::size() + T2::Ref::size(), img) + head_pins(self.0.3, r as int + T1::Ref::size() + T2::Ref::size() + T3::Ref::size(), img) + head_pins(self.0.4, r as int + T1::Ref::size() + T2::Ref::size() + T3::Ref::size() + T4::Ref::size(), img) + head_pins(self.0.5, r as int + T1::Ref::size() + T2::Ref::size() + T3::Ref::size() + T4::Ref::size() + T5::Ref::size(), img) + head_pins(self.0.6, r as int + T1::Ref::size() + T2::Ref::size() + T3::Ref::size() + T4::Ref::size() + T5::Ref::size() + T6::Ref::size(), img) + head_pins(self.0.7, r as int + T1::Ref::size() + T2::Ref::size() + T3::Ref::size() + T4::Ref::size() + T5::Ref::size() + T6::Ref::size() + T7::Ref::size(), img) + head_pins(self.0.8, r as int + T1::Ref::size() + T2::Ref::size() + T3::Ref::size() + T4::Ref::size() + T5::Ref::size() + T6::Ref::size() + T7::Ref::size() + T8::Ref::size(), img) + head_pins(self.0.9, r as int + T1::Ref::size() + T2::Ref::size() + T3::Ref::size() + T4::Ref::size() + T5::Ref::size() + T6::Ref::size() + T7::Ref::size() + T8::Ref::size() + T9::Ref::size(), img) + head_pins(self.0.10, r as int + T1::Ref::size() + T2::Ref::size() + T3::Ref::size() + T4::Ref::size() + T5::Ref::size() + T6::Ref::size() + T7::Ref::size() + T8::Ref::size() + T9::Ref::size() + T10::Ref::size(), img) + head_pins(self.0.11, r as int + T1::Ref::size() + T2::Ref::size() + T3::Ref::size() + T4::Ref::size() + T5::Ref::size() + T6::Ref::size() + T7::Ref::size() + T8::Ref::size() + T9::Ref::size() + T10::Ref::size() + T11::Ref::size(), img) + head_pins(self.0.12, r as int + T1::Ref::size() + T2::Ref::size() + T3::Ref::size() + T4::Ref::size() + T5::Ref::size() + T6::Ref::size() + T7::Ref::size() + T8::Ref::size() + T9::Ref::size() + T10::Ref::size() + T11::Ref::size() + T12::Ref::size(), img), head_pins(self.0.13, r as int + T1::Ref::size() + T2::Ref::size() + T3::Ref::size() + T4::Ref::size() + T5::Ref::size() + T6::Ref::size() + T7::Ref::size() + T8::Ref::size() + T9::Ref::size() + T10::Ref::size() + T11::Ref::size() + T12::Ref::size() + T13::Ref::size(), img));
        lemma_holds_all_concat(other, head_pins(self.0.0, r as int, img) + head_pins(self.0.1, r as int + T1::Ref::size(), img) + head_pins(self.0.2, r as int + T1::Ref::size() + T2::Ref::size(), img) + head_pins(self.0.3, r as int + T1::Ref::size() + T2::Ref::size() + T3::Ref::size(), img) + head_pins(self.0.4, r as int + T1::Ref::size() + T2::Ref::size() + T3::Ref::size() + T4::Ref::size(), img) + head_pins(self.0.5, r as int + T1::Ref::size() + T2::Ref::size() + T3::Ref::size() + T4::Ref::size() + T5::Ref::size(), img) + head_pins(self.0.6, r as int + T1::Ref::size() + T2::Ref::size() + T3::Ref::size() + T4::Ref::size() + T5::Ref::size() + T6::Ref::size(), img) + head_pins(self.0.7, r as int + T1::Ref::size() + T2::Ref::size() + T3::Ref::size() + T4::Ref::size() + T5::Ref::size() + T6::Ref::size() + T7::Ref::size(), img) + head_pins(self.0.8, r as int + T1::Ref::size() + T2::Ref::size() + T3::Ref::size() + T4::Ref::size() + T5::Ref::size() + T6::Ref::size() + T7::Ref::size() + T8::Ref::size(), img) + head_pins(self.0.9, r as int + T1::Ref::size() + T2::Ref::size() + T3::Ref::size() + T4::Ref::size() + T5::Ref::size() + T6::Ref::size() + T7::Ref::size() + T8::Ref::size() + T9::Ref::size(), img) + head_pins(self.0.10, r as int + T1::Ref::size() + T2::Ref::size() + T3::Ref::size() + T4::Ref::size() + T5::Ref::size() + T6::Ref::size() + T7::Ref::size() + T8::Ref::size() + T9::Ref::size() + T10::Ref::size(), img) + head_pins(self.0.11, r as int + T1::Ref::size() + T2::Ref::size() + T3::Ref::size() + T4::Ref::size() + T5::Ref::size() + T6::Ref::size() + T7::Ref::size() + T8::Ref::size() + T9::Ref::size() + T10::Ref::size() + T11::Ref::size(), img), head_pins(self.0.12, r as int + T1::Ref::size() + T2::Ref::size() + T3::Ref::size() + T4::Ref::size() + T5::Ref::size() + T6::Ref::size() + T7::Ref::size() + T8::Ref::size() + T9::Ref::size() + T10::Ref::size() + T11::Ref::size() + T12::Ref::size(), img));
        lemma_holds_all_concat(other, head_pins(self.0.0, r as int, img) + head_pins(self.0.1, r as int + T1::Ref::size(), img) + head_pins(self.0.2, r as int + T1::Ref::size() + T2::Ref::size(), img) + head_pins(self.0.3, r as int + T1::Ref::size() + T2::Ref::size() + T3::Ref::size(), img) + head_pins(self.0.4, r as int + T1::Ref::size() + T2::Ref::size() + T3::Ref::size() + T4::Ref::size(), img) + head_pins(self.0.5, r as int + T1::Ref::size() + T2::Ref::size() + T3::Ref::size() + T4::Ref::size() + T5::Ref::size(), img) + head_pins(self.0.6, r as int + T1::Ref::size() + T2::Ref::size() + T3::Ref::size() + T4::Ref::size() + T5::Ref::size() + T6::Ref::size(), img) + head_pins(self.0.7, r as int + T1::Ref::size() + T2::Ref::size() + T3::Ref::size() + T4::Ref::size() + T5::Ref::size() + T6::Ref::size() + T7::Ref::size(), img) + head_pins(self.0.8, r as int + T1::Ref::size() + T2::Ref::size() + T3::Ref::size() + T4::Ref::size() + T5::Ref::size() + T6::Ref::size() + T7::Ref::size() + T8::Ref::size(), img) + head_pins(self.0.9, r as int + T1::Ref::size() + T2::Ref::size() + T3::Ref::size() + T4::Ref::size() + T5::Ref::size() + T6::Ref::size() + T7::Ref::size() + T8::Ref::size() + T9::Ref::size(), img) + head_pins(self.0.10, r as int + T1::Ref::size() + T2::Ref::size() + T3::Ref::size() + T4::Ref::size() + T5::Ref::size() + T6::Ref::size() + T7::Ref::size() + T8::Ref::size() + T9::Ref::size() + T10::Ref::size(), img), head_pins(self.0.11, r as int + T1::Ref::size() + T2::Ref::size() + T3::Ref::size() + T4::Ref::size() + T5::Ref::size() + T6::Ref::size() + T7::Ref::size() + T8::Ref::size() + T9::Ref::size() + T10::Ref::size() + T11::Ref::size(), img));
        lemma_holds_all_concat(other, head_pins(self.0.0, r as int, img) + head_pins(self.0.1, r as int + T1::Ref::size(), img) + head_pins(self.0.2, r as int + T1::Ref::size() + T2::Ref::size(), img) + head_pins(self.0.3, r as int + T1::Ref::size() + T2::Ref::size() + T3::Ref::size(), img) + head_pins(self.0.4, r as int + T1::Ref::size() + T2::Ref::size() + T3::Ref::size() + T4::Ref::size(), img) + head_pins(self.0.5, r as int + T1::Ref::size() + T2::Ref::size() + T3::Ref::size() + T4::Ref::size() + T5::Ref::size(), img) + head_pins(self.0.6, r as int + T1::Ref::size() + T2::Ref::size() + T3::Ref::size() + T4::Ref::size() + T5::Ref::size() + T6::Ref::size(), img) + head_pins(self.0.7, r as int + T1::Ref::size() + T2::Ref::size() + T3::Ref::size() + T4::Ref::size() + T5::Ref::size() + T6::Ref::size() + T7::Ref::size(), img) + head_pins(self.0.8, r as int + T1::Ref::size() + T2::Ref::size() + T3::Ref::size() + T4::Ref::size() + T5::Ref::size() + T6::Ref::size() + T7::Ref::size() + T8::Ref::size(), img) + head_pins(self.0.9, r as int + T1::Ref::size() + T2::Ref::size() + T3::Ref::size() + T4::Ref::size() + T5::Ref::size() + T6::Ref::size() + T7::Ref::size() + T8::Ref::size() + T9::Ref::size(), img), head_pins(self.0.10, r as int + T1::Ref::size() + T2::Ref::size() + T3::Ref::size() + T4::Ref::size() + T5::Ref::size() + T6::Ref::size() + T7::Ref::size() + T8::Ref::size() + T9::Ref::size() + T10::Ref::size(), img));
        lemma_holds_all_concat(other, head_pins(self.0.0, r as int, img) + head_pins(self.0.1, r as int + T1::Ref::size(), img) + head_pins(self.0.2, r as int + T1::Ref::size() + T2::Ref::size(), img) + head_pins(self.0.3, r as int + T1::Ref::size() + T2::Ref::size() + T3::Ref::size(), img) + head_pins(self.0.4, r as int + T1::Ref::size() + T2::Ref::size() + T3::Ref::size() + T4::Ref::size(), img) + head_pins(self.0.5, r as int + T1::Ref::size() + T2::Ref::size() + T3::Ref::size() + T4::Ref::size() + T5::Ref::size(), img) + head_pins(self.0.6, r as int + T1::Ref::size() + T2::Ref::size() + T3::Ref::size() + T4::Ref::size() + T5::Ref::size() + T6::Ref::size(), img) + head_pins(self.0.7, r as int + T1::Ref::size() + T2::Ref::size() + T3::Ref::size() + T4::Ref::size() + T5::Ref::size() + T6::Ref::size() + T7::Ref::size(), img) + head_pins(self.0.8, r as int + T1::Ref::size() + T2::Ref::size() + T3::Ref::size() + T4::Ref::size() + T5::Ref::size() + T6::Ref::size() + T7::Ref::size() + T8::Ref::size(), img), head_pins(self.0.9, r as int + T1::Ref::size() + T2::Ref::size() + T3::Ref::size() + T4::Ref::size() + T5::Ref::size() + T6::Ref::size() + T7::Ref::size() + T8::Ref::size() + T9::Ref::size(), img));
        lemma_holds_all_concat(other, head_pins(self.0.0, r as int, img) + head_pins(self.0.1, r as int + T1::Ref::size(), img) + head_pins(self.0.2, r as int + T1::Ref::size() + T2::Ref::size(), img) + head_pins(self.0.3, r as int + T1::Ref::size() + T2::Ref::size() + T3::Ref::size(), img) + head_pins(self.0.4, r as int + T1::Ref::size() + T2::Ref::size() + T3::Ref::size() + T4::Ref::size(), img) + head_pins(self.0.5, r as int + T1::Ref::size() + T2::Ref::size() + T3::Ref::size() + T4::Ref::size() + T5::Ref::size(), img) + head_pins(self.0.6, r as int + T1::Ref::size() + T2::Ref::size() + T3::Ref::size() + T4::Ref::size() + T5::Ref::size() + T6::Ref::size(), img) + head_pins(self.0.7, r as int + T1::Ref::size() + T2::Ref::size() + T3::Ref::size() + T4::Ref::size() + T5::Ref::size() + T6::Ref::size() + T7::Ref::size(), img), head_pins(self.0.8, r as int + T1::Ref::size() + T2::Ref::size() + T3::Ref::size() + T4::Ref::size() + T5::Ref::size() + T6::Ref::size() + T7::Ref::size() + T8::Ref::size(), img));
        lemma_holds_all_concat(other, head_pins(self.0.0, r as int, img) + head_pins(self.0.1, r as int + T1::Ref::size(), img) + head_pins(self.0.2, r as int + T1::Ref::size() + T2::Ref::size(), img) + head_pins(self.0.3, r as int + T1::Ref::size() + T2::Ref::size() + T3::Ref::size(), img) + head_pins(self.0.4, r as int + T1::Ref::size() + T2::Ref::size() + T3::Ref::size() + T4::Ref::size(), img) + head_pins(self.0.5, r as int + T1::Ref::size() + T2::Ref::size() + T3::Ref::size() + T4::Ref::size() + T5::Ref::size(), img) + head_pins(self.0.6, r as int + T1::Ref::size() + T2::Ref::size() + T3::Ref::size() + T4::Ref::size() + T5::Ref::size() + T6::Ref::size(), img), head_pins(self.0.7, r as int + T1::Ref::size() + T2::Ref::size() + T3::Ref::size() + T4::Ref::size() + T5::Ref::size() + T6::Ref::size() + T7::Ref::size(), img));
        lemma_holds_all_concat(other, head_pins(self.0.0, r as int, img) + head_pins(self.0.1, r as int + T1::Ref::size(), img) + head_pins(self.0.2, r as int + T1::Ref::size() + T2::Ref::size(), img) + head_pins(self.0.3, r as int + T1::Ref::size() + T2::Ref::size() + T3::Ref::size(), img) + head_pins(self.0.4, r as int + T1::Ref::size() + T2::Ref::size() + T3::Ref::size() + T4::Ref::size(), img) + head_pins(self.0.5, r as int + T1::Ref::size() + T2::Ref::size() + T3::Ref::size() + T4::Ref::size() + T5::Ref::size(), img), head_pins(self.0.6, r as int + T1::Ref::size() + T2::Ref::size() + T3::Ref::size() + T4::Ref::size() + T5::Ref::size() + T6::Ref::size(), img));
        lemma_holds_all_concat(other, head_pins(self.0.0, r as int, img) + head_pins(self.0.1, r as int + T1::Ref::size(), img) + head_pins(self.0.2, r as int + T1::Ref::size() + T2::Ref::size(), img) + head_pins(self.0.3, r as int + T1::Ref::size() + T2::Ref::size() + T3::Ref::size(), img) + head_pins(self.0.4, r as int + T1::Ref::size() + T2::Ref::size() + T3::Ref::size() + T4::Ref::size(), img), head_pins(self.0.5, r as int + T1::Ref::size() + T2::Ref::size() + T3::Ref::size() + T4::Ref::size() + T5::Ref::size(), img));
        lemma_holds_all_concat(other, head_pins(self.0.0, r as int, img) + head_pins(self.0.1, r as int + T1::Ref::size(), img) + head_pins(self.0.2, r as int + T1::Ref::size() + T2::Ref::size(), img) + head_pins(self.0.3, r as int + T1::Ref::size() + T2::Ref::size() + T3::Ref::size(), img), head_pins(self.0.4, r as int + T1::Ref::size() + T2::Ref::size() + T3::Ref::size() + T4::Ref::size(), img));
        lemma_holds_all_concat(other, head_pins(self.0.0, r as int, img) + head_pins(self.0.1, r as int + T1::Ref::size(), img) + head_pins(self.0.2, r as int + T1::Ref::size() + T2::Ref::size(), img), head_pins(self.0.3, r as int + T1::Ref::size() + T2::Ref::size() + T3::Ref::size(), img));
        lemma_holds_all_concat(other, head_pins(self.0.0, r as int, img) + head_pins(self.0.1, r as int + T1::Ref::size(), img), head_pins(self.0.2, r as int + T1::Ref::size() + T2::Ref::size(), img));
        lemma_holds_all_concat(other, head_pins(self.0.0, r as int, img), head_pins(self.0.1, r as int + T1::Ref::size(), img));
        lemma_head_deepen(self.0.0, r as int, img, other, lo, hi);
        lemma_head_deepen(self.0.1, r as int + T1::Ref::size(), img, other, lo, hi);
        lemma_head_deepen(self.0.2, r as int + T1::Ref::size() + T2::Ref::size(), img, other, lo, hi);
        lemma_head_deepen(self.0.3, r as int + T1::Ref::size() + T2::Ref::size() + T3::Ref::size(), img, other, lo, hi);
        lemma_head_deepen(self.0.4, r as int + T1::Ref::size() + T2::Ref::size() + T3::Ref::size() + T4::Ref::size(), img, other, lo, hi);
        lemma_head_deepen(self.0.5, r as int + T1::Ref::size() + T2::Ref::size() + T3::Ref::size() + T4::Ref::size() + T5::Ref::size(), img, other, lo, hi);
        lemma_head_deepen(self.0.6, r as int + T1::Ref::size() + T2::Ref::size() + T3::Ref::size() + T4::Ref::size() + T5::Ref::size() + T6::Ref::size(), img, other, lo, hi);
        lemma_head_deepen(self.0.7, r as int + T1::Ref::size() + T2::Ref::size() + T3::Ref::size() + T4::Ref::size() + T5::Ref::size() + T6::Ref::size() + T7::Ref::size(), img, other, lo, hi);
        lemma_head_deepen(self.0.8, r as int + T1::Ref::size() + T2::Ref::size() + T3::Ref::size() + T4::Ref::size() + T5::Ref::size() + T6::Ref::size() + T7::Ref::size() + T8::Ref::size(), img, other, lo, hi);
        lemma_head_deepen(self.0.9, r as int + T1::Ref::size() + T2::Ref::size() + T3::Ref::size() + T4::Ref::size() + T5::Ref::size() + T6::Ref::size() + T7::Ref::size() + T8::Ref::size() + T9::Ref::size(), img, other, lo, hi);
        lemma_head_deepen(self.0.10, r as int + T1::Ref::size() + T2::Ref::size() + T3::Ref::size() + T4::Ref::size() + T5::Ref::size() + T6::Ref::size() + T7::Ref::size() + T8::Ref::size() + T9::Ref::size() + T10::Ref::size(), img, other, lo, hi);
        lemma_head_deepen(self.0.11, r as int + T1::Ref::size() + T2::Ref::size() + T3::Ref::size() + T4::Ref::size() + T5::Ref::size() + T6::Ref::size() + T7::Ref::size() + T8::Ref::size() + T9::Ref::size() + T10::Ref::size() + T11::Ref::size(), img, other, lo, hi);
        lemma_head_deepen(self.0.12, r as int + T1::Ref::size() + T2::Ref::size() + T3::Ref::size() + T4::Ref::size() + T5::Ref::size() + T6::Ref::size() + T7::Ref::size() + T8::Ref::size() + T9::Ref::size() + T10::Ref::size() + T11::Ref::size() + T12::Ref::size(), img, other, lo, hi);
        lemma_head_deepen(self.0.13, r as int + T1::Ref::size() + T2::Ref::size() + T3::Ref::size() + T4::Ref::size() + T5::Ref::size() + T6::Ref::size() + T7::Ref::size() + T8::Ref::size() + T9::Ref::size() + T10::Ref::size() + T11::Ref::size() + T12::Ref::size() + T13::Ref::size(), img, other, lo, hi);
        lemma_head_deepen(self.0.14, r as int + T1::Ref::size() + T2::Ref::size() + T3::Ref::size() + T4::Ref::size() + T5::Ref::size() + T6::Ref::size() + T7::Ref::size() + T8::Ref::size() + T9::Ref::size() + T10::Ref::size() + T11::Ref::size() + T12::Ref::size() + T13::Ref::size() + T14::Ref::size(), img, other, lo, hi);
    }

    proof fn lemma_frame(&self, r: usize, img: Image, other: Image, lo: int, hi: int, deep: bool) {
        lemma_head_frame(self.0.0, r as int, img, other, lo, hi, deep);
        lemma_head_frame(self.0.1, r as int + T1::Ref::size(), img, other, lo, hi, deep);
        lemma_head_frame(self.0.2, r as int + T1::Ref::size() + T2::Ref::size(), img, other, lo, hi, deep);
        lemma_head_frame(self.0.3, r as int + T1::Ref::size() + T2::Ref::size() + T3::Ref::size(), img, other, lo, hi, deep);
        lemma_head_frame(self.0.4, r as int + T1::Ref::size() + T2::Ref::size() + T3::Ref::size() + T4::Ref::size(), img, other, lo, hi, deep);
        lemma_head_frame(self.0.5, r as int + T1::Ref::size() + T2::Ref::size() + T3::Ref::size() + T4::Ref::size() + T5::Ref::size(), img, other, lo, hi, deep);
        lemma_head_frame(self.0.6, r as int + T1::Ref::size() + T2::Ref::size() + T3::Ref::size() + T4::Ref::size() + T5::Ref::size() + T6::Ref::size(), img, other, lo, hi, deep);
        lemma_head_frame(self.0.7, r as int + T1::Ref::size() + T2::Ref::size() + T3::Ref::size() + T4::Ref::size() + T5::Ref::size() + T6::Ref::size() + T7::Ref::size(), img, other, lo, hi, deep);
        lemma_head_frame(self.0.8, r as int + T1::Ref::size() + T2::Ref::size() + T3::Ref::size() + T4::Ref::size() + T5::Ref::size() + T6::Ref::size() + T7::Ref::size() + T8::Ref::size(), img, other, lo, hi, deep);
        lemma_head_frame(self.0.9, r as int + T1::Ref::size() + T2::Ref::size() + T3::Ref::size() + T4::Ref::size() + T5::Ref::size() + T6::Ref::size() + T7::Ref::size() + T8::Ref::size() + T9::Ref::size(), img, other, lo, hi, deep);
        lemma_head_frame(self.0.10, r as int + T1::Ref::size() + T2::Ref::size() + T3::Ref::size() + T4::Ref::size() + T5::Ref::size() + T6::Ref::size() + T7::Ref::size() + T8::Ref::size() + T9::Ref::size() + T10::Ref::size(), img, other, lo, hi, deep);
        lemma_head_frame(self.0.11, r as int + T1::Ref::size() + T2::Ref::size() + T3::Ref::size() + T4::Ref::size() + T5::Ref::size() + T6::Ref::size() + T7::Ref::size() + T8::Ref::size() + T9::Ref::size() + T10::Ref::size() + T11::Ref::size(), img, other, lo, hi, deep);
        lemma_head_frame(self.0.12, r as int + T1::Ref::size() + T2::Ref::size() + T3::Ref::size() + T4::Ref::size() + T5::Ref::size() + T6::Ref::size() + T7::Ref::size() + T8::Ref::size() + T9::Ref::size() + T10::Ref::size() + T11::Ref::size() + T12::Ref::size(), img, other, lo, hi, deep);
        lemma_head_frame(self.0.13, r as int + T1::Ref::size() + T2::Ref::size() + T3::Ref::size() + T4::Ref::size() + T5::Ref::size() + T6::Ref::size() + T7::Ref::size() + T8::Ref::size() + T9::Ref::size() + T10::Ref::size() + T11::Ref::size() + T12::Ref::size() + T13::Ref::size(), img, other, lo, hi, deep);
        lemma_head_frame(self.0.14, r as int + T1::Ref::size() + T2::Ref::size() + T3::Ref::size() + T4::Ref::size() + T5::Ref::size() + T6::Ref::size() + T7::Ref::size() + T8::Ref::size() + T9::Ref::size() + T10::Ref::size() + T11::Ref::size() + T12::Ref::size() + T13::Ref::size() + T14::Ref::size(), img, other, lo, hi, deep);
    }

    proof fn lemma_widen(
        &self,
        r: usize,
        img: Image,
        lo: int,
        hi: int,
        wide_lo: int,
        wide_hi: int,
        deep: bool,
    ) {
        match head_at::<T1::Ref>(img, r as int) {
            Some(head) => {
                self.0.0.lemma_widen(head, img, lo, hi, wide_lo, wide_hi, deep);
            },
            None => {},
        }
        match head_at::<T2::Ref>(img, r as int + T1::Ref::size()) {
            Some(head) => {
                self.0.1.lemma_widen(head, img, lo, hi, wide_lo, wide_hi, deep);
            },
            None => {},
        }
        match head_at::<T3::Ref>(img, r as int + T1::Ref::size() + T2::Ref::size()) {
            Some(head) => {
                self.0.2.lemma_widen(head, img, lo, hi, wide_lo, wide_hi, deep);
            },
            None => {},
        }
        match head_at::<T4::Ref>(img, r as int + T1::Ref::size() + T2::Ref::size() + T3::Ref::size()) {
            Some(head) => {
                self.0.3.lemma_widen(head, img, lo, hi, wide_lo, wide_hi, deep);
            },
            None => {},
        }
        match head_at::<T5::Ref>(img, r as int + T1::Ref::size() + T2::Ref::size() + T3::Ref::size() + T4::Ref::size()) {
            Some(head) => {
                self.0.4.lemma_widen(head, img, lo, hi, wide_lo, wide_hi, deep);
            },
            None => {},
        }
        match head_at::<T6::Ref>(img, r as int + T1::Ref::size() + T2::Ref::size() + T3::Ref::size() + T4::Ref::size() + T5::Ref::size()) {
            Some(head) => {
                self.0.5.lemma_widen(head, img, lo, hi, wide_lo, wide_hi, deep);
            },
            None => {},
        }
        match head_at::<T7::Ref>(img, r as int + T1::Ref::size() + T2::Ref::size() + T3::Ref::size() + T4::Ref::size() + T5::Ref::size() + T6::Ref::size()) {
            Some(head) => {
                self.0.6.lemma_widen(head, img, lo, hi, wide_lo, wide_hi, deep);
            },
            None => {},
        }
        match head_at::<T8::Ref>(img, r as int + T1::Ref::size() + T2::Ref::size() + T3::Ref::size() + T4::Ref::size() + T5::Ref::size() + T6::Ref::size() + T7::Ref::size()) {
            Some(head) => {
                self.0.7.lemma_widen(head, img, lo, hi, wide_lo, wide_hi, deep);
            },
            None => {},
        }
        match head_at::<T9::Ref>(img, r as int + T1::Ref::size() + T2::Ref::size() + T3::Ref::size() + T4::Ref::size() + T5::Ref::size() + T6::Ref::size() + T7::Ref::size() + T8::Ref::size()) {
            Some(head) => {
                self.0.8.lemma_widen(head, img, lo, hi, wide_lo, wide_hi, deep);
            },
            None => {},
        }
        match head_at::<T10::Ref>(img, r as int + T1::Ref::size() + T2::Ref::size() + T3::Ref::size() + T4::Ref::size() + T5::Ref::size() + T6::Ref::size() + T7::Ref::size() + T8::Ref::size() + T9::Ref::size()) {
            Some(head) => {
                self.0.9.lemma_widen(head, img, lo, hi, wide_lo, wide_hi, deep);
            },
            None => {},
        }
        match head_at::<T11::Ref>(img, r as int + T1::Ref::size() + T2::Ref::size() + T3::Ref::size() + T4::Ref::size() + T5::Ref::size() + T6::Ref::size() + T7::Ref::size() + T8::Ref::size() + T9::Ref::size() + T10::Ref::size()) {
            Some(head) => {
                self.0.10.lemma_widen(head, img, lo, hi, wide_lo, wide_hi, deep);
            },
            None => {},
        }
        match head_at::<T12::Ref>(img, r as int + T1::Ref::size() + T2::Ref::size() + T3::Ref::size() + T4::Ref::size() + T5::Ref::size() + T6::Ref::size() + T7::Ref::size() + T8::Ref::size() + T9::Ref::size() + T10::Ref::size() + T11::Ref::size()) {
            Some(head) => {
                self.0.11.lemma_widen(head, img, lo, hi, wide_lo, wide_hi, deep);
            },
            None => {},
        }
        match head_at::<T13::Ref>(img, r as int + T1::Ref::size() + T2::Ref::size() + T3::Ref::size() + T4::Ref::size() + T5::Ref::size() + T6::Ref::size() + T7::Ref::size() + T8::Ref::size() + T9::Ref::size() + T10::Ref::size() + T11::Ref::size() + T12::Ref::size()) {
            Some(head) => {
                self.0.12.lemma_widen(head, img, lo, hi, wide_lo, wide_hi, deep);
            },
            None => {},
        }
        match head_at::<T14::Ref>(img, r as int + T1::Ref::size() + T2::Ref::size() + T3::Ref::size() + T4::Ref::size() + T5::Ref::size() + T6::Ref::size() + T7::Ref::size() + T8::Ref::size() + T9::Ref::size() + T10::Ref::size() + T11::Ref::size() + T12::Ref::size() + T13::Ref::size()) {
            Some(head) => {
                self.0.13.lemma_widen(head, img, lo, hi, wide_lo, wide_hi, deep);
            },
            None => {},
        }
        match head_at::<T15::Ref>(img, r as int + T1::Ref::size() + T2::Ref::size() + T3::Ref::size() + T4::Ref::size() + T5::Ref::size() + T6::Ref::size() + T7::Ref::size() + T8::Ref::size() + T9::Ref::size() + T10::Ref::size() + T11::Ref::size() + T12::Ref::size() + T13::Ref::size() + T14::Ref::size()) {
            Some(head) => {
                self.0.14.lemma_widen(head, img, lo, hi, wide_lo, wide_hi, deep);
            },
            None => {},
        }
    }

    fn mem_type_of() -> (t: MemType) {
        MemType::Complex
    }

    fn to_size(&self, acc: &mut usize) {
        self.0.to_size(acc);
        *acc = *acc + T1::Ref::size_of();
        *acc = *acc + T2::Ref::size_of();
        *acc = *acc + T3::Ref::size_of();
        *acc = *acc + T4::Ref::size_of();
        *acc = *acc + T5::Ref::size_of();
        *acc = *acc + T6::Ref::size_of();
        *acc = *acc + T7::Ref::size_of();
        *acc = *acc + T8::Ref::size_of();
        *acc = *acc + T9::Ref::size_of();
        *acc = *acc + T10::Ref::size_of();
        *acc = *acc + T11::Ref::size_of();
        *acc = *acc + T12::Ref::size_of();
        *acc = *acc + T13::Ref::size_of();
        *acc = *acc + T14::Ref::size_of();
        *acc = *acc + T15::Ref::size_of();
    }

    fn checked_size(&self, acc: usize) -> (sum: Option<usize>) {
        let mut sum = match self.0.checked_size(acc) {
            Some(next) => next,
            None => {
                return None;
            },
        };
        let size0 = T1::Ref::size_of();
        if size0 > usize::MAX - sum {
            return None;
        }
        sum = sum + size0;
        let size1 = T2::Ref::size_of();
        if size1 > usize::MAX - sum {
            return None;
        }
        sum = sum + size1;
        let size2 = T3::Ref::size_of();
        if size2 > usize::MAX - sum {
            return None;
        }
        sum = sum + size2;
        let size3 = T4::Ref::size_of();
        if size3 > usize::MAX - sum {
            return None;
        }
        sum = sum + size3;
        let size4 = T5::Ref::size_of();
        if size4 > usize::MAX - sum {
            return None;
        }
        sum = sum + size4;
        let size5 = T6::Ref::size_of();
        if size5 > usize::MAX - sum {
            return None;
        }
        sum = sum + size5;
        let size6 = T7::Ref::size_of();
        if size6 > usize::MAX - sum {
            return None;
        }
        sum = sum + size6;
        let size7 = T8::Ref::size_of();
        if size7 > usize::MAX - sum {
            return None;
        }
        sum = sum + size7;
        let size8 = T9::Ref::size_of();
        if size8 > usize::MAX - sum {
            return None;
        }
        sum = sum + size8;
        let size9 = T10::Ref::size_of();
        if size9 > usize::MAX - sum {
            return None;
        }
        sum = sum + size9;
        let size10 = T11::Ref::size_of();
        if size10 > usize::MAX - sum {
            return None;
        }
        sum = sum + size10;
        let size11 = T12::Ref::size_of();
        if size11 > usize::MAX - sum {
            return None;
        }
        sum = sum + size11;
        let size12 = T13::Ref::size_of();
        if size12 > usize::MAX - sum {
            return None;
        }
        sum = sum + size12;
        let size13 = T14::Ref::size_of();
        if size13 > usize::MAX - sum {
            return None;
        }
        sum = sum + size13;
        let size14 = T15::Ref::size_of();
        if size14 > usize::MAX - sum {
            return None;
        }
        sum = sum + size14;
        Some(sum)
    }

    #[verifier::rlimit(40)]
    fn to_ref(&self, writer: &mut Writer) -> (r: usize) {
        let ghost base = writer.base() as int;
        let ghost w0 = *writer;
        proof {
            writer.lemma_bounds();
        }
        let heads = self.0.to_ref(writer);
        let ghost v0 = *writer;
        proof {
            writer.lemma_bounds();
        }
        let ptr = writer.as_ptr();
        writer.put(&heads.0);
        let ghost v1 = *writer;
        proof {
            writer.lemma_bounds();
            T1::Ref::lemma_size();
            heads.0.lemma_layout();
            lemma_image_put(v0, v1, heads.0.encode());
        }
        writer.put(&heads.1);
        let ghost v2 = *writer;
        proof {
            writer.lemma_bounds();
            T2::Ref::lemma_size();
            heads.1.lemma_layout();
            lemma_image_put(v1, v2, heads.1.encode());
        }
        writer.put(&heads.2);
        let ghost v3 = *writer;
        proof {
            writer.lemma_bounds();
            T3::Ref::lemma_size();
            heads.2.lemma_layout();
            lemma_image_put(v2, v3, heads.2.encode());
        }
        writer.put(&heads.3);
        let ghost v4 = *writer;
        proof {
            writer.lemma_bounds();
            T4::Ref::lemma_size();
            heads.3.lemma_layout();
            lemma_image_put(v3, v4, heads.3.encode());
        }
        writer.put(&heads.4);
        let ghost v5 = *writer;
        proof {
            writer.lemma_bounds();
            T5::Ref::lemma_size();
            heads.4.lemma_layout();
            lemma_image_put(v4, v5, heads.4.encode());
        }
        writer.put(&heads.5);
        let ghost v6 = *writer;
        proof {
            writer.lemma_bounds();
            T6::Ref::lemma_size();
            heads.5.lemma_layout();
            lemma_image_put(v5, v6, heads.5.encode());
        }
        writer.put(&heads.6);
        let ghost v7 = *writer;
        proof {
            writer.lemma_bounds();
            T7::Ref::lemma_size();
            heads.6.lemma_layout();
            lemma_image_put(v6, v7, heads.6.encode());
        }
        writer.put(&heads.7);
        let ghost v8 = *writer;
        proof {
            writer.lemma_bounds();
            T8::Ref::lemma_size();
            heads.7.lemma_layout();
            lemma_image_put(v7, v8, heads.7.encode());
        }
        writer.put(&heads.8);
        let ghost v9 = *writer;
        proof {
            writer.lemma_bounds();
            T9::Ref::lemma_size();
            heads.8.lemma_layout();
            lemma_image_put(v8, v9, heads.8.encode());
        }
        writer.put(&heads.9);
        let ghost v10 = *writer;
        proof {
            writer.lemma_bounds();
            T10::Ref::lemma_size();
            heads.9.lemma_layout();
            lemma_image_put(v9, v10, heads.9.encode());
        }
        writer.put(&heads.10);
        let ghost v11 = *writer;
        proof {
            writer.lemma_bounds();
            T11::Ref::lemma_size();
            heads.10.lemma_layout();
            lemma_image_put(v10, v11, heads.10.encode());
        }
        writer.put(&heads.11);
        let ghost v12 = *writer;
        proof {
            writer.lemma_bounds();
            T12::Ref::lemma_size();
            heads.11.lemma_layout();
            lemma_image_put(v11, v12, heads.11.encode());
        }
        writer.put(&heads.12);
        let ghost v13 = *writer;
        proof {
            writer.lemma_bounds();
            T13::Ref::lemma_size();
            heads.12.lemma_layout();
            lemma_image_put(v12, v13, heads.12.encode());
        }
        writer.put(&heads.13);
        let ghost v14 = *writer;
        proof {
            writer.lemma_bounds();
            T14::Ref::lemma_size();
            heads.13.lemma_layout();
            lemma_image_put(v13, v14, heads.13.encode());
        }
        writer.put(&heads.14);
        let ghost v15 = *writer;
        proof {
            writer.lemma_bounds();
            T15::Ref::lemma_size();
            heads.14.lemma_layout();
            lemma_image_put(v14, v15, heads.14.encode());
        }
        proof {
            lemma_keeps_same(v15.arena(), v15.cursor());
            lemma_keeps_trans(v14.arena(), v15.arena(), v15.arena(), v14.cursor(), v15.cursor());
            lemma_keeps_trans(v13.arena(), v14.arena(), v15.arena(), v13.cursor(), v14.cursor());
            lemma_keeps_trans(v12.arena(), v13.arena(), v15.arena(), v12.cursor(), v13.cursor());
            lemma_keeps_trans(v11.arena(), v12.arena(), v15.arena(), v11.cursor(), v12.cursor());
            lemma_keeps_trans(v10.arena(), v11.arena(), v15.arena(), v10.cursor(), v11.cursor());
            lemma_keeps_trans(v9.arena(), v10.arena(), v15.arena(), v9.cursor(), v10.cursor());
            lemma_keeps_trans(v8.arena(), v9.arena(), v15.arena(), v8.cursor(), v9.cursor());
            lemma_keeps_trans(v7.arena(), v8.arena(), v15.arena(), v7.cursor(), v8.cursor());
            lemma_keeps_trans(v6.arena(), v7.arena(), v15.arena(), v6.cursor(), v7.cursor());
            lemma_keeps_trans(v5.arena(), v6.arena(), v15.arena(), v5.cursor(), v6.cursor());
            lemma_keeps_trans(v4.arena(), v5.arena(), v15.arena(), v4.cursor(), v5.cursor());
            lemma_keeps_trans(v3.arena(), v4.arena(), v15.arena(), v3.cursor(), v4.cursor());
            lemma_keeps_trans(v2.arena(), v3.arena(), v15.arena(), v2.cursor(), v3.cursor());
            lemma_keeps_trans(v1.arena(), v2.arena(), v15.arena(), v1.cursor(), v2.cursor());
            lemma_keeps_trans(v0.arena(), v1.arena(), v15.arena(), v0.cursor(), v1.cursor());
            lemma_keeps_trans(w0.arena(), v0.arena(), v15.arena(), w0.cursor(), v0.cursor());
            lemma_view_stays(&self.0.0, heads.0, v0, v15, base + w0.cursor(), base + v0.cursor());
            self.0.0.lemma_widen(heads.0, v15.image(), base + w0.cursor(), base + v0.cursor(), base + w0.cursor(), base + v15.cursor(), false);
            lemma_head_put(self.0.0, heads.0, v0, v1, v15, ptr as int, base + w0.cursor(), base + v15.cursor());
            lemma_view_stays(&self.0.1, heads.1, v0, v15, base + w0.cursor(), base + v0.cursor());
            self.0.1.lemma_widen(heads.1, v15.image(), base + w0.cursor(), base + v0.cursor(), base + w0.cursor(), base + v15.cursor(), false);
            lemma_head_put(self.0.1, heads.1, v1, v2, v15, ptr as int + T1::Ref::size(), base + w0.cursor(), base + v15.cursor());
            lemma_view_stays(&self.0.2, heads.2, v0, v15, base + w0.cursor(), base + v0.cursor());
            self.0.2.lemma_widen(heads.2, v15.image(), base + w0.cursor(), base + v0.cursor(), base + w0.cursor(), base + v15.cursor(), false);
            lemma_head_put(self.0.2, heads.2, v2, v3, v15, ptr as int + T1::Ref::size() + T2::Ref::size(), base + w0.cursor(), base + v15.cursor());
            lemma_view_stays(&self.0.3, heads.3, v0, v15, base + w0.cursor(), base + v0.cursor());
            self.0.3.lemma_widen(heads.3, v15.image(), base + w0.cursor(), base + v0.cursor(), base + w0.cursor(), base + v15.cursor(), false);
            lemma_head_put(self.0.3, heads.3, v3, v4, v15, ptr as int + T1::Ref::size() + T2::Ref::size() + T3::Ref::size(), base + w0.cursor(), base + v15.cursor());
            lemma_view_stays(&self.0.4, heads.4, v0, v15, base + w0.cursor(), base + v0.cursor());
            self.0.4.lemma_widen(heads.4, v15.image(), base + w0.cursor(), base + v0.cursor(), base + w0.cursor(), base + v15.cursor(), false);
            lemma_head_put(self.0.4, heads.4, v4, v5, v15, ptr as int + T1::Ref::size() + T2::Ref::size() + T3::Ref::size() + T4::Ref::size(), base + w0.cursor(), base + v15.cursor());
            lemma_view_stays(&self.0.5, heads.5, v0, v15, base + w0.cursor(), base + v0.cursor());
            self.0.5.lemma_widen(heads.5, v15.image(), base + w0.cursor(), base + v0.cursor(), base + w0.cursor(), base + v15.cursor(), false);
            lemma_head_put(self.0.5, heads.5, v5, v6, v15, ptr as int + T1::Ref::size() + T2::Ref::size() + T3::Ref::size() + T4::Ref::size() + T5::Ref::size(), base + w0.cursor(), base + v15.cursor());
            lemma_view_stays(&self.0.6, heads.6, v0, v15, base + w0.cursor(), base + v0.cursor());
            self.0.6.lemma_widen(heads.6, v15.image(), base + w0.cursor(), base + v0.cursor(), base + w0.cursor(), base + v15.cursor(), false);
            lemma_head_put(self.0.6, heads.6, v6, v7, v15, ptr as int + T1::Ref::size() + T2::Ref::size() + T3::Ref::size() + T4::Ref::size() + T5::Ref::size() + T6::Ref::size(), base + w0.cursor(), base + v15.cursor());
            lemma_view_stays(&self.0.7, heads.7, v0, v15, base + w0.cursor(), base + v0.cursor());
            self.0.7.lemma_widen(heads.7, v15.image(), base + w0.cursor(), base + v0.cursor(), base + w0.cursor(), base + v15.cursor(), false);
            lemma_head_put(self.0.7, heads.7, v7, v8, v15, ptr as int + T1::Ref::size() + T2::Ref::size() + T3::Ref::size() + T4::Ref::size() + T5::Ref::size() + T6::Ref::size() + T7::Ref::size(), base + w0.cursor(), base + v15.cursor());
            lemma_view_stays(&self.0.8, heads.8, v0, v15, base + w0.cursor(), base + v0.cursor());
            self.0.8.lemma_widen(heads.8, v15.image(), base + w0.cursor(), base + v0.cursor(), base + w0.cursor(), base + v15.cursor(), false);
            lemma_head_put(self.0.8, heads.8, v8, v9, v15, ptr as int + T1::Ref::size() + T2::Ref::size() + T3::Ref::size() + T4::Ref::size() + T5::Ref::size() + T6::Ref::size() + T7::Ref::size() + T8::Ref::size(), base + w0.cursor(), base + v15.cursor());
            lemma_view_stays(&self.0.9, heads.9, v0, v15, base + w0.cursor(), base + v0.cursor());
            self.0.9.lemma_widen(heads.9, v15.image(), base + w0.cursor(), base + v0.cursor(), base + w0.cursor(), base + v15.cursor(), false);
            lemma_head_put(self.0.9, heads.9, v9, v10, v15, ptr as int + T1::Ref::size() + T2::Ref::size() + T3::Ref::size() + T4::Ref::size() + T5::Ref::size() + T6::Ref::size() + T7::Ref::size() + T8::Ref::size() + T9::Ref::size(), base + w0.cursor(), base + v15.cursor());
            lemma_view_stays(&self.0.10, heads.10, v0, v15, base + w0.cursor(), base + v0.cursor());
            self.0.10.lemma_widen(heads.10, v15.image(), base + w0.cursor(), base + v0.cursor(), base + w0.cursor(), base + v15.cursor(), false);
            lemma_head_put(self.0.10, heads.10, v10, v11, v15, ptr as int + T1::Ref::size() + T2::Ref::size() + T3::Ref::size() + T4::Ref::size() + T5::Ref::size() + T6::Ref::size() + T7::Ref::size() + T8::Ref::size() + T9::Ref::size() + T10::Ref::size(), base + w0.cursor(), base + v15.cursor());
            lemma_view_stays(&self.0.11, heads.11, v0, v15, base + w0.cursor(), base + v0.cursor());
            self.0.11.lemma_widen(heads.11, v15.image(), base + w0.cursor(), base + v0.cursor(), base + w0.cursor(), base + v15.cursor(), false);
            lemma_head_put(self.0.11, heads.11, v11, v12, v15, ptr as int + T1::Ref::size() + T2::Ref::size() + T3::Ref::size() + T4::Ref::size() + T5::Ref::size() + T6::Ref::size() + T7::Ref::size() + T8::Ref::size() + T9::Ref::size() + T10::Ref::size() + T11::Ref::size(), base + w0.cursor(), base + v15.cursor());
            lemma_view_stays(&self.0.12, heads.12, v0, v15, base + w0.cursor(), base + v0.cursor());
            self.0.12.lemma_widen(heads.12, v15.image(), base + w0.cursor(), base + v0.cursor(), base + w0.cursor(), base + v15.cursor(), false);
            lemma_head_put(self.0.12, heads.12, v12, v13, v15, ptr as int + T1::Ref::size() + T2::Ref::size() + T3::Ref::size() + T4::Ref::size() + T5::Ref::size() + T6::Ref::size() + T7::Ref::size() + T8::Ref::size() + T9::Ref::size() + T10::Ref::size() + T11::Ref::size() + T12::Ref::size(), base + w0.cursor(), base + v15.cursor());
            lemma_view_stays(&self.0.13, heads.13, v0, v15, base + w0.cursor(), base + v0.cursor());
            self.0.13.lemma_widen(heads.13, v15.image(), base + w0.cursor(), base + v0.cursor(), base + w0.cursor(), base + v15.cursor(), false);
            lemma_head_put(self.0.13, heads.13, v13, v14, v15, ptr as int + T1::Ref::size() + T2::Ref::size() + T3::Ref::size() + T4::Ref::size() + T5::Ref::size() + T6::Ref::size() + T7::Ref::size() + T8::Ref::size() + T9::Ref::size() + T10::Ref::size() + T11::Ref::size() + T12::Ref::size() + T13::Ref::size(), base + w0.cursor(), base + v15.cursor());
            lemma_view_stays(&self.0.14, heads.14, v0, v15, base + w0.cursor(), base + v0.cursor());
            self.0.14.lemma_widen(heads.14, v15.image(), base + w0.cursor(), base + v0.cursor(), base + w0.cursor(), base + v15.cursor(), false);
            lemma_head_put(self.0.14, heads.14, v14, v15, v15, ptr as int + T1::Ref::size() + T2::Ref::size() + T3::Ref::size() + T4::Ref::size() + T5::Ref::size() + T6::Ref::size() + T7::Ref::size() + T8::Ref::size() + T9::Ref::size() + T10::Ref::size() + T11::Ref::size() + T12::Ref::size() + T13::Ref::size() + T14::Ref::size(), base + w0.cursor(), base + v15.cursor());
        }
        ptr
    }

    fn pinned<M: MemoryRead>(&self, r: &usize, mem: &M, out: &mut Vec<Segment>) {
        let mut addr: usize = *r;
        match mem.read(addr, T1::Ref::size_of()) {
            Some(bytes) => {
                let head = T1::Ref::from_bytes(&bytes);
                self.0.0.pinned(&head, mem, out);
            },
            None => {
                assert(false);
                return ;
            },
        }
        addr = addr + T1::Ref::size_of();
        match mem.read(addr, T2::Ref::size_of()) {
            Some(bytes) => {
                let head = T2::Ref::from_bytes(&bytes);
                self.0.1.pinned(&head, mem, out);
            },
            None => {
                assert(false);
                return ;
            },
        }
        addr = addr + T2::Ref::size_of();
        match mem.read(addr, T3::Ref::size_of()) {
            Some(bytes) => {
                let head = T3::Ref::from_bytes(&bytes);
                self.0.2.pinned(&head, mem, out);
            },
            None => {
                assert(false);
                return ;
            },
        }
        addr = addr + T3::Ref::size_of();
        match mem.read(addr, T4::Ref::size_of()) {
            Some(bytes) => {
                let head = T4::Ref::from_bytes(&bytes);
                self.0.3.pinned(&head, mem, out);
            },
            None => {
                assert(false);
                return ;
            },
        }
        addr = addr + T4::Ref::size_of();
        match mem.read(addr, T5::Ref::size_of()) {
            Some(bytes) => {
                let head = T5::Ref::from_bytes(&bytes);
                self.0.4.pinned(&head, mem, out);
            },
            None => {
                assert(false);
                return ;
            },
        }
        addr = addr + T5::Ref::size_of();
        match mem.read(addr, T6::Ref::size_of()) {
            Some(bytes) => {
                let head = T6::Ref::from_bytes(&bytes);
                self.0.5.pinned(&head, mem, out);
            },
            None => {
                assert(false);
                return ;
            },
        }
        addr = addr + T6::Ref::size_of();
        match mem.read(addr, T7::Ref::size_of()) {
            Some(bytes) => {
                let head = T7::Ref::from_bytes(&bytes);
                self.0.6.pinned(&head, mem, out);
            },
            None => {
                assert(false);
                return ;
            },
        }
        addr = addr + T7::Ref::size_of();
        match mem.read(addr, T8::Ref::size_of()) {
            Some(bytes) => {
                let head = T8::Ref::from_bytes(&bytes);
                self.0.7.pinned(&head, mem, out);
            },
            None => {
                assert(false);
                return ;
            },
        }
        addr = addr + T8::Ref::size_of();
        match mem.read(addr, T9::Ref::size_of()) {
            Some(bytes) => {
                let head = T9::Ref::from_bytes(&bytes);
                self.0.8.pinned(&head, mem, out);
            },
            None => {
                assert(false);
                return ;
            },
        }
        addr = addr + T9::Ref::size_of();
        match mem.read(addr, T10::Ref::size_of()) {
            Some(bytes) => {
                let head = T10::Ref::from_bytes(&bytes);
                self.0.9.pinned(&head, mem, out);
            },
            None => {
                assert(false);
                return ;
            },
        }
        addr = addr + T10::Ref::size_of();
        match mem.read(addr, T11::Ref::size_of()) {
            Some(bytes) => {
                let head = T11::Ref::from_bytes(&bytes);
                self.0.10.pinned(&head, mem, out);
            },
            None => {
                assert(false);
                return ;
            },
        }
        addr = addr + T11::Ref::size_of();
        match mem.read(addr, T12::Ref::size_of()) {
            Some(bytes) => {
                let head = T12::Ref::from_bytes(&bytes);
                self.0.11.pinned(&head, mem, out);
            },
            None => {
                assert(false);
                return ;
            },
        }
        addr = addr + T12::Ref::size_of();
        match mem.read(addr, T13::Ref::size_of()) {
            Some(bytes) => {
                let head = T13::Ref::from_bytes(&bytes);
                self.0.12.pinned(&head, mem, out);
            },
            None => {
                assert(false);
                return ;
            },
        }
        addr = addr + T13::Ref::size_of();
        match mem.read(addr, T14::Ref::size_of()) {
            Some(bytes) => {
                let head = T14::Ref::from_bytes(&bytes);
                self.0.13.pinned(&head, mem, out);
            },
            None => {
                assert(false);
                return ;
            },
        }
        addr = addr + T14::Ref::size_of();
        match mem.read(addr, T15::Ref::size_of()) {
            Some(bytes) => {
                let head = T15::Ref::from_bytes(&bytes);
                self.0.14.pinned(&head, mem, out);
            },
            None => {
                assert(false);
                return ;
            },
        }
        addr = addr + T15::Ref::size_of();
        assert(pieces_of(out@) =~= pieces_of(old(out)@) + self.pins(*r, mem.image()));
    }
}

impl<T1: ToRef, T2: ToRef, T3: ToRef, T4: ToRef, T5: ToRef, T6: ToRef, T7: ToRef, T8: ToRef, T9: ToRef, T10: ToRef, T11: ToRef, T12: ToRef, T13: ToRef, T14: ToRef, T15: ToRef, T16: ToRef> ToRef for CopyStruct<(T1, T2, T3, T4, T5, T6, T7, T8, T9, T10, T11, T12, T13, T14, T15, T16)> where T1::Ref: Pod, T2::Ref: Pod, T3::Ref: Pod, T4::Ref: Pod, T5::Ref: Pod, T6::Ref: Pod, T7::Ref: Pod, T8::Ref: Pod, T9::Ref: Pod, T10::Ref: Pod, T11::Ref: Pod, T12::Ref: Pod, T13::Ref: Pod, T14::Ref: Pod, T15::Ref: Pod, T16::Ref: Pod {
    type Ref = usize;

    open spec fn mem_type() -> MemType {
        MemType::Complex
    }

    open spec fn size(&self) -> nat {
        self.0.size() + T1::Ref::size() + T2::Ref::size() + T3::Ref::size() + T4::Ref::size() + T5::Ref::size() + T6::Ref::size() + T7::Ref::size() + T8::Ref::size() + T9::Ref::size() + T10::Ref::size() + T11::Ref::size() + T12::Ref::size() + T13::Ref::size() + T14::Ref::size() + T15::Ref::size() + T16::Ref::size()
    }

    open spec fn views(&self, r: usize, img: Image, lo: int, hi: int, deep: bool) -> bool {
        &&& r + T1::Ref::size() + T2::Ref::size() + T3::Ref::size() + T4::Ref::size() + T5::Ref::size() + T6::Ref::size() + T7::Ref::size() + T8::Ref::size() + T9::Ref::size() + T10::Ref::size() + T11::Ref::size() + T12::Ref::size() + T13::Ref::size() + T14::Ref::size() + T15::Ref::size() + T16::Ref::size() <= usize::MAX
        &&& T1::Ref::size() + T2::Ref::size() + T3::Ref::size() + T4::Ref::size() + T5::Ref::size() + T6::Ref::size() + T7::Ref::size() + T8::Ref::size() + T9::Ref::size() + T10::Ref::size() + T11::Ref::size() + T12::Ref::size() + T13::Ref::size() + T14::Ref::size() + T15::Ref::size() + T16::Ref::size() > 0 ==> lo <= r && r + T1::Ref::size() + T2::Ref::size() + T3::Ref::size() + T4::Ref::size() + T5::Ref::size() + T6::Ref::size() + T7::Ref::size() + T8::Ref::size() + T9::Ref::size() + T10::Ref::size() + T11::Ref::size() + T12::Ref::size() + T13::Ref::size() + T14::Ref::size() + T15::Ref::size() + T16::Ref::size() <= hi
        &&& head_views(self.0.0, r as int, img, lo, hi, deep)
        &&& head_views(self.0.1, r as int + T1::Ref::size(), img, lo, hi, deep)
        &&& head_views(self.0.2, r as int + T1::Ref::size() + T2::Ref::size(), img, lo, hi, deep)
        &&& head_views(self.0.3, r as int + T1::Ref::size() + T2::Ref::size() + T3::Ref::size(), img, lo, hi, deep)
        &&& head_views(self.0.4, r as int + T1::Ref::size() + T2::Ref::size() + T3::Ref::size() + T4::Ref::size(), img, lo, hi, deep)
        &&& head_views(self.0.5, r as int + T1::Ref::size() + T2::Ref::size() + T3::Ref::size() + T4::Ref::size() + T5::Ref::size(), img, lo, hi, deep)
        &&& head_views(self.0.6, r as int + T1::Ref::size() + T2::Ref::size() + T3::Ref::size() + T4::Ref::size() + T5::Ref::size() + T6::Ref::size(), img, lo, hi, deep)
        &&& head_views(self.0.7, r as int + T1::Ref::size() + T2::Ref::size() + T3::Ref::size() + T4::Ref::size() + T5::Ref::size() + T6::Ref::size() + T7::Ref::size(), img, lo, hi, deep)
        &&& head_views(self.0.8, r as int + T1::Ref::size() + T2::Ref::size() + T3::Ref::size() + T4::Ref::size() + T5::Ref::size() + T6::Ref::size() + T7::Ref::size() + T8::Ref::size(), img, lo, hi, deep)
        &&& head_views(self.0.9, r as int + T1::Ref::size() + T2::Ref::size() + T3::Ref::size() + T4::Ref::size() + T5::Ref::size() + T6::Ref::size() + T7::Ref::size() + T8::Ref::size() + T9::Ref::size(), img, lo, hi, deep)
        &&& head_views(self.0.10, r as int + T1::Ref::size() + T2::Ref::size() + T3::Ref::size() + T4::Ref::size() + T5::Ref::size() + T6::Ref::size() + T7::Ref::size() + T8::Ref::size() + T9::Ref::size() + T10::Ref::size(), img, lo, hi, deep)
        &&& head_views(self.0.11, r as int + T1::Ref::size() + T2::Ref::size() + T3::Ref::size() + T4::Ref::size() + T5::Ref::size() + T6::Ref::size() + T7::Ref::size() + T8::Ref::size() + T9::Ref::size() + T10::Ref::size() + T11::Ref::size(), img, lo, hi, deep)
        &&& head_views(self.0.12, r as int + T1::Ref::size() + T2::Ref::size() + T3::Ref::size() + T4::Ref::size() + T5::Ref::size() + T6::Ref::size() + T7::Ref::size() + T8::Ref::size() + T9::Ref::size() + T10::Ref::size() + T11::Ref::size() + T12::Ref::size(), img, lo, hi, deep)
        &&& head_views(self.0.13, r as int + T1::Ref::size() + T2::Ref::size() + T3::Ref::size() + T4::Ref::size() + T5::Ref::size() + T6::Ref::size() + T7::Ref::size() + T8::Ref::size() + T9::Ref::size() + T10::Ref::size() + T11::Ref::size() + T12::Ref::size() + T13::Ref::size(), img, lo, hi, deep)
        &&& head_views(self.0.14, r as int + T1::Ref::size() + T2::Ref::size() + T3::Ref::size() + T4::Ref::size() + T5::Ref::size() + T6::Ref::size() + T7::Ref::size() + T8::Ref::size() + T9::Ref::size() + T10::Ref::size() + T11::Ref::size() + T12::Ref::size() + T13::Ref::size() + T14::Ref::size(), img, lo, hi, deep)
        &&& head_views(self.0.15, r as int + T1::Ref::size() + T2::Ref::size() + T3::Ref::size() + T4::Ref::size() + T5::Ref::size() + T6::Ref::size() + T7::Ref::size() + T8::Ref::size() + T9::Ref::size() + T10::Ref::size() + T11::Ref::size() + T12::Ref::size() + T13::Ref::size() + T14::Ref::size() + T15::Ref::size(), img, lo, hi, deep)
    }

    open spec fn flat(&self) -> usize {
        0
    }

    open spec fn pins(&self, r: usize, img: Image) -> Seq<Piece> {
        head_pins(self.0.0, r as int, img) + head_pins(self.0.1, r as int + T1::Ref::size(), img) + head_pins(self.0.2, r as int + T1::Ref::size() + T2::Ref::size(), img) + head_pins(self.0.3, r as int + T1::Ref::size() + T2::Ref::size() + T3::Ref::size(), img) + head_pins(self.0.4, r as int + T1::Ref::size() + T2::Ref::size() + T3::Ref::size() + T4::Ref::size(), img) + head_pins(self.0.5, r as int + T1::Ref::size() + T2::Ref::size() + T3::Ref::size() + T4::Ref::size() + T5::Ref::size(), img) + head_pins(self.0.6, r as int + T1::Ref::size() + T2::Ref::size() + T3::Ref::size() + T4::Ref::size() + T5::Ref::size() + T6::Ref::size(), img) + head_pins(self.0.7, r as int + T1::Ref::size() + T2::Ref::size() + T3::Ref::size() + T4::Ref::size() + T5::Ref::size() + T6::Ref::size() + T7::Ref::size(), img) + head_pins(self.0.8, r as int + T1::Ref::size() + T2::Ref::size() + T3::Ref::size() + T4::Ref::size() + T5::Ref::size() + T6::Ref::size() + T7::Ref::size() + T8::Ref::size(), img) + head_pins(self.0.9, r as int + T1::Ref::size() + T2::Ref::size() + T3::Ref::size() + T4::Ref::size() + T5::Ref::size() + T6::Ref::size() + T7::Ref::size() + T8::Ref::size() + T9::Ref::size(), img) + head_pins(self.0.10, r as int + T1::Ref::size() + T2::Ref::size() + T3::Ref::size() + T4::Ref::size() + T5::Ref::size() + T6::Ref::size() + T7::Ref::size() + T8::Ref::size() + T9::Ref::size() + T10::Ref::size(), img) + head_pins(self.0.11, r as int + T1::Ref::size() + T2::Ref::size() + T3::Ref::size() + T4::Ref::size() + T5::Ref::size() + T6::Ref::size() + T7::Ref::size() + T8::Ref::size() + T9::Ref::size() + T10::Ref::size() + T11::Ref::size(), img) + head_pins(self.0.12, r as int + T1::Ref::size() + T2::Ref::size() + T3::Ref::size() + T4::Ref::size() + T5::Ref::size() + T6::Ref::size() + T7::Ref::size() + T8::Ref::size() + T9::Ref::size() + T10::Ref::size() + T11::Ref::size() + T12::Ref::size(), img) + head_pins(self.0.13, r as int + T1::Ref::size() + T2::Ref::size() + T3::Ref::size() + T4::Ref::size() + T5::Ref::size() + T6::Ref::size() + T7::Ref::size() + T8::Ref::size() + T9::Ref::size() + T10::Ref::size() + T11::Ref::size() + T12::Ref::size() + T13::Ref::size(), img) + head_pins(self.0.14, r as int + T1::Ref::size() + T2::Ref::size() + T3::Ref::size() + T4::Ref::size() + T5::Ref::size() + T6::Ref::size() + T7::Ref::size() + T8::Ref::size() + T9::Ref::size() + T10::Ref::size() + T11::Ref::size() + T12::Ref::size() + T13::Ref::size() + T14::Ref::size(), img) + head_pins(self.0.15, r as int + T1::Ref::size() + T2::Ref::size() + T3::Ref::size() + T4::Ref::size() + T5::Ref::size() + T6::Ref::size() + T7::Ref::size() + T8::Ref::size() + T9::Ref::size() + T10::Ref::size() + T11::Ref::size() + T12::Ref::size() + T13::Ref::size() + T14::Ref::size() + T15::Ref::size(), img)
    }

    proof fn lemma_flat(&self) {
    }

    proof fn lemma_primitive(&self, r: usize, img: Image, lo: int, hi: int, deep: bool) {
    }

    proof fn lemma_deepen(&self, r: usize, img: Image, other: Image, lo: int, hi: int) {
        lemma_holds_all_concat(other, head_pins(self.0.0, r as int, img) + head_pins(self.0.1, r as int + T1::Ref::size(), img) + head_pins(self.0.2, r as int + T1::Ref::size() + T2::Ref::size(), img) + head_pins(self.0.3, r as int + T1::Ref::size() + T2::Ref::size() + T3::Ref::size(), img) + head_pins(self.0.4, r as int + T1::Ref::size() + T2::Ref::size() + T3::Ref::size() + T4::Ref::size(), img) + head_pins(self.0.5, r as int + T1::Ref::size() + T2::Ref::size() + T3::Ref::size() + T4::Ref::size() + T5::Ref::size(), img) + head_pins(self.0.6, r as int + T1::Ref::size() + T2::Ref::size() + T3::Ref::size() + T4::Ref::size() + T5::Ref::size() + T6::Ref::size(), img) + head_pins(self.0.7, r as int + T1::Ref::size() + T2::Ref::size() + T3::Ref::size() + T4::Ref::size() + T5::Ref::size() + T6::Ref::size() + T7::Ref::size(), img) + head_pins(self.0.8, r as int + T1::Ref::size() + T2::Ref::size() + T3::Ref::size() + T4::Ref::size() + T5::Ref::size() + T6::Ref::size() + T7::Ref::size() + T8::Ref::size(), img) + head_pins(self.0.9, r as int + T1::Ref::size() + T2::Ref::size() + T3::Ref::size() + T4::Ref::size() + T5::Ref::size() + T6::Ref::size() + T7::Ref::size() + T8::Ref::size() + T9::Ref::size(), img) + head_pins(self.0.10, r as int + T1::Ref::size() + T2::Ref::size() + T3::Ref::size() + T4::Ref::size() + T5::Ref::size() + T6::Ref::size() + T7::Ref::size() + T8::Ref::size() + T9::Ref::size() + T10::Ref::size(), img) + head_pins(self.0.11, r as int + T1::Ref::size() + T2::Ref::size() + T3::Ref::size() + T4::Ref::size() + T5::Ref::size() + T6::Ref::size() + T7::Ref::size() + T8::Ref::size() + T9::Ref::size() + T10::Ref::size() + T11::Ref::size(), img) + head_pins(self.0.12, r as int + T1::Ref::size() + T2::Ref::size() + T3::Ref::size() + T4::Ref::size() + T5::Ref::size() + T6::Ref::size() + T7::Ref::size() + T8::Ref::size() + T9::Ref::size() + T10::Ref::size() + T11::Ref::size() + T12::Ref::size(), img) + head_pins(self.0.13, r as int + T1::Ref::size() + T2::Ref::size() + T3::Ref::size() + T4::Ref::size() + T5::Ref::size() + T6::Ref::size() + T7::Ref::size() + T8::Ref::size() + T9::Ref::size() + T10::Ref::size() + T11::Ref::size() + T12::Ref::size() + T13::Ref::size(), img) + head_pins(self.0.14, r as int + T1::Ref::size() + T2::Ref::size() + T3::Ref::size() + T4::Ref::size() + T5::Ref::size() + T6::Ref::size() + T7::Ref::size() + T8::Ref::size() + T9::Ref::size() + T10::Ref::size() + T11::Ref::size() + T12::Ref::size() + T13::Ref::size() + T14::Ref::size(), img), head_pins(self.0.15, r as int + T1::Ref::size() + T2::Ref::size() + T3::Ref::size() + T4::Ref::size() + T5::Ref::size() + T6::Ref::size() + T7::Ref::size() + T8::Ref::size() + T9::Ref::size() + T10::Ref::size() + T11::Ref::size() + T12::Ref::size() + T13::Ref::size() + T14::Ref::size() + T15::Ref::size(), img));
        lemma_holds_all_concat(other, head_pins(self.0.0, r as int, img) + head_pins(self.0.1, r as int + T1::Ref::size(), img) + head_pins(self.0.2, r as int + T1::Ref::size() + T2::Ref::size(), img) + head_pins(self.0.3, r as int + T1::Ref::size() + T2::Ref::size() + T3::Ref::size(), img) + head_pins(self.0.4, r as int + T1::Ref::size() + T2::Ref::size() + T3::Ref::size() + T4::Ref::size(), img) + head_pins(self.0.5, r as int + T1::Ref::size() + T2::Ref::size() + T3::Ref::size() + T4::Ref::size() + T5::Ref::size(), img) + head_pins(self.0.6, r as int + T1::Ref::size() + T2::Ref::size() + T3::Ref::size() + T4::Ref::size() + T5::Ref::size() + T6::Ref::size(), img) + head_pins(self.0.7, r as int + T1::Ref::size() + T2::Ref::size() + T3::Ref::size() + T4::Ref::size() + T5::Ref::size() + T6::Ref::size() + T7::Ref::size(), img) + head_pins(self.0.8, r as int + T1::Ref::size() + T2::Ref::size() + T3::Ref::size() + T4::Ref::size() + T5::Ref::size() + T6::Ref::size() + T7::Ref::size() + T8::Ref::size(), img) + head_pins(self.0.9, r as int + T1::Ref::size() + T2::Ref::size() + T3::Ref::size() + T4::Ref::size() + T5::Ref::size() + T6::Ref::size() + T7::Ref::size() + T8::Ref::size() + T9::Ref::size(), img) + head_pins(self.0.10, r as int + T1::Ref::size() + T2::Ref::size() + T3::Ref::size() + T4::Ref::size() + T5::Ref::size() + T6::Ref::size() + T7::Ref::size() + T8::Ref::size() + T9::Ref::size() + T10::Ref::size(), img) + head_pins(self.0.11, r as int + T1::Ref::size() + T2::Ref::size() + T3::Ref::size() + T4::Ref::size() + T5::Ref::size() + T6::Ref::size() + T7::Ref::size() + T8::Ref::size() + T9::Ref::size() + T10::Ref::size() + T11::Ref::size(), img) + head_pins(self.0.12, r as int + T1::Ref::size() + T2::Ref::size() + T3::Ref::size() + T4::Ref::size() + T5::Ref::size() + T6::Ref::size() + T7::Ref::size() + T8::Ref::size() + T9::Ref::size() + T10::Ref::size() + T11::Ref::size() + T12::Ref::size(), img) + head_pins(self.0.13, r as int + T1::Ref::size() + T2::Ref::size() + T3::Ref::size() + T4::Ref::size() + T5::Ref::size() + T6::Ref::size() + T7::Ref::size() + T8::Ref::size() + T9::Ref::size() + T10::Ref::size() + T11::Ref::size() + T12::Ref::size() + T13::Ref::size(), img), head_pins(self.0.14, r as int + T1::Ref::size() + T2::Ref::size() + T3::Ref::size() + T4::Ref::size() + T5::Ref::size() + T6::Ref::size() + T7::Ref::size() + T8::Ref::size() + T9::Ref::size() + T10::Ref::size() + T11::Ref::size() + T12::Ref::size() + T13::Ref::size() + T14::Ref::size(), img));
        lemma_holds_all_concat(other, head_pins(self.0.0, r as int, img) + head_pins(self.0.1, r as int + T1::Ref::size(), img) + head_pins(self.0.2, r as int + T1::Ref::size() + T2::Ref::size(), img) + head_pins(self.0.3, r as int + T1::Ref::size() + T2::Ref::size() + T3::Ref::size(), img) + head_pins(self.0.4, r as int + T1::Ref::size() + T2::Ref::size() + T3::Ref::size() + T4::Ref::size(), img) + head_pins(self.0.5, r as int + T1::Ref::size() + T2::Ref::size() + T3::Ref::size() + T4::Ref::size() + T5::Ref::size(), img) + head_pins(self.0.6, r as int + T1::Ref::size() + T2::Ref::size() + T3::Ref::size() + T4::Ref::size() + T5::Ref::size() + T6::Ref::size(), img) + head_pins(self.0.7, r as int + T1::Ref::size() + T2::Ref::size() + T3::Ref::size() + T4::Ref::size() + T5::Ref::size() + T6::Ref::size() + T7::Ref::size(), img) + head_pins(self.0.8, r as int + T1::Ref::size() + T2::Ref::size() + T3::Ref::size() + T4::Ref::size() + T5::Ref::size() + T6::Ref::size() + T7::Ref::size() + T8::Ref::size(), img) + head_pins(self.0.9, r as int + T1::Ref::size() + T2::Ref::size() + T3::Ref::size() + T4::Ref::size() + T5::Ref::size() + T6::Ref::size() + T7::Ref::size() + T8::Ref::size() + T9::Ref::size(), img) + head_pins(self.0.10, r as int + T1::Ref::size() + T2::Ref::size() + T3::Ref::size() + T4::Ref::size() + T5::Ref::size() + T6::Ref::size() + T7::Ref::size() + T8::Ref::size() + T9::Ref::size() + T10::Ref::size(), img) + head_pins(self.0.11, r as int + T1::Ref::size() + T2::Ref::size() + T3::Ref::size() + T4::Ref::size() + T5::Ref::size() + T6::Ref::size() + T7::Ref::size() + T8::Ref::size() + T9::Ref::size() + T10::Ref::size() + T11::Ref::size(), img) + head_pins(self.0.12, r as int + T1::Ref::size() + T2::Ref::size() + T3::Ref::size() + T4::Ref::size() + T5::Ref::size() + T6::Ref::size() + T7::Ref::size() + T8::Ref::size() + T9::Ref::size() + T10::Ref::size() + T11::Ref::size() + T12::Ref::size(), img), head_pins(self.0.13, r as int + T1::Ref::size() + T2::Ref::size() + T3::Ref::size() + T4::Ref::size() + T5::Ref::size() + T6::Ref::size() + T7::Ref::size() + T8::Ref::size() + T9::Ref::size() + T10::Ref::size() + T11::Ref::size() + T12::Ref::size() + T13::Ref::size(), img));
        lemma_holds_all_concat(other, head_pins(self.0.0, r as int, img) + head_pins(self.0.1, r as int + T1::Ref::size(), img) + head_pins(self.0.2, r as int + T1::Ref::size() + T2::Ref::size(), img) + head_pins(self.0.3, r as int + T1::Ref::size() + T2::Ref::size() + T3::Ref::size(), img) + head_pins(self.0.4, r as int + T1::Ref::size() + T2::Ref::size() + T3::Ref::size() + T4::Ref::size(), img) + head_pins(self.0.5, r as int + T1::Ref::size() + T2::Ref::size() + T3::Ref::size() + T4::Ref::size() + T5::Ref::size(), img) + head_pins(self.0.6, r as int + T1::Ref::size() + T2::Ref::size() + T3::Ref::size() + T4::Ref::size() + T5::Ref::size() + T6::Ref::size(), img) + head_pins(self.0.7, r as int + T1::Ref::size() + T2::Ref::size() + T3::Ref::size() + T4::Ref::size() + T5::Ref::size() + T6::Ref::size() + T7::Ref::size(), img) + head_pins(self.0.8, r as int + T1::Ref::size() + T2::Ref::size() + T3::Ref::size() + T4::Ref::size() + T5::Ref::size() + T6::Ref::size() + T7::Ref::size() + T8::Ref::size(), img) + head_pins(self.0.9, r as int + T1::Ref::size() + T2::Ref::size() + T3::Ref::size() + T4::Ref::size() + T5::Ref::size() + T6::Ref::size() + T7::Ref::size() + T8::Ref::size() + T9::Ref::size(), img) + head_pins(self.0.10, r as int + T1::Ref::size() + T2::Ref::size() + T3::Ref::size() + T4::Ref::size() + T5::Ref::size() + T6::Ref::size() + T7::Ref::size() + T8::Ref::size() + T9::Ref::size() + T10::Ref::size(), img) + head_pins(self.0.11, r as int + T1::Ref::size() + T2::Ref::size() + T3::Ref::size() + T4::Ref::size() + T5::Ref::size() + T6::Ref::size() + T7::Ref::size() + T8::Ref::size() + T9::Ref::size() + T10::Ref::size() + T11::Ref::size(), img), head_pins(self.0.12, r as int + T1::Ref::size() + T2::Ref::size() + T3::Ref::size() + T4::Ref::size() + T5::Ref::size() + T6::Ref::size() + T7::Ref::size() + T8::Ref::size() + T9::Ref::size() + T10::Ref::size() + T11::Ref::size() + T12::Ref::size(), img));
        lemma_holds_all_concat(other, head_pins(self.0.0, r as int, img) + head_pins(self.0.1, r as int + T1::Ref::size(), img) + head_pins(self.0.2, r as int + T1::Ref::size() + T2::Ref::size(), img) + head_pins(self.0.3, r as int + T1::Ref::size() + T2::Ref::size() + T3::Ref::size(), img) + head_pins(self.0.4, r as int + T1::Ref::size() + T2::Ref::size() + T3::Ref::size() + T4::Ref::size(), img) + head_pins(self.0.5, r as int + T1::Ref::size() + T2::Ref::size() + T3::Ref::size() + T4::Ref::size() + T5::Ref::size(), img) + head_pins(self.0.6, r as int + T1::Ref::size() + T2::Ref::size() + T3::Ref::size() + T4::Ref::size() + T5::Ref::size() + T6::Ref::size(), img) + head_pins(self.0.7, r as int + T1::Ref::size() + T2::Ref::size() + T3::Ref::size() + T4::Ref::size() + T5::Ref::size() + T6::Ref::size() + T7::Ref::size(), img) + head_pins(self.0.8, r as int + T1::Ref::size() + T2::Ref::size() + T3::Ref::size() + T4::Ref::size() + T5::Ref::size() + T6::Ref::size() + T7::Ref::size() + T8::Ref::size(), img) + head_pins(self.0.9, r as int + T1::Ref::size() + T2::Ref::size() + T3::Ref::size() + T4::Ref::size() + T5::Ref::size() + T6::Ref::size() + T7::Ref::size() + T8::Ref::size() + T9::Ref::size(), img) + head_pins(self.0.10, r as int + T1::Ref::size() + T2::Ref::size() + T3::Ref::size() + T4::Ref::size() + T5::Ref::size() + T6::Ref::size() + T7::Ref::size() + T8::Ref::size() + T9::Ref::size() + T10::Ref::size(), img), head_pins(self.0.11, r as int + T1::Ref::size() + T2::Ref::size() + T3::Ref::size() + T4::Ref::size() + T5::Ref::size() + T6::Ref::size() + T7::Ref::size() + T8::Ref::size() + T9::Ref::size() + T10::Ref::size() + T11::Ref::size(), img));
        lemma_holds_all_concat(other, head_pins(self.0.0, r as int, img) + head_pins(self.0.1, r as int + T1::Ref::size(), img) + head_pins(self.0.2, r as int + T1::Ref::size() + T2::Ref::size(), img) + head_pins(self.0.3, r as int + T1::Ref::size() + T2::Ref::size() + T3::Ref::size(), img) + head_pins(self.0.4, r as int + T1::Ref::size() + T2::Ref::size() + T3::Ref::size() + T4::Ref::size(), img) + head_pins(self.0.5, r as int + T1::Ref::size() + T2::Ref::size() + T3::Ref::size() + T4::Ref::size() + T5::Ref::size(), img) + head_pins(self.0.6, r as int + T1::Ref::size() + T2::Ref::size() + T3::Ref::size() + T4::Ref::size() + T5::Ref::size() + T6::Ref::size(), img) + head_pins(self.0.7, r as int + T1::Ref::size() + T2::Ref::size() + T3::Ref::size() + T4::Ref::size() + T5::Ref::size() + T6::Ref::size() + T7::Ref::size(), img) + head_pins(self.0.8, r as int + T1::Ref::size() + T2::Ref::size() + T3::Ref::size() + T4::Ref::size() + T5::Ref::size() + T6::Ref::size() + T7::Ref::size() + T8::Ref::size(), img) + head_pins(self.0.9, r as int + T1::Ref::size() + T2::Ref::size() + T3::Ref::size() + T4::Ref::size() + T5::Ref::size() + T6::Ref::size() + T7::Ref::size() + T8::Ref::size() + T9::Ref::size(), img), head_pins(self.0.10, r as int + T1::Ref::size() + T2::Ref::size() + T3::Ref::size() + T4::Ref::size() + T5::Ref::size() + T6::Ref::size() + T7::Ref::size() + T8::Ref::size() + T9::Ref::size() + T10::Ref::size(), img));
        lemma_holds_all_concat(other, head_pins(self.0.0, r as int, img) + head_pins(self.0.1, r as int + T1::Ref::size(), img) + head_pins(self.0.2, r as int + T1::Ref::size() + T2::Ref::size(), img) + head_pins(self.0.3, r as int + T1::Ref::size() + T2::Ref::size() + T3::Ref::size(), img) + head_pins(self.0.4, r as int + T1::Ref::size() + T2::Ref::size() + T3::Ref::size() + T4::Ref::size(), img) + head_pins(self.0.5, r as int + T1::Ref::size() + T2::Ref::size() + T3::Ref::size() + T4::Ref::size() + T5::Ref::size(), img) + head_pins(self.0.6, r as int + T1::Ref::size() + T2::Ref::size() + T3::Ref::size() + T4::Ref::size() + T5::Ref::size() + T6::Ref::size(), img) + head_pins(self.0.7, r as int + T1::Ref::size() + T2::Ref::size() + T3::Ref::size() + T4::Ref::size() + T5::Ref::size() + T6::Ref::size() + T7::Ref::size(), img) + head_pins(self.0.8, r as int + T1::Ref::size() + T2::Ref::size() + T3::Ref::size() + T4::Ref::size() + T5::Ref::size() + T6::Ref::size() + T7::Ref::size() + T8::Ref::size(), img), head_pins(self.0.9, r as int + T1::Ref::size() + T2::Ref::size() + T3::Ref::size() + T4::Ref::size() + T5::Ref::size() + T6::Ref::size() + T7::Ref::size() + T8::Ref::size() + T9::Ref::size(), img));
        lemma_holds_all_concat(other, head_pins(self.0.0, r as int, img) + head_pins(self.0.1, r as int + T1::Ref::size(), img) + head_pins(self.0.2, r as int + T1::Ref::size() + T2::Ref::size(), img) + head_pins(self.0.3, r as int + T1::Ref::size() + T2::Ref::size() + T3::Ref::size(), img) + head_pins(self.0.4, r as int + T1::Ref::size() + T2::Ref::size() + T3::Ref::size() + T4::Ref::size(), img) + head_pins(self.0.5, r as int + T1::Ref::size() + T2::Ref::size() + T3::Ref::size() + T4::Ref::size() + T5::Ref::size(), img) + head_pins(self.0.6, r as int + T1::Ref::size() + T2::Ref::size() + T3::Ref::size() + T4::Ref::size() + T5::Ref::size() + T6::Ref::size(), img) + head_pins(self.0.7, r as int + T1::Ref::size() + T2::Ref::size() + T3::Ref::size() + T4::Ref::size() + T5::Ref::size() + T6::Ref::size() + T7::Ref::size(), img), head_pins(self.0.8, r as int + T1::Ref::size() + T2::Ref::size() + T3::Ref::size() + T4::Ref::size() + T5::Ref::size() + T6::Ref::size() + T7::Ref::size() + T8::Ref::size(), img));
        lemma_holds_all_concat(other, head_pins(self.0.0, r as int, img) + head_pins(self.0.1, r as int + T1::Ref::size(), img) + head_pins(self.0.2, r as int + T1::Ref::size() + T2::Ref::size(), img) + head_pins(self.0.3, r as int + T1::Ref::size() + T2::Ref::size() + T3::Ref::size(), img) + head_pins(self.0.4, r as int + T1::Ref::size() + T2::Ref::size() + T3::Ref::size() + T4::Ref::size(), img) + head_pins(self.0.5, r as int + T1::Ref::size() + T2::Ref::size() + T3::Ref::size() + T4::Ref::size() + T5::Ref::size(), img) + head_pins(self.0.6, r as int + T1::Ref::size() + T2::Ref::size() + T3::Ref::size() + T4::Ref::size() + T5::Ref::size() + T6::Ref::size(), img), head_pins(self.0.7, r as int + T1::Ref::size() + T2::Ref::size() + T3::Ref::size() + T4::Ref::size() + T5::Ref::size() + T6::Ref::size() + T7::Ref::size(), img));
        lemma_holds_all_concat(other, head_pins(self.0.0, r as int, img) + head_pins(self.0.1, r as int + T1::Ref::size(), img) + head_pins(self.0.2, r as int + T1::Ref::size() + T2::Ref::size(), img) + head_pins(self.0.3, r as int + T1::Ref::size() + T2::Ref::size() + T3::Ref::size(), img) + head_pins(self.0.4, r as int + T1::Ref::size() + T2::Ref::size() + T3::Ref::size() + T4::Ref::size(), img) + head_pins(self.0.5, r as int + T1::Ref::size() + T2::Ref::size() + T3::Ref::size() + T4::Ref::size() + T5::Ref::size(), img), head_pins(self.0.6, r as int + T1::Ref::size() + T2::Ref::size() + T3::Ref::size() + T4::Ref::size() + T5::Ref::size() + T6::Ref::size(), img));
        lemma_holds_all_concat(other, head_pins(self.0.0, r as int, img) + head_pins(self.0.1, r as int + T1::Ref::size(), img) + head_pins(self.0.2, r as int + T1::Ref::size() + T2::Ref::size(), img) + head_pins(self.0.3, r as int + T1::Ref::size() + T2::Ref::size() + T3::Ref::size(), img) + head_pins(self.0.4, r as int + T1::Ref::size() + T2::Ref::size() + T3::Ref::size() + T4::Ref::size(), img), head_pins(self.0.5, r as int + T1::Ref::size() + T2::Ref::size() + T3::Ref::size() + T4::Ref::size() + T5::Ref::size(), img));
        lemma_holds_all_concat(other, head_pins(self.0.0, r as int, img) + head_pins(self.0.1, r as int + T1::Ref::size(), img) + head_pins(self.0.2, r as int + T1::Ref::size() + T2::Ref::size(), img) + head_pins(self.0.3, r as int + T1::Ref::size() + T2::Ref::size() + T3::Ref::size(), img), head_pins(self.0.4, r as int + T1::Ref::size() + T2::Ref::size() + T3::Ref::size() + T4::Ref::size(), img));
        lemma_holds_all_concat(other, head_pins(self.0.0, r as int, img) + head_pins(self.0.1, r as int + T1::Ref::size(), img) + head_pins(self.0.2, r as int + T1::Ref::size() + T2::Ref::size(), img), head_pins(self.0.3, r as int + T1::Ref::size() + T2::Ref::size() + T3::Ref::size(), img));
        lemma_holds_all_concat(other, head_pins(self.0.0, r as int, img) + head_pins(self.0.1, r as int + T1::Ref::size(), img), head_pins(self.0.2, r as int + T1::Ref::size() + T2::Ref::size(), img));
        lemma_holds_all_concat(other, head_pins(self.0.0, r as int, img), head_pins(self.0.1, r as int + T1::Ref::size(), img));
        lemma_head_deepen(self.0.0, r as int, img, other, lo, hi);
        lemma_head_deepen(self.0.1, r as int + T1::Ref::size(), img, other, lo, hi);
        lemma_head_deepen(self.0.2, r as int + T1::Ref::size() + T2::Ref::size(), img, other, lo, hi);
        lemma_head_deepen(self.0.3, r as int + T1::Ref::size() + T2::Ref::size() + T3::Ref::size(), img, other, lo, hi);
        lemma_head_deepen(self.0.4, r as int + T1::Ref::size() + T2::Ref::size() + T3::Ref::size() + T4::Ref::size(), img, other, lo, hi);
        lemma_head_deepen(self.0.5, r as int + T1::Ref::size() + T2::Ref::size() + T3::Ref::size() + T4::Ref::size() + T5::Ref::size(), img, other, lo, hi);
        lemma_head_deepen(self.0.6, r as int + T1::Ref::size() + T2::Ref::size() + T3::Ref::size() + T4::Ref::size() + T5::Ref::size() + T6::Ref::size(), img, other, lo, hi);
        lemma_head_deepen(self.0.7, r as int + T1::Ref::size() + T2::Ref::size() + T3::Ref::size() + T4::Ref::size() + T5::Ref::size() + T6::Ref::size() + T7::Ref::size(), img, other, lo, hi);
        lemma_head_deepen(self.0.8, r as int + T1::Ref::size() + T2::Ref::size() + T3::Ref::size() + T4::Ref::size() + T5::Ref::size() + T6::Ref::size() + T7::Ref::size() + T8::Ref::size(), img, other, lo, hi);
        lemma_head_deepen(self.0.9, r as int + T1::Ref::size() + T2::Ref::size() + T3::Ref::size() + T4::Ref::size() + T5::Ref::size() + T6::Ref::size() + T7::Ref::size() + T8::Ref::size() + T9::Ref::size(), img, other, lo, hi);
        lemma_head_deepen(self.0.10, r as int + T1::Ref::size() + T2::Ref::size() + T3::Ref::size() + T4::Ref::size() + T5::Ref::size() + T6::Ref::size() + T7::Ref::size() + T8::Ref::size() + T9::Ref::size() + T10::Ref::size(), img, other, lo, hi);
        lemma_head_deepen(self.0.11, r as int + T1::Ref::size() + T2::Ref::size() + T3::Ref::size() + T4::Ref::size() + T5::Ref::size() + T6::Ref::size() + T7::Ref::size() + T8::Ref::size() + T9::Ref::size() + T10::Ref::size() + T11::Ref::size(), img, other, lo, hi);
        lemma_head_deepen(self.0.12, r as int + T1::Ref::size() + T2::Ref::size() + T3::Ref::size() + T4::Ref::size() + T5::Ref::size() + T6::Ref::size() + T7::Ref::size() + T8::Ref::size() + T9::Ref::size() + T10::Ref::size() + T11::Ref::size() + T12::Ref::size(), img, other, lo, hi);
        lemma_head_deepen(self.0.13, r as int + T1::Ref::size() + T2::Ref::size() + T3::Ref::size() + T4::Ref::size() + T5::Ref::size() + T6::Ref::size() + T7::Ref::size() + T8::Ref::size() + T9::Ref::size() + T10::Ref::size() + T11::Ref::size() + T12::Ref::size() + T13::Ref::size(), img, other, lo, hi);
        lemma_head_deepen(self.0.14, r as int + T1::Ref::size() + T2::Ref::size() + T3::Ref::size() + T4::Ref::size() + T5::Ref::size() + T6::Ref::size() + T7::Ref::size() + T8::Ref::size() + T9::Ref::size() + T10::Ref::size() + T11::Ref::size() + T12::Ref::size() + T13::Ref::size() + T14::Ref::size(), img, other, lo, hi);
        lemma_head_deepen(self.0.15, r as int + T1::Ref::size() + T2::Ref::size() + T3::Ref::size() + T4::Ref::size() + T5::Ref::size() + T6::Ref::size() + T7::Ref::size() + T8::Ref::size() + T9::Ref::size() + T10::Ref::size() + T11::Ref::size() + T12::Ref::size() + T13::Ref::size() + T14::Ref::size() + T15::Ref::size(), img, other, lo, hi);
    }

    proof fn lemma_frame(&self, r: usize, img: Image, other: Image, lo: int, hi: int, deep: bool) {
        lemma_head_frame(self.0.0, r as int, img, other, lo, hi, deep);
        lemma_head_frame(self.0.1, r as int + T1::Ref::size(), img, other, lo, hi, deep);
        lemma_head_frame(self.0.2, r as int + T1::Ref::size() + T2::Ref::size(), img, other, lo, hi, deep);
        lemma_head_frame(self.0.3, r as int + T1::Ref::size() + T2::Ref::size() + T3::Ref::size(), img, other, lo, hi, deep);
        lemma_head_frame(self.0.4, r as int + T1::Ref::size() + T2::Ref::size() + T3::Ref::size() + T4::Ref::size(), img, other, lo, hi, deep);
        lemma_head_frame(self.0.5, r as int + T1::Ref::size() + T2::Ref::size() + T3::Ref::size() + T4::Ref::size() + T5::Ref::size(), img, other, lo, hi, deep);
        lemma_head_frame(self.0.6, r as int + T1::Ref::size() + T2::Ref::size() + T3::Ref::size() + T4::Ref::size() + T5::Ref::size() + T6::Ref::size(), img, other, lo, hi, deep);
        lemma_head_frame(self.0.7, r as int + T1::Ref::size() + T2::Ref::size() + T3::Ref::size() + T4::Ref::size() + T5::Ref::size() + T6::Ref::size() + T7::Ref::size(), img, other, lo, hi, deep);
        lemma_head_frame(self.0.8, r as int + T1::Ref::size() + T2::Ref::size() + T3::Ref::size() + T4::Ref::size() + T5::Ref::size() + T6::Ref::size() + T7::Ref::size() + T8::Ref::size(), img, other, lo, hi, deep);
        lemma_head_frame(self.0.9, r as int + T1::Ref::size() + T2::Ref::size() + T3::Ref::size() + T4::Ref::size() + T5::Ref::size() + T6::Ref::size() + T7::Ref::size() + T8::Ref::size() + T9::Ref::size(), img, other, lo, hi, deep);
        lemma_head_frame(self.0.10, r as int + T1::Ref::size() + T2::Ref::size() + T3::Ref::size() + T4::Ref::size() + T5::Ref::size() + T6::Ref::size() + T7::Ref::size() + T8::Ref::size() + T9::Ref::size() + T10::Ref::size(), img, other, lo, hi, deep);
        lemma_head_frame(self.0.11, r as int + T1::Ref::size() + T2::Ref::size() + T3::Ref::size() + T4::Ref::size() + T5::Ref::size() + T6::Ref::size() + T7::Ref::size() + T8::Ref::size() + T9::Ref::size() + T10::Ref::size() + T11::Ref::size(), img, other, lo, hi, deep);
        lemma_head_frame(self.0.12, r as int + T1::Ref::size() + T2::Ref::size() + T3::Ref::size() + T4::Ref::size() + T5::Ref::size() + T6::Ref::size() + T7::Ref::size() + T8::Ref::size() + T9::Ref::size() + T10::Ref::size() + T11::Ref::size() + T12::Ref::size(), img, other, lo, hi, deep);
        lemma_head_frame(self.0.13, r as int + T1::Ref::size() + T2::Ref::size() + T3::Ref::size() + T4::Ref::size() + T5::Ref::size() + T6::Ref::size() + T7::Ref::size() + T8::Ref::size() + T9::Ref::size() + T10::Ref::size() + T11::Ref::size() + T12::Ref::size() + T13::Ref::size(), img, other, lo, hi, deep);
        lemma_head_frame(self.0.14, r as int + T1::Ref::size() + T2::Ref::size() + T3::Ref::size() + T4::Ref::size() + T5::Ref::size() + T6::Ref::size() + T7::Ref::size() + T8::Ref::size() + T9::Ref::size() + T10::Ref::size() + T11::Ref::size() + T12::Ref::size() + T13::Ref::size() + T14::Ref::size(), img, other, lo, hi, deep);
        lemma_head_frame(self.0.15, r as int + T1::Ref::size() + T2::Ref::size() + T3::Ref::size() + T4::Ref::size() + T5::Ref::size() + T6::Ref::size() + T7::Ref::size() + T8::Ref::size() + T9::Ref::size() + T10::Ref::size() + T11::Ref::size() + T12::Ref::size() + T13::Ref::size() + T14::Ref::size() + T15::Ref::size(), img, other, lo, hi, deep);
    }

    proof fn lemma_widen(
        &self,
        r: usize,
        img: Image,
        lo: int,
        hi: int,
        wide_lo: int,
        wide_hi: int,
        deep: bool,
    ) {
        match head_at::<T1::Ref>(img, r as int) {
            Some(head) => {
                self.0.0.lemma_widen(head, img, lo, hi, wide_lo, wide_hi, deep);
            },
            None => {},
        }
        match head_at::<T2::Ref>(img, r as int + T1::Ref::size()) {
            Some(head) => {
                self.0.1.lemma_widen(head, img, lo, hi, wide_lo, wide_hi, deep);
            },
            None => {},
        }
        match head_at::<T3::Ref>(img, r as int + T1::Ref::size() + T2::Ref::size()) {
            Some(head) => {
                self.0.2.lemma_widen(head, img, lo, hi, wide_lo, wide_hi, deep);
            },
            None => {},
        }
        match head_at::<T4::Ref>(img, r as int + T1::Ref::size() + T2::Ref::size() + T3::Ref::size()) {
            Some(head) => {
                self.0.3.lemma_widen(head, img, lo, hi, wide_lo, wide_hi, deep);
            },
            None => {},
        }
        match head_at::<T5::Ref>(img, r as int + T1::Ref::size() + T2::Ref::size() + T3::Ref::size() + T4::Ref::size()) {
            Some(head) => {
                self.0.4.lemma_widen(head, img, lo, hi, wide_lo, wide_hi, deep);
            },
            None => {},
        }
        match head_at::<T6::Ref>(img, r as int + T1::Ref::size() + T2::Ref::size() + T3::Ref::size() + T4::Ref::size() + T5::Ref::size()) {
            Some(head) => {
                self.0.5.lemma_widen(head, img, lo, hi, wide_lo, wide_hi, deep);
            },
            None => {},
        }
        match head_at::<T7::Ref>(img, r as int + T1::Ref::size() + T2::Ref::size() + T3::Ref::size() + T4::Ref::size() + T5::Ref::size() + T6::Ref::size()) {
            Some(head) => {
                self.0.6.lemma_widen(head, img, lo, hi, wide_lo, wide_hi, deep);
            },
            None => {},
        }
        match head_at::<T8::Ref>(img, r as int + T1::Ref::size() + T2::Ref::size() + T3::Ref::size() + T4::Ref::size() + T5::Ref::size() + T6::Ref::size() + T7::Ref::size()) {
            Some(head) => {
                self.0.7.lemma_widen(head, img, lo, hi, wide_lo, wide_hi, deep);
            },
            None => {},
        }
        match head_at::<T9::Ref>(img, r as int + T1::Ref::size() + T2::Ref::size() + T3::Ref::size() + T4::Ref::size() + T5::Ref::size() + T6::Ref::size() + T7::Ref::size() + T8::Ref::size()) {
            Some(head) => {
                self.0.8.lemma_widen(head, img, lo, hi, wide_lo, wide_hi, deep);
            },
            None => {},
        }
        match head_at::<T10::Ref>(img, r as int + T1::Ref::size() + T2::Ref::size() + T3::Ref::size() + T4::Ref::size() + T5::Ref::size() + T6::Ref::size() + T7::Ref::size() + T8::Ref::size() + T9::Ref::size()) {
            Some(head) => {
                self.0.9.lemma_widen(head, img, lo, hi, wide_lo, wide_hi, deep);
            },
            None => {},
        }
        match head_at::<T11::Ref>(img, r as int + T1::Ref::size() + T2::Ref::size() + T3::Ref::size() + T4::Ref::size() + T5::Ref::size() + T6::Ref::size() + T7::Ref::size() + T8::Ref::size() + T9::Ref::size() + T10::Ref::size()) {
            Some(head) => {
                self.0.10.lemma_widen(head, img, lo, hi, wide_lo, wide_hi, deep);
            },
            None => {},
        }
        match head_at::<T12::Ref>(img, r as int + T1::Ref::size() + T2::Ref::size() + T3::Ref::size() + T4::Ref::size() + T5::Ref::size() + T6::Ref::size() + T7::Ref::size() + T8::Ref::size() + T9::Ref::size() + T10::Ref::size() + T11::Ref::size()) {
            Some(head) => {
                self.0.11.lemma_widen(head, img, lo, hi, wide_lo, wide_hi, deep);
            },
            None => {},
        }
        match head_at::<T13::Ref>(img, r as int + T1::Ref::size() + T2::Ref::size() + T3::Ref::size() + T4::Ref::size() + T5::Ref::size() + T6::Ref::size() + T7::Ref::size() + T8::Ref::size() + T9::Ref::size() + T10::Ref::size() + T11::Ref::size() + T12::Ref::size()) {
            Some(head) => {
                self.0.12.lemma_widen(head, img, lo, hi, wide_lo, wide_hi, deep);
            },
            None => {},
        }
        match head_at::<T14::Ref>(img, r as int + T1::Ref::size() + T2::Ref::size() + T3::Ref::size() + T4::Ref::size() + T5::Ref::size() + T6::Ref::size() + T7::Ref::size() + T8::Ref::size() + T9::Ref::size() + T10::Ref::size() + T11::Ref::size() + T12::Ref::size() + T13::Ref::size()) {
            Some(head) => {
                self.0.13.lemma_widen(head, img, lo, hi, wide_lo, wide_hi, deep);
            },
            None => {},
        }
        match head_at::<T15::Ref>(img, r as int + T1::Ref::size() + T2::Ref::size() + T3::Ref::size() + T4::Ref::size() + T5::Ref::size() + T6::Ref::size() + T7::Ref::size() + T8::Ref::size() + T9::Ref::size() + T10::Ref::size() + T11::Ref::size() + T12::Ref::size() + T13::Ref::size() + T14::Ref::size()) {
            Some(head) => {
                self.0.14.lemma_widen(head, img, lo, hi, wide_lo, wide_hi, deep);
            },
            None => {},
        }
        match head_at::<T16::Ref>(img, r as int + T1::Ref::size() + T2::Ref::size() + T3::Ref::size() + T4::Ref::size() + T5::Ref::size() + T6::Ref::size() + T7::Ref::size() + T8::Ref::size() + T9::Ref::size() + T10::Ref::size() + T11::Ref::size() + T12::Ref::size() + T13::Ref::size() + T14::Ref::size() + T15::Ref::size()) {
            Some(head) => {
                self.0.15.lemma_widen(head, img, lo, hi, wide_lo, wide_hi, deep);
            },
            None => {},
        }
    }

    fn mem_type_of() -> (t: MemType) {
        MemType::Complex
    }

    fn to_size(&self, acc: &mut usize) {
        self.0.to_size(acc);
        *acc = *acc + T1::Ref::size_of();
        *acc = *acc + T2::Ref::size_of();
        *acc = *acc + T3::Ref::size_of();
        *acc = *acc + T4::Ref::size_of();
        *acc = *acc + T5::Ref::size_of();
        *acc = *acc + T6::Ref::size_of();
        *acc = *acc + T7::Ref::size_of();
        *acc = *acc + T8::Ref::size_of();
        *acc = *acc + T9::Ref::size_of();
        *acc = *acc + T10::Ref::size_of();
        *acc = *acc + T11::Ref::size_of();
        *acc = *acc + T12::Ref::size_of();
        *acc = *acc + T13::Ref::size_of();
        *acc = *acc + T14::Ref::size_of();
        *acc = *acc + T15::Ref::size_of();
        *acc = *acc + T16::Ref::size_of();
    }

    fn checked_size(&self, acc: usize) -> (sum: Option<usize>) {
        let mut sum = match self.0.checked_size(acc) {
            Some(next) => next,
            None => {
                return None;
            },
        };
        let size0 = T1::Ref::size_of();
        if size0 > usize::MAX - sum {
            return None;
        }
        sum = sum + size0;
        let size1 = T2::Ref::size_of();
        if size1 > usize::MAX - sum {
            return None;
        }
        sum = sum + size1;
        let size2 = T3::Ref::size_of();
        if size2 > usize::MAX - sum {
            return None;
        }
        sum = sum + size2;
        let size3 = T4::Ref::size_of();
        if size3 > usize::MAX - sum {
            return None;
        }
        sum = sum + size3;
        let size4 = T5::Ref::size_of();
        if size4 > usize::MAX - sum {
            return None;
        }
        sum = sum + size4;
        let size5 = T6::Ref::size_of();
        if size5 > usize::MAX - sum {
            return None;
        }
        sum = sum + size5;
        let size6 = T7::Ref::size_of();
        if size6 > usize::MAX - sum {
            return None;
        }
        sum = sum + size6;
        let size7 = T8::Ref::size_of();
        if size7 > usize::MAX - sum {
            return None;
        }
        sum = sum + size7;
        let size8 = T9::Ref::size_of();
        if size8 > usize::MAX - sum {
            return None;
        }
        sum = sum + size8;
        let size9 = T10::Ref::size_of();
        if size9 > usize::MAX - sum {
            return None;
        }
        sum = sum + size9;
        let size10 = T11::Ref::size_of();
        if size10 > usize::MAX - sum {
            return None;
        }
        sum = sum + size10;
        let size11 = T12::Ref::size_of();
        if size11 > usize::MAX - sum {
            return None;
        }
        sum = sum + size11;
        let size12 = T13::Ref::size_of();
        if size12 > usize::MAX - sum {
            return None;
        }
        sum = sum + size12;
        let size13 = T14::Ref::size_of();
        if size13 > usize::MAX - sum {
            return None;
        }
        sum = sum + size13;
        let size14 = T15::Ref::size_of();
        if size14 > usize::MAX - sum {
            return None;
        }
        sum = sum + size14;
        let size15 = T16::Ref::size_of();
        if size15 > usize::MAX - sum {
            return None;
        }
        sum = sum + size15;
        Some(sum)
    }

    #[verifier::rlimit(40)]
    fn to_ref(&self, writer: &mut Writer) -> (r: usize) {
        let ghost base = writer.base() as int;
        let ghost w0 = *writer;
        proof {
            writer.lemma_bounds();
        }
        let heads = self.0.to_ref(writer);
        let ghost v0 = *writer;
        proof {
            writer.lemma_bounds();
        }
        let ptr = writer.as_ptr();
        writer.put(&heads.0);
        let ghost v1 = *writer;
        proof {
            writer.lemma_bounds();
            T1::Ref::lemma_size();
            heads.0.lemma_layout();
            lemma_image_put(v0, v1, heads.0.encode());
        }
        writer.put(&heads.1);
        let ghost v2 = *writer;
        proof {
            writer.lemma_bounds();
            T2::Ref::lemma_size();
            heads.1.lemma_layout();
            lemma_image_put(v1, v2, heads.1.encode());
        }
        writer.put(&heads.2);
        let ghost v3 = *writer;
        proof {
            writer.lemma_bounds();
            T3::Ref::lemma_size();
            heads.2.lemma_layout();
            lemma_image_put(v2, v3, heads.2.encode());
        }
        writer.put(&heads.3);
        let ghost v4 = *writer;
        proof {
            writer.lemma_bounds();
            T4::Ref::lemma_size();
            heads.3.lemma_layout();
            lemma_image_put(v3, v4, heads.3.encode());
        }
        writer.put(&heads.4);
        let ghost v5 = *writer;
        proof {
            writer.lemma_bounds();
            T5::Ref::lemma_size();
            heads.4.lemma_layout();
            lemma_image_put(v4, v5, heads.4.encode());
        }
        writer.put(&heads.5);
        let ghost v6 = *writer;
        proof {
            writer.lemma_bounds();
            T6::Ref::lemma_size();
            heads.5.lemma_layout();
            lemma_image_put(v5, v6, heads.5.encode());
        }
        writer.put(&heads.6);
        let ghost v7 = *writer;
        proof {
            writer.lemma_bounds();
            T7::Ref::lemma_size();
            heads.6.lemma_layout();
            lemma_image_put(v6, v7, heads.6.encode());
        }
        writer.put(&heads.7);
        let ghost v8 = *writer;
        proof {
            writer.lemma_bounds();
            T8::Ref::lemma_size();
            heads.7.lemma_layout();
            lemma_image_put(v7, v8, heads.7.encode());
        }
        writer.put(&heads.8);
        let ghost v9 = *writer;
        proof {
            writer.lemma_bounds();
            T9::Ref::lemma_size();
            heads.8.lemma_layout();
            lemma_image_put(v8, v9, heads.8.encode());
        }
        writer.put(&heads.9);
        let ghost v10 = *writer;
        proof {
            writer.lemma_bounds();
            T10::Ref::lemma_size();
            heads.9.lemma_layout();
            lemma_image_put(v9, v10, heads.9.encode());
        }
        writer.put(&heads.10);
        let ghost v11 = *writer;
        proof {
            writer.lemma_bounds();
            T11::Ref::lemma_size();
            heads.10.lemma_layout();
            lemma_image_put(v10, v11, heads.10.encode());
        }
        writer.put(&heads.11);
        let ghost v12 = *writer;
        proof {
            writer.lemma_bounds();
            T12::Ref::lemma_size();
            heads.11.lemma_layout();
            lemma_image_put(v11, v12, heads.11.encode());
        }
        writer.put(&heads.12);
        let ghost v13 = *writer;
        proof {
            writer.lemma_bounds();
            T13::Ref::lemma_size();
            heads.12.lemma_layout();
            lemma_image_put(v12, v13, heads.12.encode());
        }
        writer.put(&heads.13);
        let ghost v14 = *writer;
        proof {
            writer.lemma_bounds();
            T14::Ref::lemma_size();
            heads.13.lemma_layout();
            lemma_image_put(v13, v14, heads.13.encode());
        }
        writer.put(&heads.14);
        let ghost v15 = *writer;
        proof {
            writer.lemma_bounds();
            T15::Ref::lemma_size();
            heads.14.lemma_layout();
            lemma_image_put(v14, v15, heads.14.encode());
        }
        writer.put(&heads.15);
        let ghost v16 = *writer;
        proof {
            writer.lemma_bounds();
            T16::Ref::lemma_size();
            heads.15.lemma_layout();
            lemma_image_put(v15, v16, heads.15.encode());
        }
        proof {
            lemma_keeps_same(v16.arena(), v16.cursor());
            lemma_keeps_trans(v15.arena(), v16.arena(), v16.arena(), v15.cursor(), v16.cursor());
            lemma_keeps_trans(v14.arena(), v15.arena(), v16.arena(), v14.cursor(), v15.cursor());
            lemma_keeps_trans(v13.arena(), v14.arena(), v16.arena(), v13.cursor(), v14.cursor());
            lemma_keeps_trans(v12.arena(), v13.arena(), v16.arena(), v12.cursor(), v13.cursor());
            lemma_keeps_trans(v11.arena(), v12.arena(), v16.arena(), v11.cursor(), v12.cursor());
            lemma_keeps_trans(v10.arena(), v11.arena(), v16.arena(), v10.cursor(), v11.cursor());
            lemma_keeps_trans(v9.arena(), v10.arena(), v16.arena(), v9.cursor(), v10.cursor());
            lemma_keeps_trans(v8.arena(), v9.arena(), v16.arena(), v8.cursor(), v9.cursor());
            lemma_keeps_trans(v7.arena(), v8.arena(), v16.arena(), v7.cursor(), v8.cursor());
            lemma_keeps_trans(v6.arena(), v7.arena(), v16.arena(), v6.cursor(), v7.cursor());
            lemma_keeps_trans(v5.arena(), v6.arena(), v16.arena(), v5.cursor(), v6.cursor());
            lemma_keeps_trans(v4.arena(), v5.arena(), v16.arena(), v4.cursor(), v5.cursor());
            lemma_keeps_trans(v3.arena(), v4.arena(), v16.arena(), v3.cursor(), v4.cursor());
            lemma_keeps_trans(v2.arena(), v3.arena(), v16.arena(), v2.cursor(), v3.cursor());
            lemma_keeps_trans(v1.arena(), v2.arena(), v16.arena(), v1.cursor(), v2.cursor());
            lemma_keeps_trans(v0.arena(), v1.arena(), v16.arena(), v0.cursor(), v1.cursor());
            lemma_keeps_trans(w0.arena(), v0.arena(), v16.arena(), w0.cursor(), v0.cursor());
            lemma_view_stays(&self.0.0, heads.0, v0, v16, base + w0.cursor(), base + v0.cursor());
            self.0.0.lemma_widen(heads.0, v16.image(), base + w0.cursor(), base + v0.cursor(), base + w0.cursor(), base + v16.cursor(), false);
            lemma_head_put(self.0.0, heads.0, v0, v1, v16, ptr as int, base + w0.cursor(), base + v16.cursor());
            lemma_view_stays(&self.0.1, heads.1, v0, v16, base + w0.cursor(), base + v0.cursor());
            self.0.1.lemma_widen(heads.1, v16.image(), base + w0.cursor(), base + v0.cursor(), base + w0.cursor(), base + v16.cursor(), false);
            lemma_head_put(self.0.1, heads.1, v1, v2, v16, ptr as int + T1::Ref::size(), base + w0.cursor(), base + v16.cursor());
            lemma_view_stays(&self.0.2, heads.2, v0, v16, base + w0.cursor(), base + v0.cursor());
            self.0.2.lemma_widen(heads.2, v16.image(), base + w0.cursor(), base + v0.cursor(), base + w0.cursor(), base + v16.cursor(), false);
            lemma_head_put(self.0.2, heads.2, v2, v3, v16, ptr as int + T1::Ref::size() + T2::Ref::size(), base + w0.cursor(), base + v16.cursor());
            lemma_view_stays(&self.0.3, heads.3, v0, v16, base + w0.cursor(), base + v0.cursor());
            self.0.3.lemma_widen(heads.3, v16.image(), base + w0.cursor(), base + v0.cursor(), base + w0.cursor(), base + v16.cursor(), false);
            lemma_head_put(self.0.3, heads.3, v3, v4, v16, ptr as int + T1::Ref::size() + T2::Ref::size() + T3::Ref::size(), base + w0.cursor(), base + v16.cursor());
            lemma_view_stays(&self.0.4, heads.4, v0, v16, base + w0.cursor(), base + v0.cursor());
            self.0.4.lemma_widen(heads.4, v16.image(), base + w0.cursor(), base + v0.cursor(), base + w0.cursor(), base + v16.cursor(), false);
            lemma_head_put(self.0.4, heads.4, v4, v5, v16, ptr as int + T1::Ref::size() + T2::Ref::size() + T3::Ref::size() + T4::Ref::size(), base + w0.cursor(), base + v16.cursor());
            lemma_view_stays(&self.0.5, heads.5, v0, v16, base + w0.cursor(), base + v0.cursor());
            self.0.5.lemma_widen(heads.5, v16.image(), base + w0.cursor(), base + v0.cursor(), base + w0.cursor(), base + v16.cursor(), false);
            lemma_head_put(self.0.5, heads.5, v5, v6, v16, ptr as int + T1::Ref::size() + T2::Ref::size() + T3::Ref::size() + T4::Ref::size() + T5::Ref::size(), base + w0.cursor(), base + v16.cursor());
            lemma_view_stays(&self.0.6, heads.6, v0, v16, base + w0.cursor(), base + v0.cursor());
            self.0.6.lemma_widen(heads.6, v16.image(), base + w0.cursor(), base + v0.cursor(), base + w0.cursor(), base + v16.cursor(), false);
            lemma_head_put(self.0.6, heads.6, v6, v7, v16, ptr as int + T1::Ref::size() + T2::Ref::size() + T3::Ref::size() + T4::Ref::size() + T5::Ref::size() + T6::Ref::size(), base + w0.cursor(), base + v16.cursor());
            lemma_view_stays(&self.0.7, heads.7, v0, v16, base + w0.cursor(), base + v0.cursor());
            self.0.7.lemma_widen(heads.7, v16.image(), base + w0.cursor(), base + v0.cursor(), base + w0.cursor(), base + v16.cursor(), false);
            lemma_head_put(self.0.7, heads.7, v7, v8, v16, ptr as int + T1::Ref::size() + T2::Ref::size() + T3::Ref::size() + T4::Ref::size() + T5::Ref::size() + T6::Ref::size() + T7::Ref::size(), base + w0.cursor(), base + v16.cursor());
            lemma_view_stays(&self.0.8, heads.8, v0, v16, base + w0.cursor(), base + v0.cursor());
            self.0.8.lemma_widen(heads.8, v16.image(), base + w0.cursor(), base + v0.cursor(), base + w0.cursor(), base + v16.cursor(), false);
            lemma_head_put(self.0.8, heads.8, v8, v9, v16, ptr as int + T1::Ref::size() + T2::Ref::size() + T3::Ref::size() + T4::Ref::size() + T5::Ref::size() + T6::Ref::size() + T7::Ref::size() + T8::Ref::size(), base + w0.cursor(), base + v16.cursor());
            lemma_view_stays(&self.0.9, heads.9, v0, v16, base + w0.cursor(), base + v0.cursor());
            self.0.9.lemma_widen(heads.9, v16.image(), base + w0.cursor(), base + v0.cursor(), base + w0.cursor(), base + v16.cursor(), false);
            lemma_head_put(self.0.9, heads.9, v9, v10, v16, ptr as int + T1::Ref::size() + T2::Ref::size() + T3::Ref::size() + T4::Ref::size() + T5::Ref::size() + T6::Ref::size() + T7::Ref::size() + T8::Ref::size() + T9::Ref::size(), base + w0.cursor(), base + v16.cursor());
            lemma_view_stays(&self.0.10, heads.10, v0, v16, base + w0.cursor(), base + v0.cursor());
            self.0.10.lemma_widen(heads.10, v16.image(), base + w0.cursor(), base + v0.cursor(), base + w0.cursor(), base + v16.cursor(), false);
            lemma_head_put(self.0.10, heads.10, v10, v11, v16, ptr as int + T1::Ref::size() + T2::Ref::size() + T3::Ref::size() + T4::Ref::size() + T5::Ref::size() + T6::Ref::size() + T7::Ref::size() + T8::Ref::size() + T9::Ref::size() + T10::Ref::size(), base + w0.cursor(), base + v16.cursor());
            lemma_view_stays(&self.0.11, heads.11, v0, v16, base + w0.cursor(), base + v0.cursor());
            self.0.11.lemma_widen(heads.11, v16.image(), base + w0.cursor(), base + v0.cursor(), base + w0.cursor(), base + v16.cursor(), false);
            lemma_head_put(self.0.11, heads.11, v11, v12, v16, ptr as int + T1::Ref::size() + T2::Ref::size() + T3::Ref::size() + T4::Ref::size() + T5::Ref::size() + T6::Ref::size() + T7::Ref::size() + T8::Ref::size() + T9::Ref::size() + T10::Ref::size() + T11::Ref::size(), base + w0.cursor(), base + v16.cursor());
            lemma_view_stays(&self.0.12, heads.12, v0, v16, base + w0.cursor(), base + v0.cursor());
            self.0.12.lemma_widen(heads.12, v16.image(), base + w0.cursor(), base + v0.cursor(), base + w0.cursor(), base + v16.cursor(), false);
            lemma_head_put(self.0.12, heads.12, v12, v13, v16, ptr as int + T1::Ref::size() + T2::Ref::size() + T3::Ref::size() + T4::Ref::size() + T5::Ref::size() + T6::Ref::size() + T7::Ref::size() + T8::Ref::size() + T9::Ref::size() + T10::Ref::size() + T11::Ref::size() + T12::Ref::size(), base + w0.cursor(), base + v16.cursor());
            lemma_view_stays(&self.0.13, heads.13, v0, v16, base + w0.cursor(), base + v0.cursor());
            self.0.13.lemma_widen(heads.13, v16.image(), base + w0.cursor(), base + v0.cursor(), base + w0.cursor(), base + v16.cursor(), false);
            lemma_head_put(self.0.13, heads.13, v13, v14, v16, ptr as int + T1::Ref::size() + T2::Ref::size() + T3::Ref::size() + T4::Ref::size() + T5::Ref::size() + T6::Ref::size() + T7::Ref::size() + T8::Ref::size() + T9::Ref::size() + T10::Ref::size() + T11::Ref::size() + T12::Ref::size() + T13::Ref::size(), base + w0.cursor(), base + v16.cursor());
            lemma_view_stays(&self.0.14, heads.14, v0, v16, base + w0.cursor(), base + v0.cursor());
            self.0.14.lemma_widen(heads.14, v16.image(), base + w0.cursor(), base + v0.cursor(), base + w0.cursor(), base + v16.cursor(), false);
            lemma_head_put(self.0.14, heads.14, v14, v15, v16, ptr as int + T1::Ref::size() + T2::Ref::size() + T3::Ref::size() + T4::Ref::size() + T5::Ref::size() + T6::Ref::size() + T7::Ref::size() + T8::Ref::size() + T9::Ref::size() + T10::Ref::size() + T11::Ref::size() + T12::Ref::size() + T13::Ref::size() + T14::Ref::size(), base + w0.cursor(), base + v16.cursor());
            lemma_view_stays(&self.0.15, heads.15, v0, v16, base + w0.cursor(), base + v0.cursor());
            self.0.15.lemma_widen(heads.15, v16.image(), base + w0.cursor(), base + v0.cursor(), base + w0.cursor(), base + v16.cursor(), false);
            lemma_head_put(self.0.15, heads.15, v15, v16, v16, ptr as int + T1::Ref::size() + T2::Ref::size() + T3::Ref::size() + T4::Ref::size() + T5::Ref::size() + T6::Ref::size() + T7::Ref::size() + T8::Ref::size() + T9::Ref::size() + T10::Ref::size() + T11::Ref::size() + T12::Ref::size() + T13::Ref::size() + T14::Ref::size() + T15::Ref::size(), base + w0.cursor(), base + v16.cursor());
        }
        ptr
    }

    fn pinned<M: MemoryRead>(&self, r: &usize, mem: &M, out: &mut Vec<Segment>) {
        let mut addr: usize = *r;
        match mem.read(addr, T1::Ref::size_of()) {
            Some(bytes) => {
                let head = T1::Ref::from_bytes(&bytes);
                self.0.0.pinned(&head, mem, out);
            },
            None => {
                assert(false);
                return ;
            },
        }
        addr = addr + T1::Ref::size_of();
        match mem.read(addr, T2::Ref::size_of()) {
            Some(bytes) => {
                let head = T2::Ref::from_bytes(&bytes);
                self.0.1.pinned(&head, mem, out);
            },
            None => {
                assert(false);
                return ;
            },
        }
        addr = addr + T2::Ref::size_of();
        match mem.read(addr, T3::Ref::size_of()) {
            Some(bytes) => {
                let head = T3::Ref::from_bytes(&bytes);
                self.0.2.pinned(&head, mem, out);
            },
            None => {
                assert(false);
                return ;
            },
        }
        addr = addr + T3::Ref::size_of();
        match mem.read(addr, T4::Ref::size_of()) {
            Some(bytes) => {
                let head = T4::Ref::from_bytes(&bytes);
                self.0.3.pinned(&head, mem, out);
            },
            None => {
                assert(false);
                return ;
            },
        }
        addr = addr + T4::Ref::size_of();
        match mem.read(addr, T5::Ref::size_of()) {
            Some(bytes) => {
                let head = T5::Ref::from_bytes(&bytes);
                self.0.4.pinned(&head, mem, out);
            },
            None => {
                assert(false);
                return ;
            },
        }
        addr = addr + T5::Ref::size_of();
        match mem.read(addr, T6::Ref::size_of()) {
            Some(bytes) => {
                let head = T6::Ref::from_bytes(&bytes);
                self.0.5.pinned(&head, mem, out);
            },
            None => {
                assert(false);
                return ;
            },
        }
        addr = addr + T6::Ref::size_of();
        match mem.read(addr, T7::Ref::size_of()) {
            Some(bytes) => {
                let head = T7::Ref::from_bytes(&bytes);
                self.0.6.pinned(&head, mem, out);
            },
            None => {
                assert(false);
                return ;
            },
        }
        addr = addr + T7::Ref::size_of();
        match mem.read(addr, T8::Ref::size_of()) {
            Some(bytes) => {
                let head = T8::Ref::from_bytes(&bytes);
                self.0.7.pinned(&head, mem, out);
            },
            None => {
                assert(false);
                return ;
            },
        }
        addr = addr + T8::Ref::size_of();
        match mem.read(addr, T9::Ref::size_of()) {
            Some(bytes) => {
                let head = T9::Ref::from_bytes(&bytes);
                self.0.8.pinned(&head, mem, out);
            },
            None => {
                assert(false);
                return ;
            },
        }
        addr = addr + T9::Ref::size_of();
        match mem.read(addr, T10::Ref::size_of()) {
            Some(bytes) => {
                let head = T10::Ref::from_bytes(&bytes);
                self.0.9.pinned(&head, mem, out);
            },
            None => {
                assert(false);
                return ;
            },
        }
        addr = addr + T10::Ref::size_of();
        match mem.read(addr, T11::Ref::size_of()) {
            Some(bytes) => {
                let head = T11::Ref::from_bytes(&bytes);
                self.0.10.pinned(&head, mem, out);
            },
            None => {
                assert(false);
                return ;
            },
        }
        addr = addr + T11::Ref::size_of();
        match mem.read(addr, T12::Ref::size_of()) {
            Some(bytes) => {
                let head = T12::Ref::from_bytes(&bytes);
                self.0.11.pinned(&head, mem, out);
            },
            None => {
                assert(false);
                return ;
            },
        }
        addr = addr + T12::Ref::size_of();
        match mem.read(addr, T13::Ref::size_of()) {
            Some(bytes) => {
                let head = T13::Ref::from_bytes(&bytes);
                self.0.12.pinned(&head, mem, out);
            },
            None => {
                assert(false);
                return ;
            },
        }
        addr = addr + T13::Ref::size_of();
        match mem.read(addr, T14::Ref::size_of()) {
            Some(bytes) => {
                let head = T14::Ref::from_bytes(&bytes);
                self.0.13.pinned(&head, mem, out);
            },
            None => {
                assert(false);
                return ;
            },
        }
        addr = addr + T14::Ref::size_of();
        match mem.read(addr, T15::Ref::size_of()) {
            Some(bytes) => {
                let head = T15::Ref::from_bytes(&bytes);
                self.0.14.pinned(&head, mem, out);
            },
            None => {
                assert(false);
                return ;
            },
        }
        addr = addr + T15::Ref::size_of();
        match mem.read(addr, T16::Ref::size_of()) {
            Some(bytes) => {
                let head = T16::Ref::from_bytes(&bytes);
                self.0.15.pinned(&head, mem, out);
            },
            None => {
                assert(false);
                return ;
            },
        }
        addr = addr + T16::Ref::size_of();
        assert(pieces_of(out@) =~= pieces_of(old(out)@) + self.pins(*r, mem.image()));
    }
}

} // verus!
