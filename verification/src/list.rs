//! Lists: the view of a list holds the address of the views of its elements.
//! For a list of primitives that is the list's own buffer; for every other
//! list it is a block in the arena, which the elements' own children follow.

use crate::address::vec_addr;
use crate::convert::{DataView, FromRef, ListRef, ToRef};
use crate::layout::{append_bytes, Pod};
use crate::mem_type::MemType;
use crate::memory::{
    holds, holds_all, image_of, image_wf, lemma_holds_all_concat, pieces_of, read, sound, Image,
    MemoryRead, Piece, Segment,
};
use crate::writer::{
    keeps, lemma_image_grows, lemma_image_overwritten, lemma_keeps_overwritten, lemma_keeps_same,
    lemma_keeps_trans, Writer,
};
use vstd::prelude::*;

verus! {

/// The bytes that the items take in the arena, all together.
pub open spec fn total_size<T: ToRef>(items: Seq<T>) -> nat
    decreases items.len(),
{
    if items.len() == 0 {
        0
    } else {
        total_size(items.drop_last()) + items.last().size()
    }
}

/// The address of the `i`-th of the views of `sz` bytes that start at `ptr`.
pub open spec fn slot_addr(ptr: usize, i: int, sz: nat) -> usize {
    (ptr + i * sz) as usize
}

/// The `i`-th of the views that start at `ptr`, if it can be read.
pub open spec fn child_at<R: Pod>(img: Image, ptr: usize, i: int) -> Option<R> {
    match read(img, slot_addr(ptr, i, R::size()), R::size() as usize) {
        Some(bytes) => Some(R::decode(bytes)),
        None => None,
    }
}

/// Whether the `i`-th of the views that start at `ptr` is a view of the
/// `i`-th item.
pub open spec fn elem_views<T: ToRef>(
    items: Seq<T>,
    ptr: usize,
    i: int,
    img: Image,
    lo: int,
    hi: int,
    deep: bool,
) -> bool where T::Ref: Pod {
    match child_at::<T::Ref>(img, ptr, i) {
        Some(child) => items[i].views(child, img, lo, hi, deep),
        None => false,
    }
}

/// What `from_ref` makes of the `i`-th of the views that start at `ptr`.
pub open spec fn elem_decoded<T: FromRef>(img: Image, ptr: usize, i: int) -> Option<
    <T as DeepView>::V,
> where <T as ToRef>::Ref: Pod {
    match child_at::<<T as ToRef>::Ref>(img, ptr, i) {
        Some(child) => T::decoded(child, img),
        None => None,
    }
}

/// The pins of the first `n` items, seen through the views that start at
/// `ptr`.
pub open spec fn pins_upto<T: ToRef>(items: Seq<T>, ptr: usize, img: Image, n: nat) -> Seq<
    Piece,
> where T::Ref: Pod
    decreases n,
{
    if n == 0 {
        Seq::empty()
    } else {
        pins_upto(items, ptr, img, (n - 1) as nat) + match child_at::<T::Ref>(img, ptr, n - 1) {
            Some(child) => items[n - 1].pins(child, img),
            None => Seq::empty(),
        }
    }
}

/// The bytes of the views of primitive items, one behind the other: what the
/// buffer of a list of primitives holds.
pub open spec fn block_bytes<T: ToRef>(items: Seq<T>) -> Seq<u8> where T::Ref: Pod
    decreases items.len(),
{
    if items.len() == 0 {
        Seq::empty()
    } else {
        block_bytes(items.drop_last()) + items.last().flat().encode()
    }
}

/// The block of primitive items holds one view of `size()` bytes for each
/// item, in order.
pub proof fn lemma_block_bytes<T: ToRef>(items: Seq<T>) where T::Ref: Pod
    ensures
        block_bytes(items).len() == items.len() * T::Ref::size(),
        forall|i: int|
            0 <= i < items.len() ==> block_bytes(items).subrange(
                #[trigger] (i * T::Ref::size()),
                i * T::Ref::size() + T::Ref::size(),
            ) == items[i].flat().encode(),
    decreases items.len(),
{
    let sz = T::Ref::size() as int;
    if items.len() > 0 {
        let n = items.len() as int;
        let front = items.drop_last();
        lemma_block_bytes(front);
        items.last().flat().lemma_layout();
        assert((n - 1) * sz + sz == n * sz) by (nonlinear_arith);
        assert forall|i: int| 0 <= i < n implies block_bytes(items).subrange(
            #[trigger] (i * sz),
            i * sz + sz,
        ) == items[i].flat().encode() by {
            lemma_slot_bounds(i, n, sz);
            if i < n - 1 {
                lemma_slot_bounds(i, n - 1, sz);
                assert(block_bytes(items).subrange(i * sz, i * sz + sz) =~= block_bytes(
                    front,
                ).subrange(i * sz, i * sz + sz));
                assert(front[i] == items[i]);
            } else {
                assert(block_bytes(items).subrange(i * sz, i * sz + sz) =~= items.last().flat().encode());
            }
        }
    } else {
        assert(0 * sz == 0) by (nonlinear_arith);
    }
}

/// A memory that holds the pins of the first `n` items holds the pins of
/// each of them.
pub proof fn lemma_pins_upto_holds<T: ToRef>(
    items: Seq<T>,
    ptr: usize,
    img: Image,
    other: Image,
    n: nat,
    i: int,
) where T::Ref: Pod
    requires
        holds_all(other, pins_upto(items, ptr, img, n)),
        0 <= i < n,
    ensures
        child_at::<T::Ref>(img, ptr, i) matches Some(child) ==> holds_all(
            other,
            items[i].pins(child, img),
        ),
    decreases n,
{
    let front = pins_upto(items, ptr, img, (n - 1) as nat);
    let back = match child_at::<T::Ref>(img, ptr, n - 1) {
        Some(child) => items[n - 1].pins(child, img),
        None => Seq::empty(),
    };
    lemma_holds_all_concat(other, front, back);
    if i < n - 1 {
        lemma_pins_upto_holds(items, ptr, img, other, (n - 1) as nat, i);
    }
}

/// The first items take no more than all of them, and one more item adds its
/// own size.
pub proof fn lemma_total_size_take<T: ToRef>(items: Seq<T>, i: int)
    requires
        0 <= i <= items.len(),
    ensures
        total_size(items.take(i)) <= total_size(items),
        i < items.len() ==> total_size(items.take(i + 1)) == total_size(items.take(i))
            + items[i].size(),
    decreases items.len(),
{
    if i < items.len() {
        assert(items.take(i + 1).drop_last() =~= items.take(i));
        assert(items.take(i + 1).last() == items[i]);
        lemma_total_size_take(items.drop_last(), i);
        if i + 1 < items.len() {
            assert(items.drop_last().take(i + 1) =~= items.take(i + 1));
        } else {
            assert(items.take(i + 1) =~= items);
        }
        assert(items.drop_last().take(i) =~= items.take(i));
    } else {
        assert(items.take(i) =~= items);
    }
}

/// Slots of `sz` bytes lie one behind the other.
pub proof fn lemma_slot_bounds(i: int, n: int, sz: int)
    requires
        0 <= i < n,
        0 <= sz,
    ensures
        0 <= i * sz,
        i * sz + sz <= n * sz,
        (i + 1) * sz == i * sz + sz,
{
    assert(0 <= i * sz && i * sz + sz <= n * sz && (i + 1) * sz == i * sz + sz) by (nonlinear_arith)
        requires
            0 <= i < n,
            0 <= sz,
    ;
}

impl<T: ToRef> ToRef for Vec<T> where T::Ref: Pod {
    type Ref = ListRef;

    open spec fn mem_type() -> MemType {
        T::mem_type().spec_next()
    }

    open spec fn size(&self) -> nat {
        if T::mem_type() != MemType::Primitive {
            self@.len() * T::Ref::size() + total_size(self@)
        } else {
            0
        }
    }

    open spec fn views(&self, r: ListRef, img: Image, lo: int, hi: int, deep: bool) -> bool {
        let n = self@.len();
        let sz = T::Ref::size();
        &&& r.0.len == n
        &&& (T::mem_type() != MemType::Primitive || deep) ==> {
            &&& r.0.ptr + n * sz <= usize::MAX
            &&& (T::mem_type() != MemType::Primitive && n * sz > 0) ==> lo <= r.0.ptr && r.0.ptr
                + n * sz <= hi
            &&& forall|i: int|
                0 <= i < n ==> #[trigger] elem_views(self@, r.0.ptr, i, img, lo, hi, deep)
        }
    }

    open spec fn flat(&self) -> ListRef {
        ListRef(DataView { ptr: 0, len: 0 })
    }

    open spec fn pins(&self, r: ListRef, img: Image) -> Seq<Piece> {
        if T::mem_type() != MemType::Primitive {
            pins_upto(self@, r.0.ptr, img, self@.len())
        } else if self@.len() * T::Ref::size() > 0 {
            seq![(r.0.ptr, block_bytes(self@))]
        } else {
            Seq::empty()
        }
    }

    proof fn lemma_flat(&self) {
    }

    proof fn lemma_primitive(&self, r: ListRef, img: Image, lo: int, hi: int, deep: bool) {
    }

    proof fn lemma_deepen(&self, r: ListRef, img: Image, other: Image, lo: int, hi: int) {
        let n = self@.len() as int;
        let sz = T::Ref::size();
        let ptr = r.0.ptr;
        T::Ref::lemma_size();
        if T::mem_type() != MemType::Primitive {
            assert forall|i: int| 0 <= i < n implies #[trigger] elem_views(
                self@,
                ptr,
                i,
                other,
                lo,
                hi,
                true,
            ) by {
                assert(elem_views(self@, ptr, i, img, lo, hi, false));
                let child = child_at::<T::Ref>(img, ptr, i).unwrap();
                if sz > 0 {
                    assert(img.contains_key((slot_addr(ptr, i, sz), sz as usize)));
                }
                assert(child_at::<T::Ref>(other, ptr, i) == Some(child));
                lemma_pins_upto_holds(self@, ptr, img, other, n as nat, i);
                self@[i].lemma_deepen(child, img, other, lo, hi);
            }
        } else {
            lemma_block_bytes(self@);
            if n * sz > 0 {
                let piece = self.pins(r, img)[0];
                assert(holds(other, piece));
            } else {
                assert(n == 0 || sz == 0) by (nonlinear_arith)
                    requires
                        n * sz == 0,
                ;
            }
            assert forall|i: int| 0 <= i < n implies #[trigger] elem_views(
                self@,
                ptr,
                i,
                other,
                lo,
                hi,
                true,
            ) by {
                lemma_slot_bounds(i, n, sz as int);
                let flat = self@[i].flat();
                flat.lemma_layout();
                if sz > 0 {
                    let whole = image_of(ptr, block_bytes(self@), block_bytes(self@).len());
                    let addr = slot_addr(ptr, i, sz);
                    assert(whole.contains_key((addr, sz as usize)));
                    assert(whole[(addr, sz as usize)] =~= block_bytes(self@).subrange(
                        i * sz,
                        i * sz + sz,
                    ));
                    assert(other.contains_key((addr, sz as usize)));
                } else {
                    assert(flat.encode() =~= Seq::<u8>::empty());
                }
                assert(child_at::<T::Ref>(other, ptr, i) == Some(flat));
                self@[i].lemma_primitive(flat, other, lo, hi, true);
            }
        }
    }

    proof fn lemma_frame(
        &self,
        r: ListRef,
        img: Image,
        other: Image,
        lo: int,
        hi: int,
        deep: bool,
    ) {
        let n = self@.len() as int;
        let sz = T::Ref::size();
        T::Ref::lemma_size();
        if T::mem_type() != MemType::Primitive || deep {
            assert forall|i: int| 0 <= i < n implies #[trigger] elem_views(
                self@,
                r.0.ptr,
                i,
                other,
                lo,
                hi,
                deep,
            ) by {
                assert(elem_views(self@, r.0.ptr, i, img, lo, hi, deep));
                lemma_slot_bounds(i, n, sz as int);
                let addr = slot_addr(r.0.ptr, i, sz);
                if sz > 0 {
                    assert(img.contains_key((addr, sz as usize)));
                }
                let child = child_at::<T::Ref>(img, r.0.ptr, i).unwrap();
                assert(child_at::<T::Ref>(other, r.0.ptr, i) == Some(child));
                self@[i].lemma_frame(child, img, other, lo, hi, deep);
            }
        }
    }

    proof fn lemma_widen(
        &self,
        r: ListRef,
        img: Image,
        lo: int,
        hi: int,
        wide_lo: int,
        wide_hi: int,
        deep: bool,
    ) {
        let n = self@.len() as int;
        if T::mem_type() != MemType::Primitive || deep {
            assert forall|i: int| 0 <= i < n implies #[trigger] elem_views(
                self@,
                r.0.ptr,
                i,
                img,
                wide_lo,
                wide_hi,
                deep,
            ) by {
                assert(elem_views(self@, r.0.ptr, i, img, lo, hi, deep));
                let child = child_at::<T::Ref>(img, r.0.ptr, i).unwrap();
                self@[i].lemma_widen(child, img, lo, hi, wide_lo, wide_hi, deep);
            }
        }
    }

    fn mem_type_of() -> (t: MemType) {
        T::mem_type_of().next()
    }

    fn to_size(&self, acc: &mut usize) {
        if !T::mem_type_of().next().is_complex() {
            return ;
        }
        let n = self.len();
        proof {
            lemma_total_size_take(self@, 0);
            assert(self@.take(0) =~= Seq::<T>::empty());
        }
        *acc = *acc + n * T::Ref::size_of();
        let mut i: usize = 0;
        while i < n
            invariant
                i <= n,
                n == self@.len(),
                T::mem_type() != MemType::Primitive,
                *old(acc) + self.size() <= usize::MAX,
                *acc == *old(acc) + n * T::Ref::size() + total_size(self@.take(i as int)),
            decreases n - i,
        {
            proof {
                lemma_total_size_take(self@, i as int);
                lemma_total_size_take(self@, i + 1);
            }
            self[i].to_size(acc);
            i = i + 1;
        }
        assert(self@.take(n as int) =~= self@);
    }

    fn checked_size(&self, acc: usize) -> (sum: Option<usize>) {
        if !T::mem_type_of().next().is_complex() {
            return Some(acc);
        }
        let n = self.len();
        let sz = T::Ref::size_of();
        proof {
            lemma_total_size_take(self@, 0);
            assert(self@.take(0) =~= Seq::<T>::empty());
        }
        if sz != 0 && n > (usize::MAX - acc) / sz {
            proof {
                assert(acc + n * sz > usize::MAX) by (nonlinear_arith)
                    requires
                        sz > 0,
                        n > (usize::MAX - acc) / (sz as int),
                ;
            }
            return None;
        }
        proof {
            if sz != 0 {
                assert(acc + n * sz <= usize::MAX) by (nonlinear_arith)
                    requires
                        sz > 0,
                        n <= (usize::MAX - acc) / (sz as int),
                        acc <= usize::MAX,
                ;
            } else {
                assert(n * sz == 0) by (nonlinear_arith)
                    requires
                        sz == 0,
                ;
            }
        }
        let mut sum: usize = acc + n * sz;
        let mut i: usize = 0;
        while i < n
            invariant
                i <= n,
                n == self@.len(),
                sz == T::Ref::size(),
                T::mem_type() != MemType::Primitive,
                sum == acc + n * sz + total_size(self@.take(i as int)),
            decreases n - i,
        {
            proof {
                lemma_total_size_take(self@, i as int);
                lemma_total_size_take(self@, i + 1);
            }
            match self[i].checked_size(sum) {
                Some(next) => {
                    sum = next;
                },
                None => {
                    return None;
                },
            }
            i = i + 1;
        }
        assert(self@.take(n as int) =~= self@);
        Some(sum)
    }

    fn to_ref(&self, writer: &mut Writer) -> (r: ListRef) {
        let n = self.len();
        if !T::mem_type_of().next().is_complex() {
            proof {
                lemma_keeps_same(writer.arena(), writer.cursor());
            }
            return ListRef(DataView { ptr: vec_addr(self), len: n });
        }
        let sz = T::Ref::size_of();
        let ptr = writer.as_ptr();
        let ghost c0 = writer.cursor() as int;
        let ghost base = writer.base() as int;
        let ghost gc0 = c0 + n * sz;
        proof {
            writer.lemma_bounds();
            lemma_total_size_take(self@, 0);
            assert(self@.take(0) =~= Seq::<T>::empty());
        }
        let mut block = writer.reserve(n * sz);
        proof {
            lemma_keeps_same(writer.arena(), c0 as nat);
        }
        let ghost mut kids: Seq<T::Ref> = Seq::empty();
        let mut i: usize = 0;
        while i < n
            invariant
                i <= n,
                n == self@.len(),
                sz == T::Ref::size(),
                T::mem_type() != MemType::Primitive,
                c0 == old(writer).cursor(),
                base == old(writer).base(),
                gc0 == c0 + n * sz,
                ptr == base + c0,
                c0 + self.size() <= old(writer).capacity(),
                writer.wf(),
                writer.base() == old(writer).base(),
                writer.capacity() == old(writer).capacity(),
                writer.cursor() == gc0 + total_size(self@.take(i as int)),
                block.pos() == c0 + i * sz,
                block.end() == gc0,
                keeps(old(writer).arena(), writer.arena(), c0 as nat),
                kids.len() == i,
                forall|j: int|
                    0 <= j < i ==> read(writer.image(), #[trigger] slot_addr(ptr, j, sz as nat), sz)
                        == Some(kids[j].encode()),
                forall|j: int|
                    0 <= j < i ==> (#[trigger] self@[j]).views(
                        kids[j],
                        writer.image(),
                        base + gc0,
                        base + writer.cursor(),
                        false,
                    ),
            decreases n - i,
        {
            let ghost w0 = *writer;
            proof {
                writer.lemma_bounds();
                lemma_total_size_take(self@, i as int);
                lemma_total_size_take(self@, i + 1);
                lemma_slot_bounds(i as int, n as int, sz as int);
            }
            let child = self[i].to_ref(writer);
            let ghost w1 = *writer;
            proof {
                lemma_keeps_trans(
                    old(writer).arena(),
                    w0.arena(),
                    w1.arena(),
                    c0 as nat,
                    w0.cursor(),
                );
                lemma_image_grows(w0, w1);
                assert forall|j: int| 0 <= j < i implies (#[trigger] self@[j]).views(
                    kids[j],
                    w1.image(),
                    base + gc0,
                    base + w1.cursor(),
                    false,
                ) by {
                    self@[j].lemma_frame(
                        kids[j],
                        w0.image(),
                        w1.image(),
                        base + gc0,
                        base + w0.cursor(),
                        false,
                    );
                    self@[j].lemma_widen(
                        kids[j],
                        w1.image(),
                        base + gc0,
                        base + w0.cursor(),
                        base + gc0,
                        base + w1.cursor(),
                        false,
                    );
                }
                self@[i as int].lemma_widen(
                    child,
                    w1.image(),
                    base + w0.cursor(),
                    base + w1.cursor(),
                    base + gc0,
                    base + w1.cursor(),
                    false,
                );
                assert forall|j: int| 0 <= j < i implies read(
                    w1.image(),
                    #[trigger] slot_addr(ptr, j, sz as nat),
                    sz,
                ) == Some(kids[j].encode()) by {
                    if sz > 0 {
                        assert(w0.image().contains_key((slot_addr(ptr, j, sz as nat), sz)));
                    }
                }
            }
            writer.put_reserved(&mut block, &child);
            proof {
                let w2 = *writer;
                let p = c0 + i * sz;
                child.lemma_layout();
                w1.lemma_bounds();
                lemma_image_overwritten(w1, w2, p, child.encode());
                lemma_keeps_overwritten(w1.arena(), p, child.encode(), c0 as nat);
                lemma_keeps_trans(
                    old(writer).arena(),
                    w1.arena(),
                    w2.arena(),
                    c0 as nat,
                    c0 as nat,
                );
                kids = kids.push(child);
                assert forall|j: int| 0 <= j < i + 1 implies (#[trigger] self@[j]).views(
                    kids[j],
                    w2.image(),
                    base + gc0,
                    base + w2.cursor(),
                    false,
                ) by {
                    self@[j].lemma_frame(
                        kids[j],
                        w1.image(),
                        w2.image(),
                        base + gc0,
                        base + w1.cursor(),
                        false,
                    );
                }
                assert forall|j: int| 0 <= j < i + 1 implies read(
                    w2.image(),
                    #[trigger] slot_addr(ptr, j, sz as nat),
                    sz,
                ) == Some(kids[j].encode()) by {
                    if j < i {
                        lemma_slot_bounds(j, i as int, sz as int);
                        if sz > 0 {
                            assert(w1.image().contains_key((slot_addr(ptr, j, sz as nat), sz)));
                        }
                    }
                }
            }
            i = i + 1;
        }
        proof {
            assert(self@.take(n as int) =~= self@);
            writer.lemma_bounds();
            let img = writer.image();
            let lo = base + c0;
            let hi = base + writer.cursor();
            assert forall|j: int| 0 <= j < n implies #[trigger] elem_views(
                self@,
                ptr,
                j,
                img,
                lo,
                hi,
                false,
            ) by {
                kids[j].lemma_layout();
                assert(child_at::<T::Ref>(img, ptr, j) == Some(kids[j]));
                self@[j].lemma_widen(kids[j], img, base + gc0, hi, lo, hi, false);
            }
        }
        ListRef(DataView { ptr, len: n })
    }

    fn pinned<M: MemoryRead>(&self, r: &ListRef, mem: &M, out: &mut Vec<Segment>) {
        let n = self.len();
        let ptr = r.0.ptr;
        let sz = T::Ref::size_of();
        let ghost img = mem.image();
        if T::mem_type_of().next().is_complex() {
            let mut i: usize = 0;
            proof {
                assert(pieces_of(out@) + Seq::<Piece>::empty() =~= pieces_of(out@));
            }
            while i < n
                invariant
                    i <= n,
                    n == self@.len(),
                    ptr == r.0.ptr,
                    sz == T::Ref::size(),
                    img == mem.image(),
                    sound(mem),
                    image_wf(img),
                    T::mem_type() != MemType::Primitive,
                    self.views(*r, img, 0, crate::memory::top(), false),
                    pieces_of(out@) == pieces_of(old(out)@) + pins_upto(self@, ptr, img, i as nat),
                decreases n - i,
            {
                proof {
                    lemma_slot_bounds(i as int, n as int, sz as int);
                    assert(elem_views(self@, ptr, i as int, img, 0, crate::memory::top(), false));
                }
                let addr: usize = ptr + i * sz;
                match mem.read(addr, sz) {
                    Some(bytes) => {
                        let child = T::Ref::from_bytes(&bytes);
                        let ghost before = pieces_of(out@);
                        self[i].pinned(&child, mem, out);
                        assert(pieces_of(out@) =~= pieces_of(old(out)@) + pins_upto(
                            self@,
                            ptr,
                            img,
                            (i + 1) as nat,
                        ));
                    },
                    None => {
                        assert(false);
                        return ;
                    },
                }
                i = i + 1;
            }
        } else {
            let mut bytes: Vec<u8> = Vec::new();
            let w = Writer::new(0, Vec::new());
            let mut scratch = w.unwrap();
            let mut i: usize = 0;
            while i < n
                invariant
                    i <= n,
                    n == self@.len(),
                    T::mem_type() == MemType::Primitive,
                    scratch.wf(),
                    scratch.cursor() == 0,
                    scratch.capacity() == 0,
                    bytes@ == block_bytes(self@.take(i as int)),
                decreases n - i,
            {
                proof {
                    self@[i as int].lemma_flat();
                }
                let child = self[i].to_ref(&mut scratch);
                proof {
                    self@[i as int].lemma_primitive(
                        child,
                        scratch.image(),
                        scratch.base() + 0,
                        scratch.base() + scratch.cursor(),
                        false,
                    );
                    assert(self@.take(i + 1).drop_last() =~= self@.take(i as int));
                    assert(self@.take(i + 1).last() == self@[i as int]);
                }
                let more = child.to_bytes();
                append_bytes(&mut bytes, &more);
                i = i + 1;
            }
            proof {
                assert(self@.take(n as int) =~= self@);
                lemma_block_bytes(self@);
            }
            if bytes.len() > 0 {
                out.push(Segment { base: ptr, bytes });
                assert(pieces_of(out@) =~= pieces_of(old(out)@) + self.pins(*r, img));
            } else {
                assert(pieces_of(out@) + Seq::<Piece>::empty() =~= pieces_of(out@));
            }
        }
    }
}

impl<T: FromRef> FromRef for Vec<T> where <T as ToRef>::Ref: Pod {
    open spec fn decoded(r: ListRef, img: Image) -> Option<Seq<<T as DeepView>::V>> {
        let n = r.0.len;
        if r.0.ptr + n * <T as ToRef>::Ref::size() > usize::MAX {
            None
        } else if forall|i: int| 0 <= i < n ==> (#[trigger] elem_decoded::<T>(img, r.0.ptr, i)) is Some {
            Some(Seq::new(n as nat, |i: int| elem_decoded::<T>(img, r.0.ptr, i).unwrap()))
        } else {
            None
        }
    }

    proof fn lemma_round_trip(&self, r: ListRef, img: Image, lo: int, hi: int) {
        let n = self@.len() as int;
        assert forall|i: int| 0 <= i < n implies (#[trigger] elem_decoded::<T>(img, r.0.ptr, i))
            == Some(self@[i].deep_view()) by {
            assert(elem_views(self@, r.0.ptr, i, img, lo, hi, true));
            let child = child_at::<<T as ToRef>::Ref>(img, r.0.ptr, i).unwrap();
            self@[i].lemma_round_trip(child, img, lo, hi);
        }
        assert(Self::decoded(r, img).unwrap() =~= self.deep_view());
    }

    fn from_ref<M: MemoryRead>(r: &ListRef, mem: &M) -> (o: Option<Self>) {
        let n = r.0.len;
        let ptr = r.0.ptr;
        let mut out: Vec<T> = Vec::new();
        if n == 0 {
            assert(Self::decoded(*r, mem.image()).unwrap() =~= out.deep_view());
            return Some(out);
        }
        let sz = <T as ToRef>::Ref::size_of();
        if sz != 0 && n > (usize::MAX - ptr) / sz {
            proof {
                assert(ptr + n * sz > usize::MAX) by (nonlinear_arith)
                    requires
                        sz > 0,
                        n > (usize::MAX - ptr) / (sz as int),
                ;
            }
            return None;
        }
        proof {
            if sz != 0 {
                assert(ptr + n * sz <= usize::MAX) by (nonlinear_arith)
                    requires
                        sz > 0,
                        n <= (usize::MAX - ptr) / (sz as int),
                        ptr <= usize::MAX,
                ;
            }
        }
        let mut i: usize = 0;
        while i < n
            invariant
                i <= n,
                n == r.0.len,
                ptr == r.0.ptr,
                sz == <T as ToRef>::Ref::size(),
                ptr + n * sz <= usize::MAX,
                sound(mem),
                image_wf(mem.image()),
                out@.len() == i,
                forall|j: int|
                    0 <= j < i ==> (#[trigger] elem_decoded::<T>(mem.image(), ptr, j)) == Some(
                        out@[j].deep_view(),
                    ),
            decreases n - i,
        {
            proof {
                lemma_slot_bounds(i as int, n as int, sz as int);
            }
            let addr: usize = ptr + i * sz;
            let bytes = match mem.read(addr, sz) {
                Some(bytes) => bytes,
                None => {
                    assert(elem_decoded::<T>(mem.image(), ptr, i as int) is None);
                    return None;
                },
            };
            let child = <T as ToRef>::Ref::from_bytes(&bytes);
            let item = match T::from_ref(&child, mem) {
                Some(item) => item,
                None => {
                    assert(elem_decoded::<T>(mem.image(), ptr, i as int) is None);
                    return None;
                },
            };
            out.push(item);
            i = i + 1;
        }
        assert(Self::decoded(*r, mem.image()).unwrap() =~= out.deep_view());
        Some(out)
    }
}

/// A view of no elements is the empty list, wherever it points and whatever
/// the memory holds.
pub proof fn lemma_empty_list<T: FromRef>(r: ListRef, img: Image) where <T as ToRef>::Ref: Pod
    requires
        r.0.len == 0,
    ensures
        Vec::<T>::decoded(r, img) == Some(Seq::<<T as DeepView>::V>::empty()),
{
    assert(Vec::<T>::decoded(r, img).unwrap() =~= Seq::<<T as DeepView>::V>::empty());
}

} // verus!
