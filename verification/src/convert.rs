//! Reference views: what an owned value looks like from the other side of
//! the boundary, how it is written, and how it is read back.

use crate::layout::{append_bytes, field, take_field, Pod};
use crate::mem_type::MemType;
use crate::memory::{
    agrees, all_fit, extends, holds_all, image_of, image_of_pieces, image_wf, pieces_of, sound, top,
    with_piece, Image, Memory, MemoryRead, Piece, Segment,
};
use crate::writer::{keeps, lemma_image_grows, Writer};
use vstd::prelude::*;

verus! {

/// An owned value that can be seen through a reference view.
///
/// The view of a value is made of a head, which `to_ref` returns, and of the
/// views of its children, which `to_ref` writes into the arena. The data of a
/// string or of a list of primitives stays where it is: its view holds its
/// address.
pub trait ToRef {
    /// The head of the view.
    type Ref;

    /// The memory-complexity tag of the type.
    spec fn mem_type() -> MemType;

    /// The number of bytes that the value takes in the arena, beyond its
    /// head.
    spec fn size(&self) -> nat;

    /// Whether `r` is a view of the value in the memory `img`, with all that
    /// `r` reaches in the arena lying between the addresses `lo` and `hi`.
    /// With `deep`, the data that stays with the owned value has to be
    /// readable in `img` too, at the address that the view holds; without, it
    /// is not looked at.
    spec fn views(&self, r: Self::Ref, img: Image, lo: int, hi: int, deep: bool) -> bool;

    /// The view of a value of a primitive type, which is the same in every
    /// memory.
    spec fn flat(&self) -> Self::Ref;

    /// The pieces of the owned value's own data that the view `r` points to,
    /// in the order in which the view reaches them: what has to stay in place
    /// for as long as the view is read.
    spec fn pins(&self, r: Self::Ref, img: Image) -> Seq<Piece>;

    /// A value that is not complex takes nothing in the arena.
    proof fn lemma_flat(&self)
        ensures
            Self::mem_type() != MemType::Complex ==> self.size() == 0,
    ;

    /// A view stays one in every memory that reads the same between `lo` and
    /// `hi`, and, for a deep view, that reads all that `img` reads.
    proof fn lemma_frame(
        &self,
        r: Self::Ref,
        img: Image,
        other: Image,
        lo: int,
        hi: int,
        deep: bool,
    )
        requires
            self.views(r, img, lo, hi, deep),
            agrees(img, other, lo, hi),
            deep ==> extends(other, img),
        ensures
            self.views(r, other, lo, hi, deep),
    ;

    /// A view within a region is one within every wider region.
    proof fn lemma_widen(
        &self,
        r: Self::Ref,
        img: Image,
        lo: int,
        hi: int,
        wide_lo: int,
        wide_hi: int,
        deep: bool,
    )
        requires
            self.views(r, img, lo, hi, deep),
            wide_lo <= lo,
            hi <= wide_hi,
        ensures
            self.views(r, img, wide_lo, wide_hi, deep),
    ;

    /// A value of a primitive type has one view, `flat()`, in every memory,
    /// and that view points to nothing.
    proof fn lemma_primitive(&self, r: Self::Ref, img: Image, lo: int, hi: int, deep: bool)
        ensures
            Self::mem_type() == MemType::Primitive ==> (self.views(r, img, lo, hi, deep) <==> r
                == self.flat()),
            Self::mem_type() == MemType::Primitive ==> self.pins(r, img) == Seq::<Piece>::empty(),
    ;

    /// A view whose pins can all be read is a deep view.
    proof fn lemma_deepen(&self, r: Self::Ref, img: Image, other: Image, lo: int, hi: int)
        requires
            image_wf(other),
            self.views(r, img, lo, hi, false),
            extends(other, img),
            holds_all(other, self.pins(r, img)),
        ensures
            self.views(r, other, lo, hi, true),
    ;

    /// The memory-complexity tag of the type.
    fn mem_type_of() -> (t: MemType)
        ensures
            t == Self::mem_type(),
    ;

    /// Adds to `acc` the number of bytes that the value takes in the arena.
    fn to_size(&self, acc: &mut usize)
        requires
            *old(acc) + self.size() <= usize::MAX,
        ensures
            *final(acc) == *old(acc) + self.size(),
    ;

    /// Adds to `acc` the number of bytes that the value takes in the arena,
    /// or returns `None` where the sum is more than the machine can count.
    fn checked_size(&self, acc: usize) -> (sum: Option<usize>)
        ensures
            sum == if acc + self.size() <= usize::MAX {
                Some((acc + self.size()) as usize)
            } else {
                None
            },
    ;

    /// Returns the head of the view and writes the views of the children at
    /// the cursor. Exactly `size()` bytes are taken, nothing before them
    /// changes, and a value that is not complex leaves the writer as it is.
    fn to_ref(&self, writer: &mut Writer) -> (r: Self::Ref)
        requires
            old(writer).wf(),
            old(writer).cursor() + self.size() <= old(writer).capacity(),
        ensures
            final(writer).wf(),
            final(writer).base() == old(writer).base(),
            final(writer).capacity() == old(writer).capacity(),
            final(writer).cursor() == old(writer).cursor() + self.size(),
            keeps(old(writer).arena(), final(writer).arena(), old(writer).cursor()),
            Self::mem_type() != MemType::Complex ==> final(writer).arena() == old(writer).arena(),
            self.views(
                r,
                final(writer).image(),
                old(writer).base() + old(writer).cursor(),
                old(writer).base() + final(writer).cursor(),
                false,
            ),
    ;

    /// Appends to `out` a copy of each piece of the owned value's own data
    /// that the view `r` points to. The views of the children are read from
    /// `mem`, which holds the arena.
    fn pinned<M: MemoryRead>(&self, r: &Self::Ref, mem: &M, out: &mut Vec<Segment>)
        requires
            sound(mem),
            self.views(*r, mem.image(), 0, top(), false),
        ensures
            pieces_of(final(out)@) == pieces_of(old(out)@) + self.pins(*r, mem.image()),
    ;
}

/// A view that was written stays one while the writer moves on: what later
/// values write lies behind it.
pub proof fn lemma_view_stays<T: ToRef>(
    value: &T,
    r: T::Ref,
    before: Writer,
    after: Writer,
    lo: int,
    hi: int,
)
    requires
        value.views(r, before.image(), lo, hi, false),
        before.base() == after.base(),
        before.cursor() <= after.cursor(),
        before.cursor() <= before.arena().len(),
        keeps(before.arena(), after.arena(), before.cursor()),
    ensures
        value.views(r, after.image(), lo, hi, false),
{
    lemma_image_grows(before, after);
    value.lemma_frame(r, before.image(), after.image(), lo, hi, false);
}

/// The number of bytes that the value takes in the arena.
pub fn calc_size<T: ToRef>(value: &T) -> (size: usize)
    requires
        value.size() <= usize::MAX,
    ensures
        size == value.size(),
{
    let mut size: usize = 0;
    value.to_size(&mut size);
    size
}

/// Writes the view of the value into a fresh arena of exactly the bytes that
/// it takes, and returns the arena, full, with the head of the view.
pub fn calc_view<T: ToRef>(value: &T) -> (r: (Writer, T::Ref))
    requires
        value.size() <= usize::MAX,
    ensures
        r.0.wf(),
        r.0.capacity() == value.size(),
        r.0.cursor() == value.size(),
        value.views(r.1, r.0.image(), r.0.base() as int, r.0.base() + value.size(), false),
{
    let size = if T::mem_type_of().is_complex() {
        calc_size(value)
    } else {
        proof {
            value.lemma_flat();
        }
        0
    };
    let mut writer = Writer::with_capacity(size);
    let head = value.to_ref(&mut writer);
    (writer, head)
}

/// As `calc_view`, with the arena as a plain buffer: wherever that buffer
/// lies, the head is a view of the value in it.
pub fn calc_ref<T: ToRef>(value: &T) -> (r: (Vec<u8>, T::Ref))
    requires
        value.size() <= usize::MAX,
    ensures
        r.0@.len() == value.size(),
        exists|base: usize|
            base + r.0@.len() <= usize::MAX && #[trigger] value.views(
                r.1,
                image_of(base, r.0@, r.0@.len()),
                base as int,
                base + value.size(),
                false,
            ),
{
    let (writer, head) = calc_view(value);
    proof {
        writer.lemma_bounds();
    }
    let ghost img = writer.image();
    let (base, buf) = writer.into_inner();
    let out = (buf, head);
    proof {
        assert(img =~= image_of(base, out.0@, out.0@.len()));
        assert(base + out.0@.len() <= usize::MAX);
        assert(value.views(
            out.1,
            image_of(base, out.0@, out.0@.len()),
            base as int,
            base + value.size(),
            false,
        ));
    }
    out
}

/// The pieces of a memory that holds nothing but the arena of `writer`.
pub open spec fn arena_alone(writer: Writer) -> Seq<Piece> {
    with_piece(Seq::empty(), (writer.base(), writer.arena()))
}

/// The memory as the other side sees it through the view `r`: the arena, and
/// a copy of each piece of the owned value's own data that the view points
/// to. There is no such memory where two of the pieces share an address or
/// one reaches beyond the address space.
pub fn expose<T: ToRef>(value: &T, writer: Writer, r: &T::Ref) -> (o: Option<Memory>)
    requires
        writer.wf(),
        value.views(*r, writer.image(), 0, top(), false),
    ensures
        o is Some == all_fit(
            arena_alone(writer),
            value.pins(*r, image_of_pieces(arena_alone(writer))),
        ),
        o matches Some(mem) ==> sound(&mem) && value.views(*r, mem.image(), 0, top(), true),
{
    proof {
        writer.lemma_bounds();
    }
    let ghost arena_img = writer.image();
    let mut mem = Memory::new();
    let (base, buf) = writer.into_inner();
    let mapped = mem.map(base, buf);
    assert(mapped);
    assert(mem.pieces() == arena_alone(writer));
    proof {
        mem.lemma_image_wf();
        assert forall|a: usize, l: usize| #[trigger]
            arena_img.contains_key((a, l)) implies mem.image().contains_key((a, l))
            && mem.image()[(a, l)] == arena_img[(a, l)] by {
            assert(image_of(base, buf@, buf@.len()).contains_key((a, l)));
        }
        value.lemma_frame(*r, arena_img, mem.image(), 0, top(), false);
    }
    let ghost shallow = mem.image();
    let mut pieces: Vec<Segment> = Vec::new();
    value.pinned(r, &mem, &mut pieces);
    assert(pieces_of(pieces@) =~= value.pins(*r, shallow));
    if !mem.map_all(pieces) {
        return None;
    }
    proof {
        mem.lemma_image_wf();
        value.lemma_deepen(*r, shallow, mem.image(), 0, top());
    }
    Some(mem)
}

/// A value that is not complex needs no arena: the size pass adds nothing
/// for it, and the write pass leaves the writer as it found it.
pub proof fn lemma_flat_untouched<T: ToRef>(value: &T, before: Writer, after: Writer)
    requires
        T::mem_type() != MemType::Complex,
        after.cursor() == before.cursor() + value.size(),
        T::mem_type() != MemType::Complex ==> after.arena() == before.arena(),
    ensures
        value.size() == 0,
        after.cursor() == before.cursor(),
        after.arena() == before.arena(),
{
    value.lemma_flat();
}

/// The round trip. Take the view that `to_ref` made of a value, and any
/// memory that holds the arena as it was written and the value's own data
/// where the view points to it: there, `from_ref` makes the value again.
pub proof fn lemma_from_ref_of_to_ref<T: FromRef>(
    value: &T,
    r: <T as ToRef>::Ref,
    arena: Image,
    img: Image,
    lo: int,
    hi: int,
)
    requires
        value.views(r, arena, lo, hi, false),
        image_wf(img),
        extends(img, arena),
        holds_all(img, value.pins(r, arena)),
    ensures
        T::decoded(r, img) == Some(value.deep_view()),
{
    value.lemma_deepen(r, arena, img, lo, hi);
    value.lemma_round_trip(r, img, lo, hi);
}

/// Sends a value through its own view and back: what `from_ref` makes of the
/// view of a value is that value. The trip fails only where no memory holds
/// the view, which is never the case for a primitive.
pub fn round_trip<T: FromRef>(value: &T) -> (o: Option<T>)
    ensures
        o matches Some(back) ==> back.deep_view() == value.deep_view(),
        T::mem_type() == MemType::Primitive ==> o is Some,
        value.size() > usize::MAX ==> o is None,
{
    proof {
        value.lemma_flat();
    }
    if value.checked_size(0).is_none() {
        return None;
    }
    let (writer, head) = calc_view(value);
    proof {
        writer.lemma_bounds();
        value.lemma_widen(
            head,
            writer.image(),
            writer.base() as int,
            writer.base() + value.size(),
            0,
            top(),
            false,
        );
        if T::mem_type() == MemType::Primitive {
            value.lemma_primitive(
                head,
                image_of_pieces(arena_alone(writer)),
                0,
                top(),
                false,
            );
        }
    }
    match expose(value, writer, &head) {
        Some(mem) => {
            proof {
                mem.lemma_image_wf();
                value.lemma_round_trip(head, mem.image(), 0, top());
            }
            T::from_ref(&head, &mem)
        },
        None => None,
    }
}

/// An owned value that can be made from a reference view.
///
/// The second trait of a type builds on the first: its view is the one that
/// `ToRef` names.
pub trait FromRef: ToRef + DeepView + Sized {
    /// What `from_ref` makes of the view `r` in the memory `img`, as a
    /// mathematical value; `None` where the view reaches memory that cannot
    /// be read.
    spec fn decoded(r: <Self as ToRef>::Ref, img: Image) -> Option<<Self as DeepView>::V>;

    /// The round trip: from a deep view of a value, `from_ref` makes that
    /// value.
    proof fn lemma_round_trip(&self, r: <Self as ToRef>::Ref, img: Image, lo: int, hi: int)
        requires
            image_wf(img),
            self.views(r, img, lo, hi, true),
        ensures
            Self::decoded(r, img) == Some(self.deep_view()),
    ;

    /// Makes an owned value from the view `r`, reading what the view points
    /// to from `mem`.
    fn from_ref<M: MemoryRead>(r: &<Self as ToRef>::Ref, mem: &M) -> (o: Option<Self>)
        requires
            sound(mem),
        ensures
            match o {
                Some(v) => Self::decoded(*r, mem.image()) == Some(v.deep_view()),
                None => Self::decoded(*r, mem.image()) is None,
            },
    ;
}

impl<T: ToRef> ToRef for &T {
    type Ref = T::Ref;

    open spec fn mem_type() -> MemType {
        T::mem_type()
    }

    open spec fn size(&self) -> nat {
        (**self).size()
    }

    open spec fn views(&self, r: T::Ref, img: Image, lo: int, hi: int, deep: bool) -> bool {
        (**self).views(r, img, lo, hi, deep)
    }

    open spec fn flat(&self) -> T::Ref {
        (**self).flat()
    }

    open spec fn pins(&self, r: T::Ref, img: Image) -> Seq<Piece> {
        (**self).pins(r, img)
    }

    proof fn lemma_flat(&self) {
        (**self).lemma_flat();
    }

    proof fn lemma_primitive(&self, r: T::Ref, img: Image, lo: int, hi: int, deep: bool) {
        (**self).lemma_primitive(r, img, lo, hi, deep);
    }

    proof fn lemma_deepen(&self, r: T::Ref, img: Image, other: Image, lo: int, hi: int) {
        (**self).lemma_deepen(r, img, other, lo, hi);
    }

    proof fn lemma_frame(&self, r: T::Ref, img: Image, other: Image, lo: int, hi: int, deep: bool) {
        (**self).lemma_frame(r, img, other, lo, hi, deep);
    }

    proof fn lemma_widen(
        &self,
        r: T::Ref,
        img: Image,
        lo: int,
        hi: int,
        wide_lo: int,
        wide_hi: int,
        deep: bool,
    ) {
        (**self).lemma_widen(r, img, lo, hi, wide_lo, wide_hi, deep);
    }

    fn mem_type_of() -> (t: MemType) {
        T::mem_type_of()
    }

    fn to_size(&self, acc: &mut usize) {
        (**self).to_size(acc)
    }

    fn checked_size(&self, acc: usize) -> (sum: Option<usize>) {
        (**self).checked_size(acc)
    }

    fn to_ref(&self, writer: &mut Writer) -> (r: T::Ref) {
        (**self).to_ref(writer)
    }

    fn pinned<M: MemoryRead>(&self, r: &T::Ref, mem: &M, out: &mut Vec<Segment>) {
        (**self).pinned(r, mem, out)
    }
}

/// The address and the length of data that lies in one piece.
#[derive(Copy, Clone, Debug, PartialEq, Eq, Structural)]
pub struct DataView {
    pub ptr: usize,
    pub len: usize,
}

/// The view of a list: the address of the views of its elements, and their
/// number.
#[derive(Copy, Clone, Debug, PartialEq, Eq, Structural)]
pub struct ListRef(pub DataView);

/// The view of a string: the address of its bytes, and their number.
#[derive(Copy, Clone, Debug, PartialEq, Eq, Structural)]
pub struct StringRef(pub DataView);

impl Pod for DataView {
    open spec fn size() -> nat {
        16
    }

    open spec fn encode(self) -> Seq<u8> {
        self.ptr.encode() + self.len.encode()
    }

    open spec fn decode(bytes: Seq<u8>) -> Self {
        DataView { ptr: usize::decode(field(bytes, 0, 8)), len: usize::decode(field(bytes, 8, 8)) }
    }

    proof fn lemma_layout(self) {
        self.ptr.lemma_layout();
        self.len.lemma_layout();
        assert(field(self.encode(), 0, 8) =~= self.ptr.encode());
        assert(field(self.encode(), 8, 8) =~= self.len.encode());
    }

    proof fn lemma_size() {
    }

    fn size_of() -> (n: usize) {
        16
    }

    fn to_bytes(&self) -> (b: Vec<u8>) {
        let mut b = self.ptr.to_bytes();
        let more = self.len.to_bytes();
        append_bytes(&mut b, &more);
        b
    }

    fn from_bytes(b: &Vec<u8>) -> (r: Self) {
        let ptr_bytes = take_field(b, 0, 8);
        let len_bytes = take_field(b, 8, 8);
        DataView { ptr: usize::from_bytes(&ptr_bytes), len: usize::from_bytes(&len_bytes) }
    }
}

impl Pod for ListRef {
    open spec fn size() -> nat {
        16
    }

    open spec fn encode(self) -> Seq<u8> {
        self.0.encode()
    }

    open spec fn decode(bytes: Seq<u8>) -> Self {
        ListRef(DataView::decode(bytes))
    }

    proof fn lemma_layout(self) {
        self.0.lemma_layout();
    }

    proof fn lemma_size() {
    }

    fn size_of() -> (n: usize) {
        16
    }

    fn to_bytes(&self) -> (b: Vec<u8>) {
        self.0.to_bytes()
    }

    fn from_bytes(b: &Vec<u8>) -> (r: Self) {
        ListRef(DataView::from_bytes(b))
    }
}

impl Pod for StringRef {
    open spec fn size() -> nat {
        16
    }

    open spec fn encode(self) -> Seq<u8> {
        self.0.encode()
    }

    open spec fn decode(bytes: Seq<u8>) -> Self {
        StringRef(DataView::decode(bytes))
    }

    proof fn lemma_layout(self) {
        self.0.lemma_layout();
    }

    proof fn lemma_size() {
    }

    fn size_of() -> (n: usize) {
        16
    }

    fn to_bytes(&self) -> (b: Vec<u8>) {
        self.0.to_bytes()
    }

    fn from_bytes(b: &Vec<u8>) -> (r: Self) {
        StringRef(DataView::from_bytes(b))
    }
}

} // verus!
