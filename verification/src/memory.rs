//! Memory as the two sides of a call see it: ranges of addresses and the
//! bytes that can be read from them.

use vstd::prelude::*;

verus! {

/// What can be read from memory: the bytes of every readable range, by its
/// address and its length. A range of no bytes is not listed: it can always
/// be read.
pub type Image = Map<(usize, usize), Seq<u8>>;

/// Every listed range holds as many bytes as it is long, and ends within the
/// address space.
pub open spec fn image_wf(img: Image) -> bool {
    forall|a: usize, l: usize| #[trigger]
        img.contains_key((a, l)) ==> l > 0 && img[(a, l)].len() == l && a + l <= usize::MAX
}

/// The bytes read from `len` bytes at `addr`, if they can be read.
pub open spec fn read(img: Image, addr: usize, len: usize) -> Option<Seq<u8>> {
    if len == 0 {
        Some(Seq::empty())
    } else if img.contains_key((addr, len)) {
        Some(img[(addr, len)])
    } else {
        None
    }
}

/// Whatever `img` lets read between the addresses `lo` and `hi`, `other`
/// lets read as well, with the same bytes.
pub open spec fn agrees(img: Image, other: Image, lo: int, hi: int) -> bool {
    forall|a: usize, l: usize|
        lo <= a && a + l <= hi && #[trigger] img.contains_key((a, l)) ==> other.contains_key(
            (a, l),
        ) && other[(a, l)] == img[(a, l)]
}

/// Whatever `img` lets read, `other` lets read as well, with the same bytes.
pub open spec fn extends(other: Image, img: Image) -> bool {
    forall|a: usize, l: usize| #[trigger]
        img.contains_key((a, l)) ==> other.contains_key((a, l)) && other[(a, l)] == img[(a, l)]
}

/// The end of the address space, as the exclusive bound of a region.
pub open spec fn top() -> int {
    usize::MAX + 1
}

/// A reader of memory.
///
/// A reader outside this library implements `read` alone: its invariant then
/// never holds, so that nothing is claimed of what it reads.
pub trait MemoryRead {
    /// What can be read.
    open spec fn image(&self) -> Image {
        Map::empty()
    }

    /// The reader's invariant.
    open spec fn inv(&self) -> bool {
        false
    }

    /// Reads `len` bytes at `addr`, or returns `None` where they cannot be
    /// read.
    fn read(&self, addr: usize, len: usize) -> (r: Option<Vec<u8>>)
        requires
            self.inv(),
            image_wf(self.image()),
        ensures
            match r {
                Some(v) => read(self.image(), addr, len) == Some(v@),
                None => read(self.image(), addr, len) is None,
            },
    ;
}

/// Whether the reader is valid and its image well-formed: what every read
/// needs.
pub open spec fn sound<M: MemoryRead>(mem: &M) -> bool {
    mem.inv() && image_wf(mem.image())
}

/// The image of the `len` bytes of `bytes` that lie at `base`: each range of
/// at least one byte within them.
pub open spec fn image_of(base: usize, bytes: Seq<u8>, len: nat) -> Image {
    Map::new(
        |k: (usize, usize)| k.1 > 0 && base <= k.0 && k.0 + k.1 <= base + len,
        |k: (usize, usize)| bytes.subrange(k.0 - base, k.0 - base + k.1),
    )
}

/// A piece of memory as contracts speak of it: an address and the bytes that lie
/// there.
pub type Piece = (usize, Seq<u8>);

/// Whether the piece lies in the address space and `img` lets read all of it.
pub open spec fn holds(img: Image, piece: Piece) -> bool {
    &&& piece.0 + piece.1.len() <= usize::MAX
    &&& extends(img, image_of(piece.0, piece.1, piece.1.len()))
}

/// Whether `img` holds each of the pieces.
pub open spec fn holds_all(img: Image, pieces: Seq<Piece>) -> bool {
    forall|k: int| 0 <= k < pieces.len() ==> holds(img, #[trigger] pieces[k])
}

/// A memory that holds all of a list of pieces holds all of each part of it.
pub proof fn lemma_holds_all_concat(img: Image, a: Seq<Piece>, b: Seq<Piece>)
    ensures
        holds_all(img, a + b) <==> holds_all(img, a) && holds_all(img, b),
{
    if holds_all(img, a + b) {
        assert forall|k: int| 0 <= k < a.len() implies holds(img, #[trigger] a[k]) by {
            assert((a + b)[k] == a[k]);
        }
        assert forall|k: int| 0 <= k < b.len() implies holds(img, #[trigger] b[k]) by {
            assert((a + b)[a.len() + k] == b[k]);
        }
    }
    if holds_all(img, a) && holds_all(img, b) {
        assert forall|k: int| 0 <= k < (a + b).len() implies holds(img, #[trigger] (a + b)[k]) by {
            if k < a.len() {
                assert((a + b)[k] == a[k]);
            } else {
                assert((a + b)[k] == b[k - a.len()]);
            }
        }
    }
}

/// A piece of memory: the bytes that lie at `base`.
pub struct Segment {
    pub base: usize,
    pub bytes: Vec<u8>,
}

impl View for Segment {
    type V = Piece;

    open spec fn view(&self) -> Piece {
        (self.base, self.bytes@)
    }
}

/// The pieces that a list of segments stands for.
pub open spec fn pieces_of(segments: Seq<Segment>) -> Seq<Piece> {
    Seq::new(segments.len(), |i: int| segments[i]@)
}

/// Whether the range lies in the piece.
pub open spec fn lies_in(piece: Piece, addr: usize, len: usize) -> bool {
    piece.0 <= addr && addr + len <= piece.0 + piece.1.len()
}

/// Whether the piece and the range share an address.
pub open spec fn meets(piece: Piece, base: usize, len: nat) -> bool {
    piece.0 < base + len && base < piece.0 + piece.1.len()
}

/// Whether a piece can be mapped beside the pieces `mapped`: it lies in the
/// address space and shares no address with any of them.
pub open spec fn fits(mapped: Seq<Piece>, piece: Piece) -> bool {
    &&& piece.0 + piece.1.len() <= usize::MAX
    &&& forall|i: int| 0 <= i < mapped.len() ==> !meets(#[trigger] mapped[i], piece.0, piece.1.len())
}

/// The pieces after `piece` is mapped beside them: a piece of no bytes
/// leaves no trace.
pub open spec fn with_piece(mapped: Seq<Piece>, piece: Piece) -> Seq<Piece> {
    if piece.1.len() > 0 {
        mapped.push(piece)
    } else {
        mapped
    }
}

/// Whether the pieces can be mapped one after the other, the last first.
pub open spec fn all_fit(mapped: Seq<Piece>, pieces: Seq<Piece>) -> bool
    decreases pieces.len(),
{
    if pieces.len() == 0 {
        true
    } else {
        fits(mapped, pieces.last()) && all_fit(
            with_piece(mapped, pieces.last()),
            pieces.drop_last(),
        )
    }
}

/// The pieces after all of `pieces` are mapped, the last first.
pub open spec fn with_pieces(mapped: Seq<Piece>, pieces: Seq<Piece>) -> Seq<Piece>
    decreases pieces.len(),
{
    if pieces.len() == 0 {
        mapped
    } else {
        with_pieces(with_piece(mapped, pieces.last()), pieces.drop_last())
    }
}

/// What can be read from pieces that share no address: every range of at
/// least one byte that lies in one of them.
pub open spec fn image_of_pieces(mapped: Seq<Piece>) -> Image {
    Map::new(
        |k: (usize, usize)| k.1 > 0 && exists|i: int| 0 <= i < mapped.len() && lies_in(#[trigger] mapped[i], k.0, k.1),
        |k: (usize, usize)|
            {
                let i = choose|i: int| 0 <= i < mapped.len() && lies_in(#[trigger] mapped[i], k.0, k.1);
                mapped[i].1.subrange(k.0 - mapped[i].0, k.0 - mapped[i].0 + k.1)
            },
    )
}

/// No piece reaches beyond the address space, none is empty, and no two
/// share an address.
pub open spec fn pieces_wf(mapped: Seq<Piece>) -> bool {
    &&& forall|i: int|
        0 <= i < mapped.len() ==> (#[trigger] mapped[i]).0 + mapped[i].1.len() <= usize::MAX
            && mapped[i].1.len() > 0
    &&& forall|i: int, j: int|
        0 <= i < mapped.len() && 0 <= j < mapped.len() && i != j ==> !meets(
            #[trigger] mapped[i],
            (#[trigger] mapped[j]).0,
            mapped[j].1.len(),
        )
}

/// A piece that fits beside well-formed pieces leaves them well-formed, keeps
/// all that could be read, and can itself be read.
pub proof fn lemma_with_piece(mapped: Seq<Piece>, piece: Piece)
    requires
        pieces_wf(mapped),
        fits(mapped, piece),
    ensures
        pieces_wf(with_piece(mapped, piece)),
        extends(image_of_pieces(with_piece(mapped, piece)), image_of_pieces(mapped)),
        holds(image_of_pieces(with_piece(mapped, piece)), piece),
{
    let after = with_piece(mapped, piece);
    let n = mapped.len() as int;
    if piece.1.len() > 0 {
        assert forall|i: int, j: int|
            0 <= i < after.len() && 0 <= j < after.len() && i != j implies !meets(
            #[trigger] after[i],
            (#[trigger] after[j]).0,
            after[j].1.len(),
        ) by {
            if i < n && j < n {
                assert(!meets(mapped[i], mapped[j].0, mapped[j].1.len()));
            } else if i < n {
                assert(!meets(mapped[i], piece.0, piece.1.len()));
            } else {
                assert(!meets(mapped[j], piece.0, piece.1.len()));
            }
        }
        assert forall|a: usize, l: usize| #[trigger]
            image_of_pieces(mapped).contains_key((a, l)) implies image_of_pieces(
            after,
        ).contains_key((a, l)) && image_of_pieces(after)[(a, l)] == image_of_pieces(mapped)[(
            a,
            l,
        )] by {
            let i = choose|i: int| 0 <= i < mapped.len() && lies_in(#[trigger] mapped[i], a, l);
            assert(lies_in(after[i], a, l));
            let j = choose|j: int| 0 <= j < after.len() && lies_in(#[trigger] after[j], a, l);
            if j != i {
                assert(meets(after[i], after[j].0, after[j].1.len()));
            }
        }
        assert forall|a: usize, l: usize| #[trigger]
            image_of(piece.0, piece.1, piece.1.len()).contains_key((a, l)) implies image_of_pieces(
            after,
        ).contains_key((a, l)) && image_of_pieces(after)[(a, l)] == image_of(
            piece.0,
            piece.1,
            piece.1.len(),
        )[(a, l)] by {
            assert(lies_in(after[n], a, l));
            let j = choose|j: int| 0 <= j < after.len() && lies_in(#[trigger] after[j], a, l);
            if j != n {
                assert(meets(after[j], after[n].0, after[n].1.len()));
            }
        }
    } else {
        assert(image_of(piece.0, piece.1, piece.1.len()) =~= Map::<(usize, usize), Seq<u8>>::empty());
    }
}

/// Pieces that all fit leave well-formed pieces well-formed, keep all that
/// could be read, and can all be read.
pub proof fn lemma_with_pieces(mapped: Seq<Piece>, pieces: Seq<Piece>)
    requires
        pieces_wf(mapped),
        all_fit(mapped, pieces),
    ensures
        pieces_wf(with_pieces(mapped, pieces)),
        extends(image_of_pieces(with_pieces(mapped, pieces)), image_of_pieces(mapped)),
        holds_all(image_of_pieces(with_pieces(mapped, pieces)), pieces),
    decreases pieces.len(),
{
    if pieces.len() > 0 {
        let next = with_piece(mapped, pieces.last());
        lemma_with_piece(mapped, pieces.last());
        lemma_with_pieces(next, pieces.drop_last());
        let done = image_of_pieces(with_pieces(mapped, pieces));
        assert forall|k: int| 0 <= k < pieces.len() implies holds(done, #[trigger] pieces[k]) by {
            if k < pieces.len() - 1 {
                assert(pieces.drop_last()[k] == pieces[k]);
            }
        }
    }
}

/// A memory made of segments that share no address.
pub struct Memory {
    segments: Vec<Segment>,
}

impl Memory {
    /// The pieces, in the order in which they were mapped.
    pub closed spec fn pieces(&self) -> Seq<Piece> {
        pieces_of(self.segments@)
    }

    /// A memory without segments.
    pub fn new() -> (m: Self)
        ensures
            m.inv(),
            m.pieces() == Seq::<Piece>::empty(),
    {
        let m = Memory { segments: Vec::new() };
        assert(m.pieces() =~= Seq::<Piece>::empty());
        m
    }

    /// The image of a valid memory is well-formed.
    pub proof fn lemma_image_wf(&self)
        requires
            self.inv(),
        ensures
            image_wf(self.image()),
            sound(self),
    {
        assert forall|a: usize, l: usize| #[trigger]
            self.image().contains_key((a, l)) implies l > 0 && self.image()[(a, l)].len() == l && a
            + l <= usize::MAX by {
            let i = choose|i: int|
                0 <= i < self.pieces().len() && lies_in(#[trigger] self.pieces()[i], a, l);
            assert(lies_in(self.pieces()[i], a, l));
        }
    }


    /// Maps `bytes` at `base`. Returns false, and maps nothing, where the
    /// segment would reach beyond the address space or share an address with
    /// a segment that is mapped; a segment of no bytes leaves no trace.
    pub fn map(&mut self, base: usize, bytes: Vec<u8>) -> (ok: bool)
        requires
            old(self).inv(),
        ensures
            final(self).inv(),
            ok == fits(old(self).pieces(), (base, bytes@)),
            final(self).pieces() == if ok {
                with_piece(old(self).pieces(), (base, bytes@))
            } else {
                old(self).pieces()
            },
            extends(final(self).image(), old(self).image()),
            ok ==> holds(final(self).image(), (base, bytes@)),
    {
        let len = bytes.len();
        if base > usize::MAX - len {
            return false;
        }
        let mut i: usize = 0;
        while i < self.segments.len()
            invariant
                i <= self.segments@.len(),
                base + len <= usize::MAX,
                len == bytes@.len(),
                self.inv(),
                self == old(self),
                forall|j: int| 0 <= j < i ==> !meets(#[trigger] self.pieces()[j], base, len as nat),
            decreases self.segments@.len() - i,
        {
            let seg = &self.segments[i];
            assert(self.pieces()[i as int] == seg@);
            if seg.base < base + len && base < seg.base + seg.bytes.len() {
                assert(meets(old(self).pieces()[i as int], base, len as nat));
                return false;
            }
            i = i + 1;
        }
        proof {
            lemma_with_piece(old(self).pieces(), (base, bytes@));
        }
        if len == 0 {
            return true;
        }
        self.segments.push(Segment { base, bytes });
        assert(self.pieces() =~= with_piece(old(self).pieces(), (base, bytes@)));
        true
    }

    /// Maps each of the segments, the last first, and stops at the first
    /// that cannot be mapped. Returns whether all were mapped.
    pub fn map_all(&mut self, segments: Vec<Segment>) -> (ok: bool)
        requires
            old(self).inv(),
        ensures
            final(self).inv(),
            ok == all_fit(old(self).pieces(), pieces_of(segments@)),
            ok ==> final(self).pieces() == with_pieces(old(self).pieces(), pieces_of(segments@)),
            extends(final(self).image(), old(self).image()),
            ok ==> holds_all(final(self).image(), pieces_of(segments@)),
    {
        let mut rest = segments;
        let mut done = false;
        let mut all = true;
        while !done
            invariant
                self.inv(),
                extends(self.image(), old(self).image()),
                !done ==> all,
                !done ==> all_fit(old(self).pieces(), pieces_of(segments@)) == all_fit(
                    self.pieces(),
                    pieces_of(rest@),
                ),
                !done ==> with_pieces(old(self).pieces(), pieces_of(segments@)) == with_pieces(
                    self.pieces(),
                    pieces_of(rest@),
                ),
                done ==> all == all_fit(old(self).pieces(), pieces_of(segments@)),
                done && all ==> self.pieces() == with_pieces(
                    old(self).pieces(),
                    pieces_of(segments@),
                ),
            decreases rest@.len() + (if done { 0int } else { 1int }),
        {
            let ghost before = pieces_of(rest@);
            match rest.pop() {
                None => {
                    done = true;
                },
                Some(seg) => {
                    assert(before.last() == seg@);
                    assert(pieces_of(rest@) =~= before.drop_last());
                    let Segment { base, bytes } = seg;
                    if !self.map(base, bytes) {
                        all = false;
                        done = true;
                    }
                },
            }
        }
        proof {
            if all {
                lemma_with_pieces(old(self).pieces(), pieces_of(segments@));
            }
        }
        all
    }
}

impl MemoryRead for Memory {
    open spec fn image(&self) -> Image {
        image_of_pieces(self.pieces())
    }

    open spec fn inv(&self) -> bool {
        pieces_wf(self.pieces())
    }

    fn read(&self, addr: usize, len: usize) -> (r: Option<Vec<u8>>) {
        if len == 0 {
            return Some(Vec::new());
        }
        let mut i: usize = 0;
        while i < self.segments.len()
            invariant
                i <= self.segments@.len(),
                len > 0,
                self.inv(),
                forall|j: int| 0 <= j < i ==> !lies_in(#[trigger] self.pieces()[j], addr, len),
            decreases self.segments@.len() - i,
        {
            let seg = &self.segments[i];
            assert(self.pieces()[i as int] == seg@);
            if seg.base <= addr && addr - seg.base <= seg.bytes.len() && len <= seg.bytes.len() - (
            addr - seg.base) {
                let start: usize = addr - seg.base;
                let out = crate::layout::take_field(&seg.bytes, start, len);
                proof {
                    assert(lies_in(self.pieces()[i as int], addr, len));
                    let j = choose|j: int|
                        0 <= j < self.pieces().len() && lies_in(
                            #[trigger] self.pieces()[j],
                            addr,
                            len,
                        );
                    if j != i {
                        assert(meets(
                            self.pieces()[j],
                            self.pieces()[i as int].0,
                            self.pieces()[i as int].1.len(),
                        ));
                    }
                }
                return Some(out);
            }
            i = i + 1;
        }
        None
    }
}

} // verus!
