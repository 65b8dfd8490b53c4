//! The arena writer: a cursor into a buffer of fixed capacity, which knows
//! the address at which the buffer lies.

use crate::address::vec_addr;
use crate::layout::Pod;
use crate::memory::{agrees, extends, image_of, read, top, Image};
use vstd::prelude::*;

verus! {

/// A writer into an arena that lies at a known address.
pub struct Writer {
    base: usize,
    buf: Vec<u8>,
    pos: usize,
}

/// A block of an arena that was set aside to be filled later.
pub struct Reserved {
    pos: usize,
    end: usize,
}

impl Reserved {
    /// The offset of the next byte to fill.
    pub closed spec fn pos(&self) -> nat {
        self.pos as nat
    }

    /// The offset behind the block.
    pub closed spec fn end(&self) -> nat {
        self.end as nat
    }
}

/// `bytes` with `part` written over it from offset `at`.
pub open spec fn overwritten(bytes: Seq<u8>, at: int, part: Seq<u8>) -> Seq<u8> {
    Seq::new(
        bytes.len(),
        |i: int|
            if at <= i < at + part.len() {
                part[i - at]
            } else {
                bytes[i]
            },
    )
}

/// The first `upto` bytes of `before` stand in `after` as well, which is as
/// long.
#[verifier::opaque]
pub open spec fn keeps(before: Seq<u8>, after: Seq<u8>, upto: nat) -> bool {
    &&& after.len() == before.len()
    &&& forall|i: int| 0 <= i < upto && i < before.len() ==> after[i] == before[i]
}

/// Bytes keep themselves.
pub proof fn lemma_keeps_same(bytes: Seq<u8>, upto: nat)
    ensures
        keeps(bytes, bytes, upto),
{
    reveal(keeps);
}

/// What is kept twice in a row is kept.
pub proof fn lemma_keeps_trans(a: Seq<u8>, b: Seq<u8>, c: Seq<u8>, upto: nat, later: nat)
    requires
        keeps(a, b, upto),
        keeps(b, c, later),
        upto <= later,
    ensures
        keeps(a, c, upto),
{
    reveal(keeps);
}

/// A write keeps the bytes before it.
pub proof fn lemma_keeps_overwritten(bytes: Seq<u8>, at: int, part: Seq<u8>, upto: nat)
    requires
        upto <= at,
    ensures
        keeps(bytes, overwritten(bytes, at, part), upto),
{
    reveal(keeps);
}

impl Writer {
    /// The address of the arena.
    pub closed spec fn base(&self) -> usize {
        self.base
    }

    /// The bytes of the arena, written or not.
    pub closed spec fn arena(&self) -> Seq<u8> {
        self.buf@
    }

    /// The offset of the cursor: how many bytes are taken.
    pub closed spec fn cursor(&self) -> nat {
        self.pos as nat
    }

    /// The number of bytes that the arena holds.
    pub open spec fn capacity(&self) -> nat {
        self.arena().len()
    }

    /// The invariant: the cursor lies within the arena, and the arena within
    /// the address space.
    pub closed spec fn wf(&self) -> bool {
        &&& self.pos <= self.buf@.len()
        &&& self.base + self.buf@.len() <= usize::MAX
    }

    /// What can be read from the arena: the bytes before the cursor.
    pub open spec fn image(&self) -> Image {
        image_of(self.base(), self.arena(), self.cursor())
    }

    /// In a valid writer the cursor is within the capacity and every address
    /// of the arena is one.
    pub proof fn lemma_bounds(&self)
        requires
            self.wf(),
        ensures
            self.cursor() <= self.capacity(),
            self.base() + self.capacity() <= usize::MAX,
    {
    }

    /// A writer at the start of `buf`, which lies at `base`; `None` where the
    /// arena would reach beyond the address space.
    pub fn new(base: usize, buf: Vec<u8>) -> (w: Option<Self>)
        ensures
            w is Some == (base + buf@.len() <= usize::MAX),
            w matches Some(w) ==> w.wf() && w.base() == base && w.arena() == buf@ && w.cursor()
                == 0,
    {
        if base > usize::MAX - buf.len() {
            None
        } else {
            Some(Writer { base, buf, pos: 0 })
        }
    }

    /// A writer at the start of a fresh arena of `size` zero bytes. The arena
    /// is addressed from where the allocator put it, or from zero should it
    /// reach beyond the address space from there.
    pub fn with_capacity(size: usize) -> (w: Self)
        ensures
            w.wf(),
            w.arena() == Seq::new(size as nat, |i: int| 0u8),
            w.cursor() == 0,
    {
        let mut buf: Vec<u8> = Vec::new();
        let mut i: usize = 0;
        while i < size
            invariant
                i <= size,
                buf@ == Seq::new(i as nat, |k: int| 0u8),
            decreases size - i,
        {
            buf.push(0u8);
            i = i + 1;
            assert(buf@ =~= Seq::new(i as nat, |k: int| 0u8));
        }
        let addr = vec_addr(&buf);
        let base: usize = if addr > usize::MAX - size {
            0
        } else {
            addr
        };
        Writer { base, buf, pos: 0 }
    }

    /// The address of the cursor.
    pub fn as_ptr(&self) -> (ptr: usize)
        requires
            self.wf(),
        ensures
            ptr == self.base() + self.cursor(),
    {
        self.base + self.pos
    }

    /// The address of the arena.
    pub fn address(&self) -> (addr: usize)
        ensures
            addr == self.base(),
    {
        self.base
    }

    /// The number of bytes taken.
    pub fn written(&self) -> (n: usize)
        ensures
            n == self.cursor(),
    {
        self.pos
    }

    /// The number of bytes left.
    pub fn remaining(&self) -> (n: usize)
        requires
            self.wf(),
        ensures
            n == self.capacity() - self.cursor(),
    {
        self.buf.len() - self.pos
    }

    /// Gives the arena back, with its address.
    pub fn into_inner(self) -> (r: (usize, Vec<u8>))
        ensures
            r.0 == self.base(),
            r.1@ == self.arena(),
    {
        (self.base, self.buf)
    }

    /// Sets the next `len` bytes aside and moves the cursor behind them.
    pub fn reserve(&mut self, len: usize) -> (block: Reserved)
        requires
            old(self).wf(),
            old(self).cursor() + len <= old(self).capacity(),
        ensures
            final(self).wf(),
            final(self).base() == old(self).base(),
            final(self).arena() == old(self).arena(),
            final(self).cursor() == old(self).cursor() + len,
            block.pos() == old(self).cursor(),
            block.end() == old(self).cursor() + len,
    {
        let block = Reserved { pos: self.pos, end: self.pos + len };
        self.pos = self.pos + len;
        block
    }

    fn write_at(&mut self, at: usize, bytes: &Vec<u8>)
        requires
            old(self).wf(),
            at + bytes@.len() <= old(self).capacity(),
        ensures
            final(self).wf(),
            final(self).base() == old(self).base(),
            final(self).cursor() == old(self).cursor(),
            final(self).arena() == overwritten(old(self).arena(), at as int, bytes@),
    {
        let n = bytes.len();
        let mut k: usize = 0;
        while k < n
            invariant
                k <= n,
                n == bytes@.len(),
                at + n <= self.buf@.len(),
                self.buf@.len() == old(self).buf@.len(),
                self.base == old(self).base,
                self.pos == old(self).pos,
                self.wf(),
                self.buf@ == overwritten(old(self).buf@, at as int, bytes@.subrange(0, k as int)),
            decreases n - k,
        {
            self.buf.set(at + k, bytes[k]);
            k = k + 1;
            assert(self.buf@ =~= overwritten(
                old(self).buf@,
                at as int,
                bytes@.subrange(0, k as int),
            ));
        }
        assert(bytes@.subrange(0, n as int) =~= bytes@);
    }

    /// Writes `value` at the cursor and moves the cursor behind it.
    pub fn put<R: Pod>(&mut self, value: &R)
        requires
            old(self).wf(),
            old(self).cursor() + R::size() <= old(self).capacity(),
        ensures
            final(self).wf(),
            final(self).base() == old(self).base(),
            final(self).cursor() == old(self).cursor() + R::size(),
            final(self).arena() == overwritten(
                old(self).arena(),
                old(self).cursor() as int,
                value.encode(),
            ),
    {
        let bytes = value.to_bytes();
        proof {
            value.lemma_layout();
        }
        self.write_at(self.pos, &bytes);
        self.pos = self.pos + bytes.len();
    }

    /// Writes `value` into the block and moves on within the block.
    pub fn put_reserved<R: Pod>(&mut self, block: &mut Reserved, value: &R)
        requires
            old(self).wf(),
            old(block).pos() + R::size() <= old(block).end(),
            old(block).end() <= old(self).cursor(),
        ensures
            final(self).wf(),
            final(self).base() == old(self).base(),
            final(self).cursor() == old(self).cursor(),
            final(self).arena() == overwritten(
                old(self).arena(),
                old(block).pos() as int,
                value.encode(),
            ),
            final(block).pos() == old(block).pos() + R::size(),
            final(block).end() == old(block).end(),
    {
        let bytes = value.to_bytes();
        proof {
            value.lemma_layout();
        }
        self.write_at(block.pos, &bytes);
        block.pos = block.pos + bytes.len();
    }
}

/// As the cursor moves on over bytes that stay, everything that could be read
/// can still be read.
pub proof fn lemma_image_grows(before: Writer, after: Writer)
    requires
        before.base() == after.base(),
        before.cursor() <= after.cursor(),
        before.cursor() <= before.arena().len(),
        keeps(before.arena(), after.arena(), before.cursor()),
    ensures
        extends(after.image(), before.image()),
        forall|lo: int, hi: int| agrees(before.image(), after.image(), lo, hi),
{
    reveal(keeps);
    assert forall|a: usize, l: usize| #[trigger]
        before.image().contains_key((a, l)) implies after.image().contains_key((a, l))
        && after.image()[(a, l)] == before.image()[(a, l)] by {
        let off = a - before.base();
        assert(after.arena().subrange(off, off + l) =~= before.arena().subrange(off, off + l));
    }
}

/// What `put` writes can be read at the address at which the cursor stood.
pub proof fn lemma_image_put(before: Writer, after: Writer, part: Seq<u8>)
    requires
        before.base() == after.base(),
        after.cursor() == before.cursor() + part.len(),
        after.cursor() <= after.arena().len(),
        before.base() + before.arena().len() <= usize::MAX,
        after.arena() == overwritten(before.arena(), before.cursor() as int, part),
    ensures
        keeps(before.arena(), after.arena(), before.cursor()),
        part.len() > 0 ==> read(
            after.image(),
            (before.base() + before.cursor()) as usize,
            part.len() as usize,
        ) == Some(part),
{
    reveal(keeps);
    if part.len() > 0 {
        let at = before.cursor() as int;
        assert(after.arena().subrange(at, at + part.len()) =~= part);
    }
}

/// A write over the bytes from `at` leaves every range readable that lies
/// behind it or before it, with its bytes, and makes the written bytes
/// readable at their place.
pub proof fn lemma_image_overwritten(before: Writer, after: Writer, at: int, part: Seq<u8>)
    requires
        before.base() == after.base(),
        before.cursor() == after.cursor(),
        before.cursor() <= before.arena().len(),
        before.base() + before.arena().len() <= usize::MAX,
        0 <= at,
        at + part.len() <= before.cursor(),
        after.arena() == overwritten(before.arena(), at, part),
    ensures
        agrees(before.image(), after.image(), before.base() + at + part.len(), top()),
        agrees(before.image(), after.image(), 0, before.base() + at),
        part.len() > 0 ==> read(
            after.image(),
            (before.base() + at) as usize,
            part.len() as usize,
        ) == Some(part),
{
    assert forall|a: usize, l: usize|
        before.base() + at + part.len() <= a && a + l <= top() && #[trigger] before.image().contains_key(
            (a, l),
        ) implies after.image().contains_key((a, l)) && after.image()[(a, l)] == before.image()[(
        a,
        l,
    )] by {
        let off = a - before.base();
        assert(after.arena().subrange(off, off + l) =~= before.arena().subrange(off, off + l));
    }
    assert forall|a: usize, l: usize|
        0 <= a && a + l <= before.base() + at && #[trigger] before.image().contains_key(
            (a, l),
        ) implies after.image().contains_key((a, l)) && after.image()[(a, l)] == before.image()[(
        a,
        l,
    )] by {
        let off = a - before.base();
        assert(after.arena().subrange(off, off + l) =~= before.arena().subrange(off, off + l));
    }
    if part.len() > 0 {
        assert(after.arena().subrange(at, at + part.len()) =~= part);
    }
}

} // verus!
