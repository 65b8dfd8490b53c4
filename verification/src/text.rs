//! Strings: a simple wrapper, whose view holds the address and the length of
//! its bytes.

use crate::address::string_addr;
use crate::convert::{DataView, FromRef, StringRef, ToRef};
use crate::mem_type::MemType;
use crate::memory::{holds, pieces_of, read, Image, MemoryRead, Piece, Segment};
use crate::writer::{lemma_keeps_same, Writer};
use vstd::prelude::*;
use vstd::utf8::{
    decode_utf8, encode_utf8, encode_utf8_decode_utf8, encode_utf8_valid_utf8, valid_utf8,
};

verus! {

/// What `String::from_utf8_lossy` makes of bytes that are not valid UTF-8.
pub uninterp spec fn utf8_repaired(bytes: Seq<u8>) -> Seq<char>;

/// The text that bytes stand for, with what is not valid UTF-8 replaced.
pub open spec fn utf8_lossy(bytes: Seq<u8>) -> Seq<char> {
    if valid_utf8(bytes) {
        decode_utf8(bytes)
    } else {
        utf8_repaired(bytes)
    }
}

/// `String::from_utf8_lossy`, made owned: the text of valid UTF-8 is what
/// the bytes decode to; of other bytes, the text with each invalid sequence
/// replaced by U+FFFD, which the contract only names.
#[verifier::external_body]
fn string_from_utf8_lossy(bytes: &Vec<u8>) -> (s: String)
    ensures
        s@ == if valid_utf8(bytes@) {
            decode_utf8(bytes@)
        } else {
            utf8_repaired(bytes@)
        },
{
    String::from_utf8_lossy(bytes).into_owned()
}

/// A copy of the bytes.
fn copy_bytes(bytes: &[u8]) -> (r: Vec<u8>)
    ensures
        r@ == bytes@,
{
    let mut out: Vec<u8> = Vec::new();
    let n = bytes.len();
    let mut k: usize = 0;
    while k < n
        invariant
            k <= n,
            n == bytes@.len(),
            out@ == bytes@.subrange(0, k as int),
        decreases n - k,
    {
        out.push(bytes[k]);
        k = k + 1;
        assert(out@ =~= bytes@.subrange(0, k as int));
    }
    assert(bytes@.subrange(0, n as int) =~= bytes@);
    out
}

/// The bytes of a text.
pub open spec fn text_bytes(text: Seq<char>) -> Seq<u8> {
    encode_utf8(text)
}

impl ToRef for String {
    type Ref = StringRef;

    open spec fn mem_type() -> MemType {
        MemType::SimpleWrapper
    }

    open spec fn size(&self) -> nat {
        0
    }

    open spec fn views(&self, r: StringRef, img: Image, lo: int, hi: int, deep: bool) -> bool {
        &&& r.0.len == text_bytes(self@).len()
        &&& deep ==> read(img, r.0.ptr, r.0.len) == Some(text_bytes(self@))
    }

    open spec fn flat(&self) -> StringRef {
        StringRef(DataView { ptr: 0, len: 0 })
    }

    open spec fn pins(&self, r: StringRef, img: Image) -> Seq<Piece> {
        if r.0.len > 0 {
            seq![(r.0.ptr, text_bytes(self@))]
        } else {
            Seq::empty()
        }
    }

    proof fn lemma_flat(&self) {
    }

    proof fn lemma_primitive(&self, r: StringRef, img: Image, lo: int, hi: int, deep: bool) {
    }

    proof fn lemma_deepen(&self, r: StringRef, img: Image, other: Image, lo: int, hi: int) {
        if r.0.len > 0 {
            let piece = self.pins(r, img)[0];
            assert(holds(other, piece));
            let whole = crate::memory::image_of(piece.0, piece.1, piece.1.len());
            assert(whole.contains_key((r.0.ptr, r.0.len)));
            assert(whole[(r.0.ptr, r.0.len)] =~= text_bytes(self@));
        } else {
            assert(text_bytes(self@) =~= Seq::<u8>::empty());
        }
    }

    proof fn lemma_frame(
        &self,
        r: StringRef,
        img: Image,
        other: Image,
        lo: int,
        hi: int,
        deep: bool,
    ) {
        if deep && r.0.len > 0 {
            assert(img.contains_key((r.0.ptr, r.0.len)));
        }
    }

    proof fn lemma_widen(
        &self,
        r: StringRef,
        img: Image,
        lo: int,
        hi: int,
        wide_lo: int,
        wide_hi: int,
        deep: bool,
    ) {
    }

    fn mem_type_of() -> (t: MemType) {
        MemType::SimpleWrapper
    }

    fn to_size(&self, acc: &mut usize) {
    }

    fn checked_size(&self, acc: usize) -> (sum: Option<usize>) {
        Some(acc)
    }

    fn to_ref(&self, writer: &mut Writer) -> (r: StringRef) {
        proof {
            lemma_keeps_same(writer.arena(), writer.cursor());
        }
        StringRef(DataView { ptr: string_addr(self), len: self.as_str().as_bytes().len() })
    }

    fn pinned<M: MemoryRead>(&self, r: &StringRef, mem: &M, out: &mut Vec<Segment>) {
        if r.0.len > 0 {
            let bytes = copy_bytes(self.as_str().as_bytes());
            out.push(Segment { base: r.0.ptr, bytes });
            assert(pieces_of(out@) =~= pieces_of(old(out)@) + self.pins(*r, mem.image()));
        } else {
            assert(pieces_of(out@) + Seq::<Piece>::empty() =~= pieces_of(out@));
        }
    }
}

impl FromRef for String {
    open spec fn decoded(r: StringRef, img: Image) -> Option<Seq<char>> {
        match read(img, r.0.ptr, r.0.len) {
            Some(bytes) => Some(utf8_lossy(bytes)),
            None => None,
        }
    }

    proof fn lemma_round_trip(&self, r: StringRef, img: Image, lo: int, hi: int) {
        encode_utf8_valid_utf8(self@);
        encode_utf8_decode_utf8(self@);
    }

    fn from_ref<M: MemoryRead>(r: &StringRef, mem: &M) -> (o: Option<Self>) {
        if r.0.len == 0 {
            proof {
                assert(valid_utf8(Seq::<u8>::empty()));
                assert(decode_utf8(Seq::<u8>::empty()) =~= Seq::<char>::empty());
            }
            return Some(String::new());
        }
        match mem.read(r.0.ptr, r.0.len) {
            Some(bytes) => Some(string_from_utf8_lossy(&bytes)),
            None => None,
        }
    }
}

/// A view of no bytes is the empty text, wherever it points and whatever the
/// memory holds.
pub proof fn lemma_empty_text(r: StringRef, img: Image)
    requires
        r.0.len == 0,
    ensures
        String::decoded(r, img) == Some(Seq::<char>::empty()),
{
    assert(valid_utf8(Seq::<u8>::empty()));
    assert(decode_utf8(Seq::<u8>::empty()) =~= Seq::<char>::empty());
}

} // verus!
