//! Primitives: values without heap data, which are their own views. A `char`
//! has a view but no byte layout, so it can be a field but not the element of
//! a list.

use crate::convert::{FromRef, ToRef};
use crate::mem_type::MemType;
use crate::memory::{pieces_of, Image, MemoryRead, Piece, Segment};
use crate::writer::{lemma_keeps_same, Writer};
use vstd::prelude::*;

verus! {

impl ToRef for u8 {
    type Ref = u8;

    open spec fn mem_type() -> MemType {
        MemType::Primitive
    }

    open spec fn size(&self) -> nat {
        0
    }

    open spec fn views(&self, r: u8, img: Image, lo: int, hi: int, deep: bool) -> bool {
        r == *self
    }

    open spec fn flat(&self) -> u8 {
        *self
    }

    open spec fn pins(&self, r: u8, img: Image) -> Seq<Piece> {
        Seq::empty()
    }

    proof fn lemma_flat(&self) {
    }

    proof fn lemma_primitive(&self, r: u8, img: Image, lo: int, hi: int, deep: bool) {
    }

    proof fn lemma_deepen(&self, r: u8, img: Image, other: Image, lo: int, hi: int) {
    }

    proof fn lemma_frame(&self, r: u8, img: Image, other: Image, lo: int, hi: int, deep: bool) {
    }

    proof fn lemma_widen(
        &self,
        r: u8,
        img: Image,
        lo: int,
        hi: int,
        wide_lo: int,
        wide_hi: int,
        deep: bool,
    ) {
    }

    fn mem_type_of() -> (t: MemType) {
        MemType::Primitive
    }

    fn to_size(&self, acc: &mut usize) {
    }

    fn checked_size(&self, acc: usize) -> (sum: Option<usize>) {
        Some(acc)
    }

    fn to_ref(&self, writer: &mut Writer) -> (r: u8) {
        proof {
            lemma_keeps_same(writer.arena(), writer.cursor());
        }
        *self
    }

    fn pinned<M: MemoryRead>(&self, r: &u8, mem: &M, out: &mut Vec<Segment>) {
        assert(pieces_of(out@) + Seq::<Piece>::empty() =~= pieces_of(out@));
    }
}

impl FromRef for u8 {
    open spec fn decoded(r: u8, img: Image) -> Option<u8> {
        Some(r)
    }

    proof fn lemma_round_trip(&self, r: u8, img: Image, lo: int, hi: int) {
    }

    fn from_ref<M: MemoryRead>(r: &u8, mem: &M) -> (o: Option<Self>) {
        Some(*r)
    }
}

impl ToRef for u16 {
    type Ref = u16;

    open spec fn mem_type() -> MemType {
        MemType::Primitive
    }

    open spec fn size(&self) -> nat {
        0
    }

    open spec fn views(&self, r: u16, img: Image, lo: int, hi: int, deep: bool) -> bool {
        r == *self
    }

    open spec fn flat(&self) -> u16 {
        *self
    }

    open spec fn pins(&self, r: u16, img: Image) -> Seq<Piece> {
        Seq::empty()
    }

    proof fn lemma_flat(&self) {
    }

    proof fn lemma_primitive(&self, r: u16, img: Image, lo: int, hi: int, deep: bool) {
    }

    proof fn lemma_deepen(&self, r: u16, img: Image, other: Image, lo: int, hi: int) {
    }

    proof fn lemma_frame(&self, r: u16, img: Image, other: Image, lo: int, hi: int, deep: bool) {
    }

    proof fn lemma_widen(
        &self,
        r: u16,
        img: Image,
        lo: int,
        hi: int,
        wide_lo: int,
        wide_hi: int,
        deep: bool,
    ) {
    }

    fn mem_type_of() -> (t: MemType) {
        MemType::Primitive
    }

    fn to_size(&self, acc: &mut usize) {
    }

    fn checked_size(&self, acc: usize) -> (sum: Option<usize>) {
        Some(acc)
    }

    fn to_ref(&self, writer: &mut Writer) -> (r: u16) {
        proof {
            lemma_keeps_same(writer.arena(), writer.cursor());
        }
        *self
    }

    fn pinned<M: MemoryRead>(&self, r: &u16, mem: &M, out: &mut Vec<Segment>) {
        assert(pieces_of(out@) + Seq::<Piece>::empty() =~= pieces_of(out@));
    }
}

impl FromRef for u16 {
    open spec fn decoded(r: u16, img: Image) -> Option<u16> {
        Some(r)
    }

    proof fn lemma_round_trip(&self, r: u16, img: Image, lo: int, hi: int) {
    }

    fn from_ref<M: MemoryRead>(r: &u16, mem: &M) -> (o: Option<Self>) {
        Some(*r)
    }
}

impl ToRef for u32 {
    type Ref = u32;

    open spec fn mem_type() -> MemType {
        MemType::Primitive
    }

    open spec fn size(&self) -> nat {
        0
    }

    open spec fn views(&self, r: u32, img: Image, lo: int, hi: int, deep: bool) -> bool {
        r == *self
    }

    open spec fn flat(&self) -> u32 {
        *self
    }

    open spec fn pins(&self, r: u32, img: Image) -> Seq<Piece> {
        Seq::empty()
    }

    proof fn lemma_flat(&self) {
    }

    proof fn lemma_primitive(&self, r: u32, img: Image, lo: int, hi: int, deep: bool) {
    }

    proof fn lemma_deepen(&self, r: u32, img: Image, other: Image, lo: int, hi: int) {
    }

    proof fn lemma_frame(&self, r: u32, img: Image, other: Image, lo: int, hi: int, deep: bool) {
    }

    proof fn lemma_widen(
        &self,
        r: u32,
        img: Image,
        lo: int,
        hi: int,
        wide_lo: int,
        wide_hi: int,
        deep: bool,
    ) {
    }

    fn mem_type_of() -> (t: MemType) {
        MemType::Primitive
    }

    fn to_size(&self, acc: &mut usize) {
    }

    fn checked_size(&self, acc: usize) -> (sum: Option<usize>) {
        Some(acc)
    }

    fn to_ref(&self, writer: &mut Writer) -> (r: u32) {
        proof {
            lemma_keeps_same(writer.arena(), writer.cursor());
        }
        *self
    }

    fn pinned<M: MemoryRead>(&self, r: &u32, mem: &M, out: &mut Vec<Segment>) {
        assert(pieces_of(out@) + Seq::<Piece>::empty() =~= pieces_of(out@));
    }
}

impl FromRef for u32 {
    open spec fn decoded(r: u32, img: Image) -> Option<u32> {
        Some(r)
    }

    proof fn lemma_round_trip(&self, r: u32, img: Image, lo: int, hi: int) {
    }

    fn from_ref<M: MemoryRead>(r: &u32, mem: &M) -> (o: Option<Self>) {
        Some(*r)
    }
}

impl ToRef for u64 {
    type Ref = u64;

    open spec fn mem_type() -> MemType {
        MemType::Primitive
    }

    open spec fn size(&self) -> nat {
        0
    }

    open spec fn views(&self, r: u64, img: Image, lo: int, hi: int, deep: bool) -> bool {
        r == *self
    }

    open spec fn flat(&self) -> u64 {
        *self
    }

    open spec fn pins(&self, r: u64, img: Image) -> Seq<Piece> {
        Seq::empty()
    }

    proof fn lemma_flat(&self) {
    }

    proof fn lemma_primitive(&self, r: u64, img: Image, lo: int, hi: int, deep: bool) {
    }

    proof fn lemma_deepen(&self, r: u64, img: Image, other: Image, lo: int, hi: int) {
    }

    proof fn lemma_frame(&self, r: u64, img: Image, other: Image, lo: int, hi: int, deep: bool) {
    }

    proof fn lemma_widen(
        &self,
        r: u64,
        img: Image,
        lo: int,
        hi: int,
        wide_lo: int,
        wide_hi: int,
        deep: bool,
    ) {
    }

    fn mem_type_of() -> (t: MemType) {
        MemType::Primitive
    }

    fn to_size(&self, acc: &mut usize) {
    }

    fn checked_size(&self, acc: usize) -> (sum: Option<usize>) {
        Some(acc)
    }

    fn to_ref(&self, writer: &mut Writer) -> (r: u64) {
        proof {
            lemma_keeps_same(writer.arena(), writer.cursor());
        }
        *self
    }

    fn pinned<M: MemoryRead>(&self, r: &u64, mem: &M, out: &mut Vec<Segment>) {
        assert(pieces_of(out@) + Seq::<Piece>::empty() =~= pieces_of(out@));
    }
}

impl FromRef for u64 {
    open spec fn decoded(r: u64, img: Image) -> Option<u64> {
        Some(r)
    }

    proof fn lemma_round_trip(&self, r: u64, img: Image, lo: int, hi: int) {
    }

    fn from_ref<M: MemoryRead>(r: &u64, mem: &M) -> (o: Option<Self>) {
        Some(*r)
    }
}

impl ToRef for usize {
    type Ref = usize;

    open spec fn mem_type() -> MemType {
        MemType::Primitive
    }

    open spec fn size(&self) -> nat {
        0
    }

    open spec fn views(&self, r: usize, img: Image, lo: int, hi: int, deep: bool) -> bool {
        r == *self
    }

    open spec fn flat(&self) -> usize {
        *self
    }

    open spec fn pins(&self, r: usize, img: Image) -> Seq<Piece> {
        Seq::empty()
    }

    proof fn lemma_flat(&self) {
    }

    proof fn lemma_primitive(&self, r: usize, img: Image, lo: int, hi: int, deep: bool) {
    }

    proof fn lemma_deepen(&self, r: usize, img: Image, other: Image, lo: int, hi: int) {
    }

    proof fn lemma_frame(&self, r: usize, img: Image, other: Image, lo: int, hi: int, deep: bool) {
    }

    proof fn lemma_widen(
        &self,
        r: usize,
        img: Image,
        lo: int,
        hi: int,
        wide_lo: int,
        wide_hi: int,
        deep: bool,
    ) {
    }

    fn mem_type_of() -> (t: MemType) {
        MemType::Primitive
    }

    fn to_size(&self, acc: &mut usize) {
    }

    fn checked_size(&self, acc: usize) -> (sum: Option<usize>) {
        Some(acc)
    }

    fn to_ref(&self, writer: &mut Writer) -> (r: usize) {
        proof {
            lemma_keeps_same(writer.arena(), writer.cursor());
        }
        *self
    }

    fn pinned<M: MemoryRead>(&self, r: &usize, mem: &M, out: &mut Vec<Segment>) {
        assert(pieces_of(out@) + Seq::<Piece>::empty() =~= pieces_of(out@));
    }
}

impl FromRef for usize {
    open spec fn decoded(r: usize, img: Image) -> Option<usize> {
        Some(r)
    }

    proof fn lemma_round_trip(&self, r: usize, img: Image, lo: int, hi: int) {
    }

    fn from_ref<M: MemoryRead>(r: &usize, mem: &M) -> (o: Option<Self>) {
        Some(*r)
    }
}

impl ToRef for i8 {
    type Ref = i8;

    open spec fn mem_type() -> MemType {
        MemType::Primitive
    }

    open spec fn size(&self) -> nat {
        0
    }

    open spec fn views(&self, r: i8, img: Image, lo: int, hi: int, deep: bool) -> bool {
        r == *self
    }

    open spec fn flat(&self) -> i8 {
        *self
    }

    open spec fn pins(&self, r: i8, img: Image) -> Seq<Piece> {
        Seq::empty()
    }

    proof fn lemma_flat(&self) {
    }

    proof fn lemma_primitive(&self, r: i8, img: Image, lo: int, hi: int, deep: bool) {
    }

    proof fn lemma_deepen(&self, r: i8, img: Image, other: Image, lo: int, hi: int) {
    }

    proof fn lemma_frame(&self, r: i8, img: Image, other: Image, lo: int, hi: int, deep: bool) {
    }

    proof fn lemma_widen(
        &self,
        r: i8,
        img: Image,
        lo: int,
        hi: int,
        wide_lo: int,
        wide_hi: int,
        deep: bool,
    ) {
    }

    fn mem_type_of() -> (t: MemType) {
        MemType::Primitive
    }

    fn to_size(&self, acc: &mut usize) {
    }

    fn checked_size(&self, acc: usize) -> (sum: Option<usize>) {
        Some(acc)
    }

    fn to_ref(&self, writer: &mut Writer) -> (r: i8) {
        proof {
            lemma_keeps_same(writer.arena(), writer.cursor());
        }
        *self
    }

    fn pinned<M: MemoryRead>(&self, r: &i8, mem: &M, out: &mut Vec<Segment>) {
        assert(pieces_of(out@) + Seq::<Piece>::empty() =~= pieces_of(out@));
    }
}

impl FromRef for i8 {
    open spec fn decoded(r: i8, img: Image) -> Option<i8> {
        Some(r)
    }

    proof fn lemma_round_trip(&self, r: i8, img: Image, lo: int, hi: int) {
    }

    fn from_ref<M: MemoryRead>(r: &i8, mem: &M) -> (o: Option<Self>) {
        Some(*r)
    }
}

impl ToRef for i16 {
    type Ref = i16;

    open spec fn mem_type() -> MemType {
        MemType::Primitive
    }

    open spec fn size(&self) -> nat {
        0
    }

    open spec fn views(&self, r: i16, img: Image, lo: int, hi: int, deep: bool) -> bool {
        r == *self
    }

    open spec fn flat(&self) -> i16 {
        *self
    }

    open spec fn pins(&self, r: i16, img: Image) -> Seq<Piece> {
        Seq::empty()
    }

    proof fn lemma_flat(&self) {
    }

    proof fn lemma_primitive(&self, r: i16, img: Image, lo: int, hi: int, deep: bool) {
    }

    proof fn lemma_deepen(&self, r: i16, img: Image, other: Image, lo: int, hi: int) {
    }

    proof fn lemma_frame(&self, r: i16, img: Image, other: Image, lo: int, hi: int, deep: bool) {
    }

    proof fn lemma_widen(
        &self,
        r: i16,
        img: Image,
        lo: int,
        hi: int,
        wide_lo: int,
        wide_hi: int,
        deep: bool,
    ) {
    }

    fn mem_type_of() -> (t: MemType) {
        MemType::Primitive
    }

    fn to_size(&self, acc: &mut usize) {
    }

    fn checked_size(&self, acc: usize) -> (sum: Option<usize>) {
        Some(acc)
    }

    fn to_ref(&self, writer: &mut Writer) -> (r: i16) {
        proof {
            lemma_keeps_same(writer.arena(), writer.cursor());
        }
        *self
    }

    fn pinned<M: MemoryRead>(&self, r: &i16, mem: &M, out: &mut Vec<Segment>) {
        assert(pieces_of(out@) + Seq::<Piece>::empty() =~= pieces_of(out@));
    }
}

impl FromRef for i16 {
    open spec fn decoded(r: i16, img: Image) -> Option<i16> {
        Some(r)
    }

    proof fn lemma_round_trip(&self, r: i16, img: Image, lo: int, hi: int) {
    }

    fn from_ref<M: MemoryRead>(r: &i16, mem: &M) -> (o: Option<Self>) {
        Some(*r)
    }
}

impl ToRef for i32 {
    type Ref = i32;

    open spec fn mem_type() -> MemType {
        MemType::Primitive
    }

    open spec fn size(&self) -> nat {
        0
    }

    open spec fn views(&self, r: i32, img: Image, lo: int, hi: int, deep: bool) -> bool {
        r == *self
    }

    open spec fn flat(&self) -> i32 {
        *self
    }

    open spec fn pins(&self, r: i32, img: Image) -> Seq<Piece> {
        Seq::empty()
    }

    proof fn lemma_flat(&self) {
    }

    proof fn lemma_primitive(&self, r: i32, img: Image, lo: int, hi: int, deep: bool) {
    }

    proof fn lemma_deepen(&self, r: i32, img: Image, other: Image, lo: int, hi: int) {
    }

    proof fn lemma_frame(&self, r: i32, img: Image, other: Image, lo: int, hi: int, deep: bool) {
    }

    proof fn lemma_widen(
        &self,
        r: i32,
        img: Image,
        lo: int,
        hi: int,
        wide_lo: int,
        wide_hi: int,
        deep: bool,
    ) {
    }

    fn mem_type_of() -> (t: MemType) {
        MemType::Primitive
    }

    fn to_size(&self, acc: &mut usize) {
    }

    fn checked_size(&self, acc: usize) -> (sum: Option<usize>) {
        Some(acc)
    }

    fn to_ref(&self, writer: &mut Writer) -> (r: i32) {
        proof {
            lemma_keeps_same(writer.arena(), writer.cursor());
        }
        *self
    }

    fn pinned<M: MemoryRead>(&self, r: &i32, mem: &M, out: &mut Vec<Segment>) {
        assert(pieces_of(out@) + Seq::<Piece>::empty() =~= pieces_of(out@));
    }
}

impl FromRef for i32 {
    open spec fn decoded(r: i32, img: Image) -> Option<i32> {
        Some(r)
    }

    proof fn lemma_round_trip(&self, r: i32, img: Image, lo: int, hi: int) {
    }

    fn from_ref<M: MemoryRead>(r: &i32, mem: &M) -> (o: Option<Self>) {
        Some(*r)
    }
}

impl ToRef for i64 {
    type Ref = i64;

    open spec fn mem_type() -> MemType {
        MemType::Primitive
    }

    open spec fn size(&self) -> nat {
        0
    }

    open spec fn views(&self, r: i64, img: Image, lo: int, hi: int, deep: bool) -> bool {
        r == *self
    }

    open spec fn flat(&self) -> i64 {
        *self
    }

    open spec fn pins(&self, r: i64, img: Image) -> Seq<Piece> {
        Seq::empty()
    }

    proof fn lemma_flat(&self) {
    }

    proof fn lemma_primitive(&self, r: i64, img: Image, lo: int, hi: int, deep: bool) {
    }

    proof fn lemma_deepen(&self, r: i64, img: Image, other: Image, lo: int, hi: int) {
    }

    proof fn lemma_frame(&self, r: i64, img: Image, other: Image, lo: int, hi: int, deep: bool) {
    }

    proof fn lemma_widen(
        &self,
        r: i64,
        img: Image,
        lo: int,
        hi: int,
        wide_lo: int,
        wide_hi: int,
        deep: bool,
    ) {
    }

    fn mem_type_of() -> (t: MemType) {
        MemType::Primitive
    }

    fn to_size(&self, acc: &mut usize) {
    }

    fn checked_size(&self, acc: usize) -> (sum: Option<usize>) {
        Some(acc)
    }

    fn to_ref(&self, writer: &mut Writer) -> (r: i64) {
        proof {
            lemma_keeps_same(writer.arena(), writer.cursor());
        }
        *self
    }

    fn pinned<M: MemoryRead>(&self, r: &i64, mem: &M, out: &mut Vec<Segment>) {
        assert(pieces_of(out@) + Seq::<Piece>::empty() =~= pieces_of(out@));
    }
}

impl FromRef for i64 {
    open spec fn decoded(r: i64, img: Image) -> Option<i64> {
        Some(r)
    }

    proof fn lemma_round_trip(&self, r: i64, img: Image, lo: int, hi: int) {
    }

    fn from_ref<M: MemoryRead>(r: &i64, mem: &M) -> (o: Option<Self>) {
        Some(*r)
    }
}

impl ToRef for isize {
    type Ref = isize;

    open spec fn mem_type() -> MemType {
        MemType::Primitive
    }

    open spec fn size(&self) -> nat {
        0
    }

    open spec fn views(&self, r: isize, img: Image, lo: int, hi: int, deep: bool) -> bool {
        r == *self
    }

    open spec fn flat(&self) -> isize {
        *self
    }

    open spec fn pins(&self, r: isize, img: Image) -> Seq<Piece> {
        Seq::empty()
    }

    proof fn lemma_flat(&self) {
    }

    proof fn lemma_primitive(&self, r: isize, img: Image, lo: int, hi: int, deep: bool) {
    }

    proof fn lemma_deepen(&self, r: isize, img: Image, other: Image, lo: int, hi: int) {
    }

    proof fn lemma_frame(&self, r: isize, img: Image, other: Image, lo: int, hi: int, deep: bool) {
    }

    proof fn lemma_widen(
        &self,
        r: isize,
        img: Image,
        lo: int,
        hi: int,
        wide_lo: int,
        wide_hi: int,
        deep: bool,
    ) {
    }

    fn mem_type_of() -> (t: MemType) {
        MemType::Primitive
    }

    fn to_size(&self, acc: &mut usize) {
    }

    fn checked_size(&self, acc: usize) -> (sum: Option<usize>) {
        Some(acc)
    }

    fn to_ref(&self, writer: &mut Writer) -> (r: isize) {
        proof {
            lemma_keeps_same(writer.arena(), writer.cursor());
        }
        *self
    }

    fn pinned<M: MemoryRead>(&self, r: &isize, mem: &M, out: &mut Vec<Segment>) {
        assert(pieces_of(out@) + Seq::<Piece>::empty() =~= pieces_of(out@));
    }
}

impl FromRef for isize {
    open spec fn decoded(r: isize, img: Image) -> Option<isize> {
        Some(r)
    }

    proof fn lemma_round_trip(&self, r: isize, img: Image, lo: int, hi: int) {
    }

    fn from_ref<M: MemoryRead>(r: &isize, mem: &M) -> (o: Option<Self>) {
        Some(*r)
    }
}

impl ToRef for bool {
    type Ref = bool;

    open spec fn mem_type() -> MemType {
        MemType::Primitive
    }

    open spec fn size(&self) -> nat {
        0
    }

    open spec fn views(&self, r: bool, img: Image, lo: int, hi: int, deep: bool) -> bool {
        r == *self
    }

    open spec fn flat(&self) -> bool {
        *self
    }

    open spec fn pins(&self, r: bool, img: Image) -> Seq<Piece> {
        Seq::empty()
    }

    proof fn lemma_flat(&self) {
    }

    proof fn lemma_primitive(&self, r: bool, img: Image, lo: int, hi: int, deep: bool) {
    }

    proof fn lemma_deepen(&self, r: bool, img: Image, other: Image, lo: int, hi: int) {
    }

    proof fn lemma_frame(&self, r: bool, img: Image, other: Image, lo: int, hi: int, deep: bool) {
    }

    proof fn lemma_widen(
        &self,
        r: bool,
        img: Image,
        lo: int,
        hi: int,
        wide_lo: int,
        wide_hi: int,
        deep: bool,
    ) {
    }

    fn mem_type_of() -> (t: MemType) {
        MemType::Primitive
    }

    fn to_size(&self, acc: &mut usize) {
    }

    fn checked_size(&self, acc: usize) -> (sum: Option<usize>) {
        Some(acc)
    }

    fn to_ref(&self, writer: &mut Writer) -> (r: bool) {
        proof {
            lemma_keeps_same(writer.arena(), writer.cursor());
        }
        *self
    }

    fn pinned<M: MemoryRead>(&self, r: &bool, mem: &M, out: &mut Vec<Segment>) {
        assert(pieces_of(out@) + Seq::<Piece>::empty() =~= pieces_of(out@));
    }
}

impl FromRef for bool {
    open spec fn decoded(r: bool, img: Image) -> Option<bool> {
        Some(r)
    }

    proof fn lemma_round_trip(&self, r: bool, img: Image, lo: int, hi: int) {
    }

    fn from_ref<M: MemoryRead>(r: &bool, mem: &M) -> (o: Option<Self>) {
        Some(*r)
    }
}

impl ToRef for char {
    type Ref = char;

    open spec fn mem_type() -> MemType {
        MemType::Primitive
    }

    open spec fn size(&self) -> nat {
        0
    }

    open spec fn views(&self, r: char, img: Image, lo: int, hi: int, deep: bool) -> bool {
        r == *self
    }

    open spec fn flat(&self) -> char {
        *self
    }

    open spec fn pins(&self, r: char, img: Image) -> Seq<Piece> {
        Seq::empty()
    }

    proof fn lemma_flat(&self) {
    }

    proof fn lemma_primitive(&self, r: char, img: Image, lo: int, hi: int, deep: bool) {
    }

    proof fn lemma_deepen(&self, r: char, img: Image, other: Image, lo: int, hi: int) {
    }

    proof fn lemma_frame(&self, r: char, img: Image, other: Image, lo: int, hi: int, deep: bool) {
    }

    proof fn lemma_widen(
        &self,
        r: char,
        img: Image,
        lo: int,
        hi: int,
        wide_lo: int,
        wide_hi: int,
        deep: bool,
    ) {
    }

    fn mem_type_of() -> (t: MemType) {
        MemType::Primitive
    }

    fn to_size(&self, acc: &mut usize) {
    }

    fn checked_size(&self, acc: usize) -> (sum: Option<usize>) {
        Some(acc)
    }

    fn to_ref(&self, writer: &mut Writer) -> (r: char) {
        proof {
            lemma_keeps_same(writer.arena(), writer.cursor());
        }
        *self
    }

    fn pinned<M: MemoryRead>(&self, r: &char, mem: &M, out: &mut Vec<Segment>) {
        assert(pieces_of(out@) + Seq::<Piece>::empty() =~= pieces_of(out@));
    }
}

impl FromRef for char {
    open spec fn decoded(r: char, img: Image) -> Option<char> {
        Some(r)
    }

    proof fn lemma_round_trip(&self, r: char, img: Image, lo: int, hi: int) {
    }

    fn from_ref<M: MemoryRead>(r: &char, mem: &M) -> (o: Option<Self>) {
        Some(*r)
    }
}

} // verus!
