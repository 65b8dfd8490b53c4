//! The byte layout of reference views: how a view of fixed size is written
//! into an arena and read back. Integers are little-endian, addresses and
//! lengths take eight bytes.

use vstd::bytes::{
    lemma_auto_spec_u16_to_from_le_bytes, lemma_auto_spec_u32_to_from_le_bytes,
    lemma_auto_spec_u64_to_from_le_bytes, spec_u16_from_le_bytes, spec_u16_to_le_bytes,
    spec_u32_from_le_bytes, spec_u32_to_le_bytes, spec_u64_from_le_bytes, spec_u64_to_le_bytes,
    u16_from_le_bytes, u16_to_le_bytes, u32_from_le_bytes, u32_to_le_bytes, u64_from_le_bytes,
    u64_to_le_bytes,
};
use vstd::prelude::*;

verus! {

/// A value with a fixed layout in memory.
pub trait Pod: Sized {
    /// The number of bytes that a value takes.
    spec fn size() -> nat;

    /// The bytes of a value.
    spec fn encode(self) -> Seq<u8>;

    /// The value that `size()` bytes stand for.
    spec fn decode(bytes: Seq<u8>) -> Self;

    /// A value takes `size()` bytes, and reading them gives the value back.
    proof fn lemma_layout(self)
        ensures
            self.encode().len() == Self::size(),
            Self::decode(self.encode()) == self,
    ;

    /// The size is a number that the machine can count.
    proof fn lemma_size()
        ensures
            Self::size() <= usize::MAX,
    ;

    /// The number of bytes that a value takes.
    fn size_of() -> (n: usize)
        ensures
            n == Self::size(),
    ;

    /// The bytes of the value.
    fn to_bytes(&self) -> (b: Vec<u8>)
        ensures
            b@ == self.encode(),
    ;

    /// The value that the bytes stand for.
    fn from_bytes(b: &Vec<u8>) -> (r: Self)
        requires
            b@.len() == Self::size(),
        ensures
            r == Self::decode(b@),
    ;
}

/// The `len` bytes of `bytes` that start at `at`.
pub open spec fn field(bytes: Seq<u8>, at: int, len: int) -> Seq<u8> {
    bytes.subrange(at, at + len)
}

/// `n` bytes of padding.
pub open spec fn padding(n: nat) -> Seq<u8> {
    Seq::new(n, |i: int| 0u8)
}

/// Copies the `len` bytes of `b` that start at `at`.
pub fn take_field(b: &Vec<u8>, at: usize, len: usize) -> (r: Vec<u8>)
    requires
        at + len <= b@.len(),
    ensures
        r@ == field(b@, at as int, len as int),
{
    let mut out: Vec<u8> = Vec::new();
    let mut k: usize = 0;
    let n = b.len();
    while k < len
        invariant
            k <= len,
            at + len <= b@.len(),
            b@.len() == n,
            out@ == b@.subrange(at as int, at + k),
        decreases len - k,
    {
        out.push(b[at + k]);
        k = k + 1;
        assert(out@ =~= b@.subrange(at as int, at + k));
    }
    out
}

/// Appends the bytes of `more` to `out`.
pub fn append_bytes(out: &mut Vec<u8>, more: &Vec<u8>)
    ensures
        final(out)@ == old(out)@ + more@,
{
    let mut k: usize = 0;
    let n = more.len();
    while k < n
        invariant
            k <= n,
            n == more@.len(),
            out@ == old(out)@ + more@.subrange(0, k as int),
        decreases n - k,
    {
        out.push(more[k]);
        k = k + 1;
        assert(out@ =~= old(out)@ + more@.subrange(0, k as int));
    }
    assert(more@.subrange(0, n as int) =~= more@);
}

/// Appends `n` bytes of padding to `out`.
pub fn append_padding(out: &mut Vec<u8>, n: usize)
    ensures
        final(out)@ == old(out)@ + padding(n as nat),
{
    let mut k: usize = 0;
    while k < n
        invariant
            k <= n,
            out@ == old(out)@ + padding(k as nat),
        decreases n - k,
    {
        out.push(0u8);
        k = k + 1;
        assert(out@ =~= old(out)@ + padding(k as nat));
    }
}

impl Pod for u8 {
    open spec fn size() -> nat {
        1
    }

    open spec fn encode(self) -> Seq<u8> {
        seq![self]
    }

    open spec fn decode(bytes: Seq<u8>) -> Self {
        bytes[0]
    }

    proof fn lemma_layout(self) {
    }

    proof fn lemma_size() {
    }

    fn size_of() -> (n: usize) {
        1
    }

    fn to_bytes(&self) -> (b: Vec<u8>) {
        let mut b: Vec<u8> = Vec::new();
        b.push(*self);
        assert(b@ =~= seq![*self]);
        b
    }

    fn from_bytes(b: &Vec<u8>) -> (r: Self) {
        b[0]
    }
}

impl Pod for bool {
    open spec fn size() -> nat {
        1
    }

    open spec fn encode(self) -> Seq<u8> {
        seq![if self { 1u8 } else { 0u8 }]
    }

    open spec fn decode(bytes: Seq<u8>) -> Self {
        bytes[0] != 0
    }

    proof fn lemma_layout(self) {
    }

    proof fn lemma_size() {
    }

    fn size_of() -> (n: usize) {
        1
    }

    fn to_bytes(&self) -> (b: Vec<u8>) {
        let mut b: Vec<u8> = Vec::new();
        b.push(if *self { 1u8 } else { 0u8 });
        assert(b@ =~= seq![if *self { 1u8 } else { 0u8 }]);
        b
    }

    fn from_bytes(b: &Vec<u8>) -> (r: Self) {
        b[0] != 0
    }
}

impl Pod for i8 {
    open spec fn size() -> nat {
        1
    }

    open spec fn encode(self) -> Seq<u8> {
        seq![self as u8]
    }

    open spec fn decode(bytes: Seq<u8>) -> Self {
        bytes[0] as i8
    }

    proof fn lemma_layout(self) {
        assert((self as u8) as i8 == self) by (bit_vector);
    }

    proof fn lemma_size() {
    }

    fn size_of() -> (n: usize) {
        1
    }

    fn to_bytes(&self) -> (b: Vec<u8>) {
        let mut b: Vec<u8> = Vec::new();
        b.push(#[verifier::truncate] (*self as u8));
        assert(b@ =~= seq![*self as u8]);
        b
    }

    fn from_bytes(b: &Vec<u8>) -> (r: Self) {
        #[verifier::truncate] (b[0] as i8)
    }
}

impl Pod for u16 {
    open spec fn size() -> nat {
        2
    }

    open spec fn encode(self) -> Seq<u8> {
        spec_u16_to_le_bytes(self)
    }

    open spec fn decode(bytes: Seq<u8>) -> Self {
        spec_u16_from_le_bytes(bytes)
    }

    proof fn lemma_layout(self) {
        lemma_auto_spec_u16_to_from_le_bytes();
        assert(spec_u16_to_le_bytes(self).len() == 2);
    }

    proof fn lemma_size() {
    }

    fn size_of() -> (n: usize) {
        2
    }

    fn to_bytes(&self) -> (b: Vec<u8>) {
        u16_to_le_bytes(*self)
    }

    fn from_bytes(b: &Vec<u8>) -> (r: Self) {
        u16_from_le_bytes(b.as_slice())
    }
}

impl Pod for u32 {
    open spec fn size() -> nat {
        4
    }

    open spec fn encode(self) -> Seq<u8> {
        spec_u32_to_le_bytes(self)
    }

    open spec fn decode(bytes: Seq<u8>) -> Self {
        spec_u32_from_le_bytes(bytes)
    }

    proof fn lemma_layout(self) {
        lemma_auto_spec_u32_to_from_le_bytes();
        assert(spec_u32_to_le_bytes(self).len() == 4);
    }

    proof fn lemma_size() {
    }

    fn size_of() -> (n: usize) {
        4
    }

    fn to_bytes(&self) -> (b: Vec<u8>) {
        u32_to_le_bytes(*self)
    }

    fn from_bytes(b: &Vec<u8>) -> (r: Self) {
        u32_from_le_bytes(b.as_slice())
    }
}

impl Pod for u64 {
    open spec fn size() -> nat {
        8
    }

    open spec fn encode(self) -> Seq<u8> {
        spec_u64_to_le_bytes(self)
    }

    open spec fn decode(bytes: Seq<u8>) -> Self {
        spec_u64_from_le_bytes(bytes)
    }

    proof fn lemma_layout(self) {
        lemma_auto_spec_u64_to_from_le_bytes();
        assert(spec_u64_to_le_bytes(self).len() == 8);
    }

    proof fn lemma_size() {
    }

    fn size_of() -> (n: usize) {
        8
    }

    fn to_bytes(&self) -> (b: Vec<u8>) {
        u64_to_le_bytes(*self)
    }

    fn from_bytes(b: &Vec<u8>) -> (r: Self) {
        u64_from_le_bytes(b.as_slice())
    }
}

impl Pod for i16 {
    open spec fn size() -> nat {
        2
    }

    open spec fn encode(self) -> Seq<u8> {
        spec_u16_to_le_bytes(self as u16)
    }

    open spec fn decode(bytes: Seq<u8>) -> Self {
        spec_u16_from_le_bytes(bytes) as i16
    }

    proof fn lemma_layout(self) {
        lemma_auto_spec_u16_to_from_le_bytes();
        assert(spec_u16_to_le_bytes(self as u16).len() == 2);
        assert((self as u16) as i16 == self) by (bit_vector);
    }

    proof fn lemma_size() {
    }

    fn size_of() -> (n: usize) {
        2
    }

    fn to_bytes(&self) -> (b: Vec<u8>) {
        u16_to_le_bytes(#[verifier::truncate] (*self as u16))
    }

    fn from_bytes(b: &Vec<u8>) -> (r: Self) {
        #[verifier::truncate] (u16_from_le_bytes(b.as_slice()) as i16)
    }
}

impl Pod for i32 {
    open spec fn size() -> nat {
        4
    }

    open spec fn encode(self) -> Seq<u8> {
        spec_u32_to_le_bytes(self as u32)
    }

    open spec fn decode(bytes: Seq<u8>) -> Self {
        spec_u32_from_le_bytes(bytes) as i32
    }

    proof fn lemma_layout(self) {
        lemma_auto_spec_u32_to_from_le_bytes();
        assert(spec_u32_to_le_bytes(self as u32).len() == 4);
        assert((self as u32) as i32 == self) by (bit_vector);
    }

    proof fn lemma_size() {
    }

    fn size_of() -> (n: usize) {
        4
    }

    fn to_bytes(&self) -> (b: Vec<u8>) {
        u32_to_le_bytes(#[verifier::truncate] (*self as u32))
    }

    fn from_bytes(b: &Vec<u8>) -> (r: Self) {
        #[verifier::truncate] (u32_from_le_bytes(b.as_slice()) as i32)
    }
}

impl Pod for i64 {
    open spec fn size() -> nat {
        8
    }

    open spec fn encode(self) -> Seq<u8> {
        spec_u64_to_le_bytes(self as u64)
    }

    open spec fn decode(bytes: Seq<u8>) -> Self {
        spec_u64_from_le_bytes(bytes) as i64
    }

    proof fn lemma_layout(self) {
        lemma_auto_spec_u64_to_from_le_bytes();
        assert(spec_u64_to_le_bytes(self as u64).len() == 8);
        assert((self as u64) as i64 == self) by (bit_vector);
    }

    proof fn lemma_size() {
    }

    fn size_of() -> (n: usize) {
        8
    }

    fn to_bytes(&self) -> (b: Vec<u8>) {
        u64_to_le_bytes(#[verifier::truncate] (*self as u64))
    }

    fn from_bytes(b: &Vec<u8>) -> (r: Self) {
        #[verifier::truncate] (u64_from_le_bytes(b.as_slice()) as i64)
    }
}

impl Pod for usize {
    open spec fn size() -> nat {
        8
    }

    open spec fn encode(self) -> Seq<u8> {
        spec_u64_to_le_bytes(self as u64)
    }

    open spec fn decode(bytes: Seq<u8>) -> Self {
        spec_u64_from_le_bytes(bytes) as usize
    }

    proof fn lemma_layout(self) {
        lemma_auto_spec_u64_to_from_le_bytes();
    }

    proof fn lemma_size() {
    }

    fn size_of() -> (n: usize) {
        8
    }

    fn to_bytes(&self) -> (b: Vec<u8>) {
        u64_to_le_bytes(*self as u64)
    }

    fn from_bytes(b: &Vec<u8>) -> (r: Self) {
        #[verifier::truncate] (u64_from_le_bytes(b.as_slice()) as usize)
    }
}

impl Pod for isize {
    open spec fn size() -> nat {
        8
    }

    open spec fn encode(self) -> Seq<u8> {
        spec_u64_to_le_bytes((self as i64) as u64)
    }

    open spec fn decode(bytes: Seq<u8>) -> Self {
        (spec_u64_from_le_bytes(bytes) as i64) as isize
    }

    proof fn lemma_layout(self) {
        lemma_auto_spec_u64_to_from_le_bytes();
        let wide = self as i64;
        assert((wide as u64) as i64 == wide) by (bit_vector);
    }

    proof fn lemma_size() {
    }

    fn size_of() -> (n: usize) {
        8
    }

    fn to_bytes(&self) -> (b: Vec<u8>) {
        let wide: i64 = *self as i64;
        u64_to_le_bytes(#[verifier::truncate] (wide as u64))
    }

    fn from_bytes(b: &Vec<u8>) -> (r: Self) {
        let wide: i64 = #[verifier::truncate] (u64_from_le_bytes(b.as_slice()) as i64);
        #[verifier::truncate] (wide as isize)
    }
}

} // verus!
