//! The memory-complexity tag of an owned type.

use vstd::prelude::*;

verus! {

/// How much indirection an owned type carries.
///
/// `Primitive` has no heap data, `SimpleWrapper` has exactly one indirection
/// over data that is already contiguous, and `Complex` is everything deeper.
#[derive(Debug, Clone, Copy, PartialEq, Eq, Structural)]
pub enum MemType {
    Primitive,
    SimpleWrapper,
    Complex,
}

impl MemType {
    /// The depth of the tag: 0, 1 or 2.
    pub open spec fn rank(self) -> nat {
        match self {
            MemType::Primitive => 0,
            MemType::SimpleWrapper => 1,
            MemType::Complex => 2,
        }
    }

    /// The tag of a list whose elements carry `self`.
    pub open spec fn spec_next(self) -> MemType {
        match self {
            MemType::Primitive => MemType::SimpleWrapper,
            _ => MemType::Complex,
        }
    }

    /// The tag of a record with a field of each of the two tags.
    pub open spec fn spec_max(self, other: MemType) -> MemType {
        if self.rank() >= other.rank() {
            self
        } else {
            other
        }
    }

    /// Lifts the tag by one level, bounded at `Complex`.
    pub fn next(self) -> (r: MemType)
        ensures
            r == self.spec_next(),
            r.rank() == if self.rank() < 2 { self.rank() + 1 } else { 2 },
    {
        match self {
            MemType::Primitive => MemType::SimpleWrapper,
            MemType::SimpleWrapper => MemType::Complex,
            MemType::Complex => MemType::Complex,
        }
    }

    /// The deeper of the two tags.
    pub fn max(self, other: MemType) -> (r: MemType)
        ensures
            r == self.spec_max(other),
            r.rank() == if self.rank() >= other.rank() { self.rank() } else { other.rank() },
    {
        match (self, other) {
            (MemType::Complex, _) => MemType::Complex,
            (MemType::SimpleWrapper, MemType::Complex) => MemType::Complex,
            (MemType::SimpleWrapper, _) => MemType::SimpleWrapper,
            (MemType::Primitive, r) => r,
        }
    }

    /// True exactly for `Complex`, the only tag that needs an arena.
    pub fn is_complex(self) -> (b: bool)
        ensures
            b == (self == MemType::Complex),
    {
        match self {
            MemType::Complex => true,
            _ => false,
        }
    }
}

/// `max` is commutative, associative and idempotent, and `Primitive` is its
/// identity: a record's tag does not depend on the order of its fields.
pub proof fn lemma_max_semilattice(a: MemType, b: MemType, c: MemType)
    ensures
        a.spec_max(b) == b.spec_max(a),
        a.spec_max(b).spec_max(c) == a.spec_max(b.spec_max(c)),
        a.spec_max(a) == a,
        MemType::Primitive.spec_max(a) == a,
        a.spec_max(MemType::Complex) == MemType::Complex,
{
}

/// A record is as deep as its deepest field: it is not complex only if none
/// of its fields is, and primitive only if all of them are.
pub proof fn lemma_max_parts(a: MemType, b: MemType)
    ensures
        a.spec_max(b) != MemType::Complex <==> a != MemType::Complex && b != MemType::Complex,
        a.spec_max(b) == MemType::Primitive <==> a == MemType::Primitive && b
            == MemType::Primitive,
{
}

/// `next` never lowers a tag, reaches `Complex` in two steps, and keeps the
/// order of tags.
pub proof fn lemma_next_monotone(a: MemType, b: MemType)
    ensures
        a.spec_next().rank() >= a.rank(),
        a.spec_next().spec_next() == MemType::Complex,
        a.rank() <= b.rank() ==> a.spec_next().rank() <= b.spec_next().rank(),
        a.spec_max(b).spec_next() == a.spec_next().spec_max(b.spec_next()),
{
}

} // verus!
