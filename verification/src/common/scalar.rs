use super::sealed::Sealed;
use vstd::prelude::*;

verus! {

/// Half of `v`, rounded towards zero.
pub open spec fn half_of(v: int) -> int {
    if v >= 0 {
        v / 2
    } else {
        -((-v) / 2)
    }
}

/// `a` divided by a positive `b`, rounded towards zero.
pub open spec fn quotient(a: int, b: int) -> int
    recommends
        b > 0,
{
    if a >= 0 {
        a / b
    } else {
        -((-a) / b)
    }
}

/// Whether `v` can be held in an `i32`.
pub open spec fn in_i32(v: int) -> bool {
    i32::MIN <= v <= i32::MAX
}

/// A machine integer that coordinates and sizes can be made of.
///
/// Every value stands for the mathematical integer `value()`; the operations
/// are stated over those integers and ask that the result can be held by the
/// type.
pub trait Scalar: Copy + Sized + Sealed {
    /// The integer that `self` stands for.
    spec fn value(self) -> int;

    /// Whether the type can hold the integer `v`.
    spec fn fits(v: int) -> bool;

    /// Every value of the type is an integer that the type can hold, and no
    /// two values stand for the same integer.
    proof fn lemma_value(a: Self, b: Self)
        ensures
            Self::fits(a.value()),
            a.value() == b.value() ==> a == b,
    ;

    /// The sum of two values.
    fn plus(self, rhs: Self) -> (r: Self)
        requires
            Self::fits(self.value() + rhs.value()),
        ensures
            r.value() == self.value() + rhs.value(),
    ;

    /// The product of two values.
    fn times(self, rhs: Self) -> (r: Self)
        requires
            Self::fits(self.value() * rhs.value()),
        ensures
            r.value() == self.value() * rhs.value(),
    ;

    /// Half of the value, rounded towards zero.
    fn half(self) -> (r: Self)
        ensures
            r.value() == half_of(self.value()),
    ;

    /// Whether `self` is smaller than `rhs`.
    fn less(self, rhs: Self) -> (r: bool)
        ensures
            r == (self.value() < rhs.value()),
    ;

    /// Whether `self` is not larger than `rhs`.
    fn at_most(self, rhs: Self) -> (r: bool)
        ensures
            r == (self.value() <= rhs.value()),
    ;
}

impl Scalar for i32 {
    open spec fn value(self) -> int {
        self as int
    }

    open spec fn fits(v: int) -> bool {
        i32::MIN <= v <= i32::MAX
    }

    proof fn lemma_value(a: Self, b: Self) {
    }

    fn plus(self, rhs: Self) -> (r: Self) {
        self + rhs
    }

    fn times(self, rhs: Self) -> (r: Self) {
        self * rhs
    }

    fn half(self) -> (r: Self) {
        self / 2
    }

    fn less(self, rhs: Self) -> (r: bool) {
        self < rhs
    }

    fn at_most(self, rhs: Self) -> (r: bool) {
        self <= rhs
    }
}

impl Scalar for i64 {
    open spec fn value(self) -> int {
        self as int
    }

    open spec fn fits(v: int) -> bool {
        i64::MIN <= v <= i64::MAX
    }

    proof fn lemma_value(a: Self, b: Self) {
    }

    fn plus(self, rhs: Self) -> (r: Self) {
        self + rhs
    }

    fn times(self, rhs: Self) -> (r: Self) {
        self * rhs
    }

    fn half(self) -> (r: Self) {
        self / 2
    }

    fn less(self, rhs: Self) -> (r: bool) {
        self < rhs
    }

    fn at_most(self, rhs: Self) -> (r: bool) {
        self <= rhs
    }
}

impl Scalar for u32 {
    open spec fn value(self) -> int {
        self as int
    }

    open spec fn fits(v: int) -> bool {
        0 <= v <= u32::MAX
    }

    proof fn lemma_value(a: Self, b: Self) {
    }

    fn plus(self, rhs: Self) -> (r: Self) {
        self + rhs
    }

    fn times(self, rhs: Self) -> (r: Self) {
        self * rhs
    }

    fn half(self) -> (r: Self) {
        self / 2
    }

    fn less(self, rhs: Self) -> (r: bool) {
        self < rhs
    }

    fn at_most(self, rhs: Self) -> (r: bool) {
        self <= rhs
    }
}

impl Scalar for u64 {
    open spec fn value(self) -> int {
        self as int
    }

    open spec fn fits(v: int) -> bool {
        0 <= v <= u64::MAX
    }

    proof fn lemma_value(a: Self, b: Self) {
    }

    fn plus(self, rhs: Self) -> (r: Self) {
        self + rhs
    }

    fn times(self, rhs: Self) -> (r: Self) {
        self * rhs
    }

    fn half(self) -> (r: Self) {
        self / 2
    }

    fn less(self, rhs: Self) -> (r: bool) {
        self < rhs
    }

    fn at_most(self, rhs: Self) -> (r: bool) {
        self <= rhs
    }
}

/// `num::cast`, between the integer types of this crate.
///
/// For these types the `num` crate returns the number unchanged where the
/// target type can hold it, and `None` where it cannot.
#[verifier::external_body]
pub(crate) fn num_cast<T: Scalar + num::NumCast, U: Scalar + num::NumCast>(n: T) -> (r: Option<U>)
    ensures
        r is Some <==> U::fits(n.value()),
        r matches Some(u) ==> u.value() == n.value(),
{
    num::cast(n)
}

} // verus!
