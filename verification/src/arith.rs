//! Statically gated arithmetic over singletons.
//!
//! Combining two singletons produces a new singleton whose constant is the
//! result of the operator applied to the two constants. The well-definedness
//! gate of each operator is a `requires` clause, so a combination that would
//! overflow, underflow, divide by zero or shift too far is rejected when the
//! calling code is verified — before any runtime arithmetic could happen. No
//! runtime computation is performed at all: every method returns the
//! canonical marker for the result constant named by the caller, and the
//! verifier checks that this constant is exactly the operator's result.

use crate::singleton::Usize;
use vstd::prelude::*;

verus! {

/// Addition is defined when the mathematical sum fits the host width.
pub open spec fn add_defined(l: int, r: int) -> bool {
    l + r <= usize::MAX
}

/// Subtraction is defined when it does not underflow.
pub open spec fn sub_defined(l: int, r: int) -> bool {
    r <= l
}

/// Multiplication is defined when the mathematical product fits the host
/// width.
pub open spec fn mul_defined(l: int, r: int) -> bool {
    l * r <= usize::MAX
}

/// Division is defined only by a non-zero constant.
pub open spec fn div_defined(l: int, r: int) -> bool {
    r != 0
}

/// Remainder is defined only by a non-zero constant.
pub open spec fn rem_defined(l: int, r: int) -> bool {
    r != 0
}

/// A shift is defined when the shift amount is within the host bit width.
pub open spec fn shift_defined(r: int) -> bool {
    r < usize::BITS
}

/// Rejection law: division by the zero constant is never well-defined, for
/// any left-hand constant, so such a combination fails verification before
/// any runtime division could occur.
pub proof fn lemma_div_by_zero_rejected(l: int)
    ensures
        !div_defined(l, 0),
{
}

impl<const L: usize> Usize<L> {
    /// The singleton of the sum of the two constants.
    pub fn add<const R: usize, const OUT: usize>(self, rhs: Usize<R>) -> (r: Usize<OUT>)
        requires
            add_defined(L as int, R as int),
            OUT == L + R,
        ensures
            r@ == self@ + rhs@,
    {
        Usize::<OUT>
    }

    /// The singleton of the difference of the two constants.
    pub fn sub<const R: usize, const OUT: usize>(self, rhs: Usize<R>) -> (r: Usize<OUT>)
        requires
            sub_defined(L as int, R as int),
            OUT == L - R,
        ensures
            r@ == self@ - rhs@,
    {
        Usize::<OUT>
    }

    /// The singleton of the product of the two constants.
    pub fn mul<const R: usize, const OUT: usize>(self, rhs: Usize<R>) -> (r: Usize<OUT>)
        requires
            mul_defined(L as int, R as int),
            OUT == L * R,
        ensures
            r@ == self@ * rhs@,
    {
        Usize::<OUT>
    }

    /// The singleton of the quotient of the two constants.
    pub fn div<const R: usize, const OUT: usize>(self, rhs: Usize<R>) -> (r: Usize<OUT>)
        requires
            div_defined(L as int, R as int),
            OUT == L / R,
        ensures
            r@ == self@ / rhs@,
    {
        Usize::<OUT>
    }

    /// The singleton of the remainder of the two constants.
    pub fn rem<const R: usize, const OUT: usize>(self, rhs: Usize<R>) -> (r: Usize<OUT>)
        requires
            rem_defined(L as int, R as int),
            OUT == L % R,
        ensures
            r@ == self@ % rhs@,
    {
        Usize::<OUT>
    }

    /// The singleton of the bitwise conjunction of the two constants.
    pub fn bitand<const R: usize, const OUT: usize>(self, rhs: Usize<R>) -> (r: Usize<OUT>)
        requires
            OUT == (L & R),
        ensures
            r@ == (self@ & rhs@),
    {
        Usize::<OUT>
    }

    /// The singleton of the bitwise disjunction of the two constants.
    pub fn bitor<const R: usize, const OUT: usize>(self, rhs: Usize<R>) -> (r: Usize<OUT>)
        requires
            OUT == (L | R),
        ensures
            r@ == (self@ | rhs@),
    {
        Usize::<OUT>
    }

    /// The singleton of the bitwise exclusive disjunction of the two
    /// constants.
    pub fn bitxor<const R: usize, const OUT: usize>(self, rhs: Usize<R>) -> (r: Usize<OUT>)
        requires
            OUT == (L ^ R),
        ensures
            r@ == (self@ ^ rhs@),
    {
        Usize::<OUT>
    }

    /// The singleton of the left shift of the constant, in the host width.
    pub fn shl<const R: usize, const OUT: usize>(self, rhs: Usize<R>) -> (r: Usize<OUT>)
        requires
            shift_defined(R as int),
            OUT == (L << R),
        ensures
            r@ == (self@ << rhs@),
    {
        Usize::<OUT>
    }

    /// The singleton of the right shift of the constant.
    pub fn shr<const R: usize, const OUT: usize>(self, rhs: Usize<R>) -> (r: Usize<OUT>)
        requires
            shift_defined(R as int),
            OUT == (L >> R),
        ensures
            r@ == (self@ >> rhs@),
    {
        Usize::<OUT>
    }

    /// The singleton of the bitwise complement of the constant, in the host
    /// width.
    pub fn not<const OUT: usize>(self) -> (r: Usize<OUT>)
        requires
            OUT == !L,
        ensures
            r@ == !self@,
    {
        Usize::<OUT>
    }
}

} // verus!
