//! The singleton marker type, its runtime conversion protocol, and its
//! cross-type equality protocol.

use core::cmp::Ordering;
use vstd::prelude::*;
use vstd::std_specs::cmp::PartialEqSpec;

verus! {

/// Error returned by the fallible runtime-to-singleton conversions when the
/// supplied value differs from the compile-time constant.
#[derive(Clone, Copy, Debug, PartialEq, Eq, Structural)]
pub struct ConversionMismatch;

/// A value-less marker keyed by the compile-time constant `N`.
///
/// A value of this type exists if and only if its runtime-observable numeric
/// value equals `N`: the fallible conversions below are the only non-trivial
/// way to obtain one from runtime data, and they succeed exactly on `N`.
#[derive(Clone, Copy, Debug)]
pub struct Usize<const N: usize>;

impl<const N: usize> View for Usize<N> {
    type V = usize;

    open spec fn view(&self) -> usize {
        N
    }
}

impl<const N: usize> Usize<N> {
    /// The success condition shared by every fallible conversion and by the
    /// equality protocol: a runtime value is accepted exactly when it equals
    /// the constant, compared without any loss of width.
    pub open spec fn accepts(v: int) -> bool {
        v == N
    }

    /// The canonical (and only) instance for the constant `N`.
    pub fn new() -> (r: Self)
        ensures
            r@ == N,
    {
        Usize::<N>
    }

    /// Fallible conversion from a `usize`: succeeds iff the value equals `N`.
    pub fn try_from_usize(v: usize) -> (r: Result<Self, ConversionMismatch>)
        ensures
            Self::accepts(v as int) ==> r == Ok::<Self, ConversionMismatch>(Usize::<N>),
            !Self::accepts(v as int) ==> r == Err::<Self, ConversionMismatch>(ConversionMismatch),
    {
        if v == N {
            Ok(Usize::<N>)
        } else {
            Err(ConversionMismatch)
        }
    }

    /// Total conversion to `usize`: always returns `N`.
    pub fn into_usize(self) -> (r: usize)
        ensures
            r == N,
    {
        N
    }

    /// Fallible conversion from a `u8`: succeeds iff the value equals `N`.
    /// The comparison widens the value, so it never truncates: when `N` does
    /// not fit in eight bits, no `u8` is accepted.
    pub fn try_from_u8(v: u8) -> (r: Result<Self, ConversionMismatch>)
        ensures
            Self::accepts(v as int) ==> r == Ok::<Self, ConversionMismatch>(Usize::<N>),
            !Self::accepts(v as int) ==> r == Err::<Self, ConversionMismatch>(ConversionMismatch),
    {
        if (v as usize) == N {
            Ok(Usize::<N>)
        } else {
            Err(ConversionMismatch)
        }
    }

    /// Fallible conversion from a `u16`, compared without truncation.
    pub fn try_from_u16(v: u16) -> (r: Result<Self, ConversionMismatch>)
        ensures
            Self::accepts(v as int) ==> r == Ok::<Self, ConversionMismatch>(Usize::<N>),
            !Self::accepts(v as int) ==> r == Err::<Self, ConversionMismatch>(ConversionMismatch),
    {
        if (v as usize) == N {
            Ok(Usize::<N>)
        } else {
            Err(ConversionMismatch)
        }
    }

    /// Fallible conversion from a `u32`, compared without truncation.
    pub fn try_from_u32(v: u32) -> (r: Result<Self, ConversionMismatch>)
        ensures
            Self::accepts(v as int) ==> r == Ok::<Self, ConversionMismatch>(Usize::<N>),
            !Self::accepts(v as int) ==> r == Err::<Self, ConversionMismatch>(ConversionMismatch),
    {
        if (v as usize) == N {
            Ok(Usize::<N>)
        } else {
            Err(ConversionMismatch)
        }
    }

    /// Fallible conversion from a `u64`: the constant is widened to 64 bits,
    /// which loses nothing, and the comparison is exact.
    pub fn try_from_u64(v: u64) -> (r: Result<Self, ConversionMismatch>)
        ensures
            Self::accepts(v as int) ==> r == Ok::<Self, ConversionMismatch>(Usize::<N>),
            !Self::accepts(v as int) ==> r == Err::<Self, ConversionMismatch>(ConversionMismatch),
    {
        if v == (N as u64) {
            Ok(Usize::<N>)
        } else {
            Err(ConversionMismatch)
        }
    }

    /// Fallible conversion from a `u128`: the constant is widened to 128
    /// bits, which loses nothing, and the comparison is exact.
    pub fn try_from_u128(v: u128) -> (r: Result<Self, ConversionMismatch>)
        ensures
            Self::accepts(v as int) ==> r == Ok::<Self, ConversionMismatch>(Usize::<N>),
            !Self::accepts(v as int) ==> r == Err::<Self, ConversionMismatch>(ConversionMismatch),
    {
        if v == (N as u128) {
            Ok(Usize::<N>)
        } else {
            Err(ConversionMismatch)
        }
    }

    /// Total conversion to `u8`: `N` cast into eight bits.
    pub fn into_u8(self) -> (r: u8)
        ensures
            r == N as u8,
    {
        N as u8
    }

    /// Total conversion to `u16`: `N` cast into sixteen bits.
    pub fn into_u16(self) -> (r: u16)
        ensures
            r == N as u16,
    {
        N as u16
    }

    /// Total conversion to `u32`: `N` cast into thirty-two bits.
    pub fn into_u32(self) -> (r: u32)
        ensures
            r == N as u32,
    {
        N as u32
    }

    /// Total conversion to `u64`. The host word is at most 64 bits wide, so
    /// this cast is lossless and the result equals `N` exactly.
    pub fn into_u64(self) -> (r: u64)
        ensures
            r == N as u64,
            r == N,
    {
        N as u64
    }

    /// Total conversion to `u128`, lossless for the same reason as `into_u64`.
    pub fn into_u128(self) -> (r: u128)
        ensures
            r == N as u128,
            r == N,
    {
        N as u128
    }

    /// Round-trip law: a runtime value accepted by the fallible conversion of
    /// some width is returned unchanged by the total conversion of that same
    /// width. A width can only have handed in a value that fits it, which is
    /// why each clause carries the width's bound.
    pub proof fn lemma_round_trip(v: int)
        ensures
            Self::accepts(v) && v <= u8::MAX ==> N as u8 == v,
            Self::accepts(v) && v <= u16::MAX ==> N as u16 == v,
            Self::accepts(v) && v <= u32::MAX ==> N as u32 == v,
            Self::accepts(v) ==> N as u64 == v,
            Self::accepts(v) ==> N as u128 == v,
            Self::accepts(v) ==> N as usize == v,
    {
    }

    /// Reflexive-mismatch law: a runtime value different from the constant is
    /// accepted by no fallible conversion, and compares unequal to the
    /// singleton in both operand orders.
    pub proof fn lemma_reflexive_mismatch(s: Usize<N>, v: usize)
        ensures
            v != N ==> !Self::accepts(v as int),
            v != N ==> !s.eq_spec(&v),
            v != N ==> !v.eq_spec(&s),
    {
    }

    /// Symmetry law: equality between a singleton and a runtime value does
    /// not depend on the operand order.
    pub proof fn lemma_eq_symmetric(s: Usize<N>, v: usize)
        ensures
            s.eq_spec(&v) == v.eq_spec(&s),
    {
    }
}

impl<const N: usize> PartialEq for Usize<N> {
    /// Two singletons of the same constant are always equal: the type has a
    /// single inhabitant.
    fn eq(&self, _other: &Usize<N>) -> bool {
        true
    }
}

impl<const N: usize> vstd::std_specs::cmp::PartialEqSpecImpl for Usize<N> {
    open spec fn obeys_eq_spec() -> bool {
        true
    }

    open spec fn eq_spec(&self, _other: &Usize<N>) -> bool {
        true
    }
}

impl<const N: usize> Eq for Usize<N> {}

impl<const N: usize> PartialEq<usize> for Usize<N> {
    /// A singleton equals a runtime value exactly when the fallible
    /// conversion of that value would succeed, that is, when it equals `N`.
    fn eq(&self, other: &usize) -> bool {
        *other == N
    }
}

impl<const N: usize> vstd::std_specs::cmp::PartialEqSpecImpl<usize> for Usize<N> {
    open spec fn obeys_eq_spec() -> bool {
        true
    }

    open spec fn eq_spec(&self, other: &usize) -> bool {
        Usize::<N>::accepts(*other as int)
    }
}

impl<const N: usize> PartialEq<Usize<N>> for usize {
    /// The mirrored direction of the cross-type equality, with the same
    /// meaning, so that equality is symmetric in observable behaviour.
    fn eq(&self, _other: &Usize<N>) -> bool {
        *self == N
    }
}

impl<const N: usize> vstd::std_specs::cmp::PartialEqSpecImpl<Usize<N>> for usize {
    open spec fn obeys_eq_spec() -> bool {
        true
    }

    open spec fn eq_spec(&self, _other: &Usize<N>) -> bool {
        Usize::<N>::accepts(*self as int)
    }
}

impl<const N: usize> PartialOrd for Usize<N> {
    /// Ordering within one constant is trivial; ordering across different
    /// constants is ordering of distinct types and never reaches this code.
    fn partial_cmp(&self, _other: &Usize<N>) -> Option<Ordering> {
        Some(Ordering::Equal)
    }
}

impl<const N: usize> vstd::std_specs::cmp::PartialOrdSpecImpl for Usize<N> {
    open spec fn obeys_partial_cmp_spec() -> bool {
        true
    }

    open spec fn partial_cmp_spec(&self, _other: &Usize<N>) -> Option<Ordering> {
        Some(Ordering::Equal)
    }
}

} // verus!
