//! The serialization adapter: a singleton travels on the wire as a bare
//! unsigned numeric literal equal to its constant.
//!
//! Encoding emits exactly the constant. Decoding accepts a number of any
//! supported width and resolves it through a widening chain — eight to
//! sixteen to thirty-two to sixty-four bits — so the comparison against the
//! constant is always performed without truncation. When no width matches,
//! decoding ends in a [`DecodingViolation`] that names the expected constant
//! and keeps the received value for the caller's diagnostics.

use crate::singleton::Usize;
use vstd::prelude::*;
use vstd::string::StringExecFns;

verus! {

/// The decimal digit character for one digit value.
pub open spec fn dec_digit(d: int) -> char {
    if d == 0 {
        '0'
    } else if d == 1 {
        '1'
    } else if d == 2 {
        '2'
    } else if d == 3 {
        '3'
    } else if d == 4 {
        '4'
    } else if d == 5 {
        '5'
    } else if d == 6 {
        '6'
    } else if d == 7 {
        '7'
    } else if d == 8 {
        '8'
    } else {
        '9'
    }
}

/// The decimal representation of a number, most significant digit first,
/// with no leading zero except for the number zero itself.
pub open spec fn dec_rep(n: nat) -> Seq<char>
    decreases n,
{
    if n < 10 {
        seq![dec_digit(n as int)]
    } else {
        dec_rep(n / 10).push(dec_digit((n % 10) as int))
    }
}

/// The text of a decoding violation for an expected constant.
pub open spec fn violation_text(expected: u64) -> Seq<char> {
    "number must be "@ + dec_rep(expected as nat)
}

/// Error produced when a decoded number matches the expected constant at no
/// width of the fallback chain. It names the expected constant and keeps the
/// value that was actually received.
#[derive(Clone, Copy, Debug, PartialEq, Eq, Structural)]
pub struct DecodingViolation {
    /// The constant the decoder was specialised to.
    pub expected: u64,
    /// The value that arrived on the wire, widened to sixty-four bits.
    pub received: u64,
}

/// The decimal digit as a one-character string slice.
fn digit_str(d: u64) -> (r: &'static str)
    requires
        d < 10,
    ensures
        r@ == seq![dec_digit(d as int)],
{
    proof {
        reveal_strlit("0");
        reveal_strlit("1");
        reveal_strlit("2");
        reveal_strlit("3");
        reveal_strlit("4");
        reveal_strlit("5");
        reveal_strlit("6");
        reveal_strlit("7");
        reveal_strlit("8");
        reveal_strlit("9");
    }
    let r: &'static str = if d == 0 {
        "0"
    } else if d == 1 {
        "1"
    } else if d == 2 {
        "2"
    } else if d == 3 {
        "3"
    } else if d == 4 {
        "4"
    } else if d == 5 {
        "5"
    } else if d == 6 {
        "6"
    } else if d == 7 {
        "7"
    } else if d == 8 {
        "8"
    } else {
        "9"
    };
    r
}

/// The decimal representation of a number as a string.
pub fn decimal(n: u64) -> (s: String)
    ensures
        s@ == dec_rep(n as nat),
    decreases n,
{
    if n < 10 {
        String::from_str(digit_str(n))
    } else {
        let prefix = decimal(n / 10);
        prefix.concat(digit_str(n % 10))
    }
}

impl DecodingViolation {
    /// The human-readable expectation carried by the violation.
    pub fn message(&self) -> (s: String)
        ensures
            s@ == violation_text(self.expected),
    {
        String::from_str("number must be ").concat(decimal(self.expected).as_str())
    }
}

impl<const N: usize> Usize<N> {
    /// Encoding: the constant as a plain sixty-four bit number, exactly `N`
    /// whatever width the host stores it in.
    pub fn encode(self) -> (r: u64)
        ensures
            r == N,
    {
        N as u64
    }

    /// The expectation text a decoder for this constant announces, the same
    /// text a [`DecodingViolation`] for it carries.
    pub fn expectation(self) -> (s: String)
        ensures
            s@ == violation_text(N as u64),
    {
        String::from_str("number must be ").concat(decimal(N as u64).as_str())
    }

    /// First step of the decoding chain: an eight-bit wire value widens one
    /// step, so the comparison against the constant never truncates.
    pub fn decode_u8(v: u8) -> (r: Result<Self, DecodingViolation>)
        ensures
            Self::accepts(v as int) ==> r == Ok::<Self, DecodingViolation>(Usize::<N>),
            !Self::accepts(v as int) ==> r == Err::<Self, DecodingViolation>(
                (DecodingViolation { expected: N as u64, received: v as u64 }),
            ),
    {
        Self::decode_u16(v as u16)
    }

    /// Second step of the decoding chain, widening again.
    pub fn decode_u16(v: u16) -> (r: Result<Self, DecodingViolation>)
        ensures
            Self::accepts(v as int) ==> r == Ok::<Self, DecodingViolation>(Usize::<N>),
            !Self::accepts(v as int) ==> r == Err::<Self, DecodingViolation>(
                (DecodingViolation { expected: N as u64, received: v as u64 }),
            ),
    {
        Self::decode_u32(v as u32)
    }

    /// Third step of the decoding chain, widening again.
    pub fn decode_u32(v: u32) -> (r: Result<Self, DecodingViolation>)
        ensures
            Self::accepts(v as int) ==> r == Ok::<Self, DecodingViolation>(Usize::<N>),
            !Self::accepts(v as int) ==> r == Err::<Self, DecodingViolation>(
                (DecodingViolation { expected: N as u64, received: v as u64 }),
            ),
    {
        Self::decode_u64(v as u64)
    }

    /// Terminal step of the decoding chain. Sixty-four bits hold both the
    /// wire value and the constant losslessly, so this comparison is exact;
    /// on failure it produces the terminal violation, never a silent default.
    pub fn decode_u64(v: u64) -> (r: Result<Self, DecodingViolation>)
        ensures
            Self::accepts(v as int) ==> r == Ok::<Self, DecodingViolation>(Usize::<N>),
            !Self::accepts(v as int) ==> r == Err::<Self, DecodingViolation>(
                (DecodingViolation { expected: N as u64, received: v }),
            ),
    {
        if v == (N as u64) {
            Ok(Usize::<N>)
        } else {
            Err(DecodingViolation { expected: N as u64, received: v })
        }
    }
}

} // verus!
