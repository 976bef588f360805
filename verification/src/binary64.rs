//! A validated wrapper for IEEE-754 binary64 (`f64`) bit patterns.

use vstd::prelude::*;
use vstd::arithmetic::power2::{lemma2_to64, lemma2_to64_rest};
use vstd::std_specs::cmp::{PartialEqSpec, PartialOrdSpec};
use core::cmp::Ordering;
use crate::error::NonNegativeError;
use crate::ieee;

verus! {

/// The binary64 bit pattern of negative zero: sign bit set, all else clear.
pub const NEG_ZERO_BITS_64: u64 = 0x8000_0000_0000_0000;

/// A `u64` passes validation when, read as a binary64 pattern, it denotes a
/// number that is at least zero and finite: its sign bit is clear (or it is
/// negative zero) and its exponent field is not all ones.
pub open spec fn valid_bits64(bits: u64) -> bool {
    ieee::is_valid_bits(52, 11, bits as nat)
}

/// The canonical form of a pattern: negative zero folded into zero.
pub open spec fn canonical64(bits: u64) -> nat {
    ieee::canonical_bits(52, 11, bits as nat)
}

/// The exact magnitude a valid pattern denotes, in units of the smallest
/// positive subnormal of binary64.
pub open spec fn magnitude64(bits: u64) -> nat {
    ieee::scaled_value(52, 11, bits as nat)
}

/// Wrapper guaranteeing a non-negative, finite binary64 value.
///
/// The wrapped `u64` is the raw bit pattern (`f64::to_bits`), so the
/// guarantee and all comparisons are exact, not approximate.
#[derive(Clone, Copy, Debug)]
pub struct NonNegative {
    bits: u64,
}

impl View for NonNegative {
    type V = u64;

    closed spec fn view(&self) -> u64 {
        self.bits
    }
}

impl NonNegative {
    /// Every live instance wraps a valid pattern.
    pub open spec fn wf(&self) -> bool {
        valid_bits64(self@)
    }

    /// Returns a `NonNegative` wrapping zero (the all-zero pattern).
    pub fn zero() -> (r: Self)
        ensures
            r@ == 0u64,
            r.wf(),
    {
        proof {
            ieee::lemma_zero_valid(52, 11);
        }
        NonNegative { bits: 0 }
    }

    /// Attempts to wrap a bit pattern.
    ///
    /// Succeeds, wrapping the pattern unchanged, exactly when the pattern
    /// denotes a non-negative finite number; any other pattern (negative,
    /// NaN, or an infinity) is answered with
    /// [`NonNegativeError::InvalidValue`].
    pub fn try_new(bits: u64) -> (r: Result<Self, NonNegativeError>)
        ensures
            r is Ok <==> valid_bits64(bits),
            r matches Ok(v) ==> v@ == bits && v.wf(),
            r is Err ==> r == Err::<Self, NonNegativeError>(NonNegativeError::InvalidValue),
    {
        proof {
            lemma2_to64();
            lemma2_to64_rest();
        }
        let exp: u64 = (bits / 0x0010_0000_0000_0000) % 0x800;
        let sign: u64 = bits / 0x8000_0000_0000_0000;
        if exp != 0x7FF && (sign == 0 || bits == NEG_ZERO_BITS_64) {
            assert(valid_bits64(bits));
            Ok(NonNegative { bits })
        } else {
            assert(!valid_bits64(bits));
            Err(NonNegativeError::InvalidValue)
        }
    }

    /// Wraps a bit pattern the caller has already established to be valid.
    ///
    /// Unlike [`Self::try_new`] this cannot fail: the precondition demands a
    /// pattern denoting a non-negative finite number, and the result is the
    /// same instance the fallible constructor would return.
    pub fn new(bits: u64) -> (r: Self)
        requires
            valid_bits64(bits),
        ensures
            r@ == bits,
            r.wf(),
    {
        NonNegative { bits }
    }

    /// Returns the wrapped bit pattern, exactly as it was wrapped.
    pub fn get(&self) -> (r: u64)
        ensures
            r == self@,
    {
        self.bits
    }
}

impl Default for NonNegative {
    /// The default instance is [`NonNegative::zero`].
    fn default() -> (r: Self)
        ensures
            r@ == 0u64,
            r.wf(),
    {
        NonNegative::zero()
    }
}

impl PartialEq for NonNegative {
    /// Instances are equal when they denote the same number; in particular
    /// the negative-zero and zero patterns are equal.
    fn eq(&self, other: &Self) -> (r: bool) {
        proof {
            lemma2_to64();
            lemma2_to64_rest();
        }
        let a: u64 = if self.bits == NEG_ZERO_BITS_64 {
            0
        } else {
            self.bits
        };
        let b: u64 = if other.bits == NEG_ZERO_BITS_64 {
            0
        } else {
            other.bits
        };
        a == b
    }
}

impl vstd::std_specs::cmp::PartialEqSpecImpl for NonNegative {
    open spec fn obeys_eq_spec() -> bool {
        true
    }

    open spec fn eq_spec(&self, other: &Self) -> bool {
        canonical64(self@) == canonical64(other@)
    }
}

impl PartialOrd for NonNegative {
    /// Instances are ordered as the numbers they denote; on valid patterns
    /// this order is total (see `lemma_order_consistent`).
    fn partial_cmp(&self, other: &Self) -> (r: Option<Ordering>) {
        proof {
            lemma2_to64();
            lemma2_to64_rest();
        }
        let a: u64 = if self.bits == NEG_ZERO_BITS_64 {
            0
        } else {
            self.bits
        };
        let b: u64 = if other.bits == NEG_ZERO_BITS_64 {
            0
        } else {
            other.bits
        };
        if a < b {
            Some(Ordering::Less)
        } else if a == b {
            Some(Ordering::Equal)
        } else {
            Some(Ordering::Greater)
        }
    }
}

impl vstd::std_specs::cmp::PartialOrdSpecImpl for NonNegative {
    open spec fn obeys_partial_cmp_spec() -> bool {
        true
    }

    open spec fn partial_cmp_spec(&self, other: &Self) -> Option<Ordering> {
        if canonical64(self@) < canonical64(other@) {
            Some(Ordering::Less)
        } else if canonical64(self@) == canonical64(other@) {
            Some(Ordering::Equal)
        } else {
            Some(Ordering::Greater)
        }
    }
}

/// Re-validating a wrapped value always succeeds and can only rebuild the
/// original instance: the pattern a live instance hands out through `get`
/// passes `try_new` again, and any instance wrapping that pattern is the
/// instance itself.
pub proof fn lemma_revalidate(v: NonNegative)
    requires
        v.wf(),
    ensures
        valid_bits64(v@),
        forall|w: NonNegative| #![trigger w@] w@ == v@ ==> w == v,
{
}

/// The instance wrapping the zero pattern is unique, so the default instance
/// equals the zero instance, and it denotes the number zero.
pub proof fn lemma_zero_unique(z: NonNegative, d: NonNegative)
    requires
        z@ == 0u64,
        d@ == 0u64,
    ensures
        z == d,
        magnitude64(z@) == 0,
{
    ieee::lemma_zero_valid(52, 11);
}

/// Ordering consistency: on valid instances, comparison is total and follows
/// the exact magnitudes of the denoted numbers, and equality holds exactly
/// when the magnitudes agree.
pub proof fn lemma_order_consistent(a: NonNegative, b: NonNegative)
    requires
        a.wf(),
        b.wf(),
    ensures
        a.partial_cmp_spec(&b) is Some,
        a.partial_cmp_spec(&b) == Some(Ordering::Less) <==> magnitude64(a@) < magnitude64(b@),
        a.partial_cmp_spec(&b) == Some(Ordering::Equal) <==> magnitude64(a@) == magnitude64(b@),
        a.partial_cmp_spec(&b) == Some(Ordering::Greater) <==> magnitude64(a@) > magnitude64(b@),
        a.eq_spec(&b) <==> magnitude64(a@) == magnitude64(b@),
{
    ieee::lemma_canonical_order_is_magnitude_order(52, 11, a@ as nat, b@ as nat);
}

} // verus!

