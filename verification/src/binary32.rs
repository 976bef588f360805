//! A validated wrapper for IEEE-754 binary32 (`f32`) bit patterns.

use vstd::prelude::*;
use vstd::arithmetic::power2::lemma2_to64;
use vstd::std_specs::cmp::{PartialEqSpec, PartialOrdSpec};
use core::cmp::Ordering;
use crate::error::NonNegativeError;
use crate::ieee;

verus! {

/// The binary32 bit pattern of negative zero: sign bit set, all else clear.
pub const NEG_ZERO_BITS_32: u32 = 0x8000_0000;

/// A `u32` passes validation when, read as a binary32 pattern, it denotes a
/// number that is at least zero and finite: its sign bit is clear (or it is
/// negative zero) and its exponent field is not all ones.
pub open spec fn valid_bits32(bits: u32) -> bool {
    ieee::is_valid_bits(23, 8, bits as nat)
}

/// The canonical form of a pattern: negative zero folded into zero.
pub open spec fn canonical32(bits: u32) -> nat {
    ieee::canonical_bits(23, 8, bits as nat)
}

/// The exact magnitude a valid pattern denotes, in units of the smallest
/// positive subnormal of binary32.
pub open spec fn magnitude32(bits: u32) -> nat {
    ieee::scaled_value(23, 8, bits as nat)
}

/// Wrapper guaranteeing a non-negative, finite binary32 value.
///
/// The wrapped `u32` is the raw bit pattern (`f32::to_bits`), so the
/// guarantee and all comparisons are exact, not approximate.
#[derive(Clone, Copy, Debug)]
pub struct NonNegative32 {
    bits: u32,
}

impl View for NonNegative32 {
    type V = u32;

    closed spec fn view(&self) -> u32 {
        self.bits
    }
}

impl NonNegative32 {
    /// Every live instance wraps a valid pattern.
    pub open spec fn wf(&self) -> bool {
        valid_bits32(self@)
    }

    /// Returns a `NonNegative32` wrapping zero (the all-zero pattern).
    pub fn zero() -> (r: Self)
        ensures
            r@ == 0u32,
            r.wf(),
    {
        proof {
            ieee::lemma_zero_valid(23, 8);
        }
        NonNegative32 { bits: 0 }
    }

    /// Attempts to wrap a bit pattern.
    ///
    /// Succeeds, wrapping the pattern unchanged, exactly when the pattern
    /// denotes a non-negative finite number; any other pattern (negative,
    /// NaN, or an infinity) is answered with
    /// [`NonNegativeError::InvalidValue`].
    pub fn try_new(bits: u32) -> (r: Result<Self, NonNegativeError>)
        ensures
            r is Ok <==> valid_bits32(bits),
            r matches Ok(v) ==> v@ == bits && v.wf(),
            r is Err ==> r == Err::<Self, NonNegativeError>(NonNegativeError::InvalidValue),
    {
        proof {
            lemma2_to64();
        }
        let exp: u32 = (bits / 0x0080_0000) % 0x100;
        let sign: u32 = bits / 0x8000_0000;
        if exp != 0xFF && (sign == 0 || bits == NEG_ZERO_BITS_32) {
            assert(valid_bits32(bits));
            Ok(NonNegative32 { bits })
        } else {
            assert(!valid_bits32(bits));
            Err(NonNegativeError::InvalidValue)
        }
    }

    /// Wraps a bit pattern the caller has already established to be valid.
    ///
    /// Unlike [`Self::try_new`] this cannot fail: the precondition demands a
    /// pattern denoting a non-negative finite number, and the result is the
    /// same instance the fallible constructor would return.
    pub fn new(bits: u32) -> (r: Self)
        requires
            valid_bits32(bits),
        ensures
            r@ == bits,
            r.wf(),
    {
        NonNegative32 { bits }
    }

    /// Returns the wrapped bit pattern, exactly as it was wrapped.
    pub fn get(&self) -> (r: u32)
        ensures
            r == self@,
    {
        self.bits
    }
}

impl Default for NonNegative32 {
    /// The default instance is [`NonNegative32::zero`].
    fn default() -> (r: Self)
        ensures
            r@ == 0u32,
            r.wf(),
    {
        NonNegative32::zero()
    }
}

impl PartialEq for NonNegative32 {
    /// Instances are equal when they denote the same number; in particular
    /// the negative-zero and zero patterns are equal.
    fn eq(&self, other: &Self) -> (r: bool) {
        proof {
            lemma2_to64();
        }
        let a: u32 = if self.bits == NEG_ZERO_BITS_32 {
            0
        } else {
            self.bits
        };
        let b: u32 = if other.bits == NEG_ZERO_BITS_32 {
            0
        } else {
            other.bits
        };
        a == b
    }
}

impl vstd::std_specs::cmp::PartialEqSpecImpl for NonNegative32 {
    open spec fn obeys_eq_spec() -> bool {
        true
    }

    open spec fn eq_spec(&self, other: &Self) -> bool {
        canonical32(self@) == canonical32(other@)
    }
}

impl PartialOrd for NonNegative32 {
    /// Instances are ordered as the numbers they denote; on valid patterns
    /// this order is total (see `lemma_order_consistent_32`).
    fn partial_cmp(&self, other: &Self) -> (r: Option<Ordering>) {
        proof {
            lemma2_to64();
        }
        let a: u32 = if self.bits == NEG_ZERO_BITS_32 {
            0
        } else {
            self.bits
        };
        let b: u32 = if other.bits == NEG_ZERO_BITS_32 {
            0
        } else {
            other.bits
        };
        if a < b {
            Some(Ordering::Less)
        } else if a == b {
            Some(Ordering::Equal)
        } else {
            Some(Ordering::Greater)
        }
    }
}

impl vstd::std_specs::cmp::PartialOrdSpecImpl for NonNegative32 {
    open spec fn obeys_partial_cmp_spec() -> bool {
        true
    }

    open spec fn partial_cmp_spec(&self, other: &Self) -> Option<Ordering> {
        if canonical32(self@) < canonical32(other@) {
            Some(Ordering::Less)
        } else if canonical32(self@) == canonical32(other@) {
            Some(Ordering::Equal)
        } else {
            Some(Ordering::Greater)
        }
    }
}

/// Re-validating a wrapped value always succeeds and can only rebuild the
/// original instance: the pattern a live instance hands out through `get`
/// passes `try_new` again, and any instance wrapping that pattern is the
/// instance itself.
pub proof fn lemma_revalidate_32(v: NonNegative32)
    requires
        v.wf(),
    ensures
        valid_bits32(v@),
        forall|w: NonNegative32| #![trigger w@] w@ == v@ ==> w == v,
{
}

/// The instance wrapping the zero pattern is unique, so the default instance
/// equals the zero instance, and it denotes the number zero.
pub proof fn lemma_zero_unique_32(z: NonNegative32, d: NonNegative32)
    requires
        z@ == 0u32,
        d@ == 0u32,
    ensures
        z == d,
        magnitude32(z@) == 0,
{
    ieee::lemma_zero_valid(23, 8);
}

/// Ordering consistency: on valid instances, comparison is total and follows
/// the exact magnitudes of the denoted numbers, and equality holds exactly
/// when the magnitudes agree.
pub proof fn lemma_order_consistent_32(a: NonNegative32, b: NonNegative32)
    requires
        a.wf(),
        b.wf(),
    ensures
        a.partial_cmp_spec(&b) is Some,
        a.partial_cmp_spec(&b) == Some(Ordering::Less) <==> magnitude32(a@) < magnitude32(b@),
        a.partial_cmp_spec(&b) == Some(Ordering::Equal) <==> magnitude32(a@) == magnitude32(b@),
        a.partial_cmp_spec(&b) == Some(Ordering::Greater) <==> magnitude32(a@) > magnitude32(b@),
        a.eq_spec(&b) <==> magnitude32(a@) == magnitude32(b@),
{
    ieee::lemma_canonical_order_is_magnitude_order(23, 8, a@ as nat, b@ as nat);
}

} // verus!
