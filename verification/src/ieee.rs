//! Bit-level model of IEEE-754 binary interchange formats.
//!
//! A format is described by two numbers: `fb`, the count of fraction
//! (significand) bits, and `eb`, the count of exponent bits; a pattern of the
//! format is a natural number below `pow2(1 + eb + fb)`, read as a sign bit on
//! top, then the biased exponent field, then the fraction field.  The
//! functions here carve a pattern into its fields, say when it denotes a
//! non-negative finite number, and give every such pattern an exact integer
//! magnitude, measured in units of the smallest positive subnormal of the
//! format.  The main theorem, `lemma_canonical_order_is_magnitude_order`,
//! shows that once negative zero is folded into zero, plain integer order on
//! the patterns coincides with order on the magnitudes.

use vstd::prelude::*;
use vstd::arithmetic::div_mod::{
    lemma_basic_div, lemma_div_is_ordered, lemma_fundamental_div_mod, lemma_mod_bound,
    lemma_small_mod,
};
use vstd::arithmetic::mul::{
    lemma_mul_inequality, lemma_mul_is_commutative, lemma_mul_strict_inequality,
};
use vstd::arithmetic::power2::{lemma_pow2_adds, lemma_pow2_pos, lemma_pow2_strictly_increases, lemma2_to64, pow2};

verus! {

/// The sign field: the topmost of the `1 + eb + fb` bits.
pub open spec fn sign_field(fb: nat, eb: nat, bits: nat) -> nat {
    bits / pow2(fb + eb)
}

/// The biased exponent field: the `eb` bits below the sign bit.
pub open spec fn exp_field(fb: nat, eb: nat, bits: nat) -> nat {
    (bits / pow2(fb)) % pow2(eb)
}

/// The fraction field: the low `fb` bits.
pub open spec fn frac_field(fb: nat, bits: nat) -> nat {
    bits % pow2(fb)
}

/// The pattern of negative zero: sign bit set, every other bit clear.
pub open spec fn is_neg_zero(fb: nat, eb: nat, bits: nat) -> bool {
    bits == pow2(fb + eb)
}

/// A finite pattern: the exponent field is not all ones (all ones denotes an
/// infinity or a NaN).
pub open spec fn is_finite_bits(fb: nat, eb: nat, bits: nat) -> bool {
    exp_field(fb, eb, bits) != pow2(eb) - 1
}

/// A pattern that denotes a non-negative finite number: it fits the format,
/// it is finite, and its sign bit is clear -- or it is negative zero, whose
/// denoted number is zero and so non-negative as well.
pub open spec fn is_valid_bits(fb: nat, eb: nat, bits: nat) -> bool {
    &&& bits < pow2(fb + eb + 1)
    &&& is_finite_bits(fb, eb, bits)
    &&& (sign_field(fb, eb, bits) == 0 || is_neg_zero(fb, eb, bits))
}

/// The canonical form of a pattern: negative zero is folded into zero, every
/// other pattern is kept.  Two valid patterns denote the same number exactly
/// when their canonical forms agree.
pub open spec fn canonical_bits(fb: nat, eb: nat, bits: nat) -> nat {
    if is_neg_zero(fb, eb, bits) {
        0
    } else {
        bits
    }
}

/// The magnitude denoted by an exponent field `e` and a fraction field `f`,
/// in units of the smallest positive subnormal: a subnormal (`e == 0`) is
/// `f` such units; a normal number restores the hidden leading bit and
/// doubles with each step of the exponent.
pub open spec fn scaled_of(fb: nat, e: nat, f: nat) -> nat {
    if e == 0 {
        f
    } else {
        (pow2(fb) + f) * pow2((e - 1) as nat)
    }
}

/// The exact magnitude denoted by a valid pattern, in units of the smallest
/// positive subnormal of the format.
pub open spec fn scaled_value(fb: nat, eb: nat, bits: nat) -> nat {
    let c = canonical_bits(fb, eb, bits);
    scaled_of(fb, exp_field(fb, eb, c), frac_field(fb, c))
}

/// A pattern below `pow2(fb + eb)` has its sign bit clear and splits into its
/// exponent and fraction fields by place value.
pub proof fn lemma_fields(fb: nat, eb: nat, c: nat)
    requires
        c < pow2(fb + eb),
    ensures
        sign_field(fb, eb, c) == 0,
        exp_field(fb, eb, c) == c / pow2(fb),
        exp_field(fb, eb, c) < pow2(eb),
        frac_field(fb, c) < pow2(fb),
        c == exp_field(fb, eb, c) * pow2(fb) + frac_field(fb, c),
{
    lemma_pow2_pos(fb);
    lemma_pow2_pos(eb);
    lemma_pow2_pos(fb + eb);
    lemma_pow2_adds(fb, eb);
    lemma_basic_div(c as int, pow2(fb + eb) as int);
    let p = pow2(fb) as int;
    let q = c as int / p;
    lemma_fundamental_div_mod(c as int, p);
    lemma_mod_bound(c as int, p);
    assert(c == p * q + (c as int % p));
    if q >= pow2(eb) {
        lemma_mul_inequality(pow2(eb) as int, q, p);
        lemma_mul_is_commutative(p, q);
        lemma_mul_is_commutative(pow2(eb) as int, p);
        assert(c as int >= pow2(fb + eb));
        assert(false);
    }
    assert(c / pow2(fb) == q);
    lemma_small_mod((c / pow2(fb)) as nat, pow2(eb));
    assert(exp_field(fb, eb, c) == q);
}

/// The canonical form of a valid pattern keeps its sign bit clear.
pub proof fn lemma_canonical_small(fb: nat, eb: nat, bits: nat)
    requires
        is_valid_bits(fb, eb, bits),
    ensures
        canonical_bits(fb, eb, bits) < pow2(fb + eb),
{
    lemma_pow2_pos(fb + eb);
    if !is_neg_zero(fb, eb, bits) {
        let d = pow2(fb + eb) as int;
        if bits >= pow2(fb + eb) {
            lemma_fundamental_div_mod(bits as int, d);
            assert(bits as int % d < d) by {
                vstd::arithmetic::div_mod::lemma_mod_bound(bits as int, d);
            }
            assert(bits as int == d * (bits as int / d) + bits as int % d);
            assert(bits as int / d >= 1);
        }
    }
}

/// On patterns with the sign bit clear, the scaled magnitude strictly
/// increases with the bit pattern: a larger exponent field dominates, and
/// within one exponent the fraction decides.
pub proof fn lemma_scaled_strictly_increases(fb: nat, eb: nat, c1: nat, c2: nat)
    requires
        c1 < c2,
        c2 < pow2(fb + eb),
    ensures
        scaled_of(fb, exp_field(fb, eb, c1), frac_field(fb, c1)) < scaled_of(
            fb,
            exp_field(fb, eb, c2),
            frac_field(fb, c2),
        ),
{
    lemma_fields(fb, eb, c1);
    lemma_fields(fb, eb, c2);
    lemma_pow2_pos(fb);
    let p = pow2(fb) as int;
    let e1 = exp_field(fb, eb, c1);
    let f1 = frac_field(fb, c1) as int;
    let e2 = exp_field(fb, eb, c2);
    let f2 = frac_field(fb, c2) as int;
    lemma_div_is_ordered(c1 as int, c2 as int, p);
    assert(e1 <= e2);
    if e1 == e2 {
        assert(f1 < f2);
        if e1 != 0 {
            lemma_pow2_pos((e1 - 1) as nat);
            lemma_mul_strict_inequality(p + f1, p + f2, pow2((e1 - 1) as nat) as int);
        }
    } else {
        assert(e1 < e2);
        let r2 = pow2((e2 - 1) as nat) as int;
        lemma_pow2_pos((e2 - 1) as nat);
        // The larger pattern is worth at least p * pow2(e2 - 1) units.
        lemma_mul_inequality(p, p + f2, r2);
        assert(p * r2 <= (p + f2) * r2);
        if e1 == 0 {
            // f1 < p <= p * pow2(e2 - 1)
            assert(p <= p * r2) by (nonlinear_arith)
                requires
                    r2 >= 1,
                    p >= 0,
            ;
        } else {
            let r1 = pow2((e1 - 1) as nat) as int;
            lemma_pow2_pos((e1 - 1) as nat);
            // (p + f1) * pow2(e1 - 1) < (2 p) * pow2(e1 - 1) == p * pow2(e1)
            lemma_mul_strict_inequality(p + f1, 2 * p, r1);
            assert((2 * p) * r1 == p * (2 * r1)) by (nonlinear_arith);
            lemma_pow2_adds(1, (e1 - 1) as nat);
            lemma2_to64();
            assert(pow2(e1) == 2 * r1);
            // p * pow2(e1) <= p * pow2(e2 - 1)
            if e1 < e2 - 1 {
                lemma_pow2_strictly_increases(e1, (e2 - 1) as nat);
            }
            assert(p * pow2(e1) <= p * r2) by (nonlinear_arith)
                requires
                    pow2(e1) <= r2,
                    p >= 0,
            ;
        }
    }
}

/// For two valid patterns of one format, canonical bit order coincides with
/// magnitude order, and canonical bit equality with magnitude equality.
pub proof fn lemma_canonical_order_is_magnitude_order(fb: nat, eb: nat, a: nat, b: nat)
    requires
        is_valid_bits(fb, eb, a),
        is_valid_bits(fb, eb, b),
    ensures
        canonical_bits(fb, eb, a) < canonical_bits(fb, eb, b) <==> scaled_value(fb, eb, a)
            < scaled_value(fb, eb, b),
        canonical_bits(fb, eb, a) == canonical_bits(fb, eb, b) <==> scaled_value(fb, eb, a)
            == scaled_value(fb, eb, b),
{
    lemma_canonical_small(fb, eb, a);
    lemma_canonical_small(fb, eb, b);
    let ca = canonical_bits(fb, eb, a);
    let cb = canonical_bits(fb, eb, b);
    if ca < cb {
        lemma_scaled_strictly_increases(fb, eb, ca, cb);
    } else if cb < ca {
        lemma_scaled_strictly_increases(fb, eb, cb, ca);
    }
}

/// The all-zero pattern is valid, already canonical, and denotes zero.
pub proof fn lemma_zero_valid(fb: nat, eb: nat)
    requires
        eb >= 1,
    ensures
        is_valid_bits(fb, eb, 0),
        canonical_bits(fb, eb, 0) == 0,
        scaled_value(fb, eb, 0) == 0,
{
    lemma_pow2_pos(fb);
    lemma_pow2_pos(eb);
    lemma_pow2_pos(fb + eb);
    lemma_pow2_pos(fb + eb + 1);
    lemma2_to64();
    lemma_pow2_strictly_increases(0, eb);
    lemma_basic_div(0, pow2(fb) as int);
    lemma_basic_div(0, pow2(fb + eb) as int);
    lemma_small_mod(0, pow2(eb));
    lemma_small_mod(0, pow2(fb));
}

} // verus!
