use vstd::prelude::*;

verus! {

use vstd::arithmetic::power2::{
    pow2, lemma_pow2_adds, lemma_pow2_pos, lemma_pow2_strictly_increases, lemma2_to64,
};
use vstd::arithmetic::mul::{
    lemma_mul_inequality, lemma_mul_strict_inequality, lemma_mul_left_inequality,
    lemma_mul_strictly_positive,
};

// The target game stores positions and sentinel values as IEEE-754
// single-precision numbers. The library never computes with such numbers: it
// carries each one as its raw 32-bit pattern and compares patterns under the
// ordering of the values they represent. The spec functions below give that
// ordering an exact mathematical meaning: every finite or infinite pattern is
// mapped to an integer `weight`, the represented value scaled by 2^149 (the
// scale that makes the smallest subnormal equal to 1), and the comparison
// functions are proved to decide the order of the weights. Comparisons
// involving a NaN pattern are false, and the two zero patterns carry equal
// weight, exactly as the represented values compare.

/// Sign bit of a single-precision bit pattern (1 for negative values).
pub open spec fn sign_bit(b: u32) -> u32 {
    b >> 31
}

/// Biased exponent field of a single-precision bit pattern.
pub open spec fn biased_exp(b: u32) -> u32 {
    (b >> 23) & 0xff
}

/// Fraction (mantissa) field of a single-precision bit pattern.
pub open spec fn fraction(b: u32) -> u32 {
    b & 0x7f_ffff
}

/// Whether the pattern encodes a NaN: exponent all ones, fraction non-zero.
pub open spec fn is_nan_bits(b: u32) -> bool {
    biased_exp(b) == 0xff && fraction(b) != 0
}

/// Magnitude represented by an exponent and fraction field, scaled by 2^149.
/// Subnormals (exponent 0) have no hidden bit; normal values prepend the
/// hidden bit 2^23 to the fraction. Infinity (exponent 255, fraction 0)
/// receives a magnitude above every finite one, which keeps the order total.
pub open spec fn magnitude_of(e: u32, f: u32) -> int {
    if e == 0 {
        f as int
    } else {
        ((0x80_0000 + f) as int) * (pow2((e - 1) as nat) as int)
    }
}

/// Magnitude of the value represented by a bit pattern, scaled by 2^149.
pub open spec fn magnitude(b: u32) -> int {
    magnitude_of(biased_exp(b), fraction(b))
}

/// The represented value scaled by 2^149, as a signed integer. Both zero
/// patterns map to 0, so the weights order values exactly as IEEE-754
/// comparisons do (NaN aside).
pub open spec fn weight(b: u32) -> int {
    if sign_bit(b) == 1 {
        -magnitude(b)
    } else {
        magnitude(b)
    }
}

/// Strict "less than" of the represented values: false whenever either
/// pattern is a NaN, and the two zeros are equal.
pub open spec fn lt_bits(a: u32, b: u32) -> bool {
    !is_nan_bits(a) && !is_nan_bits(b) && weight(a) < weight(b)
}

/// Equality of the represented values: false whenever either pattern is a
/// NaN; the two zeros are equal to each other.
pub open spec fn eq_bits(a: u32, b: u32) -> bool {
    !is_nan_bits(a) && !is_nan_bits(b) && weight(a) == weight(b)
}

/// A magnitude is never negative.
proof fn lemma_magnitude_nonneg(b: u32)
    ensures
        magnitude(b) >= 0,
{
    let e = biased_exp(b);
    let f = fraction(b);
    if e != 0 {
        lemma_pow2_pos((e - 1) as nat);
        lemma_mul_strictly_positive((0x80_0000 + f) as int, pow2((e - 1) as nat) as int);
    }
}

/// The magnitude is zero exactly for the two zero patterns (sign bit free,
/// all other bits zero).
proof fn lemma_zero_magnitude(b: u32)
    ensures
        (magnitude(b) == 0) <==> (b & 0x7fff_ffff == 0),
{
    let e = biased_exp(b);
    let f = fraction(b);
    assert((b & 0x7fff_ffff == 0) <==> ((b >> 23) & 0xff == 0 && b & 0x7f_ffff == 0))
        by (bit_vector);
    if e != 0 {
        lemma_pow2_pos((e - 1) as nat);
        lemma_mul_strictly_positive((0x80_0000 + f) as int, pow2((e - 1) as nat) as int);
    }
}

/// Lexicographic order of (exponent, fraction) pairs implies order of the
/// magnitudes they represent.
proof fn lemma_magnitude_lex(ea: u32, fa: u32, eb: u32, fb: u32)
    requires
        fa < 0x80_0000,
        fb < 0x80_0000,
        ea < eb || (ea == eb && fa < fb),
    ensures
        magnitude_of(ea, fa) < magnitude_of(eb, fb),
{
    if ea == eb {
        if ea != 0 {
            lemma_pow2_pos((ea - 1) as nat);
            lemma_mul_strict_inequality(
                (0x80_0000 + fa) as int,
                (0x80_0000 + fb) as int,
                pow2((ea - 1) as nat) as int,
            );
        }
    } else {
        // ea < eb, so eb >= 1.
        let pb = pow2((eb - 1) as nat) as int;
        let mb = (0x80_0000 + fb) as int;
        lemma2_to64();
        lemma_pow2_pos((eb - 1) as nat);
        if ea == 0 {
            // magnitude_of(ea, fa) = fa < 2^23 <= mb <= mb * pb.
            lemma_mul_left_inequality(mb, 1, pb);
            assert(mb * 1 == mb);
        } else {
            let pa = pow2((ea - 1) as nat) as int;
            let ma = (0x80_0000 + fa) as int;
            lemma_pow2_pos((ea - 1) as nat);
            // ma * pa < 2^24 * pa == 2^(ea + 23)
            lemma_mul_strict_inequality(ma, pow2(24) as int, pa);
            lemma_pow2_adds(24, (ea - 1) as nat);
            // 2^(ea + 23) <= 2^(eb + 22)
            if ea + 23 < eb + 22 {
                lemma_pow2_strictly_increases((ea + 23) as nat, (eb + 22) as nat);
            }
            // 2^(eb + 22) == 2^23 * pb <= mb * pb
            lemma_pow2_adds(23, (eb - 1) as nat);
            lemma_mul_inequality(pow2(23) as int, mb, pb);
        }
    }
}

/// The order of the magnitudes of two patterns is the order of the patterns
/// with the sign bit cleared.
pub proof fn lemma_masked_order(a: u32, b: u32)
    ensures
        (a & 0x7fff_ffff < b & 0x7fff_ffff) <==> (magnitude(a) < magnitude(b)),
{
    let ea = biased_exp(a);
    let fa = fraction(a);
    let eb = biased_exp(b);
    let fb = fraction(b);
    assert(a & 0x7fff_ffff == ((a >> 23) & 0xff) * 0x80_0000 + (a & 0x7f_ffff))
        by (bit_vector);
    assert(b & 0x7fff_ffff == ((b >> 23) & 0xff) * 0x80_0000 + (b & 0x7f_ffff))
        by (bit_vector);
    assert(a & 0x7f_ffff < 0x80_0000 && (a >> 23) & 0xff < 0x100) by (bit_vector);
    assert(b & 0x7f_ffff < 0x80_0000 && (b >> 23) & 0xff < 0x100) by (bit_vector);
    if ea < eb || (ea == eb && fa < fb) {
        lemma_magnitude_lex(ea, fa, eb, fb);
    } else if eb < ea || (ea == eb && fb < fa) {
        lemma_magnitude_lex(eb, fb, ea, fa);
    }
}

/// Returns whether the bit pattern encodes a NaN.
pub fn is_nan(b: u32) -> (r: bool)
    ensures
        r == is_nan_bits(b),
{
    (b >> 23) & 0xff == 0xff && b & 0x7f_ffff != 0
}

/// Compares two single-precision bit patterns as the values they represent:
/// true exactly when the first value is strictly below the second. Mirrors
/// the IEEE-754 comparison, so a NaN on either side yields false and the two
/// zeros are equal.
pub fn value_lt(a: u32, b: u32) -> (r: bool)
    ensures
        r == lt_bits(a, b),
{
    if is_nan(a) || is_nan(b) {
        return false;
    }
    let sa = a >> 31;
    let sb = b >> 31;
    proof {
        assert(a >> 31 == 1 || a >> 31 == 0) by (bit_vector);
        assert(b >> 31 == 1 || b >> 31 == 0) by (bit_vector);
    }
    if sa != sb {
        proof {
            lemma_magnitude_nonneg(a);
            lemma_magnitude_nonneg(b);
            lemma_zero_magnitude(a);
            lemma_zero_magnitude(b);
        }
        if sa == 1 {
            // a is non-positive and b non-negative: strictly below unless
            // both are zeros.
            !(a & 0x7fff_ffff == 0 && b & 0x7fff_ffff == 0)
        } else {
            false
        }
    } else if sa == 0 {
        proof {
            lemma_masked_order(a, b);
            assert(a >> 31 == 0 && b >> 31 == 0 ==> (a & 0x7fff_ffff == a && b & 0x7fff_ffff
                == b)) by (bit_vector);
        }
        a < b
    } else {
        proof {
            lemma_masked_order(b, a);
            assert(a >> 31 == 1 && b >> 31 == 1 ==> ((b & 0x7fff_ffff < a & 0x7fff_ffff) <==> (b
                < a))) by (bit_vector);
        }
        b < a
    }
}

/// Compares two single-precision bit patterns for equality of the values they
/// represent: false on NaN, true for the pair of zero patterns.
pub fn value_eq(a: u32, b: u32) -> (r: bool)
    ensures
        r == eq_bits(a, b),
{
    if is_nan(a) || is_nan(b) {
        return false;
    }
    let r = a == b || (a & 0x7fff_ffff == 0 && b & 0x7fff_ffff == 0);
    proof {
        lemma_zero_magnitude(a);
        lemma_zero_magnitude(b);
        lemma_magnitude_nonneg(a);
        lemma_magnitude_nonneg(b);
        lemma_masked_order(a, b);
        lemma_masked_order(b, a);
        assert(a >> 31 == 1 || a >> 31 == 0) by (bit_vector);
        assert(b >> 31 == 1 || b >> 31 == 0) by (bit_vector);
        assert((a >> 31 == b >> 31 && a & 0x7fff_ffff == b & 0x7fff_ffff) ==> a == b)
            by (bit_vector);
    }
    r
}

} // verus!
