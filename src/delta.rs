//! Conversion of a decimal JSON number into a pointer delta.
//!
//! A number arrives as a sign, a mantissa and a decimal exponent. The delta
//! is the number truncated toward zero, saturated at the bounds of `i32`.
use vstd::prelude::*;
use vstd::arithmetic::div_mod::lemma_div_denominator;
use vstd::arithmetic::mul::lemma_mul_inequality;

verus! {

/// Ten to the power `n`.
pub open spec fn pow10(n: nat) -> nat
    decreases n,
{
    if n == 0 {
        1
    } else {
        10 * pow10((n - 1) as nat)
    }
}

/// The magnitude of `mantissa * 10^exponent`, truncated toward zero.
pub open spec fn magnitude(mantissa: u64, exponent: i16) -> nat {
    if exponent >= 0 {
        (mantissa * pow10(exponent as nat)) as nat
    } else {
        mantissa as nat / pow10((-exponent) as nat)
    }
}

/// `v` saturated into the range of `i32`.
pub open spec fn clamp_i32(v: int) -> i32 {
    if v > i32::MAX {
        i32::MAX
    } else if v < i32::MIN {
        i32::MIN
    } else {
        v as i32
    }
}

/// The signed value of a decimal number, truncated toward zero.
pub open spec fn truncated(positive: bool, mantissa: u64, exponent: i16) -> int {
    if positive {
        magnitude(mantissa, exponent) as int
    } else {
        -(magnitude(mantissa, exponent) as int)
    }
}

/// The pointer delta that a decimal number stands for.
pub open spec fn delta_spec(positive: bool, mantissa: u64, exponent: i16) -> i32 {
    clamp_i32(truncated(positive, mantissa, exponent))
}

proof fn lemma_pow10_positive(n: nat)
    ensures
        pow10(n) >= 1,
    decreases n,
{
    if n > 0 {
        lemma_pow10_positive((n - 1) as nat);
    }
}

proof fn lemma_pow10_monotone(a: nat, b: nat)
    requires
        a <= b,
    ensures
        pow10(a) <= pow10(b),
    decreases b - a,
{
    if a < b {
        lemma_pow10_monotone(a, (b - 1) as nat);
        lemma_pow10_positive((b - 1) as nat);
    }
}

const SATURATION: u64 = 2147483648;

/// Truncates `mantissa * 10^exponent` toward zero and saturates it into `i32`.
pub fn delta_from_parts(positive: bool, mantissa: u64, exponent: i16) -> (r: i32)
    ensures
        r == delta_spec(positive, mantissa, exponent),
{
    let mut mag: u64 = mantissa;
    if exponent >= 0 {
        let mut i: i16 = 0;
        assert(mantissa * pow10(0) == mantissa) by {
            assert(pow10(0) == 1);
        }
        while i < exponent && mag <= SATURATION
            invariant
                0 <= i <= exponent,
                mag as int == mantissa * pow10(i as nat),
            decreases exponent - i,
        {
            proof {
                assert(pow10((i + 1) as nat) == 10 * pow10(i as nat));
                assert((mantissa * pow10(i as nat)) * 10 == mantissa * (10 * pow10(i as nat)))
                    by (nonlinear_arith);
            }
            mag = mag * 10;
            i = i + 1;
        }
        proof {
            lemma_pow10_monotone(i as nat, exponent as nat);
            lemma_mul_inequality(pow10(i as nat) as int, pow10(exponent as nat) as int, mantissa as int);
        }
    } else {
        let steps: i32 = -(exponent as i32);
        let mut k: i32 = 0;
        assert(pow10(0) == 1);
        assert(mantissa as nat / 1 == mantissa as nat);
        while k < steps
            invariant
                0 <= k <= steps,
                steps == -(exponent as int),
                mag as nat == mantissa as nat / pow10(k as nat),
            decreases steps - k,
        {
            proof {
                lemma_pow10_positive(k as nat);
                lemma_div_denominator(mantissa as int, pow10(k as nat) as int, 10);
                assert(pow10((k + 1) as nat) == pow10(k as nat) * 10);
            }
            mag = mag / 10;
            k = k + 1;
        }
    }
    if mag > SATURATION {
        if positive {
            i32::MAX
        } else {
            i32::MIN
        }
    } else if positive {
        if mag == SATURATION {
            i32::MAX
        } else {
            mag as i32
        }
    } else {
        (0 - (mag as i64)) as i32
    }
}

} // verus!
