//! Quality values arrive as IEEE-754 binary32 numbers. The library holds them
//! as their bit patterns and decides what it needs from them with integer
//! arithmetic only: whether a value lies in `0..=100`, and the nearest
//! integer (halves away from zero, saturating at the `i32` bounds, NaN to 0).
use vstd::prelude::*;
use vstd::arithmetic::power2::*;
use vstd::bits::*;

verus! {

/// Sign bit of a binary32 bit pattern.
pub open spec fn bits_negative(bits: u32) -> bool {
    bits / 0x8000_0000 == 1
}

/// Biased exponent field (0..=255).
pub open spec fn bits_exponent(bits: u32) -> nat {
    ((bits / 0x80_0000) % 0x100) as nat
}

/// Fraction field (23 bits).
pub open spec fn bits_fraction(bits: u32) -> nat {
    (bits % 0x80_0000) as nat
}

pub open spec fn bits_is_nan(bits: u32) -> bool {
    bits_exponent(bits) == 255 && bits_fraction(bits) != 0
}

/// Effective exponent: subnormals share the scale of exponent 1.
pub open spec fn bits_effective_exponent(bits: u32) -> nat {
    if bits_exponent(bits) == 0 { 1 } else { bits_exponent(bits) }
}

/// The integer significand `m`, so that the magnitude is `m * 2^(e - 150)`.
pub open spec fn bits_significand(bits: u32) -> nat {
    if bits_exponent(bits) == 0 {
        bits_fraction(bits)
    } else {
        bits_fraction(bits) + 0x80_0000
    }
}

/// Whether the magnitude `m * 2^(e - 150)` is at most `n`.
pub open spec fn bits_magnitude_at_most(bits: u32, n: nat) -> bool {
    let e = bits_effective_exponent(bits);
    let m = bits_significand(bits);
    if e >= 150 {
        m * pow2((e - 150) as nat) <= n
    } else {
        m <= n * pow2((150 - e) as nat)
    }
}

/// The value is a number in the closed range `0..=100` (`-0.0` included).
pub open spec fn bits_in_quality_range(bits: u32) -> bool {
    &&& !bits_is_nan(bits)
    &&& bits_negative(bits) ==> bits_significand(bits) == 0
    &&& bits_magnitude_at_most(bits, 100)
}

/// The magnitude rounded to the nearest integer, halves away from zero.
pub open spec fn bits_rounded_magnitude(bits: u32) -> nat {
    let e = bits_effective_exponent(bits);
    let m = bits_significand(bits);
    if e >= 150 {
        m * pow2((e - 150) as nat)
    } else {
        (m + pow2((149 - e) as nat)) / pow2((150 - e) as nat)
    }
}

/// What `round()` followed by a saturating conversion to `i32` gives.
pub open spec fn bits_round_to_i32(bits: u32) -> i32 {
    if bits_is_nan(bits) {
        0
    } else {
        let r = bits_rounded_magnitude(bits);
        if bits_negative(bits) {
            if r >= 0x8000_0000 { i32::MIN } else { (0 - r) as i32 }
        } else {
            if r >= 0x7fff_ffff { i32::MAX } else { r as i32 }
        }
    }
}

proof fn lemma_fields(bits: u32)
    ensures
        (bits >> 23) & 0xff == bits_exponent(bits),
        bits & 0x7f_ffff == bits_fraction(bits),
        (bits >> 31 == 1) == bits_negative(bits),
        bits == bits_exponent(bits) * 0x80_0000 + bits_fraction(bits) + (if bits_negative(bits) { 0x8000_0000int } else { 0 }),
{
    assert((bits >> 23) & 0xff == (bits / 0x80_0000) % 0x100) by (bit_vector);
    assert(bits & 0x7f_ffff == bits % 0x80_0000) by (bit_vector);
    assert((bits >> 31 == 1) == (bits / 0x8000_0000 == 1)) by (bit_vector);
    assert(bits == ((bits / 0x80_0000) % 0x100) * 0x80_0000 + bits % 0x80_0000
        + (if bits / 0x8000_0000 == 1 { 0x8000_0000u32 } else { 0u32 })) by (bit_vector);
}

/// Whether the number whose bit pattern is `bits` lies in `0.0..=100.0`.
pub fn quality_in_range(bits: u32) -> (r: bool)
    ensures
        r == bits_in_quality_range(bits),
{
    proof {
        lemma_fields(bits);
        lemma2_to64();
        let e = bits_effective_exponent(bits);
        let m = bits_significand(bits);
        assert(m < 0x100_0000);
        if e >= 150 {
            lemma_pow2_pos((e - 150) as nat);
            assert(m * pow2((e - 150) as nat) >= m) by (nonlinear_arith)
                requires pow2((e - 150) as nat) > 0;
        } else if e < 133 {
            let k = (150 - e) as nat;
            if k > 18 {
                lemma_pow2_strictly_increases(18, k);
            }
            assert(pow2(k) >= 0x4_0000);
            assert(100 * pow2(k) >= 100 * 0x4_0000);
        } else if e > 133 {
            let k = (150 - e) as nat;
            if k < 16 {
                lemma_pow2_strictly_increases(k, 16);
            }
            assert(pow2(k) <= 0x1_0000);
            assert(100 * pow2(k) <= 100 * 0x1_0000);
        } else {
            assert(pow2(17) == 0x2_0000);
        }
    }
    bits <= 0x42C8_0000 || bits == 0x8000_0000
}

/// The nearest integer to the number whose bit pattern is `bits`, halves away
/// from zero, saturating at the bounds of `i32`; NaN gives 0.
pub fn quality_round(bits: u32) -> (r: i32)
    ensures
        r == bits_round_to_i32(bits),
{
    proof {
        lemma_fields(bits);
        lemma2_to64();
    }
    let exp: u32 = (bits >> 23) & 0xff;
    let frac: u32 = bits & 0x7f_ffff;
    let negative: bool = (bits >> 31) == 1;
    if exp == 255 && frac != 0 {
        return 0;
    }
    let sig: u64 = if exp == 0 { frac as u64 } else { (frac as u64) + 0x80_0000 };
    let e: u32 = if exp == 0 { 1 } else { exp };
    assert(sig == bits_significand(bits) && e == bits_effective_exponent(bits));
    // magnitude, or None when it is certainly at least 2^31
    let mag: Option<u64> = if e >= 158 {
        proof {
            lemma_pow2_pos((e - 158) as nat);
            lemma_pow2_adds(8, (e - 158) as nat);
            assert(pow2((e - 150) as nat) >= 0x100) by (nonlinear_arith)
                requires pow2((e - 150) as nat) == pow2(8) * pow2((e - 158) as nat),
                    pow2((e - 158) as nat) > 0, pow2(8) == 0x100;
            assert(sig * pow2((e - 150) as nat) >= 0x80_0000 * 0x100) by (nonlinear_arith)
                requires sig >= 0x80_0000, pow2((e - 150) as nat) >= 0x100;
        }
        None
    } else if e >= 150 {
        let s: u64 = (e - 150) as u64;
        proof {
            if s < 7 {
                lemma_pow2_strictly_increases(s as nat, 7);
            }
            assert(pow2(s as nat) <= 0x80);
            assert(sig * pow2(s as nat) <= 0xff_ffff * 0x80) by (nonlinear_arith)
                requires sig <= 0xff_ffff, pow2(s as nat) <= 0x80;
            lemma_u64_shl_is_mul(sig, s);
        }
        Some(sig << s)
    } else {
        let k: u64 = (150 - e) as u64;
        if k >= 25 {
            proof {
                lemma_pow2_unfold(k as nat);
                if k > 25 {
                    lemma_pow2_strictly_increases(24, (k - 1) as nat);
                }
                assert(pow2((k - 1) as nat) >= 0x100_0000);
                assert(sig + pow2((k - 1) as nat) < pow2(k as nat));
                vstd::arithmetic::div_mod::lemma_basic_div(
                    (sig + pow2((k - 1) as nat)) as int, pow2(k as nat) as int);
            }
            Some(0)
        } else {
            proof {
                if k - 1 < 24 {
                    lemma_pow2_strictly_increases((k - 1) as nat, 24);
                }
                lemma_u64_shl_is_mul(1, (k - 1) as u64);
            }
            let half: u64 = 1u64 << ((k - 1) as u64);
            let total: u64 = sig + half;
            proof {
                lemma_u64_shr_is_div(total, k);
            }
            Some(total >> k)
        }
    };
    match mag {
        None => {
            if negative { i32::MIN } else { i32::MAX }
        },
        Some(m) => {
            if negative {
                if m >= 0x8000_0000 { i32::MIN } else { (0 - (m as i64)) as i32 }
            } else {
                if m >= 0x7fff_ffff { i32::MAX } else { m as i32 }
            }
        },
    }
}

/// Whether two binary32 numbers compare equal: NaN equals nothing, and
/// `0.0` equals `-0.0`.
pub open spec fn bits_equal(a: u32, b: u32) -> bool {
    !bits_is_nan(a) && !bits_is_nan(b) && (a == b || (a % 0x8000_0000 == 0 && b % 0x8000_0000 == 0))
}

/// `==` on the binary32 numbers with these bit patterns.
pub fn quality_equal(a: u32, b: u32) -> (r: bool)
    ensures
        r == bits_equal(a, b),
{
    proof {
        lemma_fields(a);
        lemma_fields(b);
    }
    let a_nan = ((a >> 23) & 0xff) == 255 && (a & 0x7f_ffff) != 0;
    let b_nan = ((b >> 23) & 0xff) == 255 && (b & 0x7f_ffff) != 0;
    assert((a & 0x7fff_ffff) == a % 0x8000_0000) by (bit_vector);
    assert((b & 0x7fff_ffff) == b % 0x8000_0000) by (bit_vector);
    !a_nan && !b_nan && (a == b || ((a & 0x7fff_ffff) == 0 && (b & 0x7fff_ffff) == 0))
}

} // verus!
