//! Bit-level codec between small unsigned integers and the IEEE-754 double
//! bit patterns that denote them exactly.
//!
//! The host model stores a JavaScript number as the 64-bit pattern of a
//! double. Integer arithmetic performed by a host function (see
//! [`crate::host::NativeFn::Sum`]) decodes such patterns to integers, adds,
//! and re-encodes, all in verified integer code. The codec covers exactly
//! the non-negative integers below 2^53, the range a double represents
//! exactly with a non-negative exponent.

use vstd::prelude::*;
use vstd::arithmetic::power2::{
    pow2, lemma2_to64, lemma_pow2_adds, lemma_pow2_pos, lemma_pow2_strictly_increases,
    lemma_pow2_unfold,
};
use vstd::arithmetic::div_mod::lemma_fundamental_div_mod;

verus! {

/// The bit pattern of a canonical (quiet) IEEE-754 double NaN.
pub const NAN_BITS: u64 = 0x7FF8000000000000;

/// 2^53: the least non-negative integer the codec does not cover.
pub const SMALL_LIMIT: u64 = 9007199254740992;

/// The floor of the base-2 logarithm.
pub open spec fn log2(n: nat) -> nat
    decreases n,
{
    if n < 2 {
        0
    } else {
        1 + log2(n / 2)
    }
}

/// The IEEE-754 double bit pattern denoting the integer `n`, for
/// `0 <= n < 2^53`: a zero sign bit, the biased exponent `1023 + log2 n`,
/// and the leading mantissa bits of `n`.
pub open spec fn small_f64_bits(n: nat) -> nat
    recommends
        n < pow2(53),
{
    if n == 0 {
        0
    } else {
        ((1023 + log2(n)) * pow2(52) + (n - pow2(log2(n))) * pow2((52 - log2(n)) as nat)) as nat
    }
}

/// The integer an IEEE-754 double bit pattern denotes, if the pattern is a
/// non-negative integral double below 2^53; `None` otherwise.
pub open spec fn spec_decode_small(bits: u64) -> Option<nat> {
    if bits == 0 {
        Some(0 as nat)
    } else if (bits as nat) >= pow2(63) {
        None
    } else {
        let expf = (bits as nat) / pow2(52);
        let mant = (bits as nat) % pow2(52);
        if expf < 1023 || expf > 1075 {
            None
        } else {
            let e = (expf - 1023) as nat;
            if mant % pow2((52 - e) as nat) == 0 {
                Some(pow2(e) + mant / pow2((52 - e) as nat))
            } else {
                None
            }
        }
    }
}

/// `log2` names the unique exponent bracketing its argument by powers of two.
pub proof fn lemma_log2_bracket(n: nat)
    requires
        n >= 1,
    ensures
        pow2(log2(n)) <= n < pow2(log2(n) + 1),
    decreases n,
{
    if n < 2 {
        lemma2_to64();
    } else {
        let l = log2(n / 2);
        lemma_log2_bracket(n / 2);
        lemma_fundamental_div_mod(n as int, 2);
        lemma_pow2_unfold(l + 1);
        lemma_pow2_unfold(l + 2);
        assert(n < pow2(l + 2)) by {
            assert(n <= 2 * (n / 2) + 1);
            assert((n / 2) < pow2(l + 1));
            assert((n / 2) + 1 <= pow2(l + 1));
            assert(n + 1 <= 2 * pow2(l + 1));
            assert(pow2(l + 2) == 2 * pow2(l + 1));
        };
        assert(pow2(l + 1) <= n) by {
            assert(pow2(l) <= n / 2);
            assert(pow2(l + 1) == 2 * pow2(l));
            assert(2 * (n / 2) <= n);
        };
    }
}

/// Only one exponent brackets `n` by powers of two.
pub proof fn lemma_log2_unique(n: nat, e: nat)
    requires
        pow2(e) <= n < pow2(e + 1),
    ensures
        e == log2(n),
{
    lemma_pow2_pos(e);
    lemma_log2_bracket(n);
    let l = log2(n);
    if e < l {
        if e + 1 < l {
            lemma_pow2_strictly_increases(e + 1, l);
        }
        assert(pow2(e + 1) <= pow2(l));
        assert(false);
    } else if l < e {
        if l + 1 < e {
            lemma_pow2_strictly_increases(l + 1, e);
        }
        assert(pow2(l + 1) <= pow2(e));
        assert(false);
    }
}

/// A small-integer bit pattern fits comfortably in a `u64`: the sign bit is
/// clear.
pub proof fn lemma_small_f64_bits_bound(n: nat)
    requires
        n < pow2(53),
    ensures
        small_f64_bits(n) < pow2(63),
{
    lemma2_to64();
    lemma2_to64_rest_holder();
    if n == 0 {
        lemma_pow2_pos(63);
    } else {
        let e = log2(n);
        lemma_log2_bracket(n);
        if e >= 53 {
            if e > 53 {
                lemma_pow2_strictly_increases(53, e);
            }
            assert(pow2(53) <= pow2(e));
            assert(false);
        }
        lemma_pow2_pos(e);
        lemma_pow2_pos((52 - e) as nat);
        lemma_pow2_unfold(e + 1);
        lemma_pow2_adds(e, (52 - e) as nat);
        let d = (n - pow2(e)) as int;
        let pl = pow2((52 - e) as nat) as int;
        let pe = pow2(e) as int;
        assert(d < pe);
        assert(d * pl < pe * pl) by (nonlinear_arith)
            requires d < pe && pl >= 1 && d >= 0;
        assert(pe * pl == pow2(52));
        assert((1023 + e) * pow2(52) <= 1075 * pow2(52)) by (nonlinear_arith)
            requires e <= 52 && pow2(52) >= 1;
        lemma_pow2_adds(11, 52);
        assert(pow2(63) == 2048 * pow2(52));
        assert(1076 * pow2(52) <= 2048 * pow2(52)) by (nonlinear_arith)
            requires pow2(52) >= 1;
    }
}

/// Computes 2^k.
pub fn pow2_u64(k: u64) -> (r: u64)
    requires
        k <= 63,
    ensures
        r == pow2(k as nat),
{
    let mut r: u64 = 1;
    let mut i: u64 = 0;
    proof {
        lemma2_to64();
        lemma2_to64_rest_holder();
    }
    while i < k
        invariant
            i <= k <= 63,
            r == pow2(i as nat),
        decreases k - i,
    {
        proof {
            if (i as nat) + 1 < 63 {
                lemma_pow2_strictly_increases(i as nat + 1, 63);
            }
            pow2_63_value();
            lemma_pow2_unfold(i as nat + 1);
        }
        r = r * 2;
        i = i + 1;
    }
    r
}

proof fn pow2_63_value()
    ensures
        pow2(63) == 0x8000000000000000,
{
    lemma2_to64_rest_holder();
}

proof fn lemma2_to64_rest_holder()
    ensures
        pow2(53) == 9007199254740992,
        pow2(52) == 4503599627370496,
        pow2(63) == 0x8000000000000000,
{
    vstd::arithmetic::power2::lemma2_to64();
    vstd::arithmetic::power2::lemma2_to64_rest();
}

/// Encodes `n` as the bit pattern of the double denoting it.
pub fn encode_small(n: u64) -> (bits: u64)
    requires
        n < SMALL_LIMIT,
    ensures
        bits == small_f64_bits(n as nat),
{
    if n == 0 {
        return 0;
    }
    let mut e: u64 = 0;
    let mut m: u64 = n;
    proof {
        lemma2_to64();
    }
    while m >= 2
        invariant
            1 <= m,
            e <= 63,
            n < SMALL_LIMIT,
            m * pow2(e as nat) <= n < (m + 1) * pow2(e as nat),
        decreases m,
    {
        proof {
            let mi = m as int;
            let p = pow2(e as nat) as int;
            lemma_pow2_pos(e as nat);
            lemma_pow2_unfold(e as nat + 1);
            lemma_fundamental_div_mod(mi, 2);
            assert((mi / 2) * (2 * p) <= mi * p) by (nonlinear_arith)
                requires mi >= 2 && p >= 1 && mi >= 2 * (mi / 2);
            assert((mi + 1) * p <= ((mi / 2) + 1) * (2 * p)) by (nonlinear_arith)
                requires mi >= 2 && p >= 1 && mi <= 2 * (mi / 2) + 1;
            // e stays below 64 because pow2(e) <= n < pow2(64)
            assert(pow2(e as nat) <= n) by {
                assert(m * pow2(e as nat) <= n);
                assert(pow2(e as nat) <= m * pow2(e as nat)) by (nonlinear_arith)
                    requires m as int >= 1 && pow2(e as nat) >= 1;
            };
            if e + 1 > 63 {
                lemma2_to64_rest_holder();
                assert(e == 63);
                assert(pow2(63) <= n);
                assert(false);
            }
        }
        m = m / 2;
        e = e + 1;
    }
    proof {
        // m == 1, so pow2(e) <= n < pow2(e + 1) and e == log2(n)
        assert(m == 1);
        assert(pow2(e as nat) <= n);
        lemma_pow2_unfold(e as nat + 1);
        assert(n < pow2(e as nat + 1));
        lemma_log2_unique(n as nat, e as nat);
        assert(e as nat == log2(n as nat));
        // n < 2^53 forces e <= 52
        if e >= 53 {
            lemma2_to64_rest_holder();
            assert(pow2(53) == 9007199254740992);
            if e > 53 {
                lemma_pow2_strictly_increases(53, e as nat);
            }
            assert(pow2(53) <= pow2(e as nat));
            assert(false);
        }
        assert(e <= 52);
    }
    let p_low = pow2_u64(52 - e);
    let p_e = pow2_u64(e);
    proof {
        lemma2_to64_rest_holder();
        lemma_pow2_adds((52 - e) as nat, e as nat);
        lemma_pow2_pos((52 - e) as nat);
        lemma_pow2_pos(e as nat);
        let d = (n - p_e) as int;
        let pl = p_low as int;
        let pe = p_e as int;
        assert(d >= 0);
        assert(n < 2 * pow2(e as nat));
        assert(d < pe);
        assert(d * pl < pe * pl) by (nonlinear_arith)
            requires d < pe && pl >= 1 && d >= 0;
        assert(pe * pl == pow2(52)) by {
            assert(pe * pl == pow2(e as nat) * pow2((52 - e) as nat));
            assert(pow2((52 - e) as nat) * pow2(e as nat) == pow2(52));
        };
        assert((1023 + e) * pow2(52) <= 1075 * pow2(52)) by (nonlinear_arith)
            requires e <= 52 && pow2(52) >= 1;
    }
    let mantissa = (n - p_e) * p_low;
    let bits = (1023 + e) * pow2_u64(52) + mantissa;
    proof {
        assert(bits == small_f64_bits(n as nat));
    }
    bits
}

/// Decodes a double bit pattern back to the integer it denotes, if any.
pub fn decode_small(bits: u64) -> (r: Option<u64>)
    ensures
        match r {
            Some(v) => spec_decode_small(bits) == Some(v as nat) && v < SMALL_LIMIT,
            None => spec_decode_small(bits) is None,
        },
{
    if bits == 0 {
        return Some(0);
    }
    let p52 = pow2_u64(52);
    let p63 = pow2_u64(63);
    proof {
        lemma2_to64_rest_holder();
    }
    if bits >= p63 {
        return None;
    }
    let expf = bits / p52;
    let mant = bits % p52;
    if expf < 1023 || expf > 1075 {
        return None;
    }
    let e = expf - 1023;
    let d = pow2_u64(52 - e);
    proof {
        lemma_pow2_pos((52 - e) as nat);
    }
    if mant % d != 0 {
        return None;
    }
    let p_e = pow2_u64(e);
    proof {
        lemma2_to64_rest_holder();
        lemma_pow2_pos(e as nat);
        lemma_pow2_adds(e as nat, (52 - e) as nat);
        // mant / d < pow2(e), so the sum is below pow2(e + 1) <= pow2(53)
        let mi = mant as int;
        let di = d as int;
        let pe = p_e as int;
        lemma_fundamental_div_mod(mi, di);
        assert(mant < p52);
        assert(p52 == pow2(52));
        assert(e as nat + ((52 - e) as nat) == 52);
        assert(pow2(e as nat + ((52 - e) as nat)) == pow2(e as nat) * pow2((52 - e) as nat));
        assert(mi < pe * di);
        assert(mi < di * pe);
        assert(mi / di < pe) by (nonlinear_arith)
            requires
                mi < di * pe,
                di >= 1,
                mi >= 0,
                mi == di * (mi / di) + (mi % di),
                0 <= mi % di < di;
        lemma_pow2_unfold(e as nat + 1);
        assert(p_e + mant / d < pow2(e as nat + 1));
        if e + 1 < 53 {
            lemma_pow2_strictly_increases(e as nat + 1, 53);
        }
        assert(p_e + mant / d < pow2(53));
    }
    let v = p_e + mant / d;
    Some(v)
}

} // verus!
