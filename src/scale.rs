//! Overflow-safe scaling of a 64-bit tick count by a rational factor.
use vstd::prelude::*;

verus! {

/// Quotient of `a` by `b` rounded toward zero, as Rust's `/` computes it on
/// signed integers.
pub open spec fn trunc_div(a: int, b: int) -> int {
    if a >= 0 {
        a / b
    } else {
        -((-a) / b)
    }
}

/// Remainder left by `trunc_div`: it has the sign of `a`, as Rust's `%`
/// computes it on signed integers.
pub open spec fn trunc_rem(a: int, b: int) -> int {
    if a >= 0 {
        a % b
    } else {
        -((-a) % b)
    }
}

/// Whether an integer is representable as an `i64`.
pub open spec fn fits_i64(x: int) -> bool {
    i64::MIN <= x <= i64::MAX
}

/// Magnitude of an integer.
pub open spec fn abs(x: int) -> int {
    if x >= 0 {
        x
    } else {
        -x
    }
}

/// Rounding toward zero splits the dividend into a multiple of the divisor
/// and a remainder smaller than the divisor, never of the opposite sign of
/// the dividend.
proof fn lemma_trunc_rem_bounds(a: int, b: int)
    requires
        b != 0,
    ensures
        a == b * trunc_div(a, b) + trunc_rem(a, b),
        a >= 0 ==> 0 <= trunc_rem(a, b) < abs(b),
        a <= 0 ==> -abs(b) < trunc_rem(a, b) <= 0,
{
    if a >= 0 {
        assert(a == b * (a / b) + a % b && 0 <= a % b < abs(b)) by (nonlinear_arith)
            requires b != 0, a >= 0, abs(b) == (if b >= 0 { b } else { -b });
        if a == 0 {
            assert(a % b == 0) by (nonlinear_arith)
                requires a == 0, b != 0;
        }
    } else {
        let na = -a;
        assert(na == b * (na / b) + na % b && 0 <= na % b < abs(b)) by (nonlinear_arith)
            requires b != 0, na > 0, abs(b) == (if b >= 0 { b } else { -b });
        assert(a == b * trunc_div(a, b) + trunc_rem(a, b)) by (nonlinear_arith)
            requires
                a == -na,
                na == b * (na / b) + na % b,
                trunc_div(a, b) == -(na / b),
                trunc_rem(a, b) == -(na % b);
    }
}

/// The quotient rounded toward zero of an `i64` by an `i64` fits in an
/// `i64`, except for the one overflowing case `i64::MIN / -1`.
proof fn lemma_trunc_div_fits(a: int, b: int)
    requires
        b != 0,
        fits_i64(a),
        fits_i64(b),
        !(a == i64::MIN && b == -1),
    ensures
        fits_i64(trunc_div(a, b)),
{
    if a >= 0 {
        if b > 0 {
            assert(0 <= a / b <= a) by (nonlinear_arith)
                requires a >= 0, b > 0;
        } else {
            assert(-a <= a / b <= 0) by (nonlinear_arith)
                requires a >= 0, b < 0;
        }
    } else {
        let na = -a;
        if b > 0 {
            assert(0 <= na / b <= na) by (nonlinear_arith)
                requires na > 0, b > 0;
        } else if b == -1 {
            assert(na / b == -na) by (nonlinear_arith)
                requires b == -1;
        } else {
            assert(-na <= 2 * (na / b) <= 0) by (nonlinear_arith)
                requires na > 0, b <= -2;
        }
    }
}

/// A quotient whose remainder is smaller than the divisor and agrees in sign
/// with the dividend is the quotient rounded toward zero.
proof fn lemma_trunc_div_unique(a: int, b: int, t: int)
    requires
        b != 0,
        a >= 0 ==> 0 <= a - b * t < abs(b),
        a <= 0 ==> -abs(b) < a - b * t <= 0,
    ensures
        trunc_div(a, b) == t,
{
    lemma_trunc_rem_bounds(a, b);
    let u = trunc_div(a, b);
    // Two such remainders differ by a multiple of b smaller than |b|.
    assert(b * (u - t) == (a - b * t) - (a - b * u)) by (nonlinear_arith);
    assert(-abs(b) < b * (u - t) < abs(b));
    assert(u - t == 0) by (nonlinear_arith)
        requires -abs(b) < b * (u - t) < abs(b), abs(b) == (if b >= 0 { b } else { -b }), b != 0;
}

/// The exact product of two integers keeps a sign rule: it is nonnegative
/// when the factors agree in sign and nonpositive when they differ.
proof fn lemma_product_sign(x: int, y: int)
    ensures
        (x >= 0 && y >= 0) || (x <= 0 && y <= 0) ==> x * y >= 0,
        (x >= 0 && y <= 0) || (x <= 0 && y >= 0) ==> x * y <= 0,
        x * y == 0 ==> x == 0 || y == 0,
{
    assert((x >= 0 && y >= 0) || (x <= 0 && y <= 0) ==> x * y >= 0) by (nonlinear_arith);
    assert((x >= 0 && y <= 0) || (x <= 0 && y >= 0) ==> x * y <= 0) by (nonlinear_arith);
    assert(x * y == 0 ==> x == 0 || y == 0) by (nonlinear_arith);
}

/// Splitting the dividend by the divisor first gives the same quotient as
/// dividing the whole product.
proof fn lemma_split_quotient(value: int, numer: int, denom: int)
    requires
        denom != 0,
    ensures
        trunc_div(value, denom) * numer + trunc_div(trunc_rem(value, denom) * numer, denom)
            == trunc_div(value * numer, denom),
{
    let q = trunc_div(value, denom);
    let r = trunc_rem(value, denom);
    let s = trunc_div(r * numer, denom);
    let e = r * numer - denom * s;
    lemma_trunc_rem_bounds(value, denom);
    lemma_trunc_rem_bounds(r * numer, denom);
    lemma_product_sign(r, numer);
    lemma_product_sign(value, numer);
    assert(value * numer - denom * (q * numer + s) == e) by (nonlinear_arith)
        requires value == denom * q + r, e == r * numer - denom * s;
    if r * numer == 0 {
        assert(e == 0);
    }
    lemma_trunc_div_unique(value * numer, denom, q * numer + s);
}

/// Computes `value * numer / denom`, rounded toward zero, without forming the
/// product `value * numer`: the value is split into its quotient and
/// remainder by `denom` first, so only `quotient * numer` and
/// `remainder * numer` need to fit in 64 bits. Converts a tick count at one
/// frequency into a count at another, where the direct product would overflow.
pub fn mul_div(value: i64, numer: i64, denom: i64) -> (r: i64)
    requires
        denom != 0,
        !(value == i64::MIN && denom == -1),
        fits_i64(trunc_div(value as int, denom as int) * numer),
        fits_i64(trunc_rem(value as int, denom as int) * numer),
        fits_i64(trunc_div(value * numer, denom as int)),
    ensures
        r == trunc_div(value * numer, denom as int),
        value >= 0 && numer >= 0 && denom > 0 ==> r == (value * numer) / (denom as int),
{
    proof {
        lemma_trunc_div_fits(value as int, denom as int);
        lemma_trunc_rem_bounds(value as int, denom as int);
        lemma_split_quotient(value as int, numer as int, denom as int);
        lemma_product_sign(value as int, numer as int);
    }
    let q = value / denom;
    let rem = value % denom;
    let scaled_rem = rem * numer;
    proof {
        if denom == -1 {
            assert(rem == 0);
        }
        lemma_trunc_div_fits(scaled_rem as int, denom as int);
    }
    q * numer + scaled_rem / denom
}

} // verus!
