//! Integer arithmetic the simulation is built on: magnitude, quotients
//! rounded toward zero, and the floor of a square root, with the lemmas
//! about them that the physics passes use.
use vstd::prelude::*;

verus! {

/// Magnitude of an integer.
pub open spec fn abs_int(x: int) -> int {
    if x < 0 {
        -x
    } else {
        x
    }
}

/// Quotient rounded toward zero, which is how Rust's integer division
/// rounds.
pub open spec fn div_tz(a: int, b: int) -> int
    recommends
        b > 0,
{
    if a >= 0 {
        a / b
    } else {
        -((-a) / b)
    }
}

/// Floor of the square root of a natural number.
pub open spec fn sqrt_floor(n: nat) -> nat
    decreases n,
{
    if n == 0 {
        0
    } else {
        let r = sqrt_floor((n - 1) as nat);
        if (r + 1) * (r + 1) <= n {
            r + 1
        } else {
            r
        }
    }
}

/// `sqrt_floor(n)` is the unique r with r * r <= n < (r + 1) * (r + 1).
pub proof fn lemma_sqrt_floor_bounds(n: nat)
    ensures
        sqrt_floor(n) * sqrt_floor(n) <= n,
        n < (sqrt_floor(n) + 1) * (sqrt_floor(n) + 1),
    decreases n,
{
    if n > 0 {
        lemma_sqrt_floor_bounds((n - 1) as nat);
        let r = sqrt_floor((n - 1) as nat);
        let s = sqrt_floor(n);
        if (r + 1) * (r + 1) <= n {
            assert(s == r + 1);
            assert(n == (r + 1) * (r + 1));
            assert((r + 1) * (r + 1) < (r + 2) * (r + 2)) by (nonlinear_arith);
            assert(s * s <= n);
            assert(n < (s + 1) * (s + 1));
        } else {
            assert(s == r);
            assert(s * s <= n);
            assert(n < (s + 1) * (s + 1));
        }
    } else {
        assert(sqrt_floor(n) == 0);
        assert(n < (sqrt_floor(n) + 1) * (sqrt_floor(n) + 1)) by (nonlinear_arith)
            requires
                n == 0 && sqrt_floor(n) == 0,
        ;
    }
}

pub proof fn lemma_sqrt_floor_unique(n: nat, r: nat)
    requires
        r * r <= n,
        n < (r + 1) * (r + 1),
    ensures
        r == sqrt_floor(n),
{
    lemma_sqrt_floor_bounds(n);
    let s = sqrt_floor(n);
    if r < s {
        assert((r + 1) * (r + 1) <= s * s) by (nonlinear_arith)
            requires
                r + 1 <= s,
        ;
        assert(false);
    }
    if s < r {
        assert((s + 1) * (s + 1) <= r * r) by (nonlinear_arith)
            requires
                s + 1 <= r,
        ;
        assert(false);
    }
}

/// A quotient toward zero lies between -k and k whenever the numerator
/// lies between -(k * b) and k * b.
pub proof fn lemma_div_tz_bounded(a: int, b: int, k: int)
    requires
        1 <= b,
        0 <= k,
        -(k * b) <= a <= k * b,
    ensures
        -k <= div_tz(a, b) <= k,
{
    if a >= 0 {
        assert(0 <= a / b <= k) by (nonlinear_arith)
            requires
                1 <= b && 0 <= k && 0 <= a && a <= k * b,
        ;
    } else {
        assert(0 <= (-a) / b <= k) by (nonlinear_arith)
            requires
                1 <= b && 0 <= k && 0 < -a && -a <= k * b,
        ;
    }
}

/// Dividing by a positive integer cannot grow the magnitude.
pub proof fn lemma_div_tz_shrinks(a: int, b: int)
    requires
        1 <= b,
    ensures
        abs_int(div_tz(a, b)) <= abs_int(a),
{
    assert(abs_int(a) * b >= abs_int(a)) by (nonlinear_arith)
        requires
            1 <= b && 0 <= abs_int(a),
    ;
    lemma_div_tz_bounded(a, b, abs_int(a));
}

/// A product of bounded factors is bounded by the product of the bounds.
pub proof fn lemma_mul_bounds(x: int, y: int, mx: int, my: int)
    requires
        abs_int(x) <= mx,
        abs_int(y) <= my,
    ensures
        -(mx * my) <= x * y <= mx * my,
{
    assert(-(mx * my) <= x * y <= mx * my) by (nonlinear_arith)
        requires
            -mx <= x <= mx && -my <= y <= my,
    ;
}

/// Twice a cross product is at most the sum of the squares.
pub proof fn lemma_cross_le_squares(x: int, y: int)
    ensures
        2 * abs_int(x * y) <= x * x + y * y,
{
    assert(2 * abs_int(x * y) <= x * x + y * y) by (nonlinear_arith);
}

/// The scaled dot product that the impulse step divides: its magnitude
/// is controlled by the squared distance, whatever direction the
/// centre line points.
pub proof fn lemma_dot_scaled_bound(dx: int, dy: int, vdx: int, vdy: int, w: int)
    requires
        -w <= vdx <= w,
        -w <= vdy <= w,
        0 <= w,
    ensures
        2 * abs_int(dx * (vdx * dx + vdy * dy)) <= 3 * (w * (dx * dx + dy * dy)),
{
    assert(dx * (vdx * dx + vdy * dy) == vdx * (dx * dx) + vdy * (dx * dy)) by (nonlinear_arith);
    assert(0 <= dx * dx) by (nonlinear_arith);
    assert(0 <= dy * dy) by (nonlinear_arith);
    lemma_mul_bounds(vdx, dx * dx, w, dx * dx);
    lemma_mul_bounds(vdy, dx * dy, w, abs_int(dx * dy));
    lemma_cross_le_squares(dx, dy);
    assert(2 * (w * abs_int(dx * dy)) <= w * (dx * dx + dy * dy)) by (nonlinear_arith)
        requires
            0 <= w && 2 * abs_int(dx * dy) <= dx * dx + dy * dy,
    ;
    assert(w * (dx * dx) <= w * (dx * dx + dy * dy)) by (nonlinear_arith)
        requires
            0 <= w && 0 <= dy * dy,
    ;
}

/// Quotient toward zero of two machine integers.
pub fn div_trunc(a: i128, b: i128) -> (q: i128)
    requires
        0 < b,
        i128::MIN < a,
    ensures
        q == div_tz(a as int, b as int),
{
    if a >= 0 {
        let n: u128 = a as u128;
        let d: u128 = b as u128;
        let r: u128 = n / d;
        proof {
            assert(n / d <= n) by (nonlinear_arith)
                requires
                    1 <= d,
            ;
        }
        r as i128
    } else {
        let n: u128 = (-a) as u128;
        let d: u128 = b as u128;
        let r: u128 = n / d;
        proof {
            assert(n / d <= n) by (nonlinear_arith)
                requires
                    1 <= d,
            ;
        }
        -(r as i128)
    }
}

/// Floor of the square root of a machine integer, by bisection.
pub fn isqrt(n: u128) -> (r: u128)
    ensures
        r == sqrt_floor(n as nat),
        r * r <= n,
        n < (r + 1) * (r + 1),
        r < 18446744073709551616,
{
    let mut lo: u128 = 0;
    let mut hi: u128 = 18446744073709551616;  // 2^64, whose square exceeds any u128
    proof {
        assert((hi as int) * (hi as int) > u128::MAX) by (nonlinear_arith)
            requires
                hi == 18446744073709551616,
        ;
    }
    while hi - lo > 1
        invariant
            lo < hi,
            hi <= 18446744073709551616,
            (lo as int) * (lo as int) <= n as int,
            (n as int) < (hi as int) * (hi as int),
        decreases hi - lo,
    {
        let mid = lo + (hi - lo) / 2;
        proof {
            assert((mid as int) * (mid as int) <= u128::MAX) by (nonlinear_arith)
                requires
                    mid < 18446744073709551616,
            ;
        }
        let sq = mid * mid;
        if sq <= n {
            lo = mid;
        } else {
            hi = mid;
        }
    }
    proof {
        lemma_sqrt_floor_unique(n as nat, lo as nat);
    }
    lo
}

} // verus!
