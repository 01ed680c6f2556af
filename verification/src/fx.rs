//! Fixed-point scalars.
//!
//! A scalar is an `i64` counting units of `1 / FX_ONE`; `FX_ONE` itself is
//! the number one. Products are scaled back down by `FX_ONE` and truncated
//! toward zero, the rounding Rust's `/` applies to signed integers, so every
//! operation here has an exact arithmetic description.

use vstd::prelude::*;
use vstd::arithmetic::div_mod::lemma_div_is_ordered;
use vstd::arithmetic::div_mod::lemma_div_pos_is_pos;
use vstd::arithmetic::div_mod::lemma_div_multiples_vanish;
use vstd::arithmetic::mul::lemma_mul_inequality;
use vstd::arithmetic::mul::lemma_mul_nonnegative;

verus! {

/// Number of fixed-point units in 1.0.
pub const FX_ONE: i64 = 6000;

/// Truncating (round-toward-zero) division by a positive divisor: the value
/// Rust's `/` computes on signed integers.
pub open spec fn tdiv(a: int, b: int) -> int
    recommends
        b > 0,
{
    if a >= 0 {
        a / b
    } else {
        -((-a) / b)
    }
}

/// The fixed-point product of `a` and `b`: the wide product scaled back down
/// by `FX_ONE`, truncated toward zero.
pub open spec fn fx_mul_spec(a: int, b: int) -> int {
    tdiv(a * b, FX_ONE as int)
}

/// Fixed-point multiplication.
pub fn fx_mul(a: i64, b: i64) -> (r: i64)
    requires
        i64::MIN <= a * b <= i64::MAX,
    ensures
        r == fx_mul_spec(a as int, b as int),
{
    (a * b) / FX_ONE
}

/// Truncating division by a positive divisor, as a named operation so that
/// contracts can speak of `tdiv` uniformly.
pub fn div_trunc(a: i64, b: i64) -> (r: i64)
    requires
        b > 0,
    ensures
        r == tdiv(a as int, b as int),
{
    a / b
}

/// `x` forced into `[lo, hi]`.
pub open spec fn clamp_spec(x: int, lo: int, hi: int) -> int
    recommends
        lo <= hi,
{
    if x < lo {
        lo
    } else if x > hi {
        hi
    } else {
        x
    }
}

/// Clamp `x` into `[lo, hi]`.
pub fn clamp(x: i64, lo: i64, hi: i64) -> (r: i64)
    requires
        lo <= hi,
    ensures
        r == clamp_spec(x as int, lo as int, hi as int),
{
    if x < lo {
        lo
    } else if x > hi {
        hi
    } else {
        x
    }
}

/// Scaling a difference by a factor in `[0, FX_ONE]` never enlarges it and
/// never flips its sign.
pub proof fn lemma_fx_scale_bounds(d: int, blend: int)
    requires
        0 <= blend <= FX_ONE as int,
    ensures
        d >= 0 ==> 0 <= fx_mul_spec(d, blend) <= d,
        d < 0 ==> d <= fx_mul_spec(d, blend) <= 0,
{
    let s = FX_ONE as int;
    if d >= 0 {
        lemma_mul_nonnegative(d, blend);
        lemma_div_pos_is_pos(d * blend, s);
        lemma_mul_inequality(blend, s, d);
        assert(d * blend == blend * d && d * s == s * d) by (nonlinear_arith);
        lemma_div_is_ordered(d * blend, d * s, s);
        lemma_div_multiples_vanish(d, s);
        assert((s * d) / s == d);
    } else {
        let n = -d;
        lemma_mul_nonnegative(n, blend);
        lemma_div_pos_is_pos(n * blend, s);
        lemma_mul_inequality(blend, s, n);
        assert(n * blend == blend * n && n * s == s * n) by (nonlinear_arith);
        lemma_div_is_ordered(n * blend, n * s, s);
        lemma_div_multiples_vanish(n, s);
        assert(d * blend == -((-d) * blend)) by (nonlinear_arith);
        assert(0 <= tdiv(n * blend, s) <= n);
        assert(fx_mul_spec(d, blend) == -tdiv(n * blend, s));
    }
}

/// Truncating division is monotone in the dividend.
pub proof fn lemma_tdiv_monotone(p: int, q: int, b: int)
    requires
        p <= q,
        b > 0,
    ensures
        tdiv(p, b) <= tdiv(q, b),
{
    if p >= 0 {
        lemma_div_is_ordered(p, q, b);
    } else if q < 0 {
        lemma_div_is_ordered(-q, -p, b);
    } else {
        lemma_div_pos_is_pos(-p, b);
        lemma_div_pos_is_pos(q, b);
    }
}

/// A quotient with dividend at most `b * c` in magnitude is at most `c` in
/// magnitude.
pub proof fn lemma_tdiv_ratio(a: int, b: int, c: int)
    requires
        b > 0,
        0 <= c,
        -(b * c) <= a <= b * c,
    ensures
        -c <= tdiv(a, b) <= c,
{
    lemma_div_multiples_vanish(c, b);
    if a >= 0 {
        lemma_div_pos_is_pos(a, b);
        lemma_div_is_ordered(a, b * c, b);
    } else {
        lemma_div_pos_is_pos(-a, b);
        lemma_div_is_ordered(-a, b * c, b);
    }
}

/// `x` squared.
pub open spec fn sq(x: int) -> int {
    x * x
}

/// Squaring is monotone on the nonnegative integers.
pub proof fn lemma_sq_monotone(a: int, b: int)
    requires
        0 <= a <= b,
    ensures
        sq(a) <= sq(b),
{
    assert(a * a <= b * b) by (nonlinear_arith)
        requires
            0 <= a <= b,
    ;
}

/// Squaring is strictly monotone on the nonnegative integers.
pub proof fn lemma_sq_strictly_monotone(a: int, b: int)
    requires
        0 <= a < b,
    ensures
        sq(a) < sq(b),
{
    assert(a * a < b * b) by (nonlinear_arith)
        requires
            0 <= a < b,
    ;
}

/// The greatest `r` with `r * r <= n`, defined by counting up.
pub open spec fn sqrt_floor(n: nat) -> nat
    decreases n,
{
    if n == 0 {
        0
    } else {
        let r: nat = sqrt_floor((n - 1) as nat);
        if sq(r as int + 1) <= n {
            r + 1
        } else {
            r
        }
    }
}

/// `sqrt_floor(n)` is the integer square root: its square is at most `n`,
/// and the next square is beyond `n`.
pub proof fn lemma_sqrt_floor_bounds(n: nat)
    ensures
        sq(sqrt_floor(n) as int) <= n < sq(sqrt_floor(n) as int + 1),
    decreases n,
{
    if n == 0 {
        assert(sqrt_floor(0) == 0);
        assert(sq(0) == 0);
        assert(sq(1) == 1);
    } else {
        lemma_sqrt_floor_bounds((n - 1) as nat);
        let r: nat = sqrt_floor((n - 1) as nat);
        assert(sqrt_floor(n) == if sq(r as int + 1) <= n {
            r + 1
        } else {
            r
        });
        if sq(r as int + 1) <= n {
            // n - 1 < sq(r + 1) <= n forces n == sq(r + 1).
            lemma_sq_strictly_monotone(r as int + 1, r as int + 2);
            assert(sq(sqrt_floor(n) as int) <= n);
            assert(n < sq(sqrt_floor(n) as int + 1));
        } else {
            assert(sq(sqrt_floor(n) as int) <= n);
            assert(n < sq(sqrt_floor(n) as int + 1));
        }
    }
}

/// Any `r` whose square brackets `n` is the integer square root of `n`.
pub proof fn lemma_sqrt_floor_unique(n: nat, r: nat)
    requires
        sq(r as int) <= n < sq(r as int + 1),
    ensures
        r == sqrt_floor(n),
{
    let s = sqrt_floor(n);
    lemma_sqrt_floor_bounds(n);
    if r < s {
        lemma_sq_monotone(r as int + 1, s as int);
    }
    if s < r {
        lemma_sq_monotone(s as int + 1, r as int);
    }
}

/// Integer square root by binary search.
pub fn isqrt(n: u64) -> (r: u64)
    ensures
        r as nat == sqrt_floor(n as nat),
        sq(r as int) <= (n as int) < sq(r as int + 1),
{
    let mut lo: u64 = 0;
    let mut hi: u64 = 0x1_0000_0000;
    while lo + 1 < hi
        invariant
            lo < hi <= 0x1_0000_0000,
            sq(lo as int) <= n as int,
            (n as int) < sq(hi as int),
        decreases hi - lo,
    {
        let mid = lo + (hi - lo) / 2;
        proof {
            lemma_sq_monotone(mid as int, 0xFFFF_FFFF);
        }
        let m2 = mid * mid;
        if m2 <= n {
            lo = mid;
        } else {
            hi = mid;
        }
    }
    proof {
        lemma_sqrt_floor_unique(n as nat, lo as nat);
    }
    lo
}

/// `x` to the tenth power, written over repeated squarings so that a proof
/// can follow the shape of the executable computation.
pub open spec fn pow10(x: int) -> int {
    let x2: int = x * x;
    let x4: int = x2 * x2;
    let x8: int = x4 * x4;
    x8 * x2
}

/// The tenth power is monotone on the nonnegative integers.
pub proof fn lemma_pow10_monotone(a: int, b: int)
    requires
        0 <= a <= b,
    ensures
        pow10(a) <= pow10(b),
{
    lemma_sq_monotone(a, b);
    lemma_mul_nonnegative(a, a);
    lemma_sq_monotone(a * a, b * b);
    lemma_mul_nonnegative(a * a, a * a);
    lemma_sq_monotone((a * a) * (a * a), (b * b) * (b * b));
    let a2: int = a * a;
    let a8: int = (a * a) * (a * a) * ((a * a) * (a * a));
    let b2: int = b * b;
    let b8: int = (b * b) * (b * b) * ((b * b) * (b * b));
    lemma_mul_nonnegative(a2 * a2, a2 * a2);
    assert(a8 * a2 <= b8 * b2) by (nonlinear_arith)
        requires
            0 <= a2 <= b2,
            0 <= a8 <= b8,
    ;
}

/// The tenth power is strictly monotone on the nonnegative integers.
pub proof fn lemma_pow10_strictly_monotone(a: int, b: int)
    requires
        0 <= a < b,
    ensures
        pow10(a) < pow10(b),
{
    lemma_sq_strictly_monotone(a, b);
    lemma_mul_nonnegative(a, a);
    lemma_sq_strictly_monotone(a * a, b * b);
    lemma_mul_nonnegative(a * a, a * a);
    lemma_sq_strictly_monotone((a * a) * (a * a), (b * b) * (b * b));
    let a2: int = a * a;
    let a8: int = (a * a) * (a * a) * ((a * a) * (a * a));
    let b2: int = b * b;
    let b8: int = (b * b) * (b * b) * ((b * b) * (b * b));
    lemma_mul_nonnegative(a2 * a2, a2 * a2);
    assert(a8 * a2 < b8 * b2) by (nonlinear_arith)
        requires
            0 <= a2 < b2,
            0 <= a8 < b8,
    ;
}

/// The greatest `r` with `r` to the tenth at most `n`, defined by counting up.
pub open spec fn root10_floor(n: nat) -> nat
    decreases n,
{
    if n == 0 {
        0
    } else {
        let r: nat = root10_floor((n - 1) as nat);
        if pow10(r as int + 1) <= n {
            r + 1
        } else {
            r
        }
    }
}

/// `root10_floor(n)` is the integer tenth root: its tenth power is at most
/// `n`, and the next tenth power is beyond `n`.
pub proof fn lemma_root10_floor_bounds(n: nat)
    ensures
        pow10(root10_floor(n) as int) <= n < pow10(root10_floor(n) as int + 1),
    decreases n,
{
    if n == 0 {
        assert(root10_floor(0) == 0);
        assert(pow10(0) == 0);
        assert(pow10(1) == 1);
    } else {
        lemma_root10_floor_bounds((n - 1) as nat);
        let r: nat = root10_floor((n - 1) as nat);
        assert(root10_floor(n) == if pow10(r as int + 1) <= n {
            r + 1
        } else {
            r
        });
        if pow10(r as int + 1) <= n {
            // n - 1 < pow10(r + 1) <= n forces n == pow10(r + 1).
            lemma_pow10_strictly_monotone(r as int + 1, r as int + 2);
            assert(pow10(root10_floor(n) as int) <= n);
            assert(n < pow10(root10_floor(n) as int + 1));
        } else {
            assert(pow10(root10_floor(n) as int) <= n);
            assert(n < pow10(root10_floor(n) as int + 1));
        }
    }
}

/// Any `r` whose tenth power brackets `n` is the integer tenth root of `n`.
pub proof fn lemma_root10_floor_unique(n: nat, r: nat)
    requires
        pow10(r as int) <= n < pow10(r as int + 1),
    ensures
        r == root10_floor(n),
{
    let s = root10_floor(n);
    lemma_root10_floor_bounds(n);
    if r < s {
        lemma_pow10_monotone(r as int + 1, s as int);
    }
    if s < r {
        lemma_pow10_monotone(s as int + 1, r as int);
    }
}

/// Integer tenth root by binary search, for arguments no larger than the
/// tenth power of `FX_ONE` (the range a clamped fixed-point base can reach).
pub fn root10(n: u128) -> (r: i64)
    requires
        n as int <= pow10(FX_ONE as int),
    ensures
        r as nat == root10_floor(n as nat),
        0 <= r <= FX_ONE,
        pow10(r as int) <= (n as int) < pow10(r as int + 1),
{
    let mut lo: i64 = 0;
    let mut hi: i64 = FX_ONE + 1;
    proof {
        lemma_pow10_strictly_monotone(FX_ONE as int, FX_ONE as int + 1);
    }
    while lo + 1 < hi
        invariant
            0 <= lo < hi <= FX_ONE + 1,
            pow10(lo as int) <= n as int,
            (n as int) < pow10(hi as int),
        decreases hi - lo,
    {
        let mid = lo + (hi - lo) / 2;
        let m: u128 = mid as u128;
        proof {
            assert((m as int) * (m as int) <= 36000000) by (nonlinear_arith)
                requires
                    0 <= (m as int) <= 6000,
            ;
        }
        let m2 = m * m;
        proof {
            assert((m2 as int) * (m2 as int) <= 1296000000000000) by (nonlinear_arith)
                requires
                    0 <= (m2 as int) <= 36000000,
            ;
        }
        let m4 = m2 * m2;
        proof {
            assert((m4 as int) * (m4 as int) <= 1679616000000000000000000000000) by (nonlinear_arith)
                requires
                    0 <= (m4 as int) <= 1296000000000000,
            ;
        }
        let m8 = m4 * m4;
        proof {
            assert((m8 as int) * (m2 as int) <= 60466176000000000000000000000000000000) by (nonlinear_arith)
                requires
                    0 <= (m8 as int) <= 1679616000000000000000000000000,
                    0 <= (m2 as int) <= 36000000,
            ;
        }
        let p = m8 * m2;
        proof {
            assert(p as int == pow10(mid as int));
        }
        if p <= n {
            lo = mid;
        } else {
            hi = mid;
        }
    }
    proof {
        lemma_root10_floor_unique(n as nat, lo as nat);
    }
    lo
}

/// The exact value of an interpolation step from `c` toward `t` by the
/// fraction `blend / FX_ONE`.
pub open spec fn lerp_spec(c: int, t: int, blend: int) -> int {
    c + fx_mul_spec(t - c, blend)
}

/// One step of exponential smoothing: move from `c` toward `t` by the
/// fraction `blend / FX_ONE`. The result never leaves the closed interval
/// between `c` and `t`, so repeated steps converge toward `t` without
/// overshooting.
pub fn lerp(c: i64, t: i64, blend: i64) -> (r: i64)
    requires
        0 <= blend <= FX_ONE,
        i64::MIN <= t - c <= i64::MAX,
        i64::MIN <= (t - c) * blend <= i64::MAX,
    ensures
        r == lerp_spec(c as int, t as int, blend as int),
        c <= t ==> c <= r <= t,
        t <= c ==> t <= r <= c,
{
    proof {
        lemma_fx_scale_bounds(t - c, blend as int);
    }
    let d = t - c;
    let step = fx_mul(d, blend);
    c + step
}

} // verus!
