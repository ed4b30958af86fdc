//! Fixed-point scalars.
//!
//! Every quantity of the simulation (a length, a speed, a time stamp, hit
//! points) is an `i64` that counts millionths: the value `ONE` stands for
//! 1.0. Results that do not fit are clamped to the nearest `i64`, and a
//! quotient or product is rounded toward zero, so that every operation is total
//! and a trajectory is reproducible on every machine.
use vstd::prelude::*;

verus! {

/// The representation of 1.0.
pub const ONE: i64 = 1_000_000;

/// The representation of -1.0.
pub const NEG_ONE: i64 = -1_000_000;

/// The representation of 2.0.
pub const TWO: i64 = 2_000_000;

/// The `i64` nearest to a mathematical integer.
pub open spec fn clamp(v: int) -> i64 {
    if v < i64::MIN {
        i64::MIN
    } else if v > i64::MAX {
        i64::MAX
    } else {
        v as i64
    }
}

/// The quotient `n / d` rounded toward zero.
pub open spec fn trunc_div(n: int, d: int) -> int
    recommends
        d != 0,
{
    if n >= 0 {
        if d > 0 {
            n / d
        } else {
            -(n / (-d))
        }
    } else {
        if d > 0 {
            -((-n) / d)
        } else {
            (-n) / (-d)
        }
    }
}

/// The clamped sum.
pub open spec fn spec_sat_add(a: i64, b: i64) -> i64 {
    clamp(a + b)
}

/// The clamped difference.
pub open spec fn spec_sat_sub(a: i64, b: i64) -> i64 {
    clamp(a - b)
}

/// The clamped negation.
pub open spec fn spec_sat_neg(a: i64) -> i64 {
    clamp(-a)
}

/// The clamped absolute value.
pub open spec fn spec_sat_abs(a: i64) -> i64 {
    if a < 0 {
        clamp(-a)
    } else {
        a
    }
}

/// The sign as a fixed-point factor: `NEG_ONE` below zero, `ONE` otherwise. Zero
/// counts as positive.
pub open spec fn spec_signum(a: i64) -> i64 {
    if a < 0 {
        NEG_ONE
    } else {
        ONE
    }
}

/// The lesser of two scalars.
pub open spec fn spec_fx_min(a: i64, b: i64) -> i64 {
    if b < a {
        b
    } else {
        a
    }
}

/// The fixed-point product: `a * b / ONE`, rounded toward zero and clamped.
pub open spec fn spec_fx_mul(a: i64, b: i64) -> i64 {
    clamp(trunc_div(a * b, ONE as int))
}

/// The fixed-point quotient: `a * ONE / b`, rounded toward zero and clamped.
pub open spec fn spec_fx_div(a: i64, b: i64) -> i64
    recommends
        b != 0,
{
    clamp(trunc_div(a * ONE, b as int))
}

fn narrow(v: i128) -> (r: i64)
    ensures
        r == clamp(v as int),
{
    if v < i64::MIN as i128 {
        i64::MIN
    } else if v > i64::MAX as i128 {
        i64::MAX
    } else {
        v as i64
    }
}

fn wide_trunc_div(n: i128, d: i128) -> (q: i128)
    requires
        d != 0,
        i128::MIN < n,
        i128::MIN < d,
    ensures
        q == trunc_div(n as int, d as int),
{
    let n_neg = n < 0;
    let d_neg = d < 0;
    let n_abs: u128 = if n_neg {
        (-n) as u128
    } else {
        n as u128
    };
    let d_abs: u128 = if d_neg {
        (-d) as u128
    } else {
        d as u128
    };
    let q_abs: u128 = n_abs / d_abs;
    assert(q_abs <= n_abs) by (nonlinear_arith)
        requires
            q_abs == n_abs / d_abs,
            d_abs >= 1,
    ;
    if n_neg == d_neg {
        q_abs as i128
    } else {
        -(q_abs as i128)
    }
}

/// Adds two scalars, clamping the result.
#[verifier::when_used_as_spec(spec_sat_add)]
pub fn sat_add(a: i64, b: i64) -> (r: i64)
    ensures
        r == spec_sat_add(a, b),
{
    narrow(a as i128 + b as i128)
}

/// Subtracts `b` from `a`, clamping the result.
#[verifier::when_used_as_spec(spec_sat_sub)]
pub fn sat_sub(a: i64, b: i64) -> (r: i64)
    ensures
        r == spec_sat_sub(a, b),
{
    narrow(a as i128 - b as i128)
}

/// Negates a scalar, clamping the result.
#[verifier::when_used_as_spec(spec_sat_neg)]
pub fn sat_neg(a: i64) -> (r: i64)
    ensures
        r == spec_sat_neg(a),
{
    narrow(-(a as i128))
}

/// The absolute value of a scalar, clamped.
#[verifier::when_used_as_spec(spec_sat_abs)]
pub fn sat_abs(a: i64) -> (r: i64)
    ensures
        r == spec_sat_abs(a),
{
    if a < 0 {
        narrow(-(a as i128))
    } else {
        a
    }
}

/// The sign of a scalar as a factor, `NEG_ONE` or `ONE`.
#[verifier::when_used_as_spec(spec_signum)]
pub fn signum(a: i64) -> (r: i64)
    ensures
        r == spec_signum(a),
{
    if a < 0 {
        NEG_ONE
    } else {
        ONE
    }
}

/// The lesser of two scalars.
#[verifier::when_used_as_spec(spec_fx_min)]
pub fn fx_min(a: i64, b: i64) -> (r: i64)
    ensures
        r == spec_fx_min(a, b),
{
    if b < a {
        b
    } else {
        a
    }
}

/// Multiplies two fixed-point scalars.
#[verifier::when_used_as_spec(spec_fx_mul)]
pub fn fx_mul(a: i64, b: i64) -> (r: i64)
    ensures
        r == spec_fx_mul(a, b),
{
    let x: i128 = a as i128;
    let y: i128 = b as i128;
    assert(-0x4000_0000_0000_0000_0000_0000_0000_0000 <= x * y
        <= 0x4000_0000_0000_0000_0000_0000_0000_0000) by (nonlinear_arith)
        requires
            -0x8000_0000_0000_0000 <= x <= 0x8000_0000_0000_0000,
            -0x8000_0000_0000_0000 <= y <= 0x8000_0000_0000_0000,
    ;
    narrow(wide_trunc_div(x * y, ONE as i128))
}

/// Divides one fixed-point scalar by another.
#[verifier::when_used_as_spec(spec_fx_div)]
pub fn fx_div(a: i64, b: i64) -> (r: i64)
    requires
        b != 0,
    ensures
        r == spec_fx_div(a, b),
{
    let x: i128 = a as i128;
    let unit: i128 = ONE as i128;
    assert(-0x4000_0000_0000_0000_0000_0000_0000_0000 <= x * unit
        <= 0x4000_0000_0000_0000_0000_0000_0000_0000) by (nonlinear_arith)
        requires
            -0x8000_0000_0000_0000 <= x <= 0x8000_0000_0000_0000,
            unit == 1_000_000,
    ;
    narrow(wide_trunc_div(x * unit, b as i128))
}

/// Whether `r` is the square root of `n`, rounded down.
pub open spec fn is_root(r: nat, n: nat) -> bool {
    r * r <= n < (r + 1) * (r + 1)
}

/// The square root of `n`, rounded down.
pub open spec fn spec_isqrt(n: nat) -> nat {
    choose|r: nat| is_root(r, n)
}

/// A number has one rounded-down square root only.
pub proof fn lemma_root_unique(a: nat, b: nat, n: nat)
    requires
        is_root(a, n),
        is_root(b, n),
    ensures
        a == b,
{
    if a < b {
        assert((a + 1) * (a + 1) <= b * b) by (nonlinear_arith)
            requires
                a + 1 <= b,
        ;
    } else if b < a {
        assert((b + 1) * (b + 1) <= a * a) by (nonlinear_arith)
            requires
                b + 1 <= a,
        ;
    }
}

/// The square root of `n`, rounded down.
#[verifier::when_used_as_spec(spec_isqrt_of)]
pub fn isqrt(n: u128) -> (r: u64)
    ensures
        is_root(r as nat, n as nat),
        r == spec_isqrt(n as nat),
{
    let mut lo: u128 = 0;
    let mut hi: u128 = 0x1_0000_0000_0000_0000;
    assert(hi * hi > n) by (nonlinear_arith)
        requires
            hi == 0x1_0000_0000_0000_0000,
            n <= 0xffff_ffff_ffff_ffff_ffff_ffff_ffff_ffff,
    ;
    while hi - lo > 1
        invariant
            lo < hi <= 0x1_0000_0000_0000_0000,
            lo * lo <= n < hi * hi,
        decreases hi - lo,
    {
        let mid: u128 = lo + (hi - lo) / 2;
        assert(mid * mid <= 0xffff_ffff_ffff_ffff * 0xffff_ffff_ffff_ffff) by (nonlinear_arith)
            requires
                mid <= 0xffff_ffff_ffff_ffff,
        ;
        if mid * mid <= n {
            lo = mid;
        } else {
            hi = mid;
        }
    }
    proof {
        assert(hi == lo + 1);
        lemma_root_unique(lo as nat, spec_isqrt(n as nat), n as nat);
    }
    lo as u64
}

/// The square root of `n`, rounded down.
pub open spec fn spec_isqrt_of(n: u128) -> u64 {
    spec_isqrt(n as nat) as u64
}

/// Multiplying by `ONE` changes nothing, and multiplying by `NEG_ONE` negates.
pub proof fn lemma_mul_by_unit(a: i64)
    ensures
        spec_fx_mul(a, ONE) == a,
        spec_fx_mul(ONE, a) == a,
        spec_fx_mul(a, NEG_ONE) == spec_sat_neg(a),
        spec_fx_mul(NEG_ONE, a) == spec_sat_neg(a),
{
    let m: int = ONE as int;
    assert((a * m) / m == a) by (nonlinear_arith)
        requires
            m == 1_000_000,
    ;
    assert((-(a * m)) / m == -a) by (nonlinear_arith)
        requires
            m == 1_000_000,
    ;
    assert(a * NEG_ONE == -(a * m)) by (nonlinear_arith)
        requires
            m == ONE,
    ;
    assert(NEG_ONE * a == -(a * m)) by (nonlinear_arith)
        requires
            m == ONE,
    ;
    assert(ONE * a == a * m) by (nonlinear_arith)
        requires
            m == ONE,
    ;
}

} // verus!
