//! Deterministic fixed-point scalar arithmetic.
//!
//! Every real quantity of the pipeline is carried as an `i64` raw value `v`
//! standing for the real number `v / FP`, with 16 fractional bits.  All
//! operations round toward zero and saturate at `FX_LIM`, so every operation
//! is total and its result is pinned exactly by a spec function over `int`.

use vstd::prelude::*;

verus! {

/// Scale of the fixed-point representation: a raw value `v` stands for `v / FP`.
pub const FP: i64 = 65536;

/// The raw form of one half.
pub const FP_HALF: i64 = 32768;

/// Saturation bound: every fixed-point result is clamped into
/// `[-FX_LIM, FX_LIM]` (two to the fortieth), which keeps all arithmetic in
/// range without tracking magnitudes through long formula chains.
pub const FX_LIM: i64 = 1099511627776;

pub open spec fn iabs(a: int) -> int {
    if a < 0 {
        -a
    } else {
        a
    }
}

pub open spec fn clamp_s(v: int, lo: int, hi: int) -> int {
    if v < lo {
        lo
    } else if v > hi {
        hi
    } else {
        v
    }
}

/// Saturation to the representable fixed-point range.
pub open spec fn sat_s(v: int) -> int {
    clamp_s(v, -(FX_LIM as int), FX_LIM as int)
}

/// Division rounded toward zero: the rounding rule of every fixed-point
/// division in this crate.  Meaningful only for `b != 0`.
pub open spec fn tdiv_s(a: int, b: int) -> int {
    if (a < 0) == (b < 0) {
        iabs(a) / iabs(b)
    } else {
        -(iabs(a) / iabs(b))
    }
}

/// A raw value within the saturation range.
pub open spec fn fx_ok(v: int) -> bool {
    -(FX_LIM as int) <= v <= FX_LIM as int
}

/// Fixed-point product: `a * b / FP`, rounded toward zero, saturated.
pub open spec fn fx_mul_s(a: int, b: int) -> int {
    sat_s(tdiv_s(a * b, FP as int))
}

/// Fixed-point quotient: `a * FP / b`, rounded toward zero, saturated.
/// A zero divisor yields zero: degenerate geometry must stay deterministic
/// and must not abort.
pub open spec fn fx_div_s(a: int, b: int) -> int {
    if b == 0 {
        0
    } else {
        sat_s(tdiv_s(a * (FP as int), b))
    }
}

/// Saturating sum.
pub open spec fn fx_add_s(a: int, b: int) -> int {
    sat_s(a + b)
}

/// Saturating difference.
pub open spec fn fx_sub_s(a: int, b: int) -> int {
    sat_s(a - b)
}

/// Division of `a` by `b`, rounded toward zero, computed over magnitudes so
/// that its value is pinned by `tdiv_s` for either sign of either operand.
pub fn tdiv128(a: i128, b: i128) -> (r: i128)
    requires
        b != 0,
        -0x40000000000000000000000000000000int <= a <= 0x40000000000000000000000000000000int,
        -0x40000000000000000000000000000000int <= b <= 0x40000000000000000000000000000000int,
    ensures
        r == tdiv_s(a as int, b as int),
        iabs(r as int) <= iabs(a as int),
        iabs((r as int) * (b as int)) <= iabs(a as int),
{
    let an: u128 = if a < 0 {
        (-a) as u128
    } else {
        a as u128
    };
    let bn: u128 = if b < 0 {
        (-b) as u128
    } else {
        b as u128
    };
    assert(an == iabs(a as int));
    assert(bn == iabs(b as int));
    let q: u128 = an / bn;
    assert(q <= an && q * bn <= an) by (nonlinear_arith)
        requires
            bn >= 1,
            q == an as int / bn as int,
            an >= 0,
    ;
    let qi: i128 = q as i128;
    let r: i128 = if (a < 0) != (b < 0) {
        -qi
    } else {
        qi
    };
    proof {
        assert(iabs((r as int) * (b as int)) <= iabs(a as int)) by (nonlinear_arith)
            requires
                q * bn <= an,
                an == iabs(a as int),
                bn == iabs(b as int),
                q >= 0,
                r == q || r == -(q as int),
                b == bn || b == -(bn as int),
        ;
    }
    r
}

/// Clamp of a wide intermediate into the saturation range.
pub fn sat128(v: i128) -> (r: i64)
    ensures
        r == sat_s(v as int),
        fx_ok(r as int),
{
    if v < -(FX_LIM as i128) {
        -FX_LIM
    } else if v > FX_LIM as i128 {
        FX_LIM
    } else {
        v as i64
    }
}

pub fn fx_mul(a: i64, b: i64) -> (r: i64)
    requires
        fx_ok(a as int),
        fx_ok(b as int),
    ensures
        r == fx_mul_s(a as int, b as int),
        fx_ok(r as int),
{
    assert((a as int) * (b as int) <= 0x40000000000000000000000000000000int && -0x40000000000000000000000000000000int <= (a as int) * (
    b as int)) by (nonlinear_arith)
        requires
            -(FX_LIM as int) <= a as int <= FX_LIM as int,
            -(FX_LIM as int) <= b as int <= FX_LIM as int,
    ;
    let p: i128 = (a as i128) * (b as i128);
    let q: i128 = tdiv128(p, FP as i128);
    sat128(q)
}

pub fn fx_div(a: i64, b: i64) -> (r: i64)
    requires
        fx_ok(a as int),
    ensures
        r == fx_div_s(a as int, b as int),
        fx_ok(r as int),
{
    if b == 0 {
        0
    } else {
        let p: i128 = (a as i128) * (FP as i128);
        let q: i128 = tdiv128(p, b as i128);
        sat128(q)
    }
}

pub fn fx_add(a: i64, b: i64) -> (r: i64)
    requires
        fx_ok(a as int),
        fx_ok(b as int),
    ensures
        r == fx_add_s(a as int, b as int),
        fx_ok(r as int),
{
    sat128((a as i128) + (b as i128))
}

pub fn fx_sub(a: i64, b: i64) -> (r: i64)
    requires
        fx_ok(a as int),
        fx_ok(b as int),
    ensures
        r == fx_sub_s(a as int, b as int),
        fx_ok(r as int),
{
    sat128((a as i128) - (b as i128))
}

/// Clamp into `[lo, hi]`.
pub fn fx_clamp(v: i64, lo: i64, hi: i64) -> (r: i64)
    requires
        lo <= hi,
    ensures
        r == clamp_s(v as int, lo as int, hi as int),
{
    if v < lo {
        lo
    } else if v > hi {
        hi
    } else {
        v
    }
}

/// The integer square root: the greatest `r` with `r * r <= n`.
pub open spec fn is_sqrt_s(n: int, r: int) -> bool {
    0 <= r && r * r <= n && n < (r + 1) * (r + 1)
}

pub open spec fn sqrt_s(n: int) -> int {
    choose|r: int| is_sqrt_s(n, r)
}

pub proof fn lemma_sqrt_unique(n: int, r1: int, r2: int)
    requires
        is_sqrt_s(n, r1),
        is_sqrt_s(n, r2),
    ensures
        r1 == r2,
{
    assert(r1 == r2) by (nonlinear_arith)
        requires
            0 <= r1 && r1 * r1 <= n && n < (r1 + 1) * (r1 + 1),
            0 <= r2 && r2 * r2 <= n && n < (r2 + 1) * (r2 + 1),
    ;
}

/// Binary search for the integer square root.
pub fn isqrt128(n: u128) -> (r: u128)
    ensures
        r == sqrt_s(n as int),
        is_sqrt_s(n as int, r as int),
{
    let mut lo: u128 = 0;
    let mut hi: u128 = 0x10000000000000000;
    while lo + 1 < hi
        invariant
            0 <= lo < hi <= 0x10000000000000000,
            lo * lo <= n,
            hi * hi > n,
        decreases hi - lo,
    {
        let mid: u128 = lo + (hi - lo) / 2;
        assert(lo < mid < hi);
        assert(mid * mid < 0x100000000000000000000000000000000int) by (nonlinear_arith)
            requires
                0 <= mid < 0x10000000000000000int,
        ;
        if mid * mid <= n {
            lo = mid;
        } else {
            hi = mid;
        }
    }
    proof {
        assert(is_sqrt_s(n as int, lo as int));
        lemma_sqrt_unique(n as int, lo as int, sqrt_s(n as int));
    }
    lo
}

/// Natural powers, the spec behind the gamma-encoding root.
pub open spec fn pw(b: int, e: nat) -> int
    decreases e,
{
    if e == 0 {
        1
    } else {
        b * pw(b, (e - 1) as nat)
    }
}

pub proof fn lemma_pw_mono(a: int, b: int, e: nat)
    requires
        0 <= a <= b,
    ensures
        0 <= pw(a, e) <= pw(b, e),
    decreases e,
{
    if e > 0 {
        lemma_pw_mono(a, b, (e - 1) as nat);
        assert(0 <= a * pw(a, (e - 1) as nat) <= b * pw(b, (e - 1) as nat)) by (nonlinear_arith)
            requires
                0 <= a <= b,
                0 <= pw(a, (e - 1) as nat) <= pw(b, (e - 1) as nat),
        ;
    }
}

pub proof fn lemma_pw_strict_mono(a: int, b: int, e: nat)
    requires
        0 <= a < b,
        e >= 1,
    ensures
        pw(a, e) < pw(b, e),
    decreases e,
{
    lemma_pw_mono(a, b, (e - 1) as nat);
    lemma_pw_positive(b, (e - 1) as nat);
    assert(a * pw(a, (e - 1) as nat) < b * pw(b, (e - 1) as nat)) by (nonlinear_arith)
        requires
            0 <= a < b,
            0 <= pw(a, (e - 1) as nat) <= pw(b, (e - 1) as nat),
            pw(b, (e - 1) as nat) >= 1,
    ;
}

pub proof fn lemma_pw_positive(b: int, e: nat)
    requires
        b >= 1,
    ensures
        pw(b, e) >= 1,
    decreases e,
{
    if e > 0 {
        lemma_pw_positive(b, (e - 1) as nat);
        assert(b * pw(b, (e - 1) as nat) >= 1) by (nonlinear_arith)
            requires
                b >= 1,
                pw(b, (e - 1) as nat) >= 1,
        ;
    }
}

/// Powers of small naturals, executable.
pub fn pow_u(b: u64, e: u64) -> (r: u128)
    requires
        b <= 2049,
        e <= 11,
    ensures
        r == pw(b as int, e as nat),
{
    let mut acc: u128 = 1;
    let mut i: u64 = 0;
    while i < e
        invariant
            0 <= i <= e <= 11,
            b <= 2049,
            acc == pw(b as int, i as nat),
            acc <= pw(2049, i as nat),
        decreases e - i,
    {
        proof {
            assert(acc * b <= pw(2049, i as nat) * 2049) by (nonlinear_arith)
                requires
                    0 <= acc <= pw(2049, i as nat),
                    0 <= b <= 2049,
            ;
            assert(pw(2049, (i + 1) as nat) == 2049 * pw(2049, i as nat));
            lemma_pw_mono_exp(2049, (i + 1) as nat, 11);
            reveal_with_fuel(pw, 12);
            assert(pw(2049, 11) < 0xffffffffffffffffffffffffffffffffint);
            assert(pw(b as int, (i + 1) as nat) == b * pw(b as int, i as nat));
        }
        acc = (b as u128) * acc;
        i = i + 1;
        proof {
            lemma_pw_mono(b as int, 2049, i as nat);
        }
    }
    acc
}

pub proof fn lemma_pw_mono_exp(b: int, e1: nat, e2: nat)
    requires
        b >= 1,
        e1 <= e2,
    ensures
        pw(b, e1) <= pw(b, e2),
    decreases e2 - e1,
{
    if e1 < e2 {
        lemma_pw_mono_exp(b, e1, (e2 - 1) as nat);
        lemma_pw_positive(b, (e2 - 1) as nat);
        assert(pw(b, (e2 - 1) as nat) <= b * pw(b, (e2 - 1) as nat)) by (nonlinear_arith)
            requires
                b >= 1,
                pw(b, (e2 - 1) as nat) >= 1,
        ;
    }
}

/// Gamma encoding at eleven fractional bits: the greatest `r` with
/// `(r / 2048) ^ 11 <= (x / 2048) ^ 5`, that is the floor of
/// `2048 * (x / 2048) ^ (5/11)` -- and `5 / 11` is exactly `1 / 2.2`.
pub open spec fn is_gamma11_s(x: int, r: int) -> bool {
    0 <= r && pw(r, 11) <= pw(x, 5) * 0x40000000000000000 && pw(x, 5) * 0x40000000000000000 < pw(
        r + 1,
        11,
    )
}

pub open spec fn gamma11_s(x: int) -> int {
    choose|r: int| is_gamma11_s(x, r)
}

pub proof fn lemma_gamma11_unique(x: int, r1: int, r2: int)
    requires
        is_gamma11_s(x, r1),
        is_gamma11_s(x, r2),
    ensures
        r1 == r2,
{
    if r1 < r2 {
        lemma_pw_mono(r1 + 1, r2, 11);
    }
    if r2 < r1 {
        lemma_pw_mono(r2 + 1, r1, 11);
    }
}

/// Executable gamma-encoding root at eleven fractional bits.
pub fn gamma11(x: u64) -> (r: u64)
    requires
        x <= 2048,
    ensures
        r == gamma11_s(x as int),
        r <= 2048,
        is_gamma11_s(x as int, r as int),
{
    let p5: u128 = pow_u(x, 5);
    proof {
        lemma_pw_mono(x as int, 2048, 5);
        reveal_with_fuel(pw, 12);
        assert(pw(2048, 5) == 0x80000000000000int);
        assert(pw(2048, 11) == 0x2000000000000000000000000000000int);
        lemma_pw_strict_mono(2048, 2049, 11);
    }
    let t: u128 = p5 * 0x40000000000000000u128;
    let mut lo: u64 = 0;
    let mut hi: u64 = 2049;
    proof {
        reveal_with_fuel(pw, 12);
        assert(pw(0, 11) == 0);
        lemma_pw_mono(0, x as int, 5);
    }
    while lo + 1 < hi
        invariant
            0 <= lo < hi <= 2049,
            x <= 2048,
            t == pw(x as int, 5) * 0x40000000000000000,
            t <= 0x2000000000000000000000000000000int,
            pw(lo as int, 11) <= t,
            pw(hi as int, 11) > t,
        decreases hi - lo,
    {
        let mid: u64 = lo + (hi - lo) / 2;
        assert(lo < mid < hi);
        let p = pow_u(mid, 11);
        if p <= t {
            lo = mid;
        } else {
            hi = mid;
        }
    }
    proof {
        assert(is_gamma11_s(x as int, lo as int));
        lemma_gamma11_unique(x as int, lo as int, gamma11_s(x as int));
    }
    lo
}

/// Gamma encoding of a fixed-point value in `[0, 1]`, computed at eleven
/// fractional bits and scaled back: the exact power `(5/11)`, which is
/// `1 / 2.2`, at that granularity.
pub open spec fn gamma_fx_s(x: int) -> int {
    gamma11_s(x / 32) * 32
}

pub fn gamma_fx(x: i64) -> (r: i64)
    requires
        0 <= x <= FP,
    ensures
        r == gamma_fx_s(x as int),
        0 <= r <= FP,
{
    let x11: u64 = (x as u64) / 32;
    let g = gamma11(x11);
    (g * 32) as i64
}

/// The packed byte of a color channel: the channel scaled by 255.99,
/// rounded toward zero, then saturated into a byte as a narrowing cast
/// would saturate it.
pub open spec fn to255_s(c: int) -> int {
    clamp_s(tdiv_s(c * 25599, 6553600), 0, 255)
}

pub fn to255(c: i64) -> (r: u8)
    requires
        fx_ok(c as int),
    ensures
        r == to255_s(c as int),
{
    if c <= 0 {
        proof {
            assert(tdiv_s(c * 25599, 6553600) <= 0) by (nonlinear_arith)
                requires
                    c <= 0,
            ;
        }
        0
    } else if c >= FP {
        proof {
            assert(tdiv_s(c * 25599, 6553600) >= 255) by (nonlinear_arith)
                requires
                    c >= 65536,
            ;
        }
        255
    } else {
        let w: u64 = ((c as u64) * 25599) / 6553600;
        assert(w <= 255);
        w as u8
    }
}

} // verus!
