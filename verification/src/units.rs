use vstd::prelude::*;

verus! {

/// One whole unit, in millionths. Prices, probabilities, fractions and money
/// amounts are all carried as integers counted in millionths.
pub const ONE: i64 = 1_000_000;

/// `x` limited to the closed interval from `lo` to `hi`.
pub open spec fn clamp(x: int, lo: int, hi: int) -> int {
    if x < lo {
        lo
    } else if x > hi {
        hi
    } else {
        x
    }
}

/// The quotient of `a` by a positive `b`, rounded toward zero.
pub open spec fn div_trunc(a: int, b: int) -> int
    recommends
        b > 0,
{
    if a >= 0 {
        a / b
    } else {
        -((-a) / b)
    }
}

/// Computes the quotient rounded toward zero.
pub fn quot(a: i128, b: i128) -> (q: i128)
    requires
        b > 0,
        a > i128::MIN,
    ensures
        q == div_trunc(a as int, b as int),
{
    if a >= 0 {
        a / b
    } else {
        let m: i128 = -a;
        let d: i128 = m / b;
        -d
    }
}

/// Rounding toward zero keeps the order of the numerators.
pub proof fn lemma_div_trunc_monotone(a: int, b: int, d: int)
    requires
        a <= b,
        d > 0,
    ensures
        div_trunc(a, d) <= div_trunc(b, d),
{
    if a >= 0 {
        vstd::arithmetic::div_mod::lemma_div_is_ordered(a, b, d);
    } else if b < 0 {
        vstd::arithmetic::div_mod::lemma_div_is_ordered(-b, -a, d);
    } else {
        vstd::arithmetic::div_mod::lemma_div_pos_is_pos(-a, d);
        vstd::arithmetic::div_mod::lemma_div_pos_is_pos(b, d);
    }
}

/// Rounding toward zero commutes with negation.
pub proof fn lemma_div_trunc_neg(a: int, d: int)
    requires
        d > 0,
    ensures
        div_trunc(-a, d) == -div_trunc(a, d),
{
    if a == 0 {
        assert(0int / d == 0) by (nonlinear_arith)
            requires
                d > 0,
        ;
    }
}

/// Two numerators at least one divisor apart have distinct quotients.
pub proof fn lemma_div_trunc_strict(a: int, b: int, d: int)
    requires
        0 <= a,
        a + d <= b,
        d > 0,
    ensures
        div_trunc(a, d) < div_trunc(b, d),
{
    vstd::arithmetic::div_mod::lemma_div_is_ordered(a + d, b, d);
    assert((a + d) / d == a / d + 1) by (nonlinear_arith)
        requires
            d > 0,
    ;
}

/// `x` kept within the 64-bit signed range.
pub open spec fn within_i64(x: int) -> i64 {
    clamp(x, i64::MIN as int, i64::MAX as int) as i64
}

/// Keeps a 128-bit value within the 64-bit signed range.
pub fn saturate(x: i128) -> (r: i64)
    ensures
        r == within_i64(x as int),
{
    if x < i64::MIN as i128 {
        i64::MIN
    } else if x > i64::MAX as i128 {
        i64::MAX
    } else {
        x as i64
    }
}

/// The product of `a` and `b` over `d`, rounded toward zero and kept within
/// the 64-bit signed range.
pub fn scaled_quot(a: i128, b: u64, d: i64) -> (r: i64)
    requires
        -0x1_0000_0000_0000_0000 < a < 0x1_0000_0000_0000_0000,
        d > 0,
    ensures
        r == within_i64(div_trunc(a * b, d as int)),
{
    let negative: bool = a < 0;
    let size: u128 = if negative {
        (-a) as u128
    } else {
        a as u128
    };
    assert(0 <= size * b <= 0xffff_ffff_ffff_ffff * 0xffff_ffff_ffff_ffff) by (nonlinear_arith)
        requires
            0 <= size <= 0xffff_ffff_ffff_ffff,
            0 <= b <= 0xffff_ffff_ffff_ffff,
    ;
    let product: u128 = size * (b as u128);
    let q: u128 = product / (d as u128);
    proof {
        if negative {
            assert(a * b == -(size * b)) by (nonlinear_arith)
                requires
                    size == -a,
            ;
            if size * b == 0 {
                assert(0int / (d as int) == 0) by (nonlinear_arith)
                    requires
                        d > 0,
                ;
            }
        }
        vstd::arithmetic::div_mod::lemma_div_pos_is_pos(product as int, d as int);
    }
    if negative {
        if q > 0x8000_0000_0000_0000 {
            i64::MIN
        } else {
            (-(q as i128)) as i64
        }
    } else {
        if q > i64::MAX as u128 {
            i64::MAX
        } else {
            q as i64
        }
    }
}

} // verus!
