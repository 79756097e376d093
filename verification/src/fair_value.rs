use vstd::prelude::*;
use vstd::math::abs;
use crate::units::{
    clamp, div_trunc, lemma_div_trunc_monotone, lemma_div_trunc_neg, lemma_div_trunc_strict, quot,
    ONE,
};

verus! {

/// The probability of an undecided outcome.
pub const HALF: i64 = 500_000;

/// The largest distance that the price move may push the fair value from
/// one half.
pub const MAX_SHIFT: i64 = 450_000;

/// The lowest fair value ever returned.
pub const MIN_FAIR: i64 = 50_000;

/// The highest fair value ever returned.
pub const MAX_FAIR: i64 = 950_000;

/// The elapsed share of the window, in millionths, limited to the window.
pub open spec fn elapsed_frac(time_remaining_frac: int) -> int {
    clamp(ONE - time_remaining_frac, 0, ONE as int)
}

/// Ten times the certainty, in millionths: the certainty is 0.3 at the
/// window's open and grows linearly to 1.0 at its close.
pub open spec fn certainty_tenths(time_remaining_frac: int) -> int {
    3 * ONE + 7 * elapsed_frac(time_remaining_frac)
}

/// The numerator of the exact shift. The exact shift, in millionths, is this
/// numerator over `open_price`: the relative move times 80 times the
/// certainty.
pub open spec fn shift_numerator(spot_now: int, open_price: int, time_remaining_frac: int) -> int {
    (spot_now - open_price) * 8 * certainty_tenths(time_remaining_frac)
}

/// The shift in millionths, rounded toward zero and not yet limited.
pub open spec fn rounded_shift(spot_now: int, open_price: int, time_remaining_frac: int) -> int
    recommends
        open_price > 0,
{
    div_trunc(shift_numerator(spot_now, open_price, time_remaining_frac), open_price)
}

/// The shift in millionths, rounded toward zero and limited to 0.45 either
/// way.
pub open spec fn shift(spot_now: int, open_price: int, time_remaining_frac: int) -> int
    recommends
        open_price > 0,
{
    clamp(
        rounded_shift(spot_now, open_price, time_remaining_frac),
        -MAX_SHIFT,
        MAX_SHIFT as int,
    )
}

/// The fair probability, in millionths, that the window closes above its
/// opening price.
pub open spec fn fair_yes_value(spot_now: int, open_price: int, time_remaining_frac: int) -> int {
    if open_price <= 0 || spot_now <= 0 || time_remaining_frac < 0 {
        HALF as int
    } else {
        clamp(
            HALF + shift(spot_now, open_price, time_remaining_frac),
            MIN_FAIR as int,
            MAX_FAIR as int,
        )
    }
}

/// The fair probability of the opposite outcome.
pub open spec fn fair_no_value(spot_now: int, open_price: int, time_remaining_frac: int) -> int {
    ONE - fair_yes_value(spot_now, open_price, time_remaining_frac)
}

/// Fair value of the YES side of an up/down window. Prices are in millionths
/// of the quote currency, `time_remaining_frac` and the result in millionths
/// of one.
pub fn fair_yes(spot_now: i64, open_price: i64, time_remaining_frac: i64) -> (fair: i64)
    ensures
        fair == fair_yes_value(spot_now as int, open_price as int, time_remaining_frac as int),
        MIN_FAIR <= fair <= MAX_FAIR,
{
    if open_price <= 0 || spot_now <= 0 {
        return HALF;
    }
    if time_remaining_frac < 0 {
        return HALF;
    }
    let elapsed: i128 = if time_remaining_frac > ONE {
        0
    } else {
        ONE as i128 - time_remaining_frac as i128
    };
    let tenths: i128 = 3 * (ONE as i128) + 7 * elapsed;
    let diff: i128 = spot_now as i128 - open_price as i128;
    assert(-0x1_0000_0000_0000_0000 * 80_000_000 < diff * 8 * tenths < 0x1_0000_0000_0000_0000
        * 80_000_000)
        by (nonlinear_arith)
        requires
            -0x1_0000_0000_0000_0000 < diff < 0x1_0000_0000_0000_0000,
            3_000_000 <= tenths <= 10_000_000,
    ;
    let numerator: i128 = diff * 8 * tenths;
    let raw: i128 = quot(numerator, open_price as i128);
    let shifted: i128 = if raw < -(MAX_SHIFT as i128) {
        -(MAX_SHIFT as i128)
    } else if raw > MAX_SHIFT as i128 {
        MAX_SHIFT as i128
    } else {
        raw
    };
    let fair: i128 = HALF as i128 + shifted;
    fair as i64
}

/// Fair value of the NO side: what is left of one after the YES side.
pub fn fair_no(spot_now: i64, open_price: i64, time_remaining_frac: i64) -> (fair: i64)
    ensures
        fair == fair_no_value(spot_now as int, open_price as int, time_remaining_frac as int),
        MIN_FAIR <= fair <= MAX_FAIR,
{
    ONE - fair_yes(spot_now, open_price, time_remaining_frac)
}

/// The fair values of the two sides add up to one, whatever the inputs.
pub proof fn lemma_fair_complement(spot_now: int, open_price: int, time_remaining_frac: int)
    ensures
        fair_yes_value(spot_now, open_price, time_remaining_frac) + fair_no_value(
            spot_now,
            open_price,
            time_remaining_frac,
        ) == ONE,
{
}

/// While the spot stands at the opening price the fair value is one half, at
/// every moment of the window.
pub proof fn lemma_fair_flat(price: int, time_remaining_frac: int)
    requires
        0 <= time_remaining_frac <= ONE,
    ensures
        fair_yes_value(price, price, time_remaining_frac) == HALF,
{
    if price > 0 {
        assert(shift_numerator(price, price, time_remaining_frac) == 0) by (nonlinear_arith);
        assert(0int / price == 0) by (nonlinear_arith)
            requires
                price > 0,
        ;
    }
}

/// A higher spot never gives a lower fair value, the opening price and the
/// time being the same.
pub proof fn lemma_fair_monotone_in_spot(
    higher: int,
    lower: int,
    open_price: int,
    time_remaining_frac: int,
)
    requires
        higher > lower > 0,
    ensures
        fair_yes_value(higher, open_price, time_remaining_frac) >= fair_yes_value(
            lower,
            open_price,
            time_remaining_frac,
        ),
{
    if open_price > 0 && time_remaining_frac >= 0 {
        let c = certainty_tenths(time_remaining_frac);
        assert((lower - open_price) * 8 * c <= (higher - open_price) * 8 * c) by (nonlinear_arith)
            requires
                lower < higher,
                c > 0,
        ;
        lemma_div_trunc_monotone(
            shift_numerator(lower, open_price, time_remaining_frac),
            shift_numerator(higher, open_price, time_remaining_frac),
            open_price,
        );
    }
}

/// As the window runs down, a spot away from the opening price pushes the
/// fair value away from one half. The exact shift grows strictly in size; the
/// fair value, which is rounded to millionths and limited to 0.45 from one
/// half, never moves back and stays on the side of the move. It moves
/// strictly on exactly those inputs on which the rounded shifts differ and
/// the earlier one lies below that limit; that is so, below the limit, once
/// the exact shifts lie a millionth apart.
pub proof fn lemma_fair_moves_away_with_time(
    spot_now: int,
    open_price: int,
    earlier_frac: int,
    later_frac: int,
)
    requires
        spot_now > 0,
        open_price > 0,
        spot_now != open_price,
        0 <= later_frac < earlier_frac <= ONE,
    ensures
        abs(shift_numerator(spot_now, open_price, later_frac)) > abs(
            shift_numerator(spot_now, open_price, earlier_frac),
        ),
        abs(fair_yes_value(spot_now, open_price, later_frac) - HALF) >= abs(
            fair_yes_value(spot_now, open_price, earlier_frac) - HALF,
        ),
        spot_now > open_price ==> fair_yes_value(spot_now, open_price, later_frac)
            >= fair_yes_value(spot_now, open_price, earlier_frac) >= HALF,
        spot_now < open_price ==> fair_yes_value(spot_now, open_price, later_frac)
            <= fair_yes_value(spot_now, open_price, earlier_frac) <= HALF,
        abs(shift_numerator(spot_now, open_price, later_frac)) - abs(
            shift_numerator(spot_now, open_price, earlier_frac),
        ) >= open_price && abs(fair_yes_value(spot_now, open_price, earlier_frac) - HALF)
            < MAX_SHIFT ==> abs(fair_yes_value(spot_now, open_price, later_frac) - HALF) > abs(
            fair_yes_value(spot_now, open_price, earlier_frac) - HALF,
        ),
        abs(fair_yes_value(spot_now, open_price, later_frac) - HALF) > abs(
            fair_yes_value(spot_now, open_price, earlier_frac) - HALF,
        ) <==> rounded_shift(spot_now, open_price, later_frac) != rounded_shift(
            spot_now,
            open_price,
            earlier_frac,
        ) && abs(fair_yes_value(spot_now, open_price, earlier_frac) - HALF) < MAX_SHIFT,
{
    let c1 = certainty_tenths(earlier_frac);
    let c2 = certainty_tenths(later_frac);
    let n1 = shift_numerator(spot_now, open_price, earlier_frac);
    let n2 = shift_numerator(spot_now, open_price, later_frac);
    let d = spot_now - open_price;
    assert(0 < c1 < c2);
    if d > 0 {
        assert(0 <= d * 8 * c1 < d * 8 * c2) by (nonlinear_arith)
            requires
                d > 0,
                0 < c1 < c2,
        ;
        lemma_div_trunc_monotone(n1, n2, open_price);
        lemma_div_trunc_monotone(0, n1, open_price);
        assert(0int / open_price == 0) by (nonlinear_arith)
            requires
                open_price > 0,
        ;
        if n2 - n1 >= open_price {
            lemma_div_trunc_strict(n1, n2, open_price);
        }
    } else {
        assert(0 <= (-d) * 8 * c1 < (-d) * 8 * c2) by (nonlinear_arith)
            requires
                d < 0,
                0 < c1 < c2,
        ;
        assert(n1 == -((-d) * 8 * c1)) by (nonlinear_arith)
            requires
                n1 == d * 8 * c1,
        ;
        assert(n2 == -((-d) * 8 * c2)) by (nonlinear_arith)
            requires
                n2 == d * 8 * c2,
        ;
        lemma_div_trunc_neg(-n1, open_price);
        lemma_div_trunc_neg(-n2, open_price);
        lemma_div_trunc_monotone(-n1, -n2, open_price);
        lemma_div_trunc_monotone(0, -n1, open_price);
        assert(0int / open_price == 0) by (nonlinear_arith)
            requires
                open_price > 0,
        ;
        if (-n2) - (-n1) >= open_price {
            lemma_div_trunc_strict(-n1, -n2, open_price);
        }
    }
}

} // verus!
