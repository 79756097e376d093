pub mod positions;

use vstd::prelude::*;
use vstd::math::abs;
use vstd::string::StringExecFns;
use crate::data::{one_less, one_more, SharedLiveStats};
use crate::divergence::{DivEvent, Signal};
use crate::redemption::PendingPosition;
use crate::units::ONE;

verus! {

/// The millionths in one hundredth.
pub const CENT: i64 = 10_000;

/// An order is cancelled this long before the window's end, in
/// milliseconds.
pub const CANCEL_LEAD_MS: u64 = 5_000;

/// An order is never cancelled sooner than this after it was placed, in
/// milliseconds.
pub const MIN_CANCEL_DELAY_MS: u64 = 2_000;

/// The pause between two readings of the balance, in milliseconds.
pub const BALANCE_INTERVAL_MS: u64 = 60_000;

/// Why no order can be made of a signal.
#[derive(Clone, Copy, Debug, PartialEq, Eq, Structural)]
pub enum ExecError {
    /// The price is zero, or the number of shares, counted in millionths,
    /// does not fit in 64 bits.
    InvalidSize,
}

/// A limit order to buy, ready for the order client. Price and size are in
/// hundredths: the price in hundredths of one unit of payout, the size in
/// hundredths of a share.
#[derive(Clone, Debug)]
pub struct OrderPlan {
    pub token_id: String,
    pub price_cents: i64,
    pub size_cents: i64,
}

/// An order as plain data.
pub struct OrderData {
    pub token_id: Seq<char>,
    pub price_cents: i64,
    pub size_cents: i64,
}

impl View for OrderPlan {
    type V = OrderData;

    open spec fn view(&self) -> OrderData {
        OrderData {
            token_id: self.token_id@,
            price_cents: self.price_cents,
            size_cents: self.size_cents,
        }
    }
}

/// `x` in units of `unit`, rounded to the nearest; a value halfway between
/// two goes to the even one. The sign plays no part in the rounding.
pub open spec fn round_half_even(x: int, unit: int) -> int
    recommends
        unit > 0,
{
    let q = (abs(x) as int) / unit;
    let r = (abs(x) as int) % unit;
    let rounded = if 2 * r > unit || (2 * r == unit && q % 2 == 1) {
        q + 1
    } else {
        q
    };
    if x < 0 {
        -rounded
    } else {
        rounded
    }
}

/// Rounds an amount in millionths to hundredths with
/// `rust_decimal::Decimal::round_dp`, which rounds to the nearest and sends
/// a value halfway between two to the even one. The amount is handed over
/// as a decimal of six places (`Decimal::new`) and the hundredths are read
/// back with `mantissa`.
#[verifier::external_body]
fn round_to_cents(micros: i64) -> (cents: i64)
    ensures
        cents == round_half_even(micros as int, CENT as int),
{
    rust_decimal::Decimal::new(micros, 6).round_dp(2).mantissa() as i64
}

/// The quotient of `n` by `u`, rounded to the nearest whole number; a
/// quotient halfway between two goes to the even one.
pub open spec fn ratio_half_even(n: int, u: int) -> int
    recommends
        n >= 0,
        u > 0,
{
    let q = n / u;
    let r = n % u;
    if 2 * r > u || (2 * r == u && q % 2 == 1) {
        q + 1
    } else {
        q
    }
}

/// The shares that an amount buys at a price above zero, in hundredths of
/// a share: the exact quotient of the two, rounded to the nearest
/// hundredth and to the even one from halfway.
pub open spec fn size_in_cents(size_usd: u64, price: i64) -> int
    recommends
        price > 0,
{
    ratio_half_even(size_usd * ONE, price * CENT)
}

/// The shares that an amount buys at a price above zero, in millionths of
/// a share and rounded down. Their number must fit in 64 bits.
pub open spec fn shares_of(size_usd: u64, price: i64) -> int
    recommends
        price > 0,
{
    (size_usd * ONE) / (price as int)
}

/// The order that a signal gives. The size is the amount over the price,
/// rounded to two decimal places; the price is rounded likewise. A size
/// that is not above zero gives no order, and so does every price below
/// zero. A price of zero is an error, and so are shares beyond 64 bits.
pub open spec fn planned(signal: Signal) -> Result<Option<OrderData>, ExecError> {
    if signal.price == 0 {
        Err(ExecError::InvalidSize)
    } else if signal.price < 0 {
        Ok(None)
    } else if shares_of(signal.size_usd, signal.price) > i64::MAX {
        Err(ExecError::InvalidSize)
    } else {
        let size = size_in_cents(signal.size_usd, signal.price);
        if size <= 0 {
            Ok(None)
        } else {
            Ok(
                Some(
                    OrderData {
                        token_id: signal.token_id@,
                        price_cents: round_half_even(signal.price as int, CENT as int) as i64,
                        size_cents: size as i64,
                    },
                ),
            )
        }
    }
}

/// The quotient cut to millionths, with one millionth added where the
/// cutting left a rest and the cut value lies halfway between two
/// hundredths: the value whose rounding to hundredths is the rounding of
/// the exact quotient.
pub open spec fn nudged(n: int, p: int) -> int
    recommends
        n >= 0,
        p > 0,
{
    if n % p != 0 && (n / p) % (CENT as int) == CENT / 2 {
        n / p + 1
    } else {
        n / p
    }
}

/// Rounding the nudged cut to hundredths gives the rounding of the exact
/// quotient: the cut loses less than a millionth, which matters only
/// halfway between two hundredths.
pub proof fn lemma_nudged_rounding(n: int, p: int)
    requires
        n >= 0,
        p > 0,
    ensures
        round_half_even(nudged(n, p), CENT as int) == ratio_half_even(n, p * CENT),
        nudged(n, p) >= 0,
{
    let cut = n / p;
    let rest = n % p;
    let q = cut / 10_000;
    let t = cut % 10_000;
    let u = p * 10_000;
    vstd::arithmetic::div_mod::lemma_fundamental_div_mod(n, p);
    vstd::arithmetic::div_mod::lemma_div_pos_is_pos(n, p);
    assert(0 <= rest < p);
    assert(cut == q * 10_000 + t);
    let big = t * p + rest;
    assert(0 <= big < u && n == q * u + big) by (nonlinear_arith)
        requires
            n == p * cut + rest,
            cut == q * 10_000 + t,
            0 <= t <= 9_999,
            0 <= rest < p,
            u == p * 10_000,
            big == t * p + rest,
    ;
    vstd::arithmetic::div_mod::lemma_fundamental_div_mod_converse(n, u, q, big);
    assert(n / u == q && n % u == big);
    if t < 5_000 {
        assert(2 * big < u) by (nonlinear_arith)
            requires
                big == t * p + rest,
                0 <= t <= 4_999,
                0 <= rest < p,
                u == p * 10_000,
        ;
    } else if t > 5_000 {
        assert(2 * big > u) by (nonlinear_arith)
            requires
                big == t * p + rest,
                t >= 5_001,
                0 <= rest < p,
                u == p * 10_000,
        ;
    } else {
        assert(2 * big == u + 2 * rest) by (nonlinear_arith)
            requires
                big == t * p + rest,
                t == 5_000,
                u == p * 10_000,
        ;
        if rest != 0 {
            vstd::arithmetic::div_mod::lemma_fundamental_div_mod_converse(
                cut + 1,
                10_000,
                q,
                5_001,
            );
        }
    }
}

/// The plain data of the order that may come of a signal.
pub open spec fn plan_data(r: Result<Option<OrderPlan>, ExecError>) -> Result<
    Option<OrderData>,
    ExecError,
> {
    match r {
        Ok(Some(p)) => Ok(Some(p@)),
        Ok(None) => Ok(None),
        Err(e) => Err(e),
    }
}

/// The wait before the cancel of an order placed with `remaining_ms` left
/// in the window: until five seconds before the end, and two seconds at
/// least.
pub open spec fn cancel_delay(remaining_ms: u64) -> u64 {
    if remaining_ms >= CANCEL_LEAD_MS + MIN_CANCEL_DELAY_MS {
        (remaining_ms - CANCEL_LEAD_MS) as u64
    } else {
        MIN_CANCEL_DELAY_MS
    }
}

/// The time left in a window of `duration_secs` seconds of which the share
/// `time_remaining_frac`, in millionths, is left; in milliseconds, rounded
/// up and kept within 64 bits. A negative share counts as none. The share
/// of a signal was rounded down; rounding up here gives back the very
/// milliseconds it was made of, for every window of up to 1000 seconds.
pub open spec fn remaining_of(time_remaining_frac: i64, duration_secs: u64) -> u64 {
    if time_remaining_frac <= 0 {
        0
    } else if (time_remaining_frac * duration_secs + 999) / 1000 > u64::MAX {
        u64::MAX
    } else {
        ((time_remaining_frac * duration_secs + 999) / 1000) as u64
    }
}

/// The time left at a signal is the time that was left in the window: the
/// share that the signal carries, made of `remaining_ms` of a window of
/// `duration_secs` seconds and rounded down to millionths, gives those
/// milliseconds back, for every window of up to 1000 seconds.
pub proof fn lemma_remaining_recovered(remaining_ms: u64, duration_secs: u64)
    requires
        0 < duration_secs <= 1000,
        remaining_ms <= duration_secs * 1000,
    ensures
        (remaining_ms * ONE) / (duration_secs * 1000) <= ONE,
        remaining_of(((remaining_ms * ONE) / (duration_secs * 1000)) as i64, duration_secs)
            == remaining_ms,
{
    let length = duration_secs * 1000;
    let scaled = remaining_ms * 1_000_000;
    let f = scaled / length;
    vstd::arithmetic::div_mod::lemma_fundamental_div_mod(scaled, length);
    vstd::arithmetic::div_mod::lemma_div_pos_is_pos(scaled, length);
    let rest = scaled % length;
    assert(0 <= rest < length);
    assert(scaled == length * f + rest);
    assert(f * duration_secs <= remaining_ms * 1000 && f * duration_secs + 999 >= remaining_ms
        * 1000 && f <= 1_000_000) by (nonlinear_arith)
        requires
            remaining_ms * 1_000_000 == duration_secs * 1000 * f + rest,
            0 <= rest < duration_secs * 1000,
            0 < duration_secs <= 1000,
            0 <= remaining_ms <= duration_secs * 1000,
            f >= 0,
    ;
    let x = f * duration_secs + 999;
    if remaining_ms > 0 {
        assert(f > 0) by (nonlinear_arith)
            requires
                f * duration_secs + 999 >= remaining_ms * 1000,
                remaining_ms >= 1,
                f >= 0,
                duration_secs > 0,
        ;
    }
    vstd::arithmetic::div_mod::lemma_fundamental_div_mod(x, 1000);
    assert(x / 1000 == remaining_ms) by {
        let q = x / 1000;
        assert(1000 * remaining_ms <= x < 1000 * remaining_ms + 1000);
        assert(x == 1000 * q + x % 1000);
        assert(0 <= x % 1000 < 1000);
    }
}

/// The amount over a price above zero, cut to millionths of a share, and
/// what the cutting left.
pub fn cut_shares(size_usd: u64, price: i64) -> (r: (u128, u128))
    requires
        price > 0,
    ensures
        r.0 == shares_of(size_usd, price),
        r.1 == (size_usd * ONE) % (price as int),
{
    assert(0 <= size_usd * ONE <= 0xffff_ffff_ffff_ffff * 1_000_000) by (nonlinear_arith)
        requires
            0 <= size_usd <= 0xffff_ffff_ffff_ffff,
            ONE == 1_000_000,
    ;
    let amount: u128 = size_usd as u128 * ONE as u128;
    (amount / price as u128, amount % price as u128)
}

/// Makes the order of a signal: price and size rounded to two decimal
/// places, the size being the amount over the price. A size that rounds to
/// nothing gives no order.
pub fn plan_order(signal: &Signal) -> (plan: Result<Option<OrderPlan>, ExecError>)
    ensures
        plan_data(plan) == planned(*signal),
{
    if signal.price == 0 {
        return Err(ExecError::InvalidSize);
    }
    if signal.price < 0 {
        return Ok(None);
    }
    let (cut, rest) = cut_shares(signal.size_usd, signal.price);
    if cut > i64::MAX as u128 {
        return Err(ExecError::InvalidSize);
    }
    let on_half: bool = cut % (CENT as u128) == (CENT as u128) / 2;
    proof {
        lemma_nudged_rounding(signal.size_usd * ONE, signal.price as int);
        assert(0x7fff_ffff_ffff_ffffint % 10_000 == 5_807);
    }
    let amount: i64 = if rest != 0 && on_half {
        (cut + 1) as i64
    } else {
        cut as i64
    };
    let size_cents: i64 = round_to_cents(amount);
    if size_cents <= 0 {
        return Ok(None);
    }
    Ok(
        Some(
            OrderPlan {
                token_id: signal.token_id.clone(),
                price_cents: round_to_cents(signal.price),
                size_cents,
            },
        ),
    )
}

/// The wait before the cancel of an order.
pub fn cancel_delay_ms(remaining_ms: u64) -> (delay: u64)
    ensures
        delay == cancel_delay(remaining_ms),
        delay >= MIN_CANCEL_DELAY_MS,
{
    if remaining_ms >= CANCEL_LEAD_MS + MIN_CANCEL_DELAY_MS {
        remaining_ms - CANCEL_LEAD_MS
    } else {
        MIN_CANCEL_DELAY_MS
    }
}

/// The time left in the window at the moment of a signal.
pub fn remaining_at_signal(time_remaining_frac: i64, duration_secs: u64) -> (ms: u64)
    ensures
        ms == remaining_of(time_remaining_frac, duration_secs),
{
    if time_remaining_frac <= 0 {
        return 0;
    }
    assert(0 <= time_remaining_frac * duration_secs <= 0x7fff_ffff_ffff_ffff
        * 0xffff_ffff_ffff_ffff) by (nonlinear_arith)
        requires
            0 <= time_remaining_frac <= 0x7fff_ffff_ffff_ffff,
            0 <= duration_secs <= 0xffff_ffff_ffff_ffff,
    ;
    let scaled: u128 = time_remaining_frac as u128 * duration_secs as u128 + 999;
    let ms: u128 = scaled / 1000;
    if ms > u64::MAX as u128 {
        u64::MAX
    } else {
        ms as u64
    }
}

/// What the executor does with an event.
#[derive(Debug)]
pub enum ExecStep {
    /// Hand the order to the order client.
    Place { plan: OrderPlan },
    /// The order would have no size: it is dropped without a word.
    Drop,
    /// No order can be made: report the error.
    Fail { error: ExecError },
    /// A divergence closed: only a line in the log.
    Note,
}

/// The plain data of a step.
pub open spec fn step_data(step: ExecStep) -> Result<Option<OrderData>, ExecError>
    recommends
        !(step is Note),
{
    match step {
        ExecStep::Place { plan } => Ok(Some(plan@)),
        ExecStep::Fail { error } => Err(error),
        _ => Ok(None),
    }
}

/// Takes one event in. A signal is counted as an open position before its
/// order is made; the count is taken back at once where no order comes of
/// it. A convergence changes nothing.
pub fn begin_event(event: &DivEvent, stats: &mut SharedLiveStats) -> (step: ExecStep)
    ensures
        match *event {
            DivEvent::Signal(signal) => {
                &&& step_data(step) == planned(signal)
                &&& !(step is Note)
                &&& step is Place <==> (planned(signal) is Ok && planned(signal)->Ok_0 is Some)
                &&& step is Drop <==> (planned(signal) is Ok && planned(signal)->Ok_0 is None)
                &&& *final(stats) == (if step is Place {
                    SharedLiveStats { open: one_more(old(stats).open), ..*old(stats) }
                } else {
                    SharedLiveStats { open: one_less(one_more(old(stats).open)), ..*old(stats) }
                })
            },
            DivEvent::Converged { .. } => step is Note && *final(stats) == *old(stats),
        },
{
    match event {
        DivEvent::Signal(signal) => {
            stats.note_signal();
            match plan_order(signal) {
                Ok(Some(plan)) => ExecStep::Place { plan },
                Ok(None) => {
                    stats.note_order_failed();
                    ExecStep::Drop
                },
                Err(error) => {
                    stats.note_order_failed();
                    ExecStep::Fail { error }
                },
            }
        },
        DivEvent::Converged { .. } => ExecStep::Note,
    }
}

/// Takes in what the order client said of a placed order. A posted order
/// gives the position that the redemption loop is to follow; a failed one
/// takes the count of open positions back.
pub fn finish_order(signal: &Signal, posted: bool, stats: &mut SharedLiveStats) -> (pending:
    Option<PendingPosition>)
    ensures
        posted ==> *final(stats) == *old(stats) && pending is Some && pending->0@
            == crate::redemption::pending_of(*signal),
        !posted ==> pending is None && *final(stats) == (SharedLiveStats {
            open: one_less(old(stats).open),
            ..*old(stats)
        }),
{
    if posted {
        Some(
            PendingPosition {
                condition_id: signal.condition_id.clone(),
                market_name: signal.market_name.clone(),
                side: String::from_str(signal.side.label()),
                entry_price: signal.price,
                size_usd: signal.size_usd,
            },
        )
    } else {
        stats.note_order_failed();
        None
    }
}

} // verus!
