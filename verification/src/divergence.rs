use vstd::prelude::*;
use vstd::math::abs;
use crate::book::{mid_of, token_mid, BookSnapshot, TokenBook};
use crate::config::StrategyConfig;
use crate::fair_value::{fair_yes, fair_yes_value};
use crate::strmap::StrMap;
use crate::units::{clamp, div_trunc, quot, ONE};
use crate::window::Window;

verus! {

/// The pair of midpoints must add up to at least this much, where it adds
/// up to anything.
pub const PAIR_SUM_MIN: i64 = 850_000;

/// The pair of midpoints must add up to at most this much.
pub const PAIR_SUM_MAX: i64 = 1_150_000;

/// Each side must be quoted at this midpoint at least.
pub const MIN_QUOTE: i64 = 200_000;

/// No signal is given while the fair value lies below this.
pub const FAIR_BAND_MIN: i64 = 300_000;

/// No signal is given while the fair value lies above this.
pub const FAIR_BAND_MAX: i64 = 700_000;

/// One price step of the market.
pub const TICK: i64 = 10_000;

/// The lowest limit price that is posted.
pub const PRICE_MIN: i64 = 350_000;

/// The highest limit price that is posted.
pub const PRICE_MAX: i64 = 650_000;

/// The largest edge that is believed.
pub const MAX_EDGE: i64 = 150_000;

/// The side of a window that a signal buys.
#[derive(Clone, Copy, Debug, PartialEq, Eq, Structural)]
pub enum Side {
    BuyYes,
    BuyNo,
}

/// A decision to buy one side of one window. Probabilities, prices and
/// fractions are in millionths; the size is zero until the risk manager
/// sets it.
#[derive(Clone, Debug)]
pub struct Signal {
    pub market_name: String,
    pub asset: String,
    pub condition_id: String,
    pub token_id: String,
    pub side: Side,
    pub fair_value: i64,
    pub clob_mid: i64,
    pub edge: i64,
    pub price: i64,
    pub size_usd: u64,
    pub move_pct: i64,
    pub time_remaining_frac: i64,
}

/// What one evaluation of one window may report.
#[derive(Clone, Debug)]
pub enum DivEvent {
    Signal(Signal),
    Converged { market_name: String, duration_ms: u64, peak_edge: i64 },
}

/// The record of a divergence that is open on a window.
#[derive(Clone, Copy, Debug, PartialEq, Eq, Structural)]
pub struct OpenDivergence {
    /// The reading of the monotonic clock, in milliseconds, at which the
    /// divergence opened.
    pub opened_at: u64,
    /// The largest edge seen while it has been open.
    pub peak_edge: i64,
    /// Whether its signal has been given.
    pub signaled: bool,
}

/// The numbers of a signal: what passing every gate yields for a window.
#[derive(Clone, Copy, Debug, PartialEq, Eq, Structural)]
pub struct Quote {
    pub side: Side,
    pub fair_value: i64,
    pub clob_mid: i64,
    pub edge: i64,
    pub price: i64,
    pub move_pct: i64,
    pub time_remaining_frac: i64,
}

/// The open divergences, by window slug.
pub type DivergenceBook = StrMap<OpenDivergence>;

/// The relative move of the spot since the open, in millionths, rounded
/// toward zero and kept within 64 bits.
pub open spec fn move_frac(spot: int, open_price: int) -> int
    recommends
        open_price > 0,
{
    clamp(div_trunc((spot - open_price) * ONE, open_price), i64::MIN as int, i64::MAX as int)
}

/// The market-quality gates that come before a side is chosen.
pub open spec fn gates_pass(
    w: Window,
    spot: i64,
    yes_mid: i64,
    no_mid: i64,
    cfg: StrategyConfig,
    now_ms: u64,
) -> bool {
    let fv_yes = fair_yes_value(
        spot as int,
        w.open_price as int,
        w.remaining_frac_capped(now_ms),
    );
    &&& !w.expired(now_ms)
    &&& w.open_price > 0
    &&& w.remaining(now_ms) >= cfg.late_window_guard_secs * 1000
    &&& abs(spot - w.open_price) * ONE >= cfg.min_move_pct * w.open_price
    &&& (yes_mid > 0 || no_mid > 0)
    &&& (yes_mid + no_mid > 0 ==> PAIR_SUM_MIN <= yes_mid + no_mid <= PAIR_SUM_MAX)
    &&& yes_mid >= MIN_QUOTE
    &&& no_mid >= MIN_QUOTE
    &&& FAIR_BAND_MIN <= fv_yes <= FAIR_BAND_MAX
}

/// The side with the larger edge; YES where the two are equal.
pub open spec fn better_side(fv_yes: int, yes_mid: int, no_mid: int) -> Side {
    if fv_yes - yes_mid >= (ONE - fv_yes) - no_mid {
        Side::BuyYes
    } else {
        Side::BuyNo
    }
}

/// The limit price: one step better than the midpoint, and never above one
/// step below the fair value.
pub open spec fn limit_price(clob_mid: int, fair: int) -> int {
    if clob_mid + TICK <= fair - TICK {
        clob_mid + TICK
    } else {
        fair - TICK
    }
}

/// What the evaluation of one window yields: the numbers of a signal where
/// every gate passes, the chosen side has an edge above the configured one
/// and not above the largest believed, and the limit price lies in its
/// band.
pub open spec fn assessed(
    w: Window,
    spot: i64,
    yes_mid: i64,
    no_mid: i64,
    cfg: StrategyConfig,
    now_ms: u64,
) -> Option<Quote> {
    let frac = w.remaining_frac_capped(now_ms);
    let fv_yes = fair_yes_value(spot as int, w.open_price as int, frac);
    let side = better_side(fv_yes, yes_mid as int, no_mid as int);
    let fair = if side == Side::BuyYes {
        fv_yes
    } else {
        ONE - fv_yes
    };
    let mid = if side == Side::BuyYes {
        yes_mid as int
    } else {
        no_mid as int
    };
    let edge = fair - mid;
    let price = limit_price(mid, fair);
    if gates_pass(w, spot, yes_mid, no_mid, cfg, now_ms) && edge > cfg.min_edge && PRICE_MIN
        <= price <= PRICE_MAX && abs(edge) <= MAX_EDGE {
        Some(
            Quote {
                side,
                fair_value: fair as i64,
                clob_mid: mid as i64,
                edge: edge as i64,
                price: price as i64,
                move_pct: move_frac(spot as int, w.open_price as int) as i64,
                time_remaining_frac: frac as i64,
            },
        )
    } else {
        None
    }
}

/// The signal that a quote gives on a window.
pub open spec fn signal_of(w: Window, q: Quote) -> Signal {
    Signal {
        market_name: w.slug,
        asset: w.asset,
        condition_id: w.condition_id,
        token_id: if q.side == Side::BuyYes {
            w.yes_token
        } else {
            w.no_token
        },
        side: q.side,
        fair_value: q.fair_value,
        clob_mid: q.clob_mid,
        edge: q.edge,
        price: q.price,
        size_usd: 0,
        move_pct: q.move_pct,
        time_remaining_frac: q.time_remaining_frac,
    }
}

/// The time that a divergence has been open at the reading `mono_ms` of the
/// monotonic clock.
pub open spec fn open_for(d: OpenDivergence, mono_ms: u64) -> u64 {
    if mono_ms >= d.opened_at {
        (mono_ms - d.opened_at) as u64
    } else {
        0
    }
}

/// One evaluation of one window against the open divergences. A quote on a
/// window without open divergence opens one and gives the signal; a quote
/// on a window with one only raises its peak; no quote closes the open
/// divergence and reports that the market converged.
pub open spec fn window_step(
    w: Window,
    quote: Option<Quote>,
    divs: Map<Seq<char>, OpenDivergence>,
    mono_ms: u64,
) -> (Map<Seq<char>, OpenDivergence>, Option<DivEvent>) {
    let key = w.slug@;
    match quote {
        Some(q) => {
            if divs.dom().contains(key) {
                let d = divs[key];
                let peak = if q.edge > d.peak_edge {
                    q.edge
                } else {
                    d.peak_edge
                };
                (divs.insert(key, OpenDivergence { peak_edge: peak, ..d }), None)
            } else {
                (
                    divs.insert(
                        key,
                        OpenDivergence { opened_at: mono_ms, peak_edge: q.edge, signaled: true },
                    ),
                    Some(DivEvent::Signal(signal_of(w, q))),
                )
            }
        },
        None => {
            if divs.dom().contains(key) {
                let d = divs[key];
                (
                    divs.remove(key),
                    Some(
                        DivEvent::Converged {
                            market_name: w.slug,
                            duration_ms: open_for(d, mono_ms),
                            peak_edge: d.peak_edge,
                        },
                    ),
                )
            } else {
                (divs, None)
            }
        },
    }
}

/// The evaluation of the first `n` windows in their order: the open
/// divergences that it leaves and the events that it reports.
pub open spec fn evaluated(
    windows: Seq<Window>,
    n: int,
    spot: i64,
    books: Map<Seq<char>, TokenBook>,
    cfg: StrategyConfig,
    divs: Map<Seq<char>, OpenDivergence>,
    now_ms: u64,
    mono_ms: u64,
) -> (Map<Seq<char>, OpenDivergence>, Seq<DivEvent>)
    decreases n,
{
    if n <= 0 {
        (divs, Seq::<DivEvent>::empty())
    } else {
        let (before, events) = evaluated(windows, n - 1, spot, books, cfg, divs, now_ms, mono_ms);
        let w = windows[n - 1];
        let quote = assessed(
            w,
            spot,
            mid_of(books, w.yes_token@) as i64,
            mid_of(books, w.no_token@) as i64,
            cfg,
            now_ms,
        );
        let (after, event) = window_step(w, quote, before, mono_ms);
        (
            after,
            match event {
                Some(e) => events.push(e),
                None => events,
            },
        )
    }
}

impl Side {
    /// The name of the side as it is written in records.
    pub open spec fn label_text(self) -> Seq<char> {
        if self == Side::BuyYes {
            "BUY_YES"@
        } else {
            "BUY_NO"@
        }
    }

    /// The name of the side as it is written in records.
    pub fn label(&self) -> (name: &'static str)
        ensures
            name@ == self.label_text(),
    {
        match self {
            Side::BuyYes => "BUY_YES",
            Side::BuyNo => "BUY_NO",
        }
    }
}

/// Evaluates one window against the spot and the two midpoints.
pub fn assess(
    w: &Window,
    spot: i64,
    yes_mid: i64,
    no_mid: i64,
    cfg: &StrategyConfig,
    now_ms: u64,
) -> (quote: Option<Quote>)
    ensures
        quote == assessed(*w, spot, yes_mid, no_mid, *cfg, now_ms),
{
    if w.is_expired(now_ms) || w.open_price <= 0 {
        return None;
    }
    let guard_ms: u128 = cfg.late_window_guard_secs as u128 * 1000;
    if (w.time_remaining(now_ms) as u128) < guard_ms {
        return None;
    }
    let diff: i128 = spot as i128 - w.open_price as i128;
    let size: i128 = if diff < 0 {
        -diff
    } else {
        diff
    };
    assert(0 <= size * ONE <= 0x1_0000_0000_0000_0000 * 1_000_000) by (nonlinear_arith)
        requires
            0 <= size <= 0x1_0000_0000_0000_0000,
            ONE == 1_000_000,
    ;
    assert(0 <= cfg.min_move_pct * w.open_price <= 0xffff_ffff * 0x7fff_ffff_ffff_ffff)
        by (nonlinear_arith)
        requires
            0 <= cfg.min_move_pct <= 0xffff_ffff,
            0 < w.open_price <= 0x7fff_ffff_ffff_ffff,
    ;
    if size * (ONE as i128) < cfg.min_move_pct as i128 * w.open_price as i128 {
        return None;
    }
    let pair_sum: i128 = yes_mid as i128 + no_mid as i128;
    if !(yes_mid > 0 || no_mid > 0) {
        return None;
    }
    if pair_sum > 0 && (pair_sum < PAIR_SUM_MIN as i128 || pair_sum > PAIR_SUM_MAX as i128) {
        return None;
    }
    if yes_mid < MIN_QUOTE || no_mid < MIN_QUOTE {
        return None;
    }
    let frac: i64 = w.time_remaining_frac(now_ms);
    let fv_yes: i64 = fair_yes(spot, w.open_price, frac);
    if fv_yes < FAIR_BAND_MIN || fv_yes > FAIR_BAND_MAX {
        return None;
    }
    let yes_edge: i128 = fv_yes as i128 - yes_mid as i128;
    let no_edge: i128 = (ONE - fv_yes) as i128 - no_mid as i128;
    let side: Side = if yes_edge >= no_edge {
        Side::BuyYes
    } else {
        Side::BuyNo
    };
    let fair: i64 = match side {
        Side::BuyYes => fv_yes,
        Side::BuyNo => ONE - fv_yes,
    };
    let mid: i64 = match side {
        Side::BuyYes => yes_mid,
        Side::BuyNo => no_mid,
    };
    let edge: i128 = fair as i128 - mid as i128;
    let price: i128 = if mid as i128 + TICK as i128 <= fair as i128 - TICK as i128 {
        mid as i128 + TICK as i128
    } else {
        fair as i128 - TICK as i128
    };
    if edge <= cfg.min_edge as i128 {
        return None;
    }
    if price < PRICE_MIN as i128 || price > PRICE_MAX as i128 {
        return None;
    }
    if edge > MAX_EDGE as i128 || edge < -(MAX_EDGE as i128) {
        return None;
    }
    assert(-0x1_0000_0000_0000_0000 * 1_000_000 <= diff * ONE <= 0x1_0000_0000_0000_0000
        * 1_000_000) by (nonlinear_arith)
        requires
            -0x1_0000_0000_0000_0000 <= diff <= 0x1_0000_0000_0000_0000,
            ONE == 1_000_000,
    ;
    let raw_move: i128 = quot(diff * (ONE as i128), w.open_price as i128);
    let move_pct: i64 = if raw_move < i64::MIN as i128 {
        i64::MIN
    } else if raw_move > i64::MAX as i128 {
        i64::MAX
    } else {
        raw_move as i64
    };
    Some(
        Quote {
            side,
            fair_value: fair,
            clob_mid: mid,
            edge: edge as i64,
            price: price as i64,
            move_pct,
            time_remaining_frac: frac,
        },
    )
}

/// Evaluates every window against the spot and the books, in the order of
/// the list. Each window that passes every gate for the first time opens a
/// divergence and gives one signal; while it goes on passing, only the peak
/// of the divergence is raised; once it fails, the divergence is closed and
/// reported as converged. Without a positive spot nothing is evaluated.
pub fn evaluate(
    windows: &Vec<Window>,
    spot: i64,
    books: &BookSnapshot,
    cfg: &StrategyConfig,
    open_divs: &mut DivergenceBook,
    now_ms: u64,
    mono_ms: u64,
) -> (events: Vec<DivEvent>)
    ensures
        spot <= 0 ==> events@.len() == 0 && final(open_divs)@ == old(open_divs)@,
        spot > 0 ==> (final(open_divs)@, events@) == evaluated(
            windows@,
            windows@.len() as int,
            spot,
            books@,
            *cfg,
            old(open_divs)@,
            now_ms,
            mono_ms,
        ),
{
    let mut events: Vec<DivEvent> = Vec::new();
    if spot <= 0 {
        return events;
    }
    let mut i: usize = 0;
    while i < windows.len()
        invariant
            i <= windows@.len(),
            (open_divs@, events@) == evaluated(
                windows@,
                i as int,
                spot,
                books@,
                *cfg,
                old(open_divs)@,
                now_ms,
                mono_ms,
            ),
        decreases windows@.len() - i,
    {
        let w: &Window = &windows[i];
        let yes_mid: i64 = token_mid(books, w.yes_token.as_str());
        let no_mid: i64 = token_mid(books, w.no_token.as_str());
        let quote: Option<Quote> = assess(w, spot, yes_mid, no_mid, cfg, now_ms);
        match quote {
            Some(q) => {
                let known: Option<OpenDivergence> = match open_divs.get(w.slug.as_str()) {
                    Some(d) => Some(*d),
                    None => None,
                };
                match known {
                    Some(d) => {
                        let peak: i64 = if q.edge > d.peak_edge {
                            q.edge
                        } else {
                            d.peak_edge
                        };
                        open_divs.insert(
                            w.slug.clone(),
                            OpenDivergence {
                                opened_at: d.opened_at,
                                peak_edge: peak,
                                signaled: d.signaled,
                            },
                        );
                    },
                    None => {
                        open_divs.insert(
                            w.slug.clone(),
                            OpenDivergence { opened_at: mono_ms, peak_edge: q.edge, signaled: true },
                        );
                        events.push(DivEvent::Signal(signal_for(w, &q)));
                    },
                }
            },
            None => {
                match open_divs.remove(w.slug.as_str()) {
                    Some(d) => {
                        let duration_ms: u64 = if mono_ms >= d.opened_at {
                            mono_ms - d.opened_at
                        } else {
                            0
                        };
                        events.push(
                            DivEvent::Converged {
                                market_name: w.slug.clone(),
                                duration_ms,
                                peak_edge: d.peak_edge,
                            },
                        );
                    },
                    None => {},
                }
            },
        }
        i = i + 1;
    }
    events
}

/// The signal that a quote gives on a window.
pub fn signal_for(w: &Window, q: &Quote) -> (signal: Signal)
    ensures
        signal == signal_of(*w, *q),
{
    let token_id: String = match q.side {
        Side::BuyYes => w.yes_token.clone(),
        Side::BuyNo => w.no_token.clone(),
    };
    Signal {
        market_name: w.slug.clone(),
        asset: w.asset.clone(),
        condition_id: w.condition_id.clone(),
        token_id,
        side: q.side,
        fair_value: q.fair_value,
        clob_mid: q.clob_mid,
        edge: q.edge,
        price: q.price,
        size_usd: 0,
        move_pct: q.move_pct,
        time_remaining_frac: q.time_remaining_frac,
    }
}

/// The events of one window over a run of evaluations: the `i`-th
/// evaluation finds the quote `quotes[i]` at the clock reading `monos[i]`.
/// Gives the open divergences after the first `n` evaluations and what each
/// of them reported.
pub open spec fn replayed(
    w: Window,
    quotes: Seq<Option<Quote>>,
    monos: Seq<u64>,
    divs: Map<Seq<char>, OpenDivergence>,
    n: int,
) -> (Map<Seq<char>, OpenDivergence>, Seq<Option<DivEvent>>)
    decreases n,
{
    if n <= 0 {
        (divs, Seq::<Option<DivEvent>>::empty())
    } else {
        let (before, events) = replayed(w, quotes, monos, divs, n - 1);
        let (after, event) = window_step(w, quotes[n - 1], before, monos[n - 1]);
        (after, events.push(event))
    }
}

/// A window whose two midpoints are positive and add up to something more
/// than 0.15 away from one yields no quote, and so no signal, whatever the
/// open divergences are.
pub proof fn lemma_pair_sum_gate(
    w: Window,
    spot: i64,
    yes_mid: i64,
    no_mid: i64,
    cfg: StrategyConfig,
    now_ms: u64,
    divs: Map<Seq<char>, OpenDivergence>,
    mono_ms: u64,
)
    requires
        yes_mid > 0,
        no_mid > 0,
        abs(ONE - (yes_mid + no_mid)) > 150_000,
    ensures
        assessed(w, spot, yes_mid, no_mid, cfg, now_ms) is None,
        !(window_step(w, assessed(w, spot, yes_mid, no_mid, cfg, now_ms), divs, mono_ms).1 matches Some(
            DivEvent::Signal(_),
        )),
{
}

/// The numbers of a quote hang together: the edge is the fair value less
/// the midpoint of the side bought, it lies above the configured edge and
/// not above 0.15, the two fair values add up to one, and the limit price
/// lies in its band, one step above the midpoint at most and one step below
/// the fair value at most.
pub proof fn lemma_quote_numbers(
    w: Window,
    spot: i64,
    yes_mid: i64,
    no_mid: i64,
    cfg: StrategyConfig,
    now_ms: u64,
)
    requires
        assessed(w, spot, yes_mid, no_mid, cfg, now_ms) is Some,
    ensures
        ({
            let q = assessed(w, spot, yes_mid, no_mid, cfg, now_ms)->0;
            let fv_yes = fair_yes_value(
                spot as int,
                w.open_price as int,
                w.remaining_frac_capped(now_ms),
            );
            &&& q.edge == q.fair_value - q.clob_mid
            &&& cfg.min_edge < q.edge <= MAX_EDGE
            &&& q.fair_value == (if q.side == Side::BuyYes {
                fv_yes
            } else {
                ONE - fv_yes
            })
            &&& q.clob_mid == (if q.side == Side::BuyYes {
                yes_mid
            } else {
                no_mid
            })
            &&& PRICE_MIN <= q.price <= PRICE_MAX
            &&& q.price <= q.clob_mid + TICK
            &&& q.price <= q.fair_value - TICK
            &&& w.open_price > 0 && !w.expired(now_ms)
        }),
{
}

/// One evaluation reports a signal only where the window has a quote and
/// no open divergence, and reports convergence only where the window has an
/// open divergence and no quote.
pub proof fn lemma_step_events(
    w: Window,
    quote: Option<Quote>,
    divs: Map<Seq<char>, OpenDivergence>,
    mono_ms: u64,
)
    ensures
        (window_step(w, quote, divs, mono_ms).1 matches Some(DivEvent::Signal(_))) <==> (quote is Some
            && !divs.dom().contains(w.slug@)),
        (window_step(w, quote, divs, mono_ms).1 matches Some(DivEvent::Converged { .. })) <==> (
        quote is None && divs.dom().contains(w.slug@)),
        window_step(w, quote, divs, mono_ms).0.dom().contains(w.slug@) <==> quote is Some,
{
}

/// While a window goes on passing every gate, it gives exactly one signal:
/// the first evaluation of the run reports it, every later one reports
/// nothing, none reports convergence, and the divergence stays open with
/// its signal marked as given.
pub proof fn lemma_single_shot(
    w: Window,
    quotes: Seq<Option<Quote>>,
    monos: Seq<u64>,
    divs: Map<Seq<char>, OpenDivergence>,
    n: int,
)
    requires
        0 < n <= quotes.len(),
        n <= monos.len(),
        forall|i: int| 0 <= i < n ==> (#[trigger] quotes[i]) is Some,
        !divs.dom().contains(w.slug@),
    ensures
        replayed(w, quotes, monos, divs, n).1.len() == n,
        replayed(w, quotes, monos, divs, n).1[0] == Some(
            DivEvent::Signal(signal_of(w, quotes[0]->0)),
        ),
        forall|i: int| 0 < i < n ==> (#[trigger] replayed(w, quotes, monos, divs, n).1[i]) is None,
        replayed(w, quotes, monos, divs, n).0.dom().contains(w.slug@),
        replayed(w, quotes, monos, divs, n).0[w.slug@].signaled,
        replayed(w, quotes, monos, divs, n).0[w.slug@].opened_at == monos[0],
    decreases n,
{
    if n == 1 {
        assert(replayed(w, quotes, monos, divs, 0).1 =~= Seq::<Option<DivEvent>>::empty());
        assert(quotes[0] is Some);
    } else {
        lemma_single_shot(w, quotes, monos, divs, n - 1);
        assert(quotes[n - 1] is Some);
        let (before, events) = replayed(w, quotes, monos, divs, n - 1);
        let (after, event) = window_step(w, quotes[n - 1], before, monos[n - 1]);
        assert(event is None);
        assert forall|i: int| 0 < i < n implies (#[trigger] replayed(
            w,
            quotes,
            monos,
            divs,
            n,
        ).1[i]) is None by {
            if i < n - 1 {
                assert(replayed(w, quotes, monos, divs, n).1[i] == events[i]);
            }
        }
    }
}

/// The first evaluation that finds no quote after such a run closes the
/// divergence and reports convergence with the time it was open.
pub proof fn lemma_converged_after_failure(
    w: Window,
    quotes: Seq<Option<Quote>>,
    monos: Seq<u64>,
    divs: Map<Seq<char>, OpenDivergence>,
    n: int,
)
    requires
        0 < n < quotes.len(),
        n < monos.len(),
        forall|i: int| 0 <= i < n ==> (#[trigger] quotes[i]) is Some,
        quotes[n] is None,
        !divs.dom().contains(w.slug@),
    ensures
        replayed(w, quotes, monos, divs, n + 1).1[n] matches Some(
            DivEvent::Converged { market_name, duration_ms, peak_edge },
        ) && market_name == w.slug && duration_ms == (if monos[n] >= monos[0] {
            (monos[n] - monos[0]) as u64
        } else {
            0
        }),
        !replayed(w, quotes, monos, divs, n + 1).0.dom().contains(w.slug@),
{
    lemma_single_shot(w, quotes, monos, divs, n);
}

} // verus!
