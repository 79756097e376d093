use polymarket_arb::book::{BookSnapshot, TokenBook};
use polymarket_arb::config::StrategyConfig;
use polymarket_arb::divergence::{
    assess, evaluate, signal_for, DivEvent, DivergenceBook, Quote, Side,
};
use polymarket_arb::strmap::StrMap;
use polymarket_arb::window::Window;

const USD: i64 = 1_000_000;
const OPEN_MS: u64 = 1_700_000_100_000;
const CLOSE_MS: u64 = 1_700_000_400_000;
const HALFWAY: u64 = 1_700_000_250_000;

fn cfg() -> StrategyConfig {
    StrategyConfig {
        seed_usd: 0,
        min_edge: 20_000,
        min_move_pct: 1_000,
        max_position_pct: 10_000,
        max_daily_loss_pct: 50_000,
        max_open_positions: 3,
        order_timeout_secs: 30,
        stale_price_secs: 5,
        late_window_guard_secs: 30,
    }
}

fn window(slug: &str) -> Window {
    Window {
        slug: slug.to_string(),
        asset: "btc".to_string(),
        condition_id: "0xabc".to_string(),
        yes_token: format!("{slug}-yes"),
        no_token: format!("{slug}-no"),
        open_time_ms: OPEN_MS,
        close_time_ms: CLOSE_MS,
        open_price: 84_000 * USD,
    }
}

fn books(slug: &str, yes_mid: i64, no_mid: i64) -> BookSnapshot {
    let mut books: BookSnapshot = StrMap::new();
    books.insert(
        format!("{slug}-yes"),
        TokenBook { best_bid: yes_mid - 10_000, best_ask: yes_mid + 10_000, mid: yes_mid, timestamp_ms: 1 },
    );
    books.insert(
        format!("{slug}-no"),
        TokenBook { best_bid: no_mid - 10_000, best_ask: no_mid + 10_000, mid: no_mid, timestamp_ms: 1 },
    );
    books
}

fn signals(events: &[DivEvent]) -> usize {
    events.iter().filter(|e| matches!(e, DivEvent::Signal(_))).count()
}

#[test]
fn flat_window_gives_no_signal() {
    let windows = vec![window("w")];
    let mut divs: DivergenceBook = StrMap::new();
    let events = evaluate(&windows, 84_000 * USD, &books("w", 500_000, 500_000), &cfg(), &mut divs, HALFWAY, 10);
    assert!(events.is_empty());
    assert_eq!(divs.len(), 0);
}

#[test]
fn large_move_is_rejected_by_the_edge_limit() {
    let windows = vec![window("w")];
    let mut divs: DivergenceBook = StrMap::new();
    // +0.30 %: the fair value is 0.656, the edge 0.156 is above 0.15
    let events = evaluate(&windows, 84_252 * USD, &books("w", 500_000, 500_000), &cfg(), &mut divs, HALFWAY, 10);
    assert!(events.is_empty());
    assert_eq!(divs.len(), 0);
    assert!(assess(&windows[0], 84_252 * USD, 500_000, 500_000, &cfg(), HALFWAY).is_none());
}

#[test]
fn mild_move_signals_once_and_converges() {
    let windows = vec![window("w")];
    let mut divs: DivergenceBook = StrMap::new();
    let b = books("w", 500_000, 500_000);
    let first = evaluate(&windows, 84_100 * USD, &b, &cfg(), &mut divs, HALFWAY, 1_000);
    assert_eq!(first.len(), 1);
    match &first[0] {
        DivEvent::Signal(s) => {
            assert_eq!(s.side, Side::BuyYes);
            assert_eq!(s.price, 510_000);
            assert_eq!(s.edge, 61_904);
            assert_eq!(s.fair_value, 561_904);
            assert_eq!(s.clob_mid, 500_000);
            assert_eq!(s.market_name, "w");
            assert_eq!(s.asset, "btc");
            assert_eq!(s.condition_id, "0xabc");
            assert_eq!(s.token_id, "w-yes");
            assert_eq!(s.size_usd, 0);
            assert_eq!(s.move_pct, 1_190);
            assert_eq!(s.time_remaining_frac, 500_000);
        }
        DivEvent::Converged { .. } => panic!("expected a signal"),
    }
    let open = *divs.get("w").unwrap();
    assert_eq!(open.opened_at, 1_000);
    assert_eq!(open.peak_edge, 61_904);
    assert!(open.signaled);

    let second = evaluate(&windows, 84_100 * USD, &b, &cfg(), &mut divs, HALFWAY, 1_200);
    assert!(second.is_empty());
    assert_eq!(divs.len(), 1);

    // a larger edge only raises the peak
    let third = evaluate(&windows, 84_150 * USD, &b, &cfg(), &mut divs, HALFWAY, 1_300);
    assert!(third.is_empty());
    assert_eq!(divs.get("w").unwrap().peak_edge, 92_857);
    assert_eq!(divs.get("w").unwrap().opened_at, 1_000);
    let back = evaluate(&windows, 84_100 * USD, &b, &cfg(), &mut divs, HALFWAY, 1_350);
    assert!(back.is_empty());
    assert_eq!(divs.get("w").unwrap().peak_edge, 92_857);

    // the move falls below the smallest move: the divergence closes
    let last = evaluate(&windows, 84_050 * USD, &b, &cfg(), &mut divs, HALFWAY, 1_500);
    assert_eq!(last.len(), 1);
    match &last[0] {
        DivEvent::Converged { market_name, duration_ms, peak_edge } => {
            assert_eq!(market_name, "w");
            assert_eq!(*duration_ms, 500);
            assert_eq!(*peak_edge, 92_857);
        }
        DivEvent::Signal(_) => panic!("expected a convergence"),
    }
    assert_eq!(divs.len(), 0);
    // and nothing more is said of it
    let after = evaluate(&windows, 84_050 * USD, &b, &cfg(), &mut divs, HALFWAY, 1_600);
    assert!(after.is_empty());
}

#[test]
fn peak_edge_of_the_first_signal_is_reported() {
    let windows = vec![window("w")];
    let mut divs: DivergenceBook = StrMap::new();
    let b = books("w", 500_000, 500_000);
    assert_eq!(evaluate(&windows, 84_100 * USD, &b, &cfg(), &mut divs, HALFWAY, 0).len(), 1);
    let last = evaluate(&windows, 84_010 * USD, &b, &cfg(), &mut divs, HALFWAY, 40);
    match &last[0] {
        DivEvent::Converged { peak_edge, duration_ms, .. } => {
            assert_eq!(*peak_edge, 61_904);
            assert_eq!(*duration_ms, 40);
        }
        DivEvent::Signal(_) => panic!("expected a convergence"),
    }
}

#[test]
fn single_shot_over_many_calls() {
    let windows = vec![window("w")];
    let mut divs: DivergenceBook = StrMap::new();
    let b = books("w", 500_000, 500_000);
    let mut total = 0;
    for i in 0..200u64 {
        let events = evaluate(&windows, 84_100 * USD + (i as i64 % 7) * USD, &b, &cfg(), &mut divs, HALFWAY + i, i);
        total += signals(&events);
        assert!(events.iter().all(|e| matches!(e, DivEvent::Signal(_))));
    }
    assert_eq!(total, 1);
}

#[test]
fn a_new_episode_signals_again() {
    let windows = vec![window("w")];
    let mut divs: DivergenceBook = StrMap::new();
    let b = books("w", 500_000, 500_000);
    assert_eq!(signals(&evaluate(&windows, 84_100 * USD, &b, &cfg(), &mut divs, HALFWAY, 0)), 1);
    assert_eq!(evaluate(&windows, 84_000 * USD, &b, &cfg(), &mut divs, HALFWAY, 1).len(), 1);
    assert_eq!(signals(&evaluate(&windows, 84_100 * USD, &b, &cfg(), &mut divs, HALFWAY, 2)), 1);
}

#[test]
fn late_window_guard() {
    let windows = vec![window("w")];
    let mut divs: DivergenceBook = StrMap::new();
    let b = books("w", 500_000, 500_000);
    // 29.999 s left with a guard of 30 s
    let events = evaluate(&windows, 84_084 * USD, &b, &cfg(), &mut divs, CLOSE_MS - 29_999, 0);
    assert!(events.is_empty());
    // exactly 30 s left is enough
    let events = evaluate(&windows, 84_084 * USD, &b, &cfg(), &mut divs, CLOSE_MS - 30_000, 0);
    assert_eq!(signals(&events), 1);
    match &events[0] {
        DivEvent::Signal(s) => {
            assert_eq!(s.fair_value, 574_400);
            assert_eq!(s.time_remaining_frac, 100_000);
        }
        DivEvent::Converged { .. } => panic!("expected a signal"),
    }
}

#[test]
fn thin_market_is_rejected() {
    let windows = vec![window("w")];
    let mut divs: DivergenceBook = StrMap::new();
    let events = evaluate(&windows, 84_100 * USD, &books("w", 400_000, 300_000), &cfg(), &mut divs, HALFWAY, 0);
    assert!(events.is_empty());
    assert_eq!(divs.len(), 0);
}

#[test]
fn pair_sum_gate() {
    let w = window("w");
    // sums of 0.84 and 1.16 are refused, 0.85 and 1.15 are taken
    assert!(assess(&w, 84_100 * USD, 440_000, 400_000, &cfg(), HALFWAY).is_none());
    assert!(assess(&w, 84_100 * USD, 580_000, 580_000, &cfg(), HALFWAY).is_none());
    assert!(assess(&w, 84_100 * USD, 450_000, 400_000, &cfg(), HALFWAY).is_some());
    assert!(assess(&w, 83_900 * USD, 600_000, 550_000, &cfg(), HALFWAY).is_none());
    for yes in [1i64, 100_000, 400_000, 700_000, 990_000] {
        for no in [1i64, 100_000, 400_000, 700_000, 990_000] {
            if (1_000_000 - (yes + no)).abs() > 150_000 {
                for spot in [83_000 * USD, 83_900 * USD, 84_100 * USD, 85_000 * USD] {
                    assert!(assess(&w, spot, yes, no, &cfg(), HALFWAY).is_none());
                }
            }
        }
    }
}

#[test]
fn gates_one_by_one() {
    let c = cfg();
    let w = window("w");
    assert!(assess(&w, 84_100 * USD, 500_000, 500_000, &c, HALFWAY).is_some());
    // expired
    assert!(assess(&w, 84_100 * USD, 500_000, 500_000, &c, CLOSE_MS).is_none());
    // no opening price
    let mut unopened = window("w");
    unopened.open_price = 0;
    assert!(assess(&unopened, 84_100 * USD, 500_000, 500_000, &c, HALFWAY).is_none());
    // move below the smallest: 83 on 84000 is 0.0988 %
    assert!(assess(&w, 84_083 * USD, 500_000, 500_000, &c, HALFWAY).is_none());
    assert!(assess(&w, 84_084 * USD, 500_000, 500_000, &c, HALFWAY).is_some());
    // a side quoted below 0.20
    assert!(assess(&w, 84_100 * USD, 199_999, 700_000, &c, HALFWAY).is_none());
    assert!(assess(&w, 84_100 * USD, 700_000, 199_999, &c, HALFWAY).is_none());
    // fair value out of its band: +0.4 % halfway gives 0.708
    assert!(assess(&w, 84_336 * USD, 600_000, 400_000, &c, HALFWAY).is_none());
    // edge not above the smallest edge
    let mut strict = cfg();
    strict.min_edge = 61_904;
    assert!(assess(&w, 84_100 * USD, 500_000, 500_000, &strict, HALFWAY).is_none());
    strict.min_edge = 61_903;
    assert!(assess(&w, 84_100 * USD, 500_000, 500_000, &strict, HALFWAY).is_some());
}

#[test]
fn the_no_side_is_bought_on_a_down_move() {
    let w = window("w");
    let q = assess(&w, 83_900 * USD, 500_000, 500_000, &cfg(), HALFWAY).unwrap();
    assert_eq!(
        q,
        Quote {
            side: Side::BuyNo,
            fair_value: 561_904,
            clob_mid: 500_000,
            edge: 61_904,
            price: 510_000,
            move_pct: -1_190,
            time_remaining_frac: 500_000,
        }
    );
    let s = signal_for(&w, &q);
    assert_eq!(s.token_id, "w-no");
    assert_eq!(s.side, Side::BuyNo);
}

#[test]
fn the_price_never_passes_one_tick_below_fair() {
    let w = window("w");
    // fair 0.5619, YES mid 0.545: mid + tick = 0.555 is above fair - tick = 0.5519
    let mut c = cfg();
    c.min_edge = 10_000;
    let q = assess(&w, 84_100 * USD, 545_000, 455_000, &c, HALFWAY).unwrap();
    assert_eq!(q.side, Side::BuyYes);
    assert_eq!(q.price, 551_904);
    assert_eq!(q.edge, 16_904);
}

#[test]
fn price_band() {
    let w = window("w");
    // fair 0.6718 with 30 s left on +0.231 %: mid 0.645 gives price 0.655, above the band
    let near_end = CLOSE_MS - 30_000;
    let q = assess(&w, 84_194 * USD, 645_000, 355_000, &cfg(), near_end);
    assert!(q.is_none());
    let q = assess(&w, 84_194 * USD, 630_000, 370_000, &cfg(), near_end).unwrap();
    assert_eq!(q.price, 640_000);
}

#[test]
fn without_a_spot_nothing_is_evaluated() {
    let windows = vec![window("w")];
    let mut divs: DivergenceBook = StrMap::new();
    let b = books("w", 500_000, 500_000);
    assert_eq!(signals(&evaluate(&windows, 84_100 * USD, &b, &cfg(), &mut divs, HALFWAY, 0)), 1);
    let events = evaluate(&windows, 0, &b, &cfg(), &mut divs, HALFWAY, 5);
    assert!(events.is_empty());
    assert_eq!(divs.len(), 1);
}

#[test]
fn windows_are_evaluated_in_order() {
    let windows = vec![window("a"), window("b"), window("c")];
    let mut b = books("a", 500_000, 500_000);
    for (k, v) in [("b", 400_000i64), ("c", 500_000)] {
        b.insert(format!("{k}-yes"), TokenBook { best_bid: v, best_ask: v, mid: v, timestamp_ms: 1 });
        b.insert(format!("{k}-no"), TokenBook { best_bid: 300_000, best_ask: 300_000, mid: if k == "b" { 300_000 } else { 500_000 }, timestamp_ms: 1 });
    }
    let mut divs: DivergenceBook = StrMap::new();
    let events = evaluate(&windows, 84_100 * USD, &b, &cfg(), &mut divs, HALFWAY, 0);
    let names: Vec<String> = events
        .iter()
        .map(|e| match e {
            DivEvent::Signal(s) => s.market_name.clone(),
            DivEvent::Converged { market_name, .. } => market_name.clone(),
        })
        .collect();
    assert_eq!(names, vec!["a".to_string(), "c".to_string()]);
    assert!(divs.contains_key("a"));
    assert!(!divs.contains_key("b"));
    assert!(divs.contains_key("c"));
}

#[test]
fn a_token_without_book_counts_as_unquoted() {
    let windows = vec![window("w")];
    let mut divs: DivergenceBook = StrMap::new();
    let empty: BookSnapshot = StrMap::new();
    assert!(evaluate(&windows, 84_100 * USD, &empty, &cfg(), &mut divs, HALFWAY, 0).is_empty());
}

#[test]
fn side_labels() {
    assert_eq!(Side::BuyYes.label(), "BUY_YES");
    assert_eq!(Side::BuyNo.label(), "BUY_NO");
}
