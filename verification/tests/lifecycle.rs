use polymarket_arb::book::{BookSnapshot, TokenBook};
use polymarket_arb::config::{Config, DiscoveryConfig, StrategyConfig};
use polymarket_arb::divergence::{DivEvent, DivergenceBook, Side, Signal};
use polymarket_arb::lifecycle::{
    advance, apply_risk, final_move_pct, monitor_step, Action, Input, Stage,
};
use polymarket_arb::risk::RiskManager;
use polymarket_arb::strmap::StrMap;
use polymarket_arb::window::Window;

fn window() -> Window {
    Window {
        slug: "btc-updown-5m-1700000400".to_string(),
        asset: "btc".to_string(),
        condition_id: "0xc0".to_string(),
        yes_token: "yes".to_string(),
        no_token: "no".to_string(),
        open_time_ms: 1_700_000_400_000,
        close_time_ms: 1_700_000_700_000,
        open_price: 0,
    }
}

fn step(stage: Stage, input: Input) -> (Stage, Action) {
    advance(stage, input, 300, 30)
}

#[test]
fn a_whole_window() {
    // 277 s before the next window: discovery is due 30 s before it
    let (stage, action) = step(Stage::Idle, Input::Started { now_ms: 1_700_000_123_000, paused: false });
    assert!(matches!(stage, Stage::Scheduled { next_start: 1_700_000_400 }));
    assert!(matches!(action, Action::ClearAndSleep { ms: 247_000 }));

    let (stage, action) = step(stage, Input::Woke);
    assert!(matches!(stage, Stage::Discovering { next_start: 1_700_000_400 }));
    assert!(matches!(action, Action::Discover { next_start: 1_700_000_400 }));

    let (stage, action) = step(stage, Input::Discovered { window: Some(window()) });
    assert!(matches!(stage, Stage::Subscribing { .. }));
    match action {
        Action::Subscribe { yes_token, no_token } => {
            assert_eq!(yes_token, "yes");
            assert_eq!(no_token, "no");
        }
        _ => panic!("expected a subscription"),
    }

    let (stage, action) = step(stage, Input::Subscribed { delivered: true, now_ms: 1_700_000_371_000 });
    assert!(matches!(stage, Stage::WarmingUp { deadline_ms: 1_700_000_381_000, .. }));
    assert!(matches!(action, Action::PollBooks { after_ms: 0 }));

    let (stage, action) = step(stage, Input::BookPolled { has_book: false, now_ms: 1_700_000_371_000 });
    assert!(matches!(stage, Stage::WarmingUp { deadline_ms: 1_700_000_381_000, .. }));
    assert!(matches!(action, Action::PollBooks { after_ms: 100 }));

    let (stage, action) = step(stage, Input::BookPolled { has_book: true, now_ms: 1_700_000_372_000 });
    assert!(matches!(stage, Stage::AwaitingOpen { .. }));
    assert!(matches!(action, Action::Sleep { ms: 28_000 }));

    let (stage, action) = step(stage, Input::Woke);
    assert!(matches!(stage, Stage::Capturing { .. }));
    assert!(matches!(action, Action::ReadSpot));

    let (stage, action) = step(stage, Input::SpotRead { spot: 84_000_000_000 });
    match &stage {
        Stage::Monitoring { window } => {
            assert_eq!(window.open_price, 84_000_000_000);
            assert_eq!(window.slug, "btc-updown-5m-1700000400");
        }
        _ => panic!("expected monitoring"),
    }
    assert!(matches!(action, Action::AnnounceOpen));

    let (stage, action) = step(stage, Input::Changed { now_ms: 1_700_000_699_999 });
    assert!(matches!(stage, Stage::Monitoring { .. }));
    assert!(matches!(action, Action::Evaluate));

    let (stage, action) = step(stage, Input::Changed { now_ms: 1_700_000_700_000 });
    assert!(matches!(stage, Stage::Idle));
    assert!(matches!(action, Action::Retire));
}

#[test]
fn pause_discovery_failure_and_stop() {
    let (stage, action) = step(Stage::Idle, Input::Started { now_ms: 1_700_000_123_000, paused: true });
    assert!(matches!(stage, Stage::Idle));
    assert!(matches!(action, Action::Sleep { ms: 5_000 }));

    // inside the last 30 s before the next window discovery starts at once
    let (stage, action) = step(Stage::Idle, Input::Started { now_ms: 1_700_000_370_000, paused: false });
    assert!(matches!(stage, Stage::Discovering { next_start: 1_700_000_400 }));
    assert!(matches!(action, Action::Discover { next_start: 1_700_000_400 }));
    let (stage, action) = step(Stage::Idle, Input::Started { now_ms: 1_700_000_369_999, paused: false });
    assert!(matches!(stage, Stage::Scheduled { next_start: 1_700_000_400 }));
    assert!(matches!(action, Action::ClearAndSleep { ms: 1 }));

    let (stage, action) = step(Stage::Discovering { next_start: 1_700_000_400 }, Input::Discovered { window: None });
    assert!(matches!(stage, Stage::Idle));
    assert!(matches!(action, Action::ReportDiscoveryFailure { next_start: 1_700_000_400 }));

    let (stage, action) = step(
        Stage::Subscribing { window: window() },
        Input::Subscribed { delivered: false, now_ms: 5 },
    );
    assert!(matches!(stage, Stage::Stopped));
    assert!(matches!(action, Action::Stop));
    let (stage, action) = step(stage, Input::Woke);
    assert!(matches!(stage, Stage::Stopped));
    assert!(matches!(action, Action::Stop));
}

#[test]
fn warm_up_ends_at_the_deadline() {
    let warming = || Stage::WarmingUp { window: window(), deadline_ms: 1_000 };
    let (stage, action) = step(warming(), Input::BookPolled { has_book: false, now_ms: 1_000 });
    assert!(matches!(stage, Stage::WarmingUp { .. }));
    assert!(matches!(action, Action::PollBooks { after_ms: 100 }));
    let (stage, action) = step(warming(), Input::BookPolled { has_book: false, now_ms: 1_001 });
    assert!(matches!(stage, Stage::AwaitingOpen { .. }));
    assert!(matches!(action, Action::Sleep { ms: 1_700_000_398_999 }));
    // a window that has opened already is not waited for
    let (_, action) = step(
        Stage::WarmingUp { window: window(), deadline_ms: u64::MAX },
        Input::BookPolled { has_book: true, now_ms: 1_700_000_400_001 },
    );
    assert!(matches!(action, Action::Sleep { ms: 0 }));
}

#[test]
fn a_window_without_spot_is_skipped() {
    for spot in [0i64, -1] {
        let (stage, action) = step(Stage::Capturing { window: window() }, Input::SpotRead { spot });
        assert!(matches!(stage, Stage::Idle));
        assert!(matches!(action, Action::SkipWindow));
    }
}

#[test]
fn a_closed_watch_retires_the_window() {
    let (stage, action) = step(Stage::Monitoring { window: window() }, Input::WatchClosed);
    assert!(matches!(stage, Stage::Idle));
    assert!(matches!(action, Action::Retire));
}

#[test]
fn inputs_that_do_not_belong_are_ignored() {
    let (stage, action) = step(Stage::Idle, Input::Woke);
    assert!(matches!(stage, Stage::Idle));
    assert!(matches!(action, Action::Ignore));
    let (stage, action) = step(Stage::Scheduled { next_start: 7 }, Input::SpotRead { spot: 1 });
    assert!(matches!(stage, Stage::Scheduled { next_start: 7 }));
    assert!(matches!(action, Action::Ignore));
    let (stage, action) = step(Stage::Monitoring { window: window() }, Input::Woke);
    assert!(matches!(stage, Stage::Monitoring { .. }));
    assert!(matches!(action, Action::Ignore));
}

fn config() -> Config {
    Config {
        strategy: StrategyConfig {
            seed_usd: 1_000_000_000,
            min_edge: 20_000,
            min_move_pct: 1_000,
            max_position_pct: 10_000,
            max_daily_loss_pct: 50_000,
            max_open_positions: 2,
            order_timeout_secs: 30,
            stale_price_secs: 5,
            late_window_guard_secs: 30,
        },
        discovery: DiscoveryConfig {
            assets: vec!["btc".to_string()],
            window_duration_secs: 300,
            pre_discover_secs: 30,
            gamma_url: String::new(),
        },
    }
}

fn signal(name: &str, edge: i64) -> DivEvent {
    DivEvent::Signal(Signal {
        market_name: name.to_string(),
        asset: "btc".to_string(),
        condition_id: "c".to_string(),
        token_id: "t".to_string(),
        side: Side::BuyYes,
        fair_value: 560_000,
        clob_mid: 500_000,
        edge,
        price: 510_000,
        size_usd: 0,
        move_pct: 1_190,
        time_remaining_frac: 500_000,
    })
}

#[test]
fn the_risk_manager_sizes_and_drops() {
    let mut risk = RiskManager::new_at(&config(), 3);
    let events = vec![
        signal("a", 60_000),
        DivEvent::Converged { market_name: "x".to_string(), duration_ms: 1, peak_edge: 2 },
        signal("b", 100_000),
        signal("c", 100_000),
    ];
    let kept = apply_risk(&events, &mut risk, 3);
    assert_eq!(kept.len(), 3);
    match &kept[0] {
        DivEvent::Signal(s) => {
            assert_eq!(s.market_name, "a");
            // 1 % of 1000 scaled by 0.06 / 0.05
            assert_eq!(s.size_usd, 12_000_000);
            assert_eq!(s.edge, 60_000);
        }
        _ => panic!("expected a signal"),
    }
    assert!(matches!(&kept[1], DivEvent::Converged { duration_ms: 1, peak_edge: 2, .. }));
    match &kept[2] {
        DivEvent::Signal(s) => {
            assert_eq!(s.market_name, "b");
            assert_eq!(s.size_usd, 20_000_000);
        }
        _ => panic!("expected a signal"),
    }
    // the third signal met the limit of two open positions
    assert_eq!(risk.open_positions, 2);
    assert!(apply_risk(&vec![signal("d", 60_000)], &mut risk, 3).is_empty());

    let mut killed = RiskManager::new_at(&config(), 3);
    killed.record_close(-60_000_000);
    let kept = apply_risk(&events, &mut killed, 3);
    assert_eq!(kept.len(), 1);
    assert!(killed.killed);
}

#[test]
fn one_monitor_step() {
    let mut w = window();
    w.open_price = 84_000_000_000;
    let windows = vec![w];
    let mut books: BookSnapshot = StrMap::new();
    books.insert("yes".to_string(), TokenBook { best_bid: 490_000, best_ask: 510_000, mid: 500_000, timestamp_ms: 1 });
    books.insert("no".to_string(), TokenBook { best_bid: 490_000, best_ask: 510_000, mid: 500_000, timestamp_ms: 1 });
    let mut divs: DivergenceBook = StrMap::new();
    let cfg = config();
    let mut risk = RiskManager::new_at(&cfg, 3);
    let now = 1_700_000_550_000;
    let events = monitor_step(&windows, 84_100_000_000, &books, &cfg.strategy, &mut divs, &mut risk, now, 10, 3);
    assert_eq!(events.len(), 1);
    match &events[0] {
        DivEvent::Signal(s) => {
            assert_eq!(s.edge, 61_904);
            // 10 scaled by 0.061904 / 0.05
            assert_eq!(s.size_usd, 12_380_800);
        }
        _ => panic!("expected a signal"),
    }
    assert_eq!(risk.open_positions, 1);
    assert_eq!(divs.len(), 1);
    let again = monitor_step(&windows, 84_100_000_000, &books, &cfg.strategy, &mut divs, &mut risk, now, 11, 3);
    assert!(again.is_empty());
    assert_eq!(risk.open_positions, 1);
    let none = monitor_step(&windows, 0, &books, &cfg.strategy, &mut divs, &mut risk, now, 12, 3);
    assert!(none.is_empty());
    assert_eq!(divs.len(), 1);
}

#[test]
fn final_move() {
    let mut w = window();
    assert_eq!(final_move_pct(&w, 84_100_000_000), 0);
    w.open_price = 84_000_000_000;
    assert_eq!(final_move_pct(&w, 84_100_000_000), 119_047);
    assert_eq!(final_move_pct(&w, 83_160_000_000), -1_000_000);
    w.open_price = 1;
    assert_eq!(final_move_pct(&w, i64::MAX), i64::MAX);
}

#[test]
fn scheduling_with_other_lengths() {
    for (now_ms, d, pre) in [
        (1_700_000_123_000u64, 300u64, 30u64),
        (0, 1, 0),
        (999, 1, 5),
        (1_700_000_123_000, 900, 1_000),
        (5, u64::MAX, 0),
    ] {
        let c = now_ms / 1000 / d * d;
        let w = c + d;
        assert!(c as u128 * 1000 <= now_ms as u128);
        assert!((now_ms as u128) < w as u128 * 1000);
        let at = (w as u128 * 1000).min(u64::MAX as u128).saturating_sub(pre as u128 * 1000);
        let (stage, action) = advance(Stage::Idle, Input::Started { now_ms, paused: false }, d, pre);
        if at > now_ms as u128 {
            assert!(matches!(stage, Stage::Scheduled { next_start } if next_start == w));
            assert!(matches!(action, Action::ClearAndSleep { ms } if ms as u128 == at - now_ms as u128));
            let (stage, action) = advance(stage, Input::Woke, d, pre);
            assert!(matches!(stage, Stage::Discovering { next_start } if next_start == w));
            assert!(matches!(action, Action::Discover { next_start } if next_start == w));
        } else {
            assert!(matches!(stage, Stage::Discovering { next_start } if next_start == w));
            assert!(matches!(action, Action::Discover { next_start } if next_start == w));
        }
    }
}
