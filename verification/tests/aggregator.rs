use polymarket_arb::feeds::aggregator::{is_fresh, PriceState, PriceTick};

fn tick(source: &str, price: i64, timestamp_ms: u64) -> PriceTick {
    PriceTick { source: source.to_string(), price, timestamp_ms }
}

#[test]
fn spot_price_of_an_unknown_asset_is_zero() {
    let state = PriceState::new();
    assert_eq!(state.spot_price("btc"), 0);
}

#[test]
fn fresh_ticks_are_published() {
    let mut state = PriceState::new();
    assert!(state.accept(tick("btc", 84_000_000_000, 10_000), 12_000, 5));
    assert_eq!(state.spot_price("btc"), 84_000_000_000);
    assert_eq!(state.spot_price("eth"), 0);
    assert!(state.accept(tick("eth", 3_000_000_000, 11_000), 12_000, 5));
    assert!(state.accept(tick("btc", 84_001_000_000, 11_500), 12_000, 5));
    assert_eq!(state.spot_price("btc"), 84_001_000_000);
    assert_eq!(state.spot_price("eth"), 3_000_000_000);
    assert_eq!(state.prices.get("btc").unwrap().timestamp_ms, 11_500);
    assert_eq!(state.prices.len(), 2);
}

#[test]
fn stale_ticks_are_dropped() {
    let mut state = PriceState::new();
    assert!(state.accept(tick("btc", 84_000_000_000, 10_000), 10_000, 5));
    // 5001 ms old with a limit of 5 s
    assert!(!state.accept(tick("btc", 1, 10_000), 15_001, 5));
    assert_eq!(state.spot_price("btc"), 84_000_000_000);
    // exactly 5000 ms old is still taken
    assert!(state.accept(tick("btc", 2, 10_001), 15_001, 5));
    assert_eq!(state.spot_price("btc"), 2);
    // a stale tick of an unknown source leaves no entry
    assert!(!state.accept(tick("sol", 9, 0), 15_001, 5));
    assert!(!state.prices.contains_key("sol"));
}

#[test]
fn every_published_entry_is_fresh() {
    let mut state = PriceState::new();
    for (ts, now) in [(0u64, 0u64), (5, 5_004), (5, 5_005), (5, 5_006), (9_000, 1), (u64::MAX, 0), (0, u64::MAX)] {
        let published = state.accept(tick("btc", 7, ts), now, 5);
        if published {
            let entry = state.prices.get("btc").unwrap();
            assert_eq!(entry.timestamp_ms, ts);
            assert!(now.saturating_sub(entry.timestamp_ms) <= 5_000);
        }
        assert_eq!(published, now.saturating_sub(ts) <= 5_000);
    }
}

#[test]
fn freshness_limits() {
    assert!(is_fresh(100, 100, 0));
    assert!(!is_fresh(100, 101, 0));
    assert!(is_fresh(200, 100, 0));
    assert!(is_fresh(0, u64::MAX, u64::MAX));
    assert!(!is_fresh(0, u64::MAX, 1));
}
