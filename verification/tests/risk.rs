use polymarket_arb::config::{Config, DiscoveryConfig, StrategyConfig};
use polymarket_arb::risk::RiskManager;

fn config(seed_usd: u64) -> Config {
    Config {
        strategy: StrategyConfig {
            seed_usd,
            min_edge: 20_000,
            min_move_pct: 1_000,
            max_position_pct: 10_000,
            max_daily_loss_pct: 50_000,
            max_open_positions: 3,
            order_timeout_secs: 30,
            stale_price_secs: 5,
            late_window_guard_secs: 30,
        },
        discovery: DiscoveryConfig {
            assets: vec!["btc".to_string()],
            window_duration_secs: 300,
            pre_discover_secs: 30,
            gamma_url: "https://gamma.example".to_string(),
        },
    }
}

#[test]
fn new_takes_the_seed_or_one_hundred() {
    let with_seed = RiskManager::new_at(&config(250_000_000), 7);
    assert_eq!(with_seed.bankroll, 250_000_000);
    let without = RiskManager::new_at(&config(0), 7);
    assert_eq!(without.bankroll, 100_000_000);
    assert_eq!(without.day_start_epoch, 7);
    assert_eq!(without.daily_pnl, 0);
    assert_eq!(without.open_positions, 0);
    assert!(!without.killed);
    assert_eq!(without.max_open_positions, 3);
}

#[test]
fn new_reads_the_day_from_the_clock() {
    let risk = RiskManager::new(&config(0));
    // later than the year 2020, counted in days
    assert!(risk.day_start_epoch > 18_000);
    assert_eq!(risk.bankroll, 100_000_000);
}

#[test]
fn position_size_scales_with_the_edge_and_is_capped() {
    let mut risk = RiskManager::new_at(&config(1_000_000_000), 1);
    // base 1 % of 1000 = 10; cap 2 % = 20
    assert_eq!(risk.position_size(10_000, 500_000), 10_000_000);
    assert_eq!(risk.position_size(50_000, 500_000), 10_000_000);
    assert_eq!(risk.position_size(75_000, 500_000), 15_000_000);
    assert_eq!(risk.position_size(100_000, 500_000), 20_000_000);
    assert_eq!(risk.position_size(900_000, 500_000), 20_000_000);
    assert_eq!(risk.position_size(-900_000, 500_000), 10_000_000);
    // the price plays no part
    assert_eq!(risk.position_size(75_000, 1), 15_000_000);
    // with 3 % per position the cap binds at once
    risk.max_position_pct = 30_000;
    assert_eq!(risk.position_size(0, 500_000), 20_000_000);
}

#[test]
fn position_size_never_passes_two_percent() {
    for bankroll in [0u64, 1, 49, 50, 1_000_000, u64::MAX] {
        for pct in [0u32, 1, 10_000, 20_000, 1_000_000, u32::MAX] {
            for edge in [i64::MIN, -1, 0, 49_999, 50_000, 100_000, i64::MAX] {
                let mut risk = RiskManager::new_at(&config(1), 1);
                risk.bankroll = bankroll;
                risk.max_position_pct = pct;
                let size = risk.position_size(edge, 500_000);
                assert!(size as u128 * 50 <= bankroll as u128);
            }
        }
    }
}

#[test]
fn from_an_edge_of_five_percent_the_size_is_at_least_the_base() {
    let mut risk = RiskManager::new_at(&config(1_000_000_000), 1);
    risk.max_position_pct = 5_000;
    let base = 5_000_000;
    for edge in [50_000i64, 60_000, 100_000, 500_000] {
        assert!(risk.position_size(edge, 500_000) >= base);
    }
}

#[test]
fn kill_switch_after_ten_losses() {
    let mut risk = RiskManager::new_at(&config(100_000_000), 10);
    // the cap is 5 % of 100 = 5; ten losses of 0.6 reach 6
    for _ in 0..10 {
        risk.record_fill(2_000_000);
        risk.record_close(-600_000);
    }
    assert_eq!(risk.daily_pnl, -6_000_000);
    assert!(!risk.can_trade_at(10));
    assert!(risk.killed);
    // it stays set for the rest of the day
    risk.record_close(50_000_000);
    assert!(!risk.can_trade_at(10));
    assert!(risk.killed);
    // and is cleared by the first check of another day
    assert!(risk.can_trade_at(11));
    assert!(!risk.killed);
    assert_eq!(risk.daily_pnl, 0);
    assert_eq!(risk.day_start_epoch, 11);
}

#[test]
fn a_loss_at_the_cap_does_not_kill() {
    let mut risk = RiskManager::new_at(&config(100_000_000), 10);
    risk.record_close(-5_000_000);
    assert!(risk.can_trade_at(10));
    risk.record_close(-1);
    assert!(!risk.can_trade_at(10));
    assert!(risk.killed);
}

#[test]
fn position_limit_refuses_without_killing() {
    let mut risk = RiskManager::new_at(&config(100_000_000), 10);
    risk.record_fill(1);
    risk.record_fill(1);
    assert!(risk.can_trade_at(10));
    risk.record_fill(1);
    assert_eq!(risk.open_positions, 3);
    risk.daily_pnl = -99_000_000;
    assert!(!risk.can_trade_at(10));
    assert!(!risk.killed);
    risk.record_close(0);
    assert_eq!(risk.open_positions, 2);
    assert!(!risk.can_trade_at(10));
    assert!(risk.killed);
}

#[test]
fn record_close_saturates() {
    let mut risk = RiskManager::new_at(&config(100_000_000), 10);
    risk.record_close(5);
    assert_eq!(risk.open_positions, 0);
    assert_eq!(risk.daily_pnl, 5);
    risk.record_close(i64::MAX);
    assert_eq!(risk.daily_pnl, i64::MAX);
    risk.daily_pnl = i64::MIN + 3;
    risk.record_close(-10);
    assert_eq!(risk.daily_pnl, i64::MIN);
    risk.open_positions = usize::MAX;
    risk.record_fill(1);
    assert_eq!(risk.open_positions, usize::MAX);
}

#[test]
fn update_bankroll_and_reset_day() {
    let mut risk = RiskManager::new_at(&config(100_000_000), 10);
    risk.update_bankroll(7);
    assert_eq!(risk.bankroll, 7);
    risk.daily_pnl = -3;
    risk.killed = true;
    risk.maybe_reset_day(10);
    assert!(risk.killed);
    assert_eq!(risk.daily_pnl, -3);
    risk.maybe_reset_day(9);
    assert!(!risk.killed);
    assert_eq!(risk.daily_pnl, 0);
    assert_eq!(risk.day_start_epoch, 9);
}

#[test]
fn can_trade_reads_the_clock() {
    let mut risk = RiskManager::new_at(&config(100_000_000), 0);
    risk.killed = true;
    // day zero is long past: the check rolls the day and clears the switch
    assert!(risk.can_trade());
    assert!(risk.day_start_epoch > 18_000);
}
