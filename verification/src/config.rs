use vstd::prelude::*;

verus! {

/// The trading parameters. Fractions are in millionths of one; their 32-bit
/// width keeps every product with a 64-bit amount inside 128 bits.
#[derive(Clone, Copy, Debug, PartialEq, Eq, Structural)]
pub struct StrategyConfig {
    /// The bankroll to start from, in millionths of the quote currency; zero
    /// where none is configured.
    pub seed_usd: u64,
    /// The smallest edge that is worth a signal.
    pub min_edge: u32,
    /// The smallest relative move of the spot that is worth a look.
    pub min_move_pct: u32,
    /// The share of the bankroll that one position starts from.
    pub max_position_pct: u32,
    /// The share of the bankroll whose loss in one day stops trading.
    pub max_daily_loss_pct: u32,
    pub max_open_positions: usize,
    pub order_timeout_secs: u64,
    /// The age, in seconds, beyond which a price tick is dropped.
    pub stale_price_secs: u64,
    /// The last seconds of a window, in which no signal is given.
    pub late_window_guard_secs: u64,
}

/// Where and when windows are looked for.
#[derive(Clone, Debug)]
pub struct DiscoveryConfig {
    pub assets: Vec<String>,
    pub window_duration_secs: u64,
    pub pre_discover_secs: u64,
    pub gamma_url: String,
}

/// The whole configuration.
#[derive(Clone, Debug)]
pub struct Config {
    pub strategy: StrategyConfig,
    pub discovery: DiscoveryConfig,
}

} // verus!
