use vstd::prelude::*;
use vstd::string::StringExecFns;
use crate::book::{mid_of, token_mid, BookSnapshot};
use crate::divergence::Signal;
use crate::fair_value::{fair_yes, fair_yes_value};
use crate::feeds::aggregator::{spot_of, PriceEntry, PriceState};
use crate::strmap::StrMap;
use crate::text::same_text;
use crate::units::{div_trunc, saturate, scaled_quot, within_i64, ONE};
use crate::window::Window;

verus! {

/// The file whose presence pauses the opening of new windows.
pub const PAUSE_FLAG: &'static str = "data/pause.flag";

/// The pause between two writings of the status file, in milliseconds.
pub const STATUS_INTERVAL_MS: u64 = 2_000;

/// The number of trade records that the status file shows.
pub const RECENT_TRADES: usize = 50;

/// The least time between two alerts of one category, in milliseconds.
pub const ALERT_GAP_MS: u64 = 10_000;

/// Asks the file system whether a path exists (`std::path::Path::exists`).
/// Nothing is claimed of the answer.
#[verifier::external_body]
fn path_exists(path: &str) -> (found: bool) {
    std::path::Path::new(path).exists()
}

/// Whether the pause flag is set.
pub fn is_paused() -> (paused: bool) {
    path_exists(PAUSE_FLAG)
}

/// The running totals of the session, shared by the executor, the balance
/// poller and the redemption loop. Amounts are in millionths.
#[derive(Clone, Copy, Debug, PartialEq, Eq, Structural)]
pub struct SharedLiveStats {
    pub balance: u64,
    pub session_start_balance: u64,
    pub open: u64,
    pub wins: u64,
    pub losses: u64,
    pub total_pnl: i64,
    pub session_pnl: i64,
    pub daily_pnl: i64,
}

/// The trade figures of the status file.
#[derive(Clone, Copy, Debug, PartialEq, Eq, Structural)]
pub struct TradeStats {
    pub wins: u64,
    pub losses: u64,
    pub open: u64,
    pub total_pnl: i64,
    pub session_pnl: i64,
    pub daily_pnl: i64,
}

/// One less, and zero for zero.
pub open spec fn one_less(n: u64) -> u64 {
    if n > 0 {
        (n - 1) as u64
    } else {
        0
    }
}

/// One more, and the largest value for itself.
pub open spec fn one_more(n: u64) -> u64 {
    if n < u64::MAX {
        (n + 1) as u64
    } else {
        u64::MAX
    }
}

impl SharedLiveStats {
    /// The totals at the start of a session: all zero.
    pub fn new() -> (stats: SharedLiveStats)
        ensures
            stats == (SharedLiveStats {
                balance: 0,
                session_start_balance: 0,
                open: 0,
                wins: 0,
                losses: 0,
                total_pnl: 0,
                session_pnl: 0,
                daily_pnl: 0,
            }),
    {
        SharedLiveStats {
            balance: 0,
            session_start_balance: 0,
            open: 0,
            wins: 0,
            losses: 0,
            total_pnl: 0,
            session_pnl: 0,
            daily_pnl: 0,
        }
    }

    /// The totals after a balance was read. The first balance of a session
    /// is also the balance that the session started from.
    pub open spec fn with_balance(self, balance: u64, first: bool) -> SharedLiveStats {
        SharedLiveStats {
            balance,
            session_start_balance: if first {
                balance
            } else {
                self.session_start_balance
            },
            ..self
        }
    }

    /// The totals after a position was settled with the result `pnl`.
    pub open spec fn with_settlement(self, won: bool, pnl: i64) -> SharedLiveStats {
        SharedLiveStats {
            open: one_less(self.open),
            wins: if won {
                one_more(self.wins)
            } else {
                self.wins
            },
            losses: if won {
                self.losses
            } else {
                one_more(self.losses)
            },
            total_pnl: within_i64(self.total_pnl + pnl),
            session_pnl: within_i64(self.session_pnl + pnl),
            daily_pnl: within_i64(self.daily_pnl + pnl),
            ..self
        }
    }

    /// The trade figures of the status file. With a seed and a balance the
    /// total is the balance less the seed; with a balance at the start of
    /// the session the session figure is the balance less that one.
    pub open spec fn figures(self, seed: u64) -> TradeStats {
        TradeStats {
            wins: self.wins,
            losses: self.losses,
            open: self.open,
            total_pnl: if seed > 0 && self.balance > 0 {
                within_i64(self.balance - seed)
            } else {
                self.total_pnl
            },
            session_pnl: if self.session_start_balance > 0 {
                within_i64(self.balance - self.session_start_balance)
            } else {
                self.session_pnl
            },
            daily_pnl: self.daily_pnl,
        }
    }

    /// Counts the position that a signal is about to open.
    pub fn note_signal(&mut self)
        ensures
            *final(self) == (SharedLiveStats { open: one_more(old(self).open), ..*old(self) }),
    {
        if self.open < u64::MAX {
            self.open = self.open + 1;
        }
    }

    /// Takes back the count of a position whose order failed.
    pub fn note_order_failed(&mut self)
        ensures
            *final(self) == (SharedLiveStats { open: one_less(old(self).open), ..*old(self) }),
    {
        if self.open > 0 {
            self.open = self.open - 1;
        }
    }

    /// Records a balance read from the exchange.
    pub fn note_balance(&mut self, balance: u64, first: bool)
        ensures
            *final(self) == old(self).with_balance(balance, first),
    {
        self.balance = balance;
        if first {
            self.session_start_balance = balance;
        }
    }

    /// Records a settled position.
    pub fn note_settlement(&mut self, won: bool, pnl: i64)
        ensures
            *final(self) == old(self).with_settlement(won, pnl),
    {
        if self.open > 0 {
            self.open = self.open - 1;
        }
        self.total_pnl = saturate(self.total_pnl as i128 + pnl as i128);
        self.session_pnl = saturate(self.session_pnl as i128 + pnl as i128);
        self.daily_pnl = saturate(self.daily_pnl as i128 + pnl as i128);
        if won {
            if self.wins < u64::MAX {
                self.wins = self.wins + 1;
            }
        } else {
            if self.losses < u64::MAX {
                self.losses = self.losses + 1;
            }
        }
    }

    /// The trade figures of the status file.
    pub fn trade_stats(&self, seed: u64) -> (figures: TradeStats)
        ensures
            figures == self.figures(seed),
    {
        let total_pnl: i64 = if seed > 0 && self.balance > 0 {
            saturate(self.balance as i128 - seed as i128)
        } else {
            self.total_pnl
        };
        let session_pnl: i64 = if self.session_start_balance > 0 {
            saturate(self.balance as i128 - self.session_start_balance as i128)
        } else {
            self.session_pnl
        };
        TradeStats {
            wins: self.wins,
            losses: self.losses,
            open: self.open,
            total_pnl,
            session_pnl,
            daily_pnl: self.daily_pnl,
        }
    }
}

/// What the status file says of one window. Prices, probabilities and
/// edges are in millionths; the move is in millionths of a percent.
#[derive(Clone, Debug)]
pub struct WindowStatus {
    pub slug: String,
    pub asset: String,
    pub open_price: i64,
    pub current_move_pct: i64,
    pub time_remaining_ms: u64,
    pub fair_yes: i64,
    pub fair_no: i64,
    pub clob_yes_mid: i64,
    pub clob_no_mid: i64,
    pub edge_yes: i64,
    pub edge_no: i64,
    pub divergence_open: bool,
    pub state: String,
}

/// What the status file says of the price feed.
#[derive(Clone, Copy, Debug, PartialEq, Eq, Structural)]
pub struct FeedStatus {
    pub connected: bool,
    pub price: i64,
    pub latency_ms: u64,
}

/// The status file.
#[derive(Clone, Debug)]
pub struct Status {
    pub timestamp_ms: u64,
    pub balance: u64,
    pub seed: u64,
    pub spot_price: i64,
    pub spot_source: String,
    pub current_windows: Vec<WindowStatus>,
    pub feeds: FeedStatus,
    pub trades: TradeStats,
    /// The latest trade records, newest first, each as its line of JSON.
    pub recent_trades: Vec<String>,
}

/// One line of the file of simulated trades.
#[derive(Clone, Debug)]
pub struct SimulatedTrade {
    pub timestamp_ms: u64,
    pub market: String,
    pub asset: String,
    pub side: String,
    pub fair_value: i64,
    pub clob_mid: i64,
    pub edge: i64,
    pub move_pct: i64,
    pub simulated_pnl: i64,
    pub duration_ms: u64,
    pub outcome: String,
}

/// The millionths of a percent in one.
pub const PERCENT: u64 = 100_000_000;

/// The relative move of the spot since the open in millionths of a
/// percent, rounded toward zero and kept within 64 bits; zero without an
/// opening price.
pub open spec fn move_percent(spot: int, open_price: int) -> i64 {
    if open_price > 0 {
        within_i64(div_trunc((spot - open_price) * PERCENT, open_price))
    } else {
        0
    }
}

/// The relative move of the spot since the open, in millionths of a
/// percent.
pub fn move_pct_of(spot: i64, open_price: i64) -> (pct: i64)
    ensures
        pct == move_percent(spot as int, open_price as int),
{
    if open_price > 0 {
        scaled_quot(spot as i128 - open_price as i128, PERCENT, open_price)
    } else {
        0
    }
}

/// What the status file says of the feed of `asset` at `now_ms`: whether
/// any price is known, the spot of the asset, and the age of its entry.
pub open spec fn feed_figures(prices: Map<Seq<char>, PriceEntry>, asset: Seq<char>, now_ms: u64)
    -> FeedStatus {
    FeedStatus {
        connected: prices != Map::<Seq<char>, PriceEntry>::empty(),
        price: spot_of(prices, asset),
        latency_ms: if prices.dom().contains(asset) && now_ms >= prices[asset].timestamp_ms {
            (now_ms - prices[asset].timestamp_ms) as u64
        } else {
            0
        },
    }
}

/// What the status file says of the feed of `asset`.
pub fn feed_status(state: &PriceState, asset: &str, now_ms: u64) -> (feed: FeedStatus)
    ensures
        feed == feed_figures(state.prices@, asset@, now_ms),
{
    let latency_ms: u64 = match state.prices.get(asset) {
        Some(entry) => if now_ms >= entry.timestamp_ms {
            now_ms - entry.timestamp_ms
        } else {
            0
        },
        None => 0,
    };
    FeedStatus {
        connected: !state.prices.is_empty(),
        price: state.spot_price(asset),
        latency_ms,
    }
}

/// What the status file says of a window that is being watched.
pub fn window_status(
    w: &Window,
    spot: i64,
    books: &BookSnapshot,
    divergence_open: bool,
    now_ms: u64,
) -> (status: WindowStatus)
    ensures
        status.slug == w.slug,
        status.asset == w.asset,
        status.open_price == w.open_price,
        status.current_move_pct == move_percent(spot as int, w.open_price as int),
        status.time_remaining_ms == w.remaining(now_ms),
        status.fair_yes == fair_yes_value(
            spot as int,
            w.open_price as int,
            w.remaining_frac_capped(now_ms),
        ),
        status.fair_no == ONE - status.fair_yes,
        status.clob_yes_mid == mid_of(books@, w.yes_token@),
        status.clob_no_mid == mid_of(books@, w.no_token@),
        status.edge_yes == within_i64(status.fair_yes - status.clob_yes_mid),
        status.edge_no == within_i64(status.fair_no - status.clob_no_mid),
        status.divergence_open == divergence_open,
        status.state@ == (if divergence_open {
            "divergence"@
        } else {
            "monitoring"@
        }),
{
    let fv_yes: i64 = fair_yes(spot, w.open_price, w.time_remaining_frac(now_ms));
    let fv_no: i64 = ONE - fv_yes;
    let yes_mid: i64 = token_mid(books, w.yes_token.as_str());
    let no_mid: i64 = token_mid(books, w.no_token.as_str());
    let current_move_pct: i64 = move_pct_of(spot, w.open_price);
    let state: &str = if divergence_open {
        "divergence"
    } else {
        "monitoring"
    };
    WindowStatus {
        slug: w.slug.clone(),
        asset: w.asset.clone(),
        open_price: w.open_price,
        current_move_pct,
        time_remaining_ms: w.time_remaining(now_ms),
        fair_yes: fv_yes,
        fair_no: fv_no,
        clob_yes_mid: yes_mid,
        clob_no_mid: no_mid,
        edge_yes: saturate(fv_yes as i128 - yes_mid as i128),
        edge_no: saturate(fv_no as i128 - no_mid as i128),
        divergence_open,
        state: String::from_str(state),
    }
}

/// The asset whose spot and feed the status file shows.
pub const STATUS_ASSET: &'static str = "btc";

/// The venue that the status file names as the source of the spot.
pub const STATUS_SOURCE: &'static str = "binance";

/// Makes up the status file.
pub fn build_status(
    now_ms: u64,
    stats: &SharedLiveStats,
    seed: u64,
    prices: &PriceState,
    current_windows: Vec<WindowStatus>,
    recent_trades: Vec<String>,
) -> (status: Status)
    ensures
        status.timestamp_ms == now_ms,
        status.balance == stats.balance,
        status.seed == seed,
        status.spot_price == spot_of(prices.prices@, STATUS_ASSET@),
        status.spot_source@ == STATUS_SOURCE@,
        status.current_windows == current_windows,
        status.feeds == feed_figures(prices.prices@, STATUS_ASSET@, now_ms),
        status.trades == stats.figures(seed),
        status.recent_trades == recent_trades,
{
    Status {
        timestamp_ms: now_ms,
        balance: stats.balance,
        seed,
        spot_price: prices.spot_price(STATUS_ASSET),
        spot_source: String::from_str(STATUS_SOURCE),
        current_windows,
        feeds: feed_status(prices, STATUS_ASSET, now_ms),
        trades: stats.trade_stats(seed),
        recent_trades,
    }
}

/// The last `n` lines of a record, the newest first.
pub fn newest_first(lines: &Vec<String>, n: usize) -> (picked: Vec<String>)
    ensures
        picked@.len() == (if n < lines@.len() {
            n as int
        } else {
            lines@.len() as int
        }),
        forall|i: int| 0 <= i < picked@.len() ==> picked@[i] == lines@[lines@.len() - 1 - i],
{
    let count: usize = if n < lines.len() {
        n
    } else {
        lines.len()
    };
    let mut picked: Vec<String> = Vec::new();
    let mut i: usize = 0;
    while i < count
        invariant
            i <= count <= lines@.len(),
            picked@.len() == i,
            forall|j: int| 0 <= j < i ==> picked@[j] == lines@[lines@.len() - 1 - j],
        decreases count - i,
    {
        picked.push(lines[lines.len() - 1 - i].clone());
        i = i + 1;
    }
    picked
}

/// The published statuses without those of `asset`, in their order.
pub open spec fn without_asset(states: Seq<WindowStatus>, asset: Seq<char>) -> Seq<WindowStatus>
    decreases states.len(),
{
    if states.len() == 0 {
        Seq::<WindowStatus>::empty()
    } else {
        let rest = without_asset(states.drop_last(), asset);
        if states.last().asset@ == asset {
            rest
        } else {
            rest.push(states.last())
        }
    }
}

/// Replaces what is published of `asset`: its old statuses go, and the new
/// one, if there is one, goes to the end.
pub fn update_window_state(
    states: &mut Vec<WindowStatus>,
    asset: &str,
    new_state: Option<WindowStatus>,
)
    ensures
        final(states)@ == (match new_state {
            Some(ws) => without_asset(old(states)@, asset@).push(ws),
            None => without_asset(old(states)@, asset@),
        }),
{
    let mut kept: Vec<WindowStatus> = Vec::new();
    let mut rest: Vec<WindowStatus> = Vec::new();
    core::mem::swap(states, &mut rest);
    let ghost all = rest@;
    // take the statuses from the back, so that each leaves the list whole
    let mut reversed: Vec<WindowStatus> = Vec::new();
    while rest.len() > 0
        invariant
            rest@.len() + reversed@.len() == all.len(),
            rest@ == all.take(rest@.len() as int),
            forall|j: int| 0 <= j < reversed@.len() ==> reversed@[j] == all[all.len() - 1 - j],
        decreases rest@.len(),
    {
        let last = rest.pop().unwrap();
        reversed.push(last);
    }
    while reversed.len() > 0
        invariant
            reversed@.len() <= all.len(),
            forall|j: int| 0 <= j < reversed@.len() ==> reversed@[j] == all[all.len() - 1 - j],
            kept@ == without_asset(all.take(all.len() - reversed@.len()), asset@),
        decreases reversed@.len(),
    {
        let ghost m = all.len() - reversed@.len();
        let ws = reversed.pop().unwrap();
        proof {
            assert(ws == all[m]);
            assert(all.take(m + 1).drop_last() == all.take(m));
            assert(all.take(m + 1).last() == all[m]);
        }
        if !same_text(ws.asset.as_str(), asset) {
            kept.push(ws);
        }
    }
    proof {
        assert(all.take(all.len() as int) == all);
    }
    match new_state {
        Some(ws) => {
            kept.push(ws);
        },
        None => {},
    }
    *states = kept;
}

/// The times at which each category of alert was last written.
pub struct AlertLimiter {
    pub last: StrMap<u64>,
}

/// Whether an alert of a category may be written at `now_ms`: the category
/// was never written, or at least ten seconds ago.
pub open spec fn alert_due(last: Map<Seq<char>, u64>, category: Seq<char>, now_ms: u64) -> bool {
    !last.dom().contains(category) || now_ms - last[category] >= ALERT_GAP_MS
}

impl AlertLimiter {
    /// The limiter that has seen no alert.
    pub fn new() -> (limiter: AlertLimiter)
        ensures
            limiter.last@ == Map::<Seq<char>, u64>::empty(),
    {
        AlertLimiter { last: StrMap::new() }
    }

    /// Decides whether an alert of `category` is written at `now_ms`, and
    /// records the time where it is. At most one alert of a category is
    /// written in any ten seconds.
    pub fn allow(&mut self, category: &str, now_ms: u64) -> (due: bool)
        ensures
            due == alert_due(old(self).last@, category@, now_ms),
            due ==> final(self).last@ == old(self).last@.insert(category@, now_ms),
            !due ==> final(self).last@ == old(self).last@,
    {
        let due: bool = match self.last.get(category) {
            Some(last) => if now_ms >= *last {
                now_ms - *last >= ALERT_GAP_MS
            } else {
                false
            },
            None => true,
        };
        if due {
            self.last.insert(String::from_str(category), now_ms);
        }
        due
    }
}

/// The line that the file of simulated trades gets for a signal.
pub fn simulated_trade(signal: &Signal, now_ms: u64) -> (trade: SimulatedTrade)
    ensures
        trade.timestamp_ms == now_ms,
        trade.market == signal.market_name,
        trade.asset == signal.asset,
        trade.side@ == signal.side.label_text(),
        trade.fair_value == signal.fair_value,
        trade.clob_mid == signal.clob_mid,
        trade.edge == signal.edge,
        trade.move_pct == signal.move_pct,
        trade.simulated_pnl == signal.edge,
        trade.duration_ms == 0,
        trade.outcome@ == "divergence_open"@,
{
    SimulatedTrade {
        timestamp_ms: now_ms,
        market: signal.market_name.clone(),
        asset: signal.asset.clone(),
        side: String::from_str(signal.side.label()),
        fair_value: signal.fair_value,
        clob_mid: signal.clob_mid,
        edge: signal.edge,
        move_pct: signal.move_pct,
        simulated_pnl: signal.edge,
        duration_ms: 0,
        outcome: String::from_str("divergence_open"),
    }
}

} // verus!
