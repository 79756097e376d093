use vstd::prelude::*;
use crate::strmap::StrMap;

verus! {

/// One observation of a price from one venue. The source names the venue
/// or, for streams that carry several assets, the asset. The price is in
/// millionths of the quote currency.
#[derive(Clone, Debug)]
pub struct PriceTick {
    pub source: String,
    pub price: i64,
    pub timestamp_ms: u64,
}

/// A tick as plain data.
pub struct TickData {
    pub source: Seq<char>,
    pub price: i64,
    pub timestamp_ms: u64,
}

impl View for PriceTick {
    type V = TickData;

    open spec fn view(&self) -> TickData {
        TickData { source: self.source@, price: self.price, timestamp_ms: self.timestamp_ms }
    }
}

/// The plain data of a tick that may be missing.
pub open spec fn tick_data(tick: Option<PriceTick>) -> Option<TickData> {
    match tick {
        Some(t) => Some(t@),
        None => None,
    }
}

/// The latest accepted price of one source.
#[derive(Clone, Copy, Debug, PartialEq, Eq, Structural)]
pub struct PriceEntry {
    pub price: i64,
    pub timestamp_ms: u64,
}

/// The authoritative spot of every asset, by source.
pub struct PriceState {
    pub prices: StrMap<PriceEntry>,
}

/// A tick stamped `timestamp_ms` is fresh at `now_ms` while it is no older
/// than `stale_price_secs` seconds. A stamp in the future is fresh.
pub open spec fn fresh(timestamp_ms: u64, now_ms: u64, stale_price_secs: u64) -> bool {
    now_ms - timestamp_ms <= stale_price_secs * 1000
}

/// The spot that a state gives for an asset; zero where it has none.
pub open spec fn spot_of(prices: Map<Seq<char>, PriceEntry>, asset: Seq<char>) -> i64 {
    if prices.dom().contains(asset) {
        prices[asset].price
    } else {
        0
    }
}

/// Whether a tick is fresh.
pub fn is_fresh(timestamp_ms: u64, now_ms: u64, stale_price_secs: u64) -> (r: bool)
    ensures
        r == fresh(timestamp_ms, now_ms, stale_price_secs),
{
    if now_ms <= timestamp_ms {
        true
    } else {
        (now_ms - timestamp_ms) as u128 <= stale_price_secs as u128 * 1000
    }
}

impl PriceState {
    /// The state that knows no price.
    pub fn new() -> (state: PriceState)
        ensures
            state.prices@ == Map::<Seq<char>, PriceEntry>::empty(),
    {
        PriceState { prices: StrMap::new() }
    }

    /// The spot of `asset`; zero where none has been accepted.
    pub fn spot_price(&self, asset: &str) -> (price: i64)
        ensures
            price == spot_of(self.prices@, asset@),
    {
        match self.prices.get(asset) {
            Some(entry) => entry.price,
            None => 0,
        }
    }

    /// Takes one tick in. A stale tick is dropped and the state stays as it
    /// is; a fresh one becomes the entry of its source. The result says
    /// whether the state is to be published: every published state holds,
    /// for the source of the tick, an entry that is fresh at `now_ms`.
    pub fn accept(&mut self, tick: PriceTick, now_ms: u64, stale_price_secs: u64) -> (published:
        bool)
        ensures
            published == fresh(tick.timestamp_ms, now_ms, stale_price_secs),
            !published ==> final(self).prices@ == old(self).prices@,
            published ==> final(self).prices@ == old(self).prices@.insert(
                tick.source@,
                PriceEntry { price: tick.price, timestamp_ms: tick.timestamp_ms },
            ),
            published ==> final(self).prices@.dom().contains(tick.source@) && fresh(
                final(self).prices@[tick.source@].timestamp_ms,
                now_ms,
                stale_price_secs,
            ),
    {
        if !is_fresh(tick.timestamp_ms, now_ms, stale_price_secs) {
            return false;
        }
        self.prices.insert(
            tick.source,
            PriceEntry { price: tick.price, timestamp_ms: tick.timestamp_ms },
        );
        true
    }
}

} // verus!
