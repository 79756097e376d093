pub mod aggregator;
pub mod binance;
pub mod coinbase;
pub mod deribit;
pub mod kraken;
pub mod okx;

use vstd::prelude::*;

verus! {

/// The wait before a feed goes through its endpoints again, in
/// milliseconds.
pub const RESTART_DELAY_MS: u64 = 1_000;

/// The capacity of the channel that carries ticks to the aggregator.
pub const TICK_CHANNEL_CAPACITY: usize = 4_096;

/// What a feed does once the connection to an endpoint has ended.
#[derive(Clone, Copy, Debug, PartialEq, Eq, Structural)]
pub enum Failover {
    /// Connect to the endpoint at this place of the list.
    Connect { index: usize },
    /// Every endpoint was tried: wait, and start again with the first.
    Restart { delay_ms: u64 },
}

/// What follows the end of the connection to the endpoint at place `index`
/// of a list of `count` endpoints: the next endpoint, or, after the last,
/// the wait of one second before the first is tried again.
pub open spec fn failover(index: usize, count: usize) -> Failover {
    if index + 1 < count {
        Failover::Connect { index: (index + 1) as usize }
    } else {
        Failover::Restart { delay_ms: RESTART_DELAY_MS }
    }
}

/// What a feed does once the connection to an endpoint has ended.
pub fn after_disconnect(index: usize, count: usize) -> (next: Failover)
    ensures
        next == failover(index, count),
{
    if index < count && index + 1 < count {
        Failover::Connect { index: index + 1 }
    } else {
        Failover::Restart { delay_ms: RESTART_DELAY_MS }
    }
}

/// Whether the tick with this running number is written to the log: the
/// first one, and every thousandth.
pub fn logs_tick(count: u64) -> (logged: bool)
    ensures
        logged == (count == 1 || count % 1000 == 0),
{
    count == 1 || count % 1000 == 0
}

} // verus!
