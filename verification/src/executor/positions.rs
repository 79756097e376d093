use vstd::prelude::*;
use crate::divergence::Signal;
use crate::strmap::StrMap;
use vstd::string::StringExecFns;
use crate::units::{div_trunc, scaled_quot, within_i64};

verus! {

/// A position that an order has opened.
#[derive(Clone, Debug)]
pub struct OpenPosition {
    pub signal: Signal,
    /// The reading of the monotonic clock at which it was opened.
    pub opened_at: u64,
    pub filled: bool,
}

/// The open positions, by token.
pub struct PositionTracker {
    pub positions: StrMap<OpenPosition>,
}

/// The result of a position closed at `exit_price`: the gain per share
/// times the shares, which are the amount over the entry price. In
/// millionths, rounded toward zero and kept within 64 bits; zero for a
/// position without entry price.
pub open spec fn closing_pnl(entry_price: i64, size_usd: u64, exit_price: i64) -> i64 {
    if entry_price > 0 {
        within_i64(div_trunc((exit_price - entry_price) * size_usd, entry_price as int))
    } else {
        0
    }
}

/// The result of a position closed at `exit_price`.
pub fn pnl_at_exit(entry_price: i64, size_usd: u64, exit_price: i64) -> (pnl: i64)
    ensures
        pnl == closing_pnl(entry_price, size_usd, exit_price),
{
    if entry_price <= 0 {
        return 0;
    }
    let gain: i128 = exit_price as i128 - entry_price as i128;
    scaled_quot(gain, size_usd, entry_price)
}

impl PositionTracker {
    /// The tracker without positions.
    pub fn new() -> (tracker: PositionTracker)
        ensures
            tracker.positions@ == Map::<Seq<char>, OpenPosition>::empty(),
    {
        PositionTracker { positions: StrMap::new() }
    }

    /// Records the position that the order of a signal opened at the clock
    /// reading `mono_ms`. A token has one position: a new one takes the
    /// place of the old.
    pub fn record_open(&mut self, signal: Signal, mono_ms: u64)
        ensures
            final(self).positions@ == old(self).positions@.insert(
                signal.token_id@,
                OpenPosition { signal, opened_at: mono_ms, filled: false },
            ),
    {
        let key: String = signal.token_id.clone();
        self.positions.insert(key, OpenPosition { signal, opened_at: mono_ms, filled: false });
    }

    /// Marks the position of a token as filled. Gives the time since it
    /// was opened, or nothing for a token without position.
    pub fn record_fill(&mut self, token_id: &str, mono_ms: u64) -> (latency_ms: Option<u64>)
        ensures
            !old(self).positions@.dom().contains(token_id@) ==> latency_ms is None
                && final(self).positions@ == old(self).positions@,
            old(self).positions@.dom().contains(token_id@) ==> {
                let before = old(self).positions@[token_id@];
                &&& latency_ms == Some(
                    if mono_ms >= before.opened_at {
                        (mono_ms - before.opened_at) as u64
                    } else {
                        0
                    },
                )
                &&& final(self).positions@ == old(self).positions@.insert(
                    token_id@,
                    OpenPosition { filled: true, ..before },
                )
            },
    {
        match self.positions.remove(token_id) {
            Some(position) => {
                let latency: u64 = if mono_ms >= position.opened_at {
                    mono_ms - position.opened_at
                } else {
                    0
                };
                let key: String = String::from_str(token_id);
                let updated = OpenPosition {
                    signal: position.signal,
                    opened_at: position.opened_at,
                    filled: true,
                };
                self.positions.insert(key, updated);
                proof {
                    assert(self.positions@ =~= old(self).positions@.remove(token_id@).insert(
                        key@,
                        updated,
                    ));
                }
                Some(latency)
            },
            None => {
                assert(self.positions@ =~= old(self).positions@);
                None
            },
        }
    }

    /// Closes the position of a token at `exit_price` and gives its
    /// result; nothing for a token without position.
    pub fn record_close(&mut self, token_id: &str, exit_price: i64) -> (pnl: Option<i64>)
        ensures
            final(self).positions@ == old(self).positions@.remove(token_id@),
            pnl == (if old(self).positions@.dom().contains(token_id@) {
                Some(
                    closing_pnl(
                        old(self).positions@[token_id@].signal.price,
                        old(self).positions@[token_id@].signal.size_usd,
                        exit_price,
                    ),
                )
            } else {
                None
            }),
    {
        match self.positions.remove(token_id) {
            Some(position) => Some(
                pnl_at_exit(position.signal.price, position.signal.size_usd, exit_price),
            ),
            None => None,
        }
    }

    /// The number of open positions.
    pub fn open_count(&self) -> (n: usize)
        ensures
            n == self.positions@.dom().len(),
    {
        self.positions.len()
    }

    /// The signals of the open positions, in the order in which their
    /// tokens first came in.
    pub fn open_positions(&self) -> (signals: Vec<&Signal>)
        ensures
            signals@.len() == self.positions.key_seq().len(),
            forall|i: int|
                0 <= i < signals@.len() ==> *(#[trigger] signals@[i])
                    == self.positions@[self.positions.key_seq()[i]].signal,
    {
        let n: usize = self.positions.len();
        let mut signals: Vec<&Signal> = Vec::new();
        let mut i: usize = 0;
        while i < n
            invariant
                i <= n,
                n == self.positions.key_seq().len(),
                signals@.len() == i,
                forall|j: int|
                    0 <= j < i ==> *(#[trigger] signals@[j])
                        == self.positions@[self.positions.key_seq()[j]].signal,
            decreases n - i,
        {
            signals.push(&self.positions.value_at(i).signal);
            i = i + 1;
        }
        signals
    }
}

} // verus!
