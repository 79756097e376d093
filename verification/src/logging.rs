use vstd::prelude::*;
use vstd::relations::{sorted_by, total_ordering};
use crate::divergence::DivEvent;
use crate::strmap::StrMap;
use crate::units::{div_trunc, quot, saturate, within_i64};

verus! {

/// A summary is written after every this many events.
pub const SUMMARY_EVERY: u64 = 25;

/// The shortest time that counts as elapsed in a rate, in milliseconds: a
/// thousandth of an hour.
pub const MIN_ELAPSED_MS: u64 = 3_600;

/// The milliseconds of one hour.
pub const HOUR_MS: u64 = 3_600_000;

/// The order of durations by size.
pub open spec fn by_size() -> spec_fn(u64, u64) -> bool {
    |a: u64, b: u64| a <= b
}

/// The durations in rising order.
pub open spec fn in_order(durations: Seq<u64>) -> Seq<u64> {
    durations.sort_by(by_size())
}

/// The number of durations below a limit.
pub open spec fn count_below(durations: Seq<u64>, limit: u64) -> nat
    decreases durations.len(),
{
    if durations.len() == 0 {
        0
    } else {
        count_below(durations.drop_last(), limit) + if durations.last() < limit {
            1nat
        } else {
            0nat
        }
    }
}

/// The number of durations above a limit.
pub open spec fn count_above(durations: Seq<u64>, limit: u64) -> nat
    decreases durations.len(),
{
    if durations.len() == 0 {
        0
    } else {
        count_above(durations.drop_last(), limit) + if durations.last() > limit {
            1nat
        } else {
            0nat
        }
    }
}

/// The share of `part` in `whole` as a percentage in millionths of a
/// percent, rounded down; zero of nothing.
pub open spec fn percent_of(part: nat, whole: nat) -> int {
    if whole == 0 {
        0
    } else {
        ((part as int) * 100_000_000) / (whole as int)
    }
}

/// The middle one of the durations in rising order, the upper of the two
/// middle ones where their number is even; zero without durations.
pub open spec fn median_of(durations: Seq<u64>) -> u64 {
    if durations.len() == 0 {
        0
    } else {
        in_order(durations)[durations.len() as int / 2]
    }
}

/// The values in rising order.
pub fn sorted(values: &Vec<u64>) -> (out: Vec<u64>)
    ensures
        out@ == in_order(values@),
{
    let mut out: Vec<u64> = Vec::new();
    let mut i: usize = 0;
    assert(values@.take(0) =~= out@);
    while i < values.len()
        invariant
            i <= values@.len(),
            out@.len() == i,
            sorted_by(out@, by_size()),
            out@.to_multiset() == values@.take(i as int).to_multiset(),
        decreases values@.len() - i,
    {
        let x: u64 = values[i];
        let mut at: usize = 0;
        while at < out.len() && out[at] <= x
            invariant
                at <= out@.len(),
                forall|j: int| 0 <= j < at ==> out@[j] <= x,
            decreases out@.len() - at,
        {
            at = at + 1;
        }
        let ghost before = out@;
        out.insert(at, x);
        proof {
            vstd::seq_lib::to_multiset_insert(before, at as int, x);
            assert(values@.take(i + 1) == values@.take(i as int).push(x));
            vstd::seq_lib::to_multiset_build(values@.take(i as int), x);
            assert forall|a: int, b: int| 0 <= a < b < out@.len() implies by_size()(
                out@[a],
                out@[b],
            ) by {
                let a0 = if a < at { a } else { a - 1 };
                let b0 = if b < at { b } else { b - 1 };
                if a != at && b != at {
                    assert(by_size()(before[a0], before[b0]));
                } else if a == at {
                    // what follows the new value was found larger, or follows one that was
                    assert(by_size()(before[at as int], before[b0]) || b0 == at);
                }
            }
        }
        i = i + 1;
    }
    proof {
        assert(values@.take(values@.len() as int) == values@);
        assert(total_ordering(by_size()));
        values@.lemma_sort_by_ensures(by_size());
        vstd::seq_lib::lemma_sorted_unique(out@, in_order(values@), by_size());
    }
    out
}

/// The middle one of the durations.
pub fn median(durations: &Vec<u64>) -> (m: u64)
    ensures
        m == median_of(durations@),
{
    if durations.len() == 0 {
        return 0;
    }
    let ordered: Vec<u64> = sorted(durations);
    proof {
        assert(total_ordering(by_size()));
        durations@.lemma_sort_by_ensures(by_size());
        vstd::seq_lib::to_multiset_len(durations@);
        vstd::seq_lib::to_multiset_len(ordered@);
    }
    ordered[durations.len() / 2]
}

/// The number of durations below a limit, and of those above it.
pub fn count_around(durations: &Vec<u64>, limit: u64) -> (r: (usize, usize))
    ensures
        r.0 == count_below(durations@, limit),
        r.1 == count_above(durations@, limit),
        r.0 + r.1 <= durations@.len(),
{
    let mut below: usize = 0;
    let mut above: usize = 0;
    let mut i: usize = 0;
    while i < durations.len()
        invariant
            i <= durations@.len(),
            below == count_below(durations@.take(i as int), limit),
            above == count_above(durations@.take(i as int), limit),
            below + above <= i,
        decreases durations@.len() - i,
    {
        proof {
            assert(durations@.take(i + 1).drop_last() == durations@.take(i as int));
        }
        if durations[i] < limit {
            below = below + 1;
        } else if durations[i] > limit {
            above = above + 1;
        }
        i = i + 1;
    }
    proof {
        assert(durations@.take(durations@.len() as int) == durations@);
    }
    (below, above)
}

/// The share of `part` in `whole` as a percentage.
pub fn percent(part: usize, whole: usize) -> (pct: u64)
    requires
        part <= whole,
    ensures
        pct == percent_of(part as nat, whole as nat),
        pct <= 100_000_000,
{
    if whole == 0 {
        return 0;
    }
    assert(part * 100_000_000 <= whole * 100_000_000 <= 0xffff_ffff_ffff_ffff * 100_000_000)
        by (nonlinear_arith)
        requires
            0 <= part <= whole <= 0xffff_ffff_ffff_ffff,
    ;
    let scaled: u128 = part as u128 * 100_000_000;
    proof {
        vstd::arithmetic::div_mod::lemma_div_is_ordered(
            part * 100_000_000,
            whole * 100_000_000,
            whole as int,
        );
        vstd::arithmetic::div_mod::lemma_div_multiples_vanish(100_000_000, whole as int);
        vstd::arithmetic::mul::lemma_mul_is_commutative(100_000_000, whole as int);
    }
    (scaled / whole as u128) as u64
}

/// What a dry run has seen so far.
pub struct DryRunStats {
    pub total_signals: u64,
    pub total_converged: u64,
    /// The sum of the edges of all signals, in millionths.
    pub edge_sum: i64,
    /// How long each closed divergence was open, in milliseconds.
    pub durations_ms: Vec<u64>,
    /// The number of signals of each market.
    pub per_market: StrMap<u64>,
}

/// The figures of a summary. Edges are in millionths, percentages in
/// millionths of a percent, the rate in thousandths of a signal per hour.
#[derive(Clone, Copy, Debug, PartialEq, Eq, Structural)]
pub struct Summary {
    pub total_signals: u64,
    pub total_converged: usize,
    pub signals_per_hour: u64,
    pub avg_edge: i64,
    pub median_duration_ms: u64,
    pub pct_under_500ms: u64,
    pub pct_over_1s: u64,
    pub unique_markets: usize,
    pub elapsed_ms: u64,
}

/// The number of signals per hour, in thousandths and kept within 64
/// bits. A time below a thousandth of an hour counts as that.
pub open spec fn hourly_rate(total_signals: u64, elapsed_ms: u64) -> u64 {
    let elapsed = if elapsed_ms < MIN_ELAPSED_MS {
        MIN_ELAPSED_MS
    } else {
        elapsed_ms
    };
    let rate = (total_signals * HOUR_MS * 1000) / (elapsed as int);
    if rate > u64::MAX {
        u64::MAX
    } else {
        rate as u64
    }
}

/// The mean edge of the signals, rounded toward zero; zero without
/// signals.
pub open spec fn mean_edge(edge_sum: i64, total_signals: u64) -> i64 {
    if total_signals == 0 {
        0
    } else {
        within_i64(div_trunc(edge_sum as int, total_signals as int))
    }
}

/// One more, and the largest value for itself.
pub open spec fn bumped(n: u64) -> u64 {
    if n < u64::MAX {
        (n + 1) as u64
    } else {
        u64::MAX
    }
}

/// The count of a market; zero for one without signal.
pub open spec fn market_count(per_market: Map<Seq<char>, u64>, market: Seq<char>) -> u64 {
    if per_market.dom().contains(market) {
        per_market[market]
    } else {
        0
    }
}

impl DryRunStats {
    /// The figures with which a run starts.
    pub fn new() -> (stats: DryRunStats)
        ensures
            stats.total_signals == 0,
            stats.total_converged == 0,
            stats.edge_sum == 0,
            stats.durations_ms@.len() == 0,
            stats.per_market@ == Map::<Seq<char>, u64>::empty(),
    {
        DryRunStats {
            total_signals: 0,
            total_converged: 0,
            edge_sum: 0,
            durations_ms: Vec::new(),
            per_market: StrMap::new(),
        }
    }

    /// Whether a summary is due: after every twenty-fifth event.
    pub open spec fn summary_due(self) -> bool {
        let total = self.total_signals + self.total_converged;
        total > 0 && total % (SUMMARY_EVERY as int) == 0
    }

    /// Takes one event into the figures, and says whether a summary is due.
    pub fn record(&mut self, event: &DivEvent) -> (due: bool)
        ensures
            due == final(self).summary_due(),
            match *event {
                DivEvent::Signal(signal) => {
                    &&& final(self).total_signals == bumped(old(self).total_signals)
                    &&& final(self).total_converged == old(self).total_converged
                    &&& final(self).edge_sum == within_i64(old(self).edge_sum + signal.edge)
                    &&& final(self).durations_ms == old(self).durations_ms
                    &&& final(self).per_market@ == old(self).per_market@.insert(
                        signal.market_name@,
                        bumped(market_count(old(self).per_market@, signal.market_name@)),
                    )
                },
                DivEvent::Converged { market_name, duration_ms, peak_edge } => {
                    &&& final(self).total_signals == old(self).total_signals
                    &&& final(self).total_converged == bumped(old(self).total_converged)
                    &&& final(self).edge_sum == old(self).edge_sum
                    &&& final(self).durations_ms@ == old(self).durations_ms@.push(duration_ms)
                    &&& final(self).per_market == old(self).per_market
                },
            },
    {
        match event {
            DivEvent::Signal(signal) => {
                if self.total_signals < u64::MAX {
                    self.total_signals = self.total_signals + 1;
                }
                self.edge_sum = saturate(self.edge_sum as i128 + signal.edge as i128);
                let count: u64 = match self.per_market.get(signal.market_name.as_str()) {
                    Some(n) => *n,
                    None => 0,
                };
                let next: u64 = if count < u64::MAX {
                    count + 1
                } else {
                    u64::MAX
                };
                self.per_market.insert(signal.market_name.clone(), next);
            },
            DivEvent::Converged { market_name, duration_ms, peak_edge } => {
                if self.total_converged < u64::MAX {
                    self.total_converged = self.total_converged + 1;
                }
                self.durations_ms.push(*duration_ms);
            },
        }
        let total: u128 = self.total_signals as u128 + self.total_converged as u128;
        total > 0 && total % (SUMMARY_EVERY as u128) == 0
    }

    /// The figures of a summary after `elapsed_ms` milliseconds.
    pub fn summary(&self, elapsed_ms: u64) -> (s: Summary)
        ensures
            s == (Summary {
                total_signals: self.total_signals,
                total_converged: self.durations_ms@.len() as usize,
                signals_per_hour: hourly_rate(self.total_signals, elapsed_ms),
                avg_edge: mean_edge(self.edge_sum, self.total_signals),
                median_duration_ms: median_of(self.durations_ms@),
                pct_under_500ms: percent_of(
                    count_below(self.durations_ms@, 500),
                    self.durations_ms@.len(),
                ) as u64,
                pct_over_1s: percent_of(
                    count_above(self.durations_ms@, 1000),
                    self.durations_ms@.len(),
                ) as u64,
                unique_markets: self.per_market@.dom().len() as usize,
                elapsed_ms,
            }),
    {
        let elapsed: u64 = if elapsed_ms < MIN_ELAPSED_MS {
            MIN_ELAPSED_MS
        } else {
            elapsed_ms
        };
        assert(0 <= self.total_signals * HOUR_MS * 1000 <= 0xffff_ffff_ffff_ffff * 3_600_000_000)
            by (nonlinear_arith)
            requires
                0 <= self.total_signals <= 0xffff_ffff_ffff_ffff,
                HOUR_MS == 3_600_000,
        ;
        let rate: u128 = (self.total_signals as u128 * HOUR_MS as u128 * 1000) / elapsed as u128;
        let signals_per_hour: u64 = if rate > u64::MAX as u128 {
            u64::MAX
        } else {
            rate as u64
        };
        let avg_edge: i64 = if self.total_signals == 0 {
            0
        } else {
            saturate(quot(self.edge_sum as i128, self.total_signals as i128))
        };
        let n: usize = self.durations_ms.len();
        let (under, _) = count_around(&self.durations_ms, 500);
        let (_, over) = count_around(&self.durations_ms, 1000);
        Summary {
            total_signals: self.total_signals,
            total_converged: n,
            signals_per_hour,
            avg_edge,
            median_duration_ms: median(&self.durations_ms),
            pct_under_500ms: percent(under, n),
            pct_over_1s: percent(over, n),
            unique_markets: self.per_market.len(),
            elapsed_ms,
        }
    }
}

} // verus!
