use vstd::prelude::*;
use crate::clock::current_day_epoch;
use crate::config::Config;
use crate::units::{clamp, ONE};

verus! {

/// The bankroll taken where the configuration names none: one hundred units.
pub const DEFAULT_BANKROLL: u64 = 100_000_000;

/// The edge, in millionths, at which the edge multiplier starts to grow.
pub const EDGE_UNIT: i64 = 50_000;

/// No position is larger than the bankroll divided by this.
pub const CAP_DIVISOR: u64 = 50;

/// Gates signals on the bankroll, on the number of open positions and on the
/// loss of the day, and sizes positions. Amounts are in millionths of the
/// quote currency, fractions in millionths of one.
pub struct RiskManager {
    pub bankroll: u64,
    pub max_position_pct: u32,
    pub max_daily_loss_pct: u32,
    pub max_open_positions: usize,
    pub daily_pnl: i64,
    pub open_positions: usize,
    pub day_start_epoch: u64,
    pub killed: bool,
}

/// The factor, in millionths, by which the edge scales a position: the edge
/// over 0.05, kept between one and two.
pub open spec fn edge_multiplier(edge: int) -> int {
    clamp(edge * 20, ONE as int, 2 * ONE)
}

impl RiskManager {
    /// The state that a configuration gives on the day `today`.
    pub open spec fn initial(cfg: Config, today: u64) -> RiskManager {
        RiskManager {
            bankroll: if cfg.strategy.seed_usd > 0 {
                cfg.strategy.seed_usd
            } else {
                DEFAULT_BANKROLL
            },
            max_position_pct: cfg.strategy.max_position_pct,
            max_daily_loss_pct: cfg.strategy.max_daily_loss_pct,
            max_open_positions: cfg.strategy.max_open_positions,
            daily_pnl: 0,
            open_positions: 0,
            day_start_epoch: today,
            killed: false,
        }
    }

    /// The state once the day `today` is known: a new day clears the loss of
    /// the day and the kill switch.
    pub open spec fn rolled(self, today: u64) -> RiskManager {
        if today != self.day_start_epoch {
            RiskManager { daily_pnl: 0, killed: false, day_start_epoch: today, ..self }
        } else {
            self
        }
    }

    /// The loss of the day is beyond the configured share of the bankroll.
    pub open spec fn loss_cap_hit(self) -> bool {
        self.daily_pnl * ONE < -(self.bankroll * self.max_daily_loss_pct)
    }

    /// As many positions are open as may be.
    pub open spec fn at_position_limit(self) -> bool {
        self.open_positions >= self.max_open_positions
    }

    /// Whether a trade is allowed on the day `today`.
    pub open spec fn allows_trade(self, today: u64) -> bool {
        let r = self.rolled(today);
        !r.killed && !r.at_position_limit() && !r.loss_cap_hit()
    }

    /// The state after the question whether a trade is allowed on `today`:
    /// the day is rolled, and the kill switch is set where the loss cap is
    /// found hit.
    pub open spec fn after_trade_check(self, today: u64) -> RiskManager {
        let r = self.rolled(today);
        RiskManager { killed: r.killed || (!r.at_position_limit() && r.loss_cap_hit()), ..r }
    }

    /// The position before scaling by the edge: the configured share of the
    /// bankroll, rounded down.
    pub open spec fn base_size(self) -> int {
        (self.bankroll * self.max_position_pct) / (ONE as int)
    }

    /// The position scaled by the edge and not yet capped, rounded down.
    pub open spec fn scaled_size(self, edge: int) -> int {
        (self.bankroll * self.max_position_pct * edge_multiplier(edge)) / (ONE * ONE)
    }

    /// The absolute cap: two percent of the bankroll, rounded down.
    pub open spec fn size_cap(self) -> int {
        (self.bankroll as int) / (CAP_DIVISOR as int)
    }

    /// The size of a position taken at the edge `edge`.
    pub open spec fn sized(self, edge: int) -> int {
        if self.scaled_size(edge) < self.size_cap() {
            self.scaled_size(edge)
        } else {
            self.size_cap()
        }
    }

    /// The state that a configuration gives on the day `today`.
    pub fn new_at(cfg: &Config, today: u64) -> (risk: RiskManager)
        ensures
            risk == Self::initial(*cfg, today),
    {
        let bankroll: u64 = if cfg.strategy.seed_usd > 0 {
            cfg.strategy.seed_usd
        } else {
            DEFAULT_BANKROLL
        };
        RiskManager {
            bankroll,
            max_position_pct: cfg.strategy.max_position_pct,
            max_daily_loss_pct: cfg.strategy.max_daily_loss_pct,
            max_open_positions: cfg.strategy.max_open_positions,
            daily_pnl: 0,
            open_positions: 0,
            day_start_epoch: today,
            killed: false,
        }
    }

    /// The state that a configuration gives on the day read from the clock.
    pub fn new(cfg: &Config) -> (risk: RiskManager)
        ensures
            risk == Self::initial(*cfg, risk.day_start_epoch),
    {
        Self::new_at(cfg, current_day_epoch())
    }

    /// Whether a trade is allowed on the day `today`. A new day clears the
    /// loss of the day and the kill switch; a loss beyond the cap sets the
    /// switch, which then refuses every trade of that day.
    pub fn can_trade_at(&mut self, today: u64) -> (ok: bool)
        ensures
            ok == old(self).allows_trade(today),
            *final(self) == old(self).after_trade_check(today),
    {
        self.maybe_reset_day(today);
        if self.killed {
            return false;
        }
        if self.open_positions >= self.max_open_positions {
            return false;
        }
        assert(-0x8000_0000_0000_0000 * 1_000_000 <= self.daily_pnl * ONE <= 0x8000_0000_0000_0000
            * 1_000_000) by (nonlinear_arith)
            requires
                -0x8000_0000_0000_0000 <= self.daily_pnl <= 0x8000_0000_0000_0000,
                ONE == 1_000_000,
        ;
        let loss: i128 = self.daily_pnl as i128 * ONE as i128;
        assert(self.bankroll * self.max_daily_loss_pct <= 0xffff_ffff_ffff_ffff * 0xffff_ffff)
            by (nonlinear_arith)
            requires
                0 <= self.bankroll <= 0xffff_ffff_ffff_ffff,
                0 <= self.max_daily_loss_pct <= 0xffff_ffff,
        ;
        let cap: i128 = self.bankroll as i128 * self.max_daily_loss_pct as i128;
        if loss < -cap {
            self.killed = true;
            return false;
        }
        true
    }

    /// Whether a trade is allowed now, on the day read from the clock.
    pub fn can_trade(&mut self) -> (ok: bool)
        ensures
            ok == old(self).allows_trade(final(self).day_start_epoch),
            *final(self) == old(self).after_trade_check(final(self).day_start_epoch),
    {
        self.can_trade_at(current_day_epoch())
    }

    /// The size of a position at the edge `edge`: the configured share of
    /// the bankroll, scaled by the edge over 0.05 between one and two, and
    /// never above two percent of the bankroll. The price plays no part.
    pub fn position_size(&self, edge: i64, price: i64) -> (size: u64)
        ensures
            size == self.sized(edge as int),
            size * CAP_DIVISOR <= self.bankroll,
    {
        let scaled_edge: i128 = edge as i128 * 20;
        let mult: i128 = if scaled_edge < ONE as i128 {
            ONE as i128
        } else if scaled_edge > 2 * (ONE as i128) {
            2 * (ONE as i128)
        } else {
            scaled_edge
        };
        assert(0 <= self.bankroll * self.max_position_pct * mult <= 0xffff_ffff_ffff_ffff
            * 0xffff_ffff * 2_000_000) by (nonlinear_arith)
            requires
                0 <= self.bankroll <= 0xffff_ffff_ffff_ffff,
                0 <= self.max_position_pct <= 0xffff_ffff,
                1_000_000 <= mult <= 2_000_000,
        ;
        assert(0 <= self.bankroll * self.max_position_pct <= 0xffff_ffff_ffff_ffff * 0xffff_ffff)
            by (nonlinear_arith)
            requires
                0 <= self.bankroll <= 0xffff_ffff_ffff_ffff,
                0 <= self.max_position_pct <= 0xffff_ffff,
        ;
        let product: u128 = self.bankroll as u128 * self.max_position_pct as u128 * mult as u128;
        let scaled: u128 = product / ((ONE as u128) * (ONE as u128));
        let cap: u64 = self.bankroll / CAP_DIVISOR;
        proof {
            vstd::arithmetic::div_mod::lemma_fundamental_div_mod(
                self.bankroll as int,
                CAP_DIVISOR as int,
            );
        }
        if scaled < cap as u128 {
            scaled as u64
        } else {
            cap
        }
    }

    /// Counts one more open position.
    pub fn record_fill(&mut self, size_usd: u64)
        ensures
            *final(self) == (RiskManager {
                open_positions: if old(self).open_positions < usize::MAX {
                    (old(self).open_positions + 1) as usize
                } else {
                    usize::MAX
                },
                ..*old(self)
            }),
    {
        if self.open_positions < usize::MAX {
            self.open_positions = self.open_positions + 1;
        }
    }

    /// Counts one open position less and adds its result to the loss or gain
    /// of the day, which stays within 64 bits.
    pub fn record_close(&mut self, pnl: i64)
        ensures
            *final(self) == (RiskManager {
                open_positions: if old(self).open_positions > 0 {
                    (old(self).open_positions - 1) as usize
                } else {
                    0
                },
                daily_pnl: clamp(old(self).daily_pnl + pnl, i64::MIN as int, i64::MAX as int) as i64,
                ..*old(self)
            }),
    {
        if self.open_positions > 0 {
            self.open_positions = self.open_positions - 1;
        }
        let sum: i128 = self.daily_pnl as i128 + pnl as i128;
        self.daily_pnl = if sum < i64::MIN as i128 {
            i64::MIN
        } else if sum > i64::MAX as i128 {
            i64::MAX
        } else {
            sum as i64
        };
    }

    /// Takes the balance as the new bankroll.
    pub fn update_bankroll(&mut self, balance: u64)
        ensures
            *final(self) == (RiskManager { bankroll: balance, ..*old(self) }),
    {
        self.bankroll = balance;
    }

    /// Clears the loss of the day and the kill switch where `today` is a new
    /// day.
    pub fn maybe_reset_day(&mut self, today: u64)
        ensures
            *final(self) == old(self).rolled(today),
    {
        if today != self.day_start_epoch {
            self.daily_pnl = 0;
            self.killed = false;
            self.day_start_epoch = today;
        }
    }
}

/// No position is larger than two percent of the bankroll, whatever the
/// edge.
pub proof fn lemma_size_within_cap(risk: RiskManager, edge: int)
    ensures
        risk.sized(edge) * 50 <= risk.bankroll,
        0 <= risk.sized(edge),
{
    vstd::arithmetic::div_mod::lemma_fundamental_div_mod(risk.bankroll as int, 50);
    let product = risk.bankroll * risk.max_position_pct * edge_multiplier(edge);
    assert(product >= 0) by (nonlinear_arith)
        requires
            product == risk.bankroll * risk.max_position_pct * edge_multiplier(edge),
            risk.bankroll >= 0,
            risk.max_position_pct >= 0,
            edge_multiplier(edge) >= 1,
    ;
    vstd::arithmetic::div_mod::lemma_div_pos_is_pos(product, ONE * ONE);
}

/// From an edge of 0.05 on, the position before the cap is at least the
/// configured share of the bankroll.
pub proof fn lemma_size_at_least_base(risk: RiskManager, edge: int)
    requires
        edge >= EDGE_UNIT,
    ensures
        risk.scaled_size(edge) >= risk.base_size(),
{
    let share = risk.bankroll * risk.max_position_pct;
    let mult = edge_multiplier(edge);
    assert(share * mult >= share * ONE) by (nonlinear_arith)
        requires
            share >= 0,
            mult >= ONE,
    ;
    assert(share * mult == risk.bankroll * risk.max_position_pct * mult);
    vstd::arithmetic::div_mod::lemma_div_is_ordered(share * ONE, share * mult, ONE * ONE);
    vstd::arithmetic::div_mod::lemma_div_denominator(share * ONE, ONE as int, ONE as int);
    vstd::arithmetic::div_mod::lemma_div_multiples_vanish(share, ONE as int);
    vstd::arithmetic::mul::lemma_mul_is_commutative(share, ONE as int);
}

/// Once set, the kill switch refuses every trade of the same day and stays
/// set; the first check on another day clears it.
pub proof fn lemma_kill_switch_is_sticky(risk: RiskManager, today: u64)
    requires
        risk.killed,
    ensures
        today == risk.day_start_epoch ==> !risk.allows_trade(today) && risk.after_trade_check(
            today,
        ).killed,
        today != risk.day_start_epoch ==> !risk.rolled(today).killed && risk.rolled(
            today,
        ).daily_pnl == 0,
{
}

} // verus!
