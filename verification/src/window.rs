use vstd::prelude::*;
use crate::units::ONE;

verus! {

/// One timed market: it pays one unit where the asset closes the window
/// above its opening price. Times are in milliseconds since the epoch, the
/// opening price in millionths; it is zero until it is captured.
#[derive(Clone, Debug)]
pub struct Window {
    pub slug: String,
    pub asset: String,
    pub condition_id: String,
    pub yes_token: String,
    pub no_token: String,
    pub open_time_ms: u64,
    pub close_time_ms: u64,
    pub open_price: i64,
}

/// A window as plain data.
pub struct WindowData {
    pub slug: Seq<char>,
    pub asset: Seq<char>,
    pub condition_id: Seq<char>,
    pub yes_token: Seq<char>,
    pub no_token: Seq<char>,
    pub open_time_ms: u64,
    pub close_time_ms: u64,
    pub open_price: i64,
}

impl View for Window {
    type V = WindowData;

    open spec fn view(&self) -> WindowData {
        WindowData {
            slug: self.slug@,
            asset: self.asset@,
            condition_id: self.condition_id@,
            yes_token: self.yes_token@,
            no_token: self.no_token@,
            open_time_ms: self.open_time_ms,
            close_time_ms: self.close_time_ms,
            open_price: self.open_price,
        }
    }
}

impl Window {
    /// The length of the window; zero where the close does not lie after
    /// the open.
    pub open spec fn duration(self) -> int {
        if self.close_time_ms > self.open_time_ms {
            self.close_time_ms - self.open_time_ms
        } else {
            0
        }
    }

    /// The time left until the close; zero from the close on.
    pub open spec fn remaining(self, now_ms: u64) -> int {
        if self.close_time_ms > now_ms {
            self.close_time_ms - now_ms
        } else {
            0
        }
    }

    /// The time left as a share of the window's length, in millionths and
    /// rounded down; zero for a window without length.
    pub open spec fn remaining_frac(self, now_ms: u64) -> int {
        if self.duration() > 0 {
            (self.remaining(now_ms) * ONE) / self.duration()
        } else {
            0
        }
    }

    /// The share of the time left as the 64-bit value that carries it: the
    /// largest value stands for every share beyond it.
    pub open spec fn remaining_frac_capped(self, now_ms: u64) -> int {
        if self.remaining_frac(now_ms) <= i64::MAX {
            self.remaining_frac(now_ms)
        } else {
            i64::MAX as int
        }
    }

    /// The window has opened and not yet closed.
    pub open spec fn active(self, now_ms: u64) -> bool {
        self.open_time_ms <= now_ms < self.close_time_ms
    }

    /// The window has closed.
    pub open spec fn expired(self, now_ms: u64) -> bool {
        now_ms >= self.close_time_ms
    }

    /// The length of the window in milliseconds.
    pub fn duration_ms(&self) -> (d: u64)
        ensures
            d == self.duration(),
    {
        if self.close_time_ms > self.open_time_ms {
            self.close_time_ms - self.open_time_ms
        } else {
            0
        }
    }

    /// The milliseconds left until the close.
    pub fn time_remaining(&self, now_ms: u64) -> (left: u64)
        ensures
            left == self.remaining(now_ms),
    {
        if self.close_time_ms > now_ms {
            self.close_time_ms - now_ms
        } else {
            0
        }
    }

    /// The time left as a share of the window's length, in millionths. It
    /// is above one before the window opens; where it does not fit in 64
    /// bits the largest value stands for it.
    pub fn time_remaining_frac(&self, now_ms: u64) -> (frac: i64)
        ensures
            frac == self.remaining_frac_capped(now_ms),
            frac >= 0,
            !self.expired(now_ms) && self.open_time_ms <= now_ms ==> frac == self.remaining_frac(
                now_ms,
            ) && frac <= ONE,
    {
        let duration: u64 = self.duration_ms();
        if duration == 0 {
            return 0;
        }
        let left: u64 = self.time_remaining(now_ms);
        assert(0 <= left * ONE <= 0xffff_ffff_ffff_ffff * 1_000_000) by (nonlinear_arith)
            requires
                0 <= left <= 0xffff_ffff_ffff_ffff,
                ONE == 1_000_000,
        ;
        let scaled: u128 = left as u128 * ONE as u128;
        let frac: u128 = scaled / duration as u128;
        proof {
            vstd::arithmetic::div_mod::lemma_div_pos_is_pos(scaled as int, duration as int);
            if self.open_time_ms <= now_ms {
                assert(left <= duration);
                assert(left * ONE <= duration * ONE) by (nonlinear_arith)
                    requires
                        left <= duration,
                        ONE == 1_000_000,
                ;
                vstd::arithmetic::div_mod::lemma_div_is_ordered(
                    left * ONE,
                    duration * ONE,
                    duration as int,
                );
                vstd::arithmetic::div_mod::lemma_div_multiples_vanish(ONE as int, duration as int);
                vstd::arithmetic::mul::lemma_mul_is_commutative(ONE as int, duration as int);
            }
        }
        if frac > i64::MAX as u128 {
            i64::MAX
        } else {
            frac as i64
        }
    }

    /// Whether the window has opened and not yet closed.
    pub fn is_active(&self, now_ms: u64) -> (r: bool)
        ensures
            r == self.active(now_ms),
    {
        self.open_time_ms <= now_ms && now_ms < self.close_time_ms
    }

    /// Whether the window has closed.
    pub fn is_expired(&self, now_ms: u64) -> (r: bool)
        ensures
            r == self.expired(now_ms),
    {
        now_ms >= self.close_time_ms
    }

    /// A copy of the window.
    pub fn duplicate(&self) -> (copy: Window)
        ensures
            copy == *self,
    {
        Window {
            slug: self.slug.clone(),
            asset: self.asset.clone(),
            condition_id: self.condition_id.clone(),
            yes_token: self.yes_token.clone(),
            no_token: self.no_token.clone(),
            open_time_ms: self.open_time_ms,
            close_time_ms: self.close_time_ms,
            open_price: self.open_price,
        }
    }
}

} // verus!
