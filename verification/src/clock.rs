use vstd::prelude::*;
use std::time::{SystemTime, UNIX_EPOCH};

verus! {

/// The seconds of one day.
pub const DAY_SECS: u64 = 86_400;

/// The largest window length for which the start of the next window always
/// fits in 64 bits: the clock is read in milliseconds, so its seconds stay
/// below a thousandth of the 64-bit range.
pub const MAX_WINDOW_SECS: u64 = u64::MAX - u64::MAX / 1000;

/// Reads the system clock with `std::time::SystemTime::now` and gives the
/// milliseconds since the Unix epoch, or nothing where the clock stands
/// before the epoch. Nothing is claimed of the value.
#[verifier::external_body]
fn unix_millis() -> (millis: Option<u64>) {
    match SystemTime::now().duration_since(UNIX_EPOCH) {
        Ok(d) => Some(d.as_millis() as u64),
        Err(_) => None,
    }
}

/// The start, in epoch seconds, of the window of `duration_secs` seconds in
/// which the moment `now_ms` lies.
pub open spec fn window_start(now_ms: int, duration_secs: int) -> int
    recommends
        duration_secs > 0,
{
    ((now_ms / 1000) / duration_secs) * duration_secs
}

/// The day, counted from the epoch, in which the second `secs` lies.
pub open spec fn day_of(secs: int) -> int {
    secs / (DAY_SECS as int)
}

/// Milliseconds since the Unix epoch; zero where the clock stands before it.
pub fn now_ms() -> (millis: u64) {
    let reading: Option<u64> = unix_millis();
    // a clock that stands before the epoch counts as standing at it
    let millis: u64 = epoch_millis(reading);
    millis
}

/// Whole seconds since the Unix epoch.
pub fn now_secs() -> (secs: u64)
    ensures
        secs <= u64::MAX / 1000,
{
    whole_secs(now_ms())
}

/// The start of the window that holds `now_ms`. Windows are aligned to
/// multiples of their length since the epoch.
pub fn window_start_at(now_ms: u64, duration_secs: u64) -> (start: u64)
    requires
        duration_secs > 0,
    ensures
        start == window_start(now_ms as int, duration_secs as int),
        start % duration_secs == 0,
        start * 1000 <= now_ms < (start + duration_secs) * 1000,
{
    let secs: u64 = now_ms / 1000;
    let index: u64 = secs / duration_secs;
    proof {
        lemma_window_holds_now(now_ms as int, duration_secs as int);
    }
    index * duration_secs
}

/// The start of the window after the one that holds `now_ms`. It must fit
/// in 64 bits, as it does for every window length up to `MAX_WINDOW_SECS`.
pub fn next_window_start_at(now_ms: u64, duration_secs: u64) -> (start: u64)
    requires
        duration_secs > 0,
        window_start(now_ms as int, duration_secs as int) + duration_secs <= u64::MAX,
    ensures
        start == window_start(now_ms as int, duration_secs as int) + duration_secs,
        start * 1000 > now_ms,
{
    let current: u64 = window_start_at(now_ms, duration_secs);
    current + duration_secs
}

/// The start of the window that is running now.
pub fn current_window_start(duration_secs: u64) -> (start: u64)
    requires
        duration_secs > 0,
    ensures
        start % duration_secs == 0,
        start <= u64::MAX / 1000,
{
    window_start_at(now_ms(), duration_secs)
}

/// The start of the window that opens next.
pub fn next_window_start(duration_secs: u64) -> (start: u64)
    requires
        0 < duration_secs <= MAX_WINDOW_SECS,
    ensures
        start % duration_secs == 0,
        start >= duration_secs,
{
    let now: u64 = now_ms();
    let current: u64 = window_start_at(now, duration_secs);
    proof {
        lemma_next_window_fits(now, duration_secs);
        assert((current + duration_secs) % (duration_secs as int) == 0) by (nonlinear_arith)
            requires
                current % duration_secs == 0,
                duration_secs > 0,
        ;
    }
    current + duration_secs
}

/// The day that holds the second `secs`.
pub fn day_epoch_at(secs: u64) -> (day: u64)
    ensures
        day == day_of(secs as int),
{
    secs / DAY_SECS
}

/// The day that is running now, counted from the epoch.
pub fn current_day_epoch() -> (day: u64)
    ensures
        day <= u64::MAX / 1000 / DAY_SECS,
{
    let secs: u64 = now_secs();
    proof {
        vstd::arithmetic::div_mod::lemma_div_is_ordered(
            secs as int,
            (u64::MAX / 1000) as int,
            DAY_SECS as int,
        );
    }
    day_epoch_at(secs)
}

/// A window start is a multiple of the window length, the moment lies in the
/// window that starts there, and the next window starts one length later.
pub proof fn lemma_window_holds_now(now_ms: int, duration_secs: int)
    requires
        now_ms >= 0,
        duration_secs > 0,
    ensures
        window_start(now_ms, duration_secs) % duration_secs == 0,
        0 <= window_start(now_ms, duration_secs),
        window_start(now_ms, duration_secs) * 1000 <= now_ms < (window_start(
            now_ms,
            duration_secs,
        ) + duration_secs) * 1000,
        (window_start(now_ms, duration_secs) + duration_secs) - window_start(
            now_ms,
            duration_secs,
        ) == duration_secs,
{
    let secs = now_ms / 1000;
    let index = secs / duration_secs;
    vstd::arithmetic::div_mod::lemma_fundamental_div_mod(secs, duration_secs);
    vstd::arithmetic::div_mod::lemma_mod_multiples_basic(index, duration_secs);
    vstd::arithmetic::mul::lemma_mul_is_commutative(index, duration_secs);
    assert(index >= 0) by (nonlinear_arith)
        requires
            index == secs / duration_secs,
            secs >= 0,
            duration_secs > 0,
    ;
    assert(index * duration_secs >= 0) by (nonlinear_arith)
        requires
            index >= 0,
            duration_secs > 0,
    ;
    assert(0 <= secs % duration_secs < duration_secs);
}

/// With a window length up to `MAX_WINDOW_SECS` the start of the next
/// window fits in 64 bits, whatever the clock reads.
pub proof fn lemma_next_window_fits(now_ms: u64, duration_secs: u64)
    requires
        0 < duration_secs <= MAX_WINDOW_SECS,
    ensures
        window_start(now_ms as int, duration_secs as int) + duration_secs <= u64::MAX,
{
    lemma_window_holds_now(now_ms as int, duration_secs as int);
}

/// What a reading of the clock counts as: its milliseconds, and the epoch
/// itself for a clock that stands before the epoch.
pub open spec fn reading_millis(reading: Option<u64>) -> u64 {
    match reading {
        Some(millis) => millis,
        None => 0,
    }
}

/// The milliseconds that a reading of the clock counts as.
pub fn epoch_millis(reading: Option<u64>) -> (millis: u64)
    ensures
        millis == reading_millis(reading),
{
    match reading {
        Some(m) => m,
        None => 0,
    }
}

/// The whole seconds in a number of milliseconds.
pub fn whole_secs(millis: u64) -> (secs: u64)
    ensures
        secs == millis / 1000,
{
    millis / 1000
}

} // verus!
