use vstd::prelude::*;
use crate::book::BookSnapshot;
use crate::clock::{lemma_window_holds_now, next_window_start_at, window_start};
use crate::config::StrategyConfig;
use crate::data::{move_pct_of, move_percent};
use crate::discovery::{secs_to_millis, to_millis};
use crate::divergence::{evaluate, evaluated, DivEvent, DivergenceBook, Signal};
use crate::risk::RiskManager;
use crate::window::Window;

verus! {

/// The sleep of a paused lifecycle, in milliseconds.
pub const PAUSE_SLEEP_MS: u64 = 5_000;

/// The longest wait for the first book of a window, in milliseconds.
pub const WARM_UP_MS: u64 = 10_000;

/// The pause between two looks at the books during that wait.
pub const WARM_UP_POLL_MS: u64 = 100;

/// Where the lifecycle of one asset stands.
#[derive(Debug)]
pub enum Stage {
    /// Between two windows: the pause flag and the clock are read next.
    Idle,
    /// Asleep until it is time to look for the window that starts at
    /// `next_start`, in epoch seconds.
    Scheduled { next_start: u64 },
    /// The directory is being asked for that window.
    Discovering { next_start: u64 },
    /// The tokens of the window are on their way to the order-book hub.
    Subscribing { window: Window },
    /// Waiting for the first book of the YES token, until `deadline_ms`.
    WarmingUp { window: Window, deadline_ms: u64 },
    /// Asleep until the window opens.
    AwaitingOpen { window: Window },
    /// The window has opened: the spot is read for its opening price.
    Capturing { window: Window },
    /// The window is watched until it closes.
    Monitoring { window: Window },
    /// The hub is gone: the lifecycle has ended.
    Stopped,
}

/// What happened outside.
#[derive(Debug)]
pub enum Input {
    /// The pause flag and the clock were read.
    Started { now_ms: u64, paused: bool },
    /// A sleep has ended.
    Woke,
    /// The directory has answered, with a window or without.
    Discovered { window: Option<Window> },
    /// The tokens were handed to the hub, or the hub is gone.
    Subscribed { delivered: bool, now_ms: u64 },
    /// The books were looked at for the YES token.
    BookPolled { has_book: bool, now_ms: u64 },
    /// The spot of the asset was read.
    SpotRead { spot: i64 },
    /// A price or a book has changed, or the clock was looked at.
    Changed { now_ms: u64 },
    /// A watched channel has closed.
    WatchClosed,
}

/// What is to be done outside.
#[derive(Debug)]
pub enum Action {
    /// Sleep, and report `Woke`; after a pause, report `Started`.
    Sleep { ms: u64 },
    /// Clear what is published of the asset, sleep, and report `Woke`.
    ClearAndSleep { ms: u64 },
    /// Ask the directory for the window that starts at `next_start`.
    Discover { next_start: u64 },
    /// Record that no window was found, and start over.
    ReportDiscoveryFailure { next_start: u64 },
    /// Hand the two tokens to the hub.
    Subscribe { yes_token: String, no_token: String },
    /// Look at the books for the YES token after the wait.
    PollBooks { after_ms: u64 },
    /// Read the spot of the asset.
    ReadSpot,
    /// No spot at the open: the window is skipped; start over.
    SkipWindow,
    /// Record that the window opened, and watch it.
    AnnounceOpen,
    /// Wait for the next change of a price or a book, evaluate the window,
    /// and report `Changed`.
    Evaluate,
    /// Record that the window closed, clear what is published of the asset,
    /// and start over.
    Retire,
    /// End the lifecycle.
    Stop,
    /// The input does not belong to the stage: nothing is done.
    Ignore,
}

/// The wait from `now_ms` until the moment `at_ms`; none where the moment
/// has passed.
pub open spec fn wait_until(at_ms: u64, now_ms: u64) -> u64 {
    if at_ms > now_ms {
        (at_ms - now_ms) as u64
    } else {
        0
    }
}

/// The moment at which the directory is first asked for the window that
/// starts at `next_start`: `pre_discover_secs` before the start.
pub open spec fn discover_at(next_start: u64, pre_discover_secs: u64) -> u64 {
    if to_millis(next_start as int) > to_millis(pre_discover_secs as int) {
        (to_millis(next_start as int) - to_millis(pre_discover_secs as int)) as u64
    } else {
        0
    }
}

/// The end of the wait for the first book.
pub open spec fn warm_up_deadline(now_ms: u64) -> u64 {
    if now_ms + WARM_UP_MS <= u64::MAX {
        (now_ms + WARM_UP_MS) as u64
    } else {
        u64::MAX
    }
}

/// The window with its opening price captured.
pub open spec fn opened(window: Window, spot: i64) -> Window {
    Window { open_price: spot, ..window }
}

/// The step of the lifecycle: the stage that follows and what is to be done.
pub open spec fn advanced(
    stage: Stage,
    input: Input,
    window_duration_secs: u64,
    pre_discover_secs: u64,
) -> (Stage, Action) {
    match (stage, input) {
        (Stage::Stopped, _) => (Stage::Stopped, Action::Stop),
        (Stage::Idle, Input::Started { now_ms, paused }) => {
            if paused {
                (Stage::Idle, Action::Sleep { ms: PAUSE_SLEEP_MS })
            } else {
                let next_start = (window_start(now_ms as int, window_duration_secs as int)
                    + window_duration_secs) as u64;
                let wait = wait_until(discover_at(next_start, pre_discover_secs), now_ms);
                if wait > 0 {
                    (Stage::Scheduled { next_start }, Action::ClearAndSleep { ms: wait })
                } else {
                    (Stage::Discovering { next_start }, Action::Discover { next_start })
                }
            }
        },
        (Stage::Scheduled { next_start }, Input::Woke) => (
            Stage::Discovering { next_start },
            Action::Discover { next_start },
        ),
        (Stage::Discovering { next_start }, Input::Discovered { window }) => match window {
            Some(w) => (
                Stage::Subscribing { window: w },
                Action::Subscribe { yes_token: w.yes_token, no_token: w.no_token },
            ),
            None => (Stage::Idle, Action::ReportDiscoveryFailure { next_start }),
        },
        (Stage::Subscribing { window }, Input::Subscribed { delivered, now_ms }) => {
            if delivered {
                (
                    Stage::WarmingUp { window, deadline_ms: warm_up_deadline(now_ms) },
                    Action::PollBooks { after_ms: 0 },
                )
            } else {
                (Stage::Stopped, Action::Stop)
            }
        },
        (Stage::WarmingUp { window, deadline_ms }, Input::BookPolled { has_book, now_ms }) => {
            if has_book || now_ms > deadline_ms {
                (
                    Stage::AwaitingOpen { window },
                    Action::Sleep { ms: wait_until(window.open_time_ms, now_ms) },
                )
            } else {
                (
                    Stage::WarmingUp { window, deadline_ms },
                    Action::PollBooks { after_ms: WARM_UP_POLL_MS },
                )
            }
        },
        (Stage::AwaitingOpen { window }, Input::Woke) => (
            Stage::Capturing { window },
            Action::ReadSpot,
        ),
        (Stage::Capturing { window }, Input::SpotRead { spot }) => {
            if spot <= 0 {
                (Stage::Idle, Action::SkipWindow)
            } else {
                (Stage::Monitoring { window: opened(window, spot) }, Action::AnnounceOpen)
            }
        },
        (Stage::Monitoring { window }, Input::Changed { now_ms }) => {
            if window.expired(now_ms) {
                (Stage::Idle, Action::Retire)
            } else {
                (Stage::Monitoring { window }, Action::Evaluate)
            }
        },
        (Stage::Monitoring { window }, Input::WatchClosed) => (Stage::Idle, Action::Retire),
        (stage, _) => (stage, Action::Ignore),
    }
}

/// The wait from `now_ms` until `at_ms`.
pub fn wait_until_ms(at_ms: u64, now_ms: u64) -> (ms: u64)
    ensures
        ms == wait_until(at_ms, now_ms),
{
    if at_ms > now_ms {
        at_ms - now_ms
    } else {
        0
    }
}

/// Takes the lifecycle of one asset one step on: from the stage and what
/// happened outside to the stage that follows and what is to be done. The
/// start of the next window must fit in 64 bits where it is computed, as it
/// does for every window length up to `MAX_WINDOW_SECS`.
pub fn advance(stage: Stage, input: Input, window_duration_secs: u64, pre_discover_secs: u64) -> (r:
    (Stage, Action))
    requires
        window_duration_secs > 0,
        stage is Idle && input is Started && !input->Started_paused ==> window_start(
            input->Started_now_ms as int,
            window_duration_secs as int,
        ) + window_duration_secs <= u64::MAX,
    ensures
        r == advanced(stage, input, window_duration_secs, pre_discover_secs),
{
    match stage {
        Stage::Stopped => (Stage::Stopped, Action::Stop),
        Stage::Idle => match input {
            Input::Started { now_ms, paused } => {
                if paused {
                    (Stage::Idle, Action::Sleep { ms: PAUSE_SLEEP_MS })
                } else {
                    let next_start: u64 = next_window_start_at(now_ms, window_duration_secs);
                    let start_ms: u64 = secs_to_millis(next_start as u128);
                    let lead_ms: u64 = secs_to_millis(pre_discover_secs as u128);
                    let at_ms: u64 = if start_ms > lead_ms {
                        start_ms - lead_ms
                    } else {
                        0
                    };
                    let wait: u64 = wait_until_ms(at_ms, now_ms);
                    if wait > 0 {
                        (Stage::Scheduled { next_start }, Action::ClearAndSleep { ms: wait })
                    } else {
                        (Stage::Discovering { next_start }, Action::Discover { next_start })
                    }
                }
            },
            _ => (Stage::Idle, Action::Ignore),
        },
        Stage::Scheduled { next_start } => match input {
            Input::Woke => (Stage::Discovering { next_start }, Action::Discover { next_start }),
            _ => (Stage::Scheduled { next_start }, Action::Ignore),
        },
        Stage::Discovering { next_start } => match input {
            Input::Discovered { window } => match window {
                Some(w) => {
                    let yes_token: String = w.yes_token.clone();
                    let no_token: String = w.no_token.clone();
                    (Stage::Subscribing { window: w }, Action::Subscribe { yes_token, no_token })
                },
                None => (Stage::Idle, Action::ReportDiscoveryFailure { next_start }),
            },
            _ => (Stage::Discovering { next_start }, Action::Ignore),
        },
        Stage::Subscribing { window } => match input {
            Input::Subscribed { delivered, now_ms } => {
                if delivered {
                    let deadline_ms: u64 = if now_ms <= u64::MAX - WARM_UP_MS {
                        now_ms + WARM_UP_MS
                    } else {
                        u64::MAX
                    };
                    (Stage::WarmingUp { window, deadline_ms }, Action::PollBooks { after_ms: 0 })
                } else {
                    (Stage::Stopped, Action::Stop)
                }
            },
            _ => (Stage::Subscribing { window }, Action::Ignore),
        },
        Stage::WarmingUp { window, deadline_ms } => match input {
            Input::BookPolled { has_book, now_ms } => {
                if has_book || now_ms > deadline_ms {
                    let ms: u64 = wait_until_ms(window.open_time_ms, now_ms);
                    (Stage::AwaitingOpen { window }, Action::Sleep { ms })
                } else {
                    (
                        Stage::WarmingUp { window, deadline_ms },
                        Action::PollBooks { after_ms: WARM_UP_POLL_MS },
                    )
                }
            },
            _ => (Stage::WarmingUp { window, deadline_ms }, Action::Ignore),
        },
        Stage::AwaitingOpen { window } => match input {
            Input::Woke => (Stage::Capturing { window }, Action::ReadSpot),
            _ => (Stage::AwaitingOpen { window }, Action::Ignore),
        },
        Stage::Capturing { window } => match input {
            Input::SpotRead { spot } => {
                if spot <= 0 {
                    (Stage::Idle, Action::SkipWindow)
                } else {
                    let mut w: Window = window;
                    w.open_price = spot;
                    (Stage::Monitoring { window: w }, Action::AnnounceOpen)
                }
            },
            _ => (Stage::Capturing { window }, Action::Ignore),
        },
        Stage::Monitoring { window } => match input {
            Input::Changed { now_ms } => {
                if window.is_expired(now_ms) {
                    (Stage::Idle, Action::Retire)
                } else {
                    (Stage::Monitoring { window }, Action::Evaluate)
                }
            },
            Input::WatchClosed => (Stage::Idle, Action::Retire),
            _ => (Stage::Monitoring { window }, Action::Ignore),
        },
    }
}

/// A signal with the size that the risk manager gave it.
pub open spec fn with_size(signal: Signal, size_usd: u64) -> Signal {
    Signal { size_usd, ..signal }
}

/// The first `n` events after the risk manager has seen them on the day
/// `today`, and the risk manager after them. A signal passes where a trade
/// is allowed; it is given its size and counted as a fill. A signal that
/// is refused is dropped. A convergence passes as it is.
pub open spec fn risk_filtered(events: Seq<DivEvent>, n: int, risk: RiskManager, today: u64) -> (
    RiskManager,
    Seq<DivEvent>,
)
    decreases n,
{
    if n <= 0 {
        (risk, Seq::<DivEvent>::empty())
    } else {
        let (before, kept) = risk_filtered(events, n - 1, risk, today);
        match events[n - 1] {
            DivEvent::Signal(signal) => {
                let checked = before.after_trade_check(today);
                if before.allows_trade(today) {
                    (
                        RiskManager {
                            open_positions: if checked.open_positions < usize::MAX {
                                (checked.open_positions + 1) as usize
                            } else {
                                usize::MAX
                            },
                            ..checked
                        },
                        kept.push(
                            DivEvent::Signal(
                                with_size(signal, checked.sized(signal.edge as int) as u64),
                            ),
                        ),
                    )
                } else {
                    (checked, kept)
                }
            },
            DivEvent::Converged { market_name, duration_ms, peak_edge } => (
                before,
                kept.push(DivEvent::Converged { market_name, duration_ms, peak_edge }),
            ),
        }
    }
}

/// A copy of a signal with a size.
pub fn sized_signal(signal: &Signal, size_usd: u64) -> (copy: Signal)
    ensures
        copy == with_size(*signal, size_usd),
{
    Signal {
        market_name: signal.market_name.clone(),
        asset: signal.asset.clone(),
        condition_id: signal.condition_id.clone(),
        token_id: signal.token_id.clone(),
        side: signal.side,
        fair_value: signal.fair_value,
        clob_mid: signal.clob_mid,
        edge: signal.edge,
        price: signal.price,
        size_usd,
        move_pct: signal.move_pct,
        time_remaining_frac: signal.time_remaining_frac,
    }
}

/// Lets the risk manager see the events of one evaluation, in their
/// order: it drops the signals that it refuses and sizes the others.
pub fn apply_risk(events: &Vec<DivEvent>, risk: &mut RiskManager, today: u64) -> (kept: Vec<
    DivEvent,
>)
    ensures
        (*final(risk), kept@) == risk_filtered(events@, events@.len() as int, *old(risk), today),
{
    let mut kept: Vec<DivEvent> = Vec::new();
    let mut i: usize = 0;
    while i < events.len()
        invariant
            i <= events@.len(),
            (*risk, kept@) == risk_filtered(events@, i as int, *old(risk), today),
        decreases events@.len() - i,
    {
        match &events[i] {
            DivEvent::Signal(signal) => {
                if risk.can_trade_at(today) {
                    let size_usd: u64 = risk.position_size(signal.edge, signal.price);
                    risk.record_fill(size_usd);
                    kept.push(DivEvent::Signal(sized_signal(signal, size_usd)));
                }
            },
            DivEvent::Converged { market_name, duration_ms, peak_edge } => {
                kept.push(
                    DivEvent::Converged {
                        market_name: market_name.clone(),
                        duration_ms: *duration_ms,
                        peak_edge: *peak_edge,
                    },
                );
            },
        }
        i = i + 1;
    }
    kept
}

/// One evaluation of a watched window: the divergence evaluator sees the
/// spot and the books, the risk manager sees its events, and the status of
/// the window is made up for publishing.
pub fn monitor_step(
    windows: &Vec<Window>,
    spot: i64,
    books: &BookSnapshot,
    cfg: &StrategyConfig,
    open_divs: &mut DivergenceBook,
    risk: &mut RiskManager,
    now_ms: u64,
    mono_ms: u64,
    today: u64,
) -> (events: Vec<DivEvent>)
    ensures
        spot <= 0 ==> events@.len() == 0 && final(open_divs)@ == old(open_divs)@ && *final(risk)
            == *old(risk),
        spot > 0 ==> {
            let (divs, found) = evaluated(
                windows@,
                windows@.len() as int,
                spot,
                books@,
                *cfg,
                old(open_divs)@,
                now_ms,
                mono_ms,
            );
            &&& final(open_divs)@ == divs
            &&& (*final(risk), events@) == risk_filtered(
                found,
                found.len() as int,
                *old(risk),
                today,
            )
        },
{
    let found: Vec<DivEvent> = evaluate(windows, spot, books, cfg, open_divs, now_ms, mono_ms);
    apply_risk(&found, risk, today)
}

/// The move of the spot over a window that has closed, in millionths of a
/// percent.
pub fn final_move_pct(window: &Window, spot: i64) -> (pct: i64)
    ensures
        pct == move_percent(spot as int, window.open_price as int),
{
    move_pct_of(spot, window.open_price)
}

/// What the lifecycle does with a reading of the clock between two
/// windows, for every window length: the reading lies in the window that
/// starts at a multiple `c` of the length; the window looked for starts
/// exactly one length later, after the reading; the directory is asked for
/// that start and no other, at once where the time for it has come, and
/// else after a sleep that ends `pre_discover_secs` before the start.
pub proof fn lemma_schedules_next_window(
    now_ms: u64,
    window_duration_secs: u64,
    pre_discover_secs: u64,
)
    requires
        window_duration_secs > 0,
        window_start(now_ms as int, window_duration_secs as int) + window_duration_secs
            <= u64::MAX,
    ensures
        ({
            let c = window_start(now_ms as int, window_duration_secs as int);
            let w = (c + window_duration_secs) as u64;
            let at = discover_at(w, pre_discover_secs);
            let r = advanced(
                Stage::Idle,
                Input::Started { now_ms, paused: false },
                window_duration_secs,
                pre_discover_secs,
            );
            &&& c % (window_duration_secs as int) == 0
            &&& c * 1000 <= now_ms < (c + window_duration_secs) * 1000
            &&& w - c == window_duration_secs
            &&& w * 1000 > now_ms
            &&& at > now_ms ==> r == (
                Stage::Scheduled { next_start: w },
                Action::ClearAndSleep { ms: (at - now_ms) as u64 },
            ) && advanced(r.0, Input::Woke, window_duration_secs, pre_discover_secs) == (
                Stage::Discovering { next_start: w },
                Action::Discover { next_start: w },
            )
            &&& at <= now_ms ==> r == (
                Stage::Discovering { next_start: w },
                Action::Discover { next_start: w },
            )
        }),
{
    lemma_window_holds_now(now_ms as int, window_duration_secs as int);
}

/// A lifecycle that has ended stays ended, whatever happens.
pub proof fn lemma_stopped_stays(input: Input, window_duration_secs: u64, pre_discover_secs: u64)
    ensures
        advanced(Stage::Stopped, input, window_duration_secs, pre_discover_secs) == (
            Stage::Stopped,
            Action::Stop,
        ),
{
}

/// A window is watched only with a captured opening price that is
/// positive: the step into monitoring is the one that captures it.
pub proof fn lemma_monitoring_has_open_price(
    stage: Stage,
    input: Input,
    window_duration_secs: u64,
    pre_discover_secs: u64,
)
    requires
        !(stage is Monitoring),
        advanced(stage, input, window_duration_secs, pre_discover_secs).0 is Monitoring,
    ensures
        advanced(stage, input, window_duration_secs, pre_discover_secs).0->Monitoring_window.open_price
            > 0,
        stage is Capturing,
{
}

/// While the pause flag is set no window is looked for: the lifecycle
/// sleeps five seconds and stays between windows.
pub proof fn lemma_paused_sleeps(now_ms: u64, window_duration_secs: u64, pre_discover_secs: u64)
    ensures
        advanced(
            Stage::Idle,
            Input::Started { now_ms, paused: true },
            window_duration_secs,
            pre_discover_secs,
        ) == (Stage::Idle, Action::Sleep { ms: PAUSE_SLEEP_MS }),
{
}

} // verus!
