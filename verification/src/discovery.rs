use vstd::prelude::*;
use vstd::string::StringExecFns;
use crate::dates::{parse_utc_millis, utc_millis};
use crate::json::{json_of, parse_json, Json};
use crate::strmap::StrMap;
use crate::text::{
    contains_ignoring_case, contains_lowered, decimal_text, same_text, texts, u64_to_text,
};
use crate::window::{Window, WindowData};

verus! {

/// An end date of the directory is trusted where it lies this close to the
/// computed close of the window, in milliseconds.
pub const SNAP_TOLERANCE_MS: u64 = 600_000;

/// The number of times the request for the slug of a window is repeated
/// after it first found nothing.
pub const MAX_SLUG_RETRIES: u32 = 6;

/// The number of events on one page of the search.
pub const SEARCH_PAGE: usize = 100;

/// The search stops before the event with this running number.
pub const SEARCH_LIMIT: usize = 500;

/// The pause between two such requests, in milliseconds.
pub const RETRY_DELAY_MS: u64 = 5_000;

/// What the directory says of one market.
#[derive(Clone, Debug)]
pub struct Market {
    pub condition_id: String,
    pub yes_token: String,
    pub no_token: String,
    /// The end of the market in milliseconds since the epoch, where the
    /// directory names one that can be read.
    pub end_time_ms: Option<u64>,
    pub title: String,
    pub slug: String,
}

/// A market as plain data.
pub struct MarketData {
    pub condition_id: Seq<char>,
    pub yes_token: Seq<char>,
    pub no_token: Seq<char>,
    pub end_time_ms: Option<u64>,
    pub title: Seq<char>,
    pub slug: Seq<char>,
}

impl View for Market {
    type V = MarketData;

    open spec fn view(&self) -> MarketData {
        MarketData {
            condition_id: self.condition_id@,
            yes_token: self.yes_token@,
            no_token: self.no_token@,
            end_time_ms: self.end_time_ms,
            title: self.title@,
            slug: self.slug@,
        }
    }
}

/// The plain data of a market that may be missing.
pub open spec fn market_data(m: Option<Market>) -> Option<MarketData> {
    match m {
        Some(m) => Some(m@),
        None => None,
    }
}

/// The plain data of a window that may be missing.
pub open spec fn window_data(w: Option<Window>) -> Option<WindowData> {
    match w {
        Some(w) => Some(w@),
        None => None,
    }
}

/// The slug under which the directory lists the five-minute window of an
/// asset that starts at `window_start`, in epoch seconds.
pub open spec fn slug_text(asset: Seq<char>, window_start: u64) -> Seq<char> {
    asset + "-updown-5m-"@ + decimal_text(window_start as nat)
}

/// The texts of the items of a list that are strings, in their order.
pub open spec fn string_items(items: Seq<Json>) -> Seq<Seq<char>>
    decreases items.len(),
{
    if items.len() == 0 {
        Seq::<Seq<char>>::empty()
    } else {
        let rest = string_items(items.drop_last());
        match items.last().text() {
            Some(t) => rest.push(t),
            None => rest,
        }
    }
}

/// Every item of the list is a string.
pub open spec fn all_strings(items: Seq<Json>) -> bool {
    forall|i: int| 0 <= i < items.len() ==> (#[trigger] items[i]).text() is Some
}

/// The token identifiers that a string-encoded list gives, once parsed:
/// the items of a list of strings, and none for anything else.
pub open spec fn encoded_tokens(parsed: Option<Json>) -> Seq<Seq<char>> {
    match parsed {
        Some(v) => match v.items() {
            Some(items) => if all_strings(items) {
                string_items(items)
            } else {
                Seq::<Seq<char>>::empty()
            },
            None => Seq::<Seq<char>>::empty(),
        },
        None => Seq::<Seq<char>>::empty(),
    }
}

/// The token identifiers of a market: its member `clobTokenIds`, which is
/// a list, or a string that writes a list in JSON.
pub open spec fn token_texts(mkt: Json) -> Option<Seq<Seq<char>>> {
    match mkt.member("clobTokenIds"@) {
        Some(ids) => match ids {
            Json::Arr(items) => Some(string_items(items@)),
            Json::Str(s) => Some(encoded_tokens(json_of(s@))),
            _ => None,
        },
        None => None,
    }
}

/// A moment at or after the epoch, as it is carried.
pub open spec fn as_stamp(millis: Option<i64>) -> Option<u64> {
    match millis {
        Some(ms) => if ms >= 0 {
            Some(ms as u64)
        } else {
            None
        },
        None => None,
    }
}

/// The end of a market: its member `endDate`, or that of its event where
/// the market has none; it counts where it is a string that names a moment.
pub open spec fn end_time_of(mkt: Json, event: Json) -> Option<u64> {
    let named = match mkt.member("endDate"@) {
        Some(d) => d.text(),
        None => event.text_member("endDate"@),
    };
    match named {
        Some(t) => as_stamp(utc_millis(t)),
        None => None,
    }
}

/// A text that may be missing, as a text: the empty one where it is.
pub open spec fn text_or_empty(t: Option<Seq<char>>) -> Seq<char> {
    match t {
        Some(t) => t,
        None => Seq::<char>::empty(),
    }
}

/// What a market of the directory says, where it names two tokens: the
/// first is the YES token, the second the NO token, and neither is empty.
pub open spec fn market_of(mkt: Json, event: Json) -> Option<MarketData> {
    match token_texts(mkt) {
        Some(ids) => if ids.len() >= 2 && ids[0].len() > 0 && ids[1].len() > 0 {
            Some(
                MarketData {
                    condition_id: text_or_empty(mkt.text_member("conditionId"@)),
                    yes_token: ids[0],
                    no_token: ids[1],
                    end_time_ms: end_time_of(mkt, event),
                    title: match mkt.text_member("question"@) {
                        Some(q) => q,
                        None => text_or_empty(event.text_member("title"@)),
                    },
                    slug: text_or_empty(event.text_member("slug"@)),
                },
            )
        } else {
            None
        },
        None => None,
    }
}

/// Seconds as milliseconds; the largest value stands for what does not fit.
pub open spec fn to_millis(secs: int) -> u64 {
    if secs * 1000 <= u64::MAX {
        (secs * 1000) as u64
    } else {
        u64::MAX
    }
}

/// The end date lies within the tolerance of the computed close.
pub open spec fn near_close(end_ms: Option<u64>, window_start: u64, duration_secs: u64) -> bool {
    match end_ms {
        Some(e) => {
            let computed = to_millis(window_start + duration_secs);
            e - computed <= SNAP_TOLERANCE_MS && computed - e <= SNAP_TOLERANCE_MS
        },
        None => false,
    }
}

/// The close of the window: the end date of the directory where it lies
/// near the computed close, the computed close otherwise.
pub open spec fn close_of(end_ms: Option<u64>, window_start: u64, duration_secs: u64) -> u64 {
    if near_close(end_ms, window_start, duration_secs) {
        end_ms->0
    } else {
        to_millis(window_start + duration_secs)
    }
}

/// The open of the window: one window length before a close taken from the
/// directory, the start of the window otherwise.
pub open spec fn open_of(end_ms: Option<u64>, window_start: u64, duration_secs: u64) -> u64 {
    if near_close(end_ms, window_start, duration_secs) {
        if end_ms->0 >= to_millis(duration_secs as int) {
            (end_ms->0 - to_millis(duration_secs as int)) as u64
        } else {
            0
        }
    } else {
        to_millis(window_start as int)
    }
}

/// The window that a market gives for an asset and a window start. Its
/// opening price is not captured yet.
pub open spec fn window_of(
    m: MarketData,
    asset: Seq<char>,
    window_start: u64,
    duration_secs: u64,
) -> WindowData {
    WindowData {
        slug: slug_text(asset, window_start),
        asset,
        condition_id: m.condition_id,
        yes_token: m.yes_token,
        no_token: m.no_token,
        open_time_ms: open_of(m.end_time_ms, window_start, duration_secs),
        close_time_ms: close_of(m.end_time_ms, window_start, duration_secs),
        open_price: 0,
    }
}

/// The title names the asset: by one of the words that stand for it, or,
/// for an asset without such words, by the asset's own name. Capitals of
/// the title do not matter.
pub open spec fn names_asset(title: Seq<char>, asset: Seq<char>) -> bool {
    if asset == "btc"@ {
        contains_lowered(title, "bitcoin"@)
    } else if asset == "eth"@ {
        contains_lowered(title, "ethereum"@)
    } else if asset == "sol"@ {
        contains_lowered(title, "solana"@)
    } else if asset == "xrp"@ {
        contains_lowered(title, "xrp"@) || contains_lowered(title, "ripple"@)
    } else {
        contains_lowered(title, asset)
    }
}

/// The text speaks of a five-minute cadence.
pub open spec fn five_minute(text: Seq<char>) -> bool {
    contains_lowered(text, "-5m-"@) || contains_lowered(text, "5-minute"@) && !contains_lowered(
        text,
        "15-minute"@,
    ) || contains_lowered(text, "5 minute"@) && !contains_lowered(text, "15 minute"@)
}

/// A market found by search is taken for the window where its title has
/// the words "up or down" and names the asset, its slug or title speaks of
/// a five-minute cadence, and its end lies near the close of the window.
pub open spec fn is_candidate(
    m: MarketData,
    asset: Seq<char>,
    window_start: u64,
    duration_secs: u64,
) -> bool {
    &&& contains_lowered(m.title, "up or down"@)
    &&& names_asset(m.title, asset)
    &&& (five_minute(m.slug) || five_minute(m.title))
    &&& near_close(m.end_time_ms, window_start, duration_secs)
}

/// Whether a market is the one looked for: by the slug of its event where
/// one is given, as a candidate of the search otherwise.
pub open spec fn accepted(
    m: MarketData,
    asset: Seq<char>,
    window_start: u64,
    duration_secs: u64,
    by_slug: bool,
) -> bool {
    if by_slug {
        m.slug == slug_text(asset, window_start)
    } else {
        is_candidate(m, asset, window_start, duration_secs)
    }
}

/// The market of `mkt`, where it can be read and is the one looked for.
pub open spec fn accepted_market(
    mkt: Json,
    event: Json,
    asset: Seq<char>,
    window_start: u64,
    duration_secs: u64,
    by_slug: bool,
) -> Option<MarketData> {
    match market_of(mkt, event) {
        Some(m) => if accepted(m, asset, window_start, duration_secs, by_slug) {
            Some(m)
        } else {
            None
        },
        None => None,
    }
}

/// The first market from place `from` on that is the one looked for.
pub open spec fn first_accepted(
    markets: Seq<Json>,
    event: Json,
    asset: Seq<char>,
    window_start: u64,
    duration_secs: u64,
    by_slug: bool,
    from: int,
) -> Option<MarketData>
    decreases markets.len() - from,
{
    if from < 0 || from >= markets.len() {
        None
    } else {
        match accepted_market(markets[from], event, asset, window_start, duration_secs, by_slug) {
            Some(m) => Some(m),
            None => first_accepted(
                markets,
                event,
                asset,
                window_start,
                duration_secs,
                by_slug,
                from + 1,
            ),
        }
    }
}

/// The market that an event gives: the first of its list `markets` that is
/// the one looked for; an event without such a list is read as a market
/// itself.
pub open spec fn event_market(
    event: Json,
    asset: Seq<char>,
    window_start: u64,
    duration_secs: u64,
    by_slug: bool,
) -> Option<MarketData> {
    let inner = match event.member("markets"@) {
        Some(ms) => ms.items(),
        None => None,
    };
    match inner {
        Some(markets) => first_accepted(
            markets,
            event,
            asset,
            window_start,
            duration_secs,
            by_slug,
            0,
        ),
        None => accepted_market(event, event, asset, window_start, duration_secs, by_slug),
    }
}

/// The market that the first event from place `from` on gives.
pub open spec fn first_in_events(
    events: Seq<Json>,
    asset: Seq<char>,
    window_start: u64,
    duration_secs: u64,
    by_slug: bool,
    from: int,
) -> Option<MarketData>
    decreases events.len() - from,
{
    if from < 0 || from >= events.len() {
        None
    } else {
        match event_market(events[from], asset, window_start, duration_secs, by_slug) {
            Some(m) => Some(m),
            None => first_in_events(events, asset, window_start, duration_secs, by_slug, from + 1),
        }
    }
}

/// The window that an answer of the directory gives: the answer is a list
/// of events, or one event.
pub open spec fn discovered(
    answer: Json,
    asset: Seq<char>,
    window_start: u64,
    duration_secs: u64,
    by_slug: bool,
) -> Option<WindowData> {
    let found = match answer.items() {
        Some(events) => first_in_events(events, asset, window_start, duration_secs, by_slug, 0),
        None => event_market(answer, asset, window_start, duration_secs, by_slug),
    };
    match found {
        Some(m) => Some(window_of(m, asset, window_start, duration_secs)),
        None => None,
    }
}

/// The slug of a window.
pub fn window_slug(asset: &str, window_start: u64) -> (slug: String)
    ensures
        slug@ == slug_text(asset@, window_start),
{
    let mut slug: String = String::from_str(asset);
    slug.append("-updown-5m-");
    let digits: String = u64_to_text(window_start);
    slug.append(digits.as_str());
    slug
}

/// The texts of the string items of a list.
pub fn strings_of(items: &Vec<Json>) -> (found: Vec<String>)
    ensures
        texts(found@) == string_items(items@),
        found@.len() == items@.len() <==> all_strings(items@),
        found@.len() <= items@.len(),
{
    let mut found: Vec<String> = Vec::new();
    let mut i: usize = 0;
    assert(texts(found@) =~= string_items(items@.take(0)));
    while i < items.len()
        invariant
            i <= items@.len(),
            texts(found@) == string_items(items@.take(i as int)),
            found@.len() <= i,
            found@.len() == i <==> all_strings(items@.take(i as int)),
        decreases items@.len() - i,
    {
        let ghost before = found@;
        proof {
            assert(items@.take(i + 1).drop_last() == items@.take(i as int));
            assert(items@.take(i + 1).last() == items@[i as int]);
        }
        match items[i].as_str() {
            Some(s) => {
                found.push(String::from_str(s));
                proof {
                    assert(texts(found@) =~= texts(before).push(s@));
                    if all_strings(items@.take(i as int)) {
                        assert forall|j: int| 0 <= j < i + 1 implies (#[trigger] items@.take(
                            i + 1,
                        )[j]).text() is Some by {
                            if j < i {
                                assert(items@.take(i as int)[j].text() is Some);
                            }
                        }
                    } else {
                        let j = choose|j: int|
                            0 <= j < i && !((#[trigger] items@.take(i as int)[j]).text() is Some);
                        assert(items@.take(i + 1)[j] == items@.take(i as int)[j]);
                    }
                }
            },
            None => {
                proof {
                    assert(items@.take(i + 1)[i as int].text() is None);
                }
            },
        }
        i = i + 1;
    }
    proof {
        assert(items@.take(items@.len() as int) == items@);
    }
    found
}

/// The token identifiers of a string-encoded list, given what parsing the
/// string gave.
pub fn tokens_from_encoded(parsed: &Option<Json>) -> (tokens: Vec<String>)
    ensures
        texts(tokens@) == encoded_tokens(*parsed),
{
    match parsed {
        Some(v) => match v.as_array() {
            Some(items) => {
                let found: Vec<String> = strings_of(items);
                if found.len() == items.len() {
                    found
                } else {
                    let none: Vec<String> = Vec::new();
                    assert(texts(none@) =~= Seq::<Seq<char>>::empty());
                    none
                }
            },
            None => {
                let none: Vec<String> = Vec::new();
                assert(texts(none@) =~= Seq::<Seq<char>>::empty());
                none
            },
        },
        None => {
            let none: Vec<String> = Vec::new();
            assert(texts(none@) =~= Seq::<Seq<char>>::empty());
            none
        },
    }
}

/// The token identifiers of a market.
pub fn token_ids(mkt: &Json) -> (tokens: Option<Vec<String>>)
    ensures
        match tokens {
            Some(t) => token_texts(*mkt) == Some(texts(t@)),
            None => token_texts(*mkt) is None,
        },
{
    match mkt.get("clobTokenIds") {
        Some(ids) => match ids {
            Json::Arr(items) => Some(strings_of(items)),
            Json::Str(s) => {
                let parsed: Option<Json> = parse_json(s.as_str());
                Some(tokens_from_encoded(&parsed))
            },
            _ => None,
        },
        None => None,
    }
}

/// A moment at or after the epoch, as it is carried.
pub fn stamp_of(millis: Option<i64>) -> (stamp: Option<u64>)
    ensures
        stamp == as_stamp(millis),
{
    match millis {
        Some(ms) => if ms >= 0 {
            Some(ms as u64)
        } else {
            None
        },
        None => None,
    }
}

/// The end of a market.
pub fn end_time(mkt: &Json, event: &Json) -> (end: Option<u64>)
    ensures
        end == end_time_of(*mkt, *event),
{
    let named: Option<&str> = match mkt.get("endDate") {
        Some(d) => d.as_str(),
        None => event.get_str("endDate"),
    };
    match named {
        Some(t) => stamp_of(parse_utc_millis(t)),
        None => None,
    }
}

/// The text of a member, or the empty text.
fn text_member_or_empty(v: &Json, name: &str) -> (s: String)
    ensures
        s@ == text_or_empty(v.text_member(name@)),
{
    match v.get_str(name) {
        Some(t) => String::from_str(t),
        None => String::new(),
    }
}

/// What a market of the directory says.
pub fn market_from_json(mkt: &Json, event: &Json) -> (market: Option<Market>)
    ensures
        market_data(market) == market_of(*mkt, *event),
{
    let tokens: Vec<String> = match token_ids(mkt) {
        Some(t) => t,
        None => {
            return None;
        },
    };
    if tokens.len() < 2 {
        return None;
    }
    proof {
        assert(texts(tokens@)[0] == tokens@[0]@);
        assert(texts(tokens@)[1] == tokens@[1]@);
    }
    if tokens[0].as_str().unicode_len() == 0 || tokens[1].as_str().unicode_len() == 0 {
        return None;
    }
    let title: String = match mkt.get_str("question") {
        Some(q) => String::from_str(q),
        None => text_member_or_empty(event, "title"),
    };
    Some(
        Market {
            condition_id: text_member_or_empty(mkt, "conditionId"),
            yes_token: tokens[0].clone(),
            no_token: tokens[1].clone(),
            end_time_ms: end_time(mkt, event),
            title,
            slug: text_member_or_empty(event, "slug"),
        },
    )
}

/// Seconds as milliseconds.
pub fn secs_to_millis(secs: u128) -> (ms: u64)
    requires
        secs <= 2 * u64::MAX,
    ensures
        ms == to_millis(secs as int),
{
    let ms: u128 = secs * 1000;
    if ms > u64::MAX as u128 {
        u64::MAX
    } else {
        ms as u64
    }
}

/// Whether an end date lies within the tolerance of the computed close.
pub fn is_near_close(end_ms: Option<u64>, window_start: u64, duration_secs: u64) -> (near: bool)
    ensures
        near == near_close(end_ms, window_start, duration_secs),
{
    match end_ms {
        Some(e) => {
            let computed: u64 = secs_to_millis(window_start as u128 + duration_secs as u128);
            if e >= computed {
                e - computed <= SNAP_TOLERANCE_MS
            } else {
                computed - e <= SNAP_TOLERANCE_MS
            }
        },
        None => false,
    }
}

/// The window that a market gives. An end date of the directory within ten
/// minutes of the computed close is taken as the close, and the open is
/// set one window length before it.
pub fn window_from_market(m: &Market, asset: &str, window_start: u64, duration_secs: u64) -> (w:
    Window)
    ensures
        w@ == window_of(m@, asset@, window_start, duration_secs),
{
    let near: bool = is_near_close(m.end_time_ms, window_start, duration_secs);
    let close_time_ms: u64 = if near {
        m.end_time_ms.unwrap()
    } else {
        secs_to_millis(window_start as u128 + duration_secs as u128)
    };
    let open_time_ms: u64 = if near {
        let length: u64 = secs_to_millis(duration_secs as u128);
        if close_time_ms >= length {
            close_time_ms - length
        } else {
            0
        }
    } else {
        secs_to_millis(window_start as u128)
    };
    Window {
        slug: window_slug(asset, window_start),
        asset: String::from_str(asset),
        condition_id: m.condition_id.clone(),
        yes_token: m.yes_token.clone(),
        no_token: m.no_token.clone(),
        open_time_ms,
        close_time_ms,
        open_price: 0,
    }
}

/// Whether a title names an asset.
pub fn title_names_asset(title: &str, asset: &str) -> (named: bool)
    ensures
        named == names_asset(title@, asset@),
{
    if same_text(asset, "btc") {
        contains_ignoring_case(title, "bitcoin")
    } else if same_text(asset, "eth") {
        contains_ignoring_case(title, "ethereum")
    } else if same_text(asset, "sol") {
        contains_ignoring_case(title, "solana")
    } else if same_text(asset, "xrp") {
        contains_ignoring_case(title, "xrp") || contains_ignoring_case(title, "ripple")
    } else {
        contains_ignoring_case(title, asset)
    }
}

/// Whether a text speaks of a five-minute cadence.
pub fn is_five_minute(text: &str) -> (r: bool)
    ensures
        r == five_minute(text@),
{
    contains_ignoring_case(text, "-5m-") || (contains_ignoring_case(text, "5-minute")
        && !contains_ignoring_case(text, "15-minute")) || (contains_ignoring_case(
        text,
        "5 minute",
    ) && !contains_ignoring_case(text, "15 minute"))
}

/// Whether a market is the one looked for.
pub fn is_accepted(
    m: &Market,
    asset: &str,
    window_start: u64,
    duration_secs: u64,
    by_slug: bool,
) -> (r: bool)
    ensures
        r == accepted(m@, asset@, window_start, duration_secs, by_slug),
{
    if by_slug {
        let wanted: String = window_slug(asset, window_start);
        same_text(m.slug.as_str(), wanted.as_str())
    } else {
        contains_ignoring_case(m.title.as_str(), "up or down") && title_names_asset(
            m.title.as_str(),
            asset,
        ) && (is_five_minute(m.slug.as_str()) || is_five_minute(m.title.as_str()))
            && is_near_close(m.end_time_ms, window_start, duration_secs)
    }
}

/// The market of `mkt`, where it can be read and is the one looked for.
fn pick_market(
    mkt: &Json,
    event: &Json,
    asset: &str,
    window_start: u64,
    duration_secs: u64,
    by_slug: bool,
) -> (market: Option<Market>)
    ensures
        market_data(market) == accepted_market(
            *mkt,
            *event,
            asset@,
            window_start,
            duration_secs,
            by_slug,
        ),
{
    match market_from_json(mkt, event) {
        Some(m) => if is_accepted(&m, asset, window_start, duration_secs, by_slug) {
            Some(m)
        } else {
            None
        },
        None => None,
    }
}

/// The market that an event gives.
pub fn market_in_event(
    event: &Json,
    asset: &str,
    window_start: u64,
    duration_secs: u64,
    by_slug: bool,
) -> (market: Option<Market>)
    ensures
        market_data(market) == event_market(*event, asset@, window_start, duration_secs, by_slug),
{
    let inner: Option<&Vec<Json>> = match event.get("markets") {
        Some(ms) => ms.as_array(),
        None => None,
    };
    match inner {
        Some(markets) => {
            let mut i: usize = 0;
            while i < markets.len()
                invariant
                    i <= markets@.len(),
                    event.member("markets"@) is Some,
                    event.member("markets"@)->0.items() == Some(markets@),
                    first_accepted(
                        markets@,
                        *event,
                        asset@,
                        window_start,
                        duration_secs,
                        by_slug,
                        0,
                    ) == first_accepted(
                        markets@,
                        *event,
                        asset@,
                        window_start,
                        duration_secs,
                        by_slug,
                        i as int,
                    ),
                decreases markets@.len() - i,
            {
                match pick_market(&markets[i], event, asset, window_start, duration_secs, by_slug) {
                    Some(m) => {
                        return Some(m);
                    },
                    None => {},
                }
                i = i + 1;
            }
            None
        },
        None => pick_market(event, event, asset, window_start, duration_secs, by_slug),
    }
}

/// The window that an answer of the directory gives for an asset and a
/// window start. With `by_slug` the market must belong to the event that
/// carries the slug of the window; without it the market must pass as a
/// candidate of the search among the most active events.
pub fn window_from_answer(
    answer: &Json,
    asset: &str,
    window_start: u64,
    duration_secs: u64,
    by_slug: bool,
) -> (window: Option<Window>)
    ensures
        window_data(window) == discovered(*answer, asset@, window_start, duration_secs, by_slug),
{
    let found: Option<Market> = match answer.as_array() {
        Some(events) => {
            let mut found: Option<Market> = None;
            let mut i: usize = 0;
            while i < events.len() && found.is_none()
                invariant
                    i <= events@.len(),
                    found is None ==> first_in_events(
                        events@,
                        asset@,
                        window_start,
                        duration_secs,
                        by_slug,
                        0,
                    ) == first_in_events(
                        events@,
                        asset@,
                        window_start,
                        duration_secs,
                        by_slug,
                        i as int,
                    ),
                    found is Some ==> market_data(found) == first_in_events(
                        events@,
                        asset@,
                        window_start,
                        duration_secs,
                        by_slug,
                        0,
                    ),
                decreases events@.len() - i + (if found is None { 1int } else { 0int }),
            {
                found = market_in_event(&events[i], asset, window_start, duration_secs, by_slug);
                if found.is_none() {
                    i = i + 1;
                }
            }
            found
        },
        None => market_in_event(answer, asset, window_start, duration_secs, by_slug),
    };
    match found {
        Some(m) => Some(window_from_market(&m, asset, window_start, duration_secs)),
        None => None,
    }
}

/// The window that the text of an answer of the directory gives.
pub fn discover_window(
    answer: &str,
    asset: &str,
    window_start: u64,
    duration_secs: u64,
    by_slug: bool,
) -> (window: Option<Window>)
    ensures
        window_data(window) == (match json_of(answer@) {
            Some(v) => discovered(v, asset@, window_start, duration_secs, by_slug),
            None => None,
        }),
{
    match parse_json(answer) {
        Some(v) => window_from_answer(&v, asset, window_start, duration_secs, by_slug),
        None => None,
    }
}

/// A discovered window is as long as the configured window length, and
/// it closes after it opens, wherever its times fit in 64 bits and a close
/// taken from the directory leaves room for the window before it.
pub proof fn lemma_window_length(end_ms: Option<u64>, window_start: u64, duration_secs: u64)
    requires
        (window_start + duration_secs) * 1000 <= u64::MAX,
        near_close(end_ms, window_start, duration_secs) ==> end_ms->0 >= duration_secs * 1000,
    ensures
        close_of(end_ms, window_start, duration_secs) - open_of(
            end_ms,
            window_start,
            duration_secs,
        ) == duration_secs * 1000,
{
    assert(window_start * 1000 <= (window_start + duration_secs) * 1000) by (nonlinear_arith)
        requires
            duration_secs >= 0,
    ;
    assert(duration_secs * 1000 <= (window_start + duration_secs) * 1000) by (nonlinear_arith)
        requires
            window_start >= 0,
    ;
    assert((window_start + duration_secs) * 1000 - window_start * 1000 == duration_secs * 1000)
        by (nonlinear_arith);
}

/// What discovery does next.
#[derive(Clone, Copy, Debug, PartialEq, Eq, Structural)]
pub enum DiscoveryStep {
    /// Ask the directory for the slug again after the pause.
    RetrySlug { delay_ms: u64 },
    /// Search the most active events, once.
    Search,
    /// Nothing was found: the window is skipped.
    GiveUp,
}

/// What follows a request that found nothing. `slug_retries` counts the
/// repeated requests for the slug made so far, the first request not
/// counted; `searched` says whether the search has been made.
pub open spec fn next_step(slug_retries: u32, searched: bool) -> DiscoveryStep {
    if slug_retries < MAX_SLUG_RETRIES {
        DiscoveryStep::RetrySlug { delay_ms: RETRY_DELAY_MS }
    } else if !searched {
        DiscoveryStep::Search
    } else {
        DiscoveryStep::GiveUp
    }
}

/// What follows a request that found nothing: the request for the slug
/// is repeated six times at intervals of five seconds, the search is made
/// once, and after that the window is given up.
pub fn after_miss(slug_retries: u32, searched: bool) -> (step: DiscoveryStep)
    ensures
        step == next_step(slug_retries, searched),
{
    if slug_retries < MAX_SLUG_RETRIES {
        DiscoveryStep::RetrySlug { delay_ms: RETRY_DELAY_MS }
    } else if !searched {
        DiscoveryStep::Search
    } else {
        DiscoveryStep::GiveUp
    }
}

/// The number of events on a page of the directory; none for an answer
/// that is no list.
pub open spec fn events_on(answer: Option<Json>) -> nat {
    match answer {
        Some(v) => match v.items() {
            Some(events) => events.len(),
            None => 0,
        },
        None => 0,
    }
}

/// Where the page after the one at `offset` starts, where the search goes
/// on: a page that is not full is the last one, and so is the last page
/// before the limit.
pub open spec fn page_after(offset: usize, events: nat) -> Option<usize> {
    if events >= SEARCH_PAGE && offset + SEARCH_PAGE < SEARCH_LIMIT {
        Some((offset + SEARCH_PAGE) as usize)
    } else {
        None
    }
}

/// The number of events on a parsed page.
pub fn count_events(answer: &Option<Json>) -> (n: usize)
    ensures
        n == events_on(*answer),
{
    match answer {
        Some(v) => match v.as_array() {
            Some(events) => events.len(),
            None => 0,
        },
        None => 0,
    }
}

/// Where the next page of the search starts, given the text of the page at
/// `offset`; nothing where the search ends.
pub fn next_page(offset: usize, page: &str) -> (next: Option<usize>)
    ensures
        next == page_after(offset, events_on(json_of(page@))),
{
    let parsed: Option<Json> = parse_json(page);
    let events: usize = count_events(&parsed);
    if events >= SEARCH_PAGE && offset < SEARCH_LIMIT - SEARCH_PAGE {
        Some(offset + SEARCH_PAGE)
    } else {
        None
    }
}

/// What has been learned of the fees of tokens.
pub struct FeeCache {
    pub cache: StrMap<bool>,
}

/// A fee answer names no fee: both the taker and the maker rate are
/// numbers equal to zero. A rate that is missing counts as a fee.
pub open spec fn fee_free_of(v: Json) -> bool {
    match (v.member("taker"@), v.member("maker"@)) {
        (Some(taker), Some(maker)) => taker.zero() && maker.zero(),
        _ => false,
    }
}

/// Whether a parsed fee answer names no fee.
pub fn check_fee_free(v: &Json) -> (free: bool)
    ensures
        free == fee_free_of(*v),
{
    let taker: bool = match v.get("taker") {
        Some(t) => t.is_zero_number(),
        None => false,
    };
    let maker: bool = match v.get("maker") {
        Some(m) => m.is_zero_number(),
        None => false,
    };
    taker && maker
}

/// Whether the text of a fee answer names no fee. A text that is no JSON
/// counts as a fee.
pub fn fee_free_answer(answer: &str) -> (free: bool)
    ensures
        free == (match json_of(answer@) {
            Some(v) => fee_free_of(v),
            None => false,
        }),
{
    match parse_json(answer) {
        Some(v) => check_fee_free(&v),
        None => false,
    }
}

impl FeeCache {
    /// The cache that knows no token.
    pub fn new() -> (cache: FeeCache)
        ensures
            cache.cache@ == Map::<Seq<char>, bool>::empty(),
    {
        FeeCache { cache: StrMap::new() }
    }

    /// What is known of a token.
    pub fn lookup(&self, token_id: &str) -> (known: Option<bool>)
        ensures
            known == (if self.cache@.dom().contains(token_id@) {
                Some(self.cache@[token_id@])
            } else {
                None
            }),
    {
        match self.cache.get(token_id) {
            Some(free) => Some(*free),
            None => None,
        }
    }

    /// Whether a token is free of fees: what the cache knows of it, or,
    /// for a token that is new, what the answer to the fee request says,
    /// which the cache keeps. A request without answer counts as a fee.
    pub fn is_fee_free(&mut self, token_id: &str, answer: Option<&str>) -> (free: bool)
        ensures
            free == (if old(self).cache@.dom().contains(token_id@) {
                old(self).cache@[token_id@]
            } else {
                answer is Some && json_of(answer->0@) is Some && fee_free_of(
                    json_of(answer->0@)->0,
                )
            }),
            final(self).cache@ == old(self).cache@.insert(token_id@, free),
    {
        match self.lookup(token_id) {
            Some(free) => {
                assert(self.cache@ =~= self.cache@.insert(token_id@, free));
                free
            },
            None => {
                let free: bool = match answer {
                    Some(text) => fee_free_answer(text),
                    None => false,
                };
                self.cache.insert(String::from_str(token_id), free);
                free
            },
        }
    }
}

} // verus!
