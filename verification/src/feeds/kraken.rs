use vstd::prelude::*;
use vstd::string::StringExecFns;
use crate::book::PLACES;
use crate::dates::{parse_rfc3339_millis, rfc3339_millis};
use crate::feeds::aggregator::{tick_data, PriceTick, TickData};
use crate::json::{json_of, parse_json, Json};
use crate::text::{parse_decimal, parsed_decimal, same_text};

verus! {

/// The stamp of a trade: the venue's own time where it was given and lies
/// at or after the epoch, the local time `now_ms` otherwise.
pub open spec fn stamp_or_now(venue_ms: Option<i64>, now_ms: u64) -> u64 {
    match venue_ms {
        Some(ms) => if ms >= 0 {
            ms as u64
        } else {
            now_ms
        },
        None => now_ms,
    }
}

/// The time of a trade of the second protocol version: its member
/// `timestamp`, a string in the format of RFC 3339.
pub open spec fn trade_time(trade: Json) -> Option<i64> {
    match trade.text_member("timestamp"@) {
        Some(s) => rfc3339_millis(s),
        None => None,
    }
}

/// The tick of a message of the second protocol version: the last trade of
/// the list `data`, with its price as a number.
pub open spec fn trade_v2(v: Json, now_ms: u64) -> Option<TickData> {
    match v.member("data"@) {
        Some(data) => match data.items() {
            Some(trades) => if trades.len() > 0 {
                match trades.last().member("price"@) {
                    Some(p) => match p.decimal(PLACES as nat) {
                        Some(price) => Some(
                            TickData {
                                source: "kraken"@,
                                price,
                                timestamp_ms: stamp_or_now(trade_time(trades.last()), now_ms),
                            },
                        ),
                        None => None,
                    },
                    None => None,
                }
            } else {
                None
            },
            None => None,
        },
        None => None,
    }
}

/// A message of the first protocol version that carries trades of the
/// followed pair: a list of at least four items whose last is the pair.
pub open spec fn is_trade_v1(v: Json) -> bool {
    match v.items() {
        Some(items) => items.len() >= 4 && items.last().text() == Some("XBT/USD"@),
        None => false,
    }
}

/// The seconds that a text writes, as milliseconds rounded toward zero; a
/// time before the epoch counts as the epoch.
pub open spec fn seconds_as_millis(text: Seq<char>) -> Option<u64> {
    match parsed_decimal(text, 3) {
        Some(ms) => if ms >= 0 {
            Some(ms as u64)
        } else {
            Some(0)
        },
        None => None,
    }
}

/// The tick of a message of the first protocol version: the last trade of
/// the list at its second place; a trade is a list whose first item is the
/// price and whose third is the time in seconds, both strings.
pub open spec fn trade_v1(items: Seq<Json>) -> Option<TickData>
    recommends
        items.len() >= 4,
{
    match items[1].items() {
        Some(trades) => if trades.len() > 0 {
            match trades.last().items() {
                Some(fields) => if fields.len() > 2 {
                    match (fields[0].text_decimal(PLACES as nat), fields[2].text()) {
                        (Some(price), Some(secs)) => match seconds_as_millis(secs) {
                            Some(ms) => Some(
                                TickData { source: "kraken"@, price, timestamp_ms: ms },
                            ),
                            None => None,
                        },
                        _ => None,
                    }
                } else {
                    None
                },
                None => None,
            }
        } else {
            None
        },
        None => None,
    }
}

/// The tick that a message gives, in either protocol version.
pub open spec fn trade_tick(v: Json, now_ms: u64) -> Option<TickData> {
    if v.text_member("channel"@) == Some("trade"@) {
        trade_v2(v, now_ms)
    } else if is_trade_v1(v) {
        trade_v1(v.items()->0)
    } else {
        None
    }
}

/// The stamp of a trade, given what reading the venue's time gave.
pub fn choose_stamp(venue_ms: Option<i64>, now_ms: u64) -> (stamp: u64)
    ensures
        stamp == stamp_or_now(venue_ms, now_ms),
{
    match venue_ms {
        Some(ms) => if ms >= 0 {
            ms as u64
        } else {
            now_ms
        },
        None => now_ms,
    }
}

/// Reads seconds as milliseconds.
pub fn parse_seconds(text: &str) -> (ms: Option<u64>)
    ensures
        ms == seconds_as_millis(text@),
{
    match parse_decimal(text, 3) {
        Some(ms) => if ms >= 0 {
            Some(ms as u64)
        } else {
            Some(0)
        },
        None => None,
    }
}

/// The tick of a parsed message of the second protocol version.
fn v2_from_json(v: &Json, now_ms: u64) -> (tick: Option<PriceTick>)
    ensures
        tick_data(tick) == trade_v2(*v, now_ms),
{
    let trades: &Vec<Json> = match v.get("data") {
        Some(data) => match data.as_array() {
            Some(items) => items,
            None => {
                return None;
            },
        },
        None => {
            return None;
        },
    };
    if trades.len() == 0 {
        return None;
    }
    let last: &Json = &trades[trades.len() - 1];
    let price: i64 = match last.get("price") {
        Some(p) => match p.as_decimal(PLACES) {
            Some(price) => price,
            None => {
                return None;
            },
        },
        None => {
            return None;
        },
    };
    let venue_ms: Option<i64> = match last.get_str("timestamp") {
        Some(s) => parse_rfc3339_millis(s),
        None => None,
    };
    Some(
        PriceTick {
            source: String::from_str("kraken"),
            price,
            timestamp_ms: choose_stamp(venue_ms, now_ms),
        },
    )
}

/// The tick of the items of a message of the first protocol version.
fn v1_from_json(items: &Vec<Json>) -> (tick: Option<PriceTick>)
    requires
        items@.len() >= 4,
    ensures
        tick_data(tick) == trade_v1(items@),
{
    let trades: &Vec<Json> = match items[1].as_array() {
        Some(t) => t,
        None => {
            return None;
        },
    };
    if trades.len() == 0 {
        return None;
    }
    let fields: &Vec<Json> = match trades[trades.len() - 1].as_array() {
        Some(f) => f,
        None => {
            return None;
        },
    };
    if fields.len() <= 2 {
        return None;
    }
    let price: Option<i64> = fields[0].str_as_decimal(PLACES);
    let stamp: Option<u64> = match fields[2].as_str() {
        Some(secs) => parse_seconds(secs),
        None => None,
    };
    match (price, stamp) {
        (Some(price), Some(ms)) => Some(
            PriceTick { source: String::from_str("kraken"), price, timestamp_ms: ms },
        ),
        _ => None,
    }
}

/// The tick of a parsed message.
pub fn trade_from_json(v: &Json, now_ms: u64) -> (tick: Option<PriceTick>)
    ensures
        tick_data(tick) == trade_tick(*v, now_ms),
{
    let is_v2: bool = match v.get_str("channel") {
        Some(c) => same_text(c, "trade"),
        None => false,
    };
    if is_v2 {
        return v2_from_json(v, now_ms);
    }
    match v.as_array() {
        Some(items) => {
            if items.len() >= 4 {
                let pair: bool = match items[items.len() - 1].as_str() {
                    Some(s) => same_text(s, "XBT/USD"),
                    None => false,
                };
                if pair {
                    return v1_from_json(items);
                }
            }
            None
        },
        None => None,
    }
}

/// The tick of one text message.
pub fn parse_trade(json: &str, now_ms: u64) -> (tick: Option<PriceTick>)
    ensures
        tick_data(tick) == (match json_of(json@) {
            Some(v) => trade_tick(v, now_ms),
            None => None,
        }),
{
    match parse_json(json) {
        Some(v) => trade_from_json(&v, now_ms),
        None => None,
    }
}

} // verus!
