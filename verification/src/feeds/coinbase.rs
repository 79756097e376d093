use vstd::prelude::*;
use vstd::string::StringExecFns;
use crate::book::PLACES;
use crate::feeds::aggregator::{tick_data, PriceTick, TickData};
use crate::json::{json_of, parse_json, Json};
use crate::text::same_text;

verus! {

/// The tick that a message of the matches channel gives: a message of type
/// `match` with its price as a string. The venue's own time is not read;
/// the tick is stamped `now_ms`.
pub open spec fn match_tick(v: Json, now_ms: u64) -> Option<TickData> {
    match (v.text_member("type"@), v.member("price"@)) {
        (Some(kind), Some(p)) => if kind == "match"@ {
            match p.text_decimal(PLACES as nat) {
                Some(price) => Some(
                    TickData { source: "coinbase"@, price, timestamp_ms: now_ms },
                ),
                None => None,
            }
        } else {
            None
        },
        _ => None,
    }
}

/// The tick of a parsed message.
pub fn match_from_json(v: &Json, now_ms: u64) -> (tick: Option<PriceTick>)
    ensures
        tick_data(tick) == match_tick(*v, now_ms),
{
    let kind: &str = match v.get_str("type") {
        Some(k) => k,
        None => {
            return None;
        },
    };
    if !same_text(kind, "match") {
        return None;
    }
    match v.get("price") {
        Some(p) => match p.str_as_decimal(PLACES) {
            Some(price) => Some(
                PriceTick { source: String::from_str("coinbase"), price, timestamp_ms: now_ms },
            ),
            None => None,
        },
        None => None,
    }
}

/// The tick of one text message.
pub fn parse_match(json: &str, now_ms: u64) -> (tick: Option<PriceTick>)
    ensures
        tick_data(tick) == (match json_of(json@) {
            Some(v) => match_tick(v, now_ms),
            None => None,
        }),
{
    match parse_json(json) {
        Some(v) => match_from_json(&v, now_ms),
        None => None,
    }
}

} // verus!
