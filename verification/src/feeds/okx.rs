use vstd::prelude::*;
use vstd::string::StringExecFns;
use crate::book::PLACES;
use crate::feeds::aggregator::{tick_data, PriceTick, TickData};
use crate::json::{json_of, parse_json, Json};
use crate::text::{parse_u64, parsed_u64};

verus! {

/// The tick that a trades message gives: the first trade of its list
/// `data`, with its price `px` and its time in milliseconds `ts`, both
/// strings.
pub open spec fn trade_tick(v: Json) -> Option<TickData> {
    match v.member("data"@) {
        Some(data) => match data.items() {
            Some(trades) => if trades.len() > 0 {
                match (trades[0].member("px"@), trades[0].text_member("ts"@)) {
                    (Some(px), Some(ts)) => match (
                        px.text_decimal(PLACES as nat),
                        parsed_u64(ts),
                    ) {
                        (Some(price), Some(stamp)) => Some(
                            TickData { source: "okx"@, price, timestamp_ms: stamp },
                        ),
                        _ => None,
                    },
                    _ => None,
                }
            } else {
                None
            },
            None => None,
        },
        None => None,
    }
}

/// The tick of a parsed message.
pub fn trade_from_json(v: &Json) -> (tick: Option<PriceTick>)
    ensures
        tick_data(tick) == trade_tick(*v),
{
    let trades: &Vec<Json> = match v.get("data") {
        Some(data) => match data.as_array() {
            Some(items) => items,
            None => {
                return None;
            },
        },
        None => {
            return None;
        },
    };
    if trades.len() == 0 {
        return None;
    }
    let trade: &Json = &trades[0];
    let price: Option<i64> = match trade.get("px") {
        Some(px) => px.str_as_decimal(PLACES),
        None => None,
    };
    let stamp: Option<u64> = match trade.get_str("ts") {
        Some(ts) => parse_u64(ts),
        None => None,
    };
    match (price, stamp) {
        (Some(price), Some(stamp)) => Some(
            PriceTick { source: String::from_str("okx"), price, timestamp_ms: stamp },
        ),
        _ => None,
    }
}

/// The tick of one text message.
pub fn parse_trade(json: &str) -> (tick: Option<PriceTick>)
    ensures
        tick_data(tick) == (match json_of(json@) {
            Some(v) => trade_tick(v),
            None => None,
        }),
{
    match parse_json(json) {
        Some(v) => trade_from_json(&v),
        None => None,
    }
}

} // verus!
