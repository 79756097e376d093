use vstd::prelude::*;
use vstd::string::StringExecFns;
use crate::book::PLACES;
use crate::feeds::aggregator::{PriceTick, TickData};
use crate::json::{json_of, parse_json, Json};
use crate::text::{has_prefix, same_text, starts_with};

verus! {

/// The decimal places in which a volatility given in percent is read, so
/// that it comes out as a fraction in millionths.
pub const IV_PLACES: u32 = 4;

/// The stamp of a notification: the member `timestamp` of its data, a
/// number of milliseconds, or the local time `now_ms` without it.
pub open spec fn data_stamp(data: Json, now_ms: u64) -> u64 {
    match data.member("timestamp"@) {
        Some(t) => match t.unsigned() {
            Some(ms) => ms,
            None => now_ms,
        },
        None => now_ms,
    }
}

/// The tick of the price index, where the notification is of its channel
/// and names a price.
pub open spec fn index_tick(channel: Seq<char>, data: Json, now_ms: u64) -> Option<TickData> {
    if channel == "deribit_price_index.btc_usd"@ {
        match data.member("price"@) {
            Some(p) => match p.decimal(PLACES as nat) {
                Some(price) => Some(
                    TickData {
                        source: "deribit"@,
                        price,
                        timestamp_ms: data_stamp(data, now_ms),
                    },
                ),
                None => None,
            },
            None => None,
        }
    } else {
        None
    }
}

/// The tick of the implied volatility, where the notification is of the
/// perpetual's ticker and names the mark volatility in percent. The tick
/// carries it as a fraction.
pub open spec fn volatility_tick(channel: Seq<char>, data: Json, now_ms: u64) -> Option<TickData> {
    if has_prefix(channel, "ticker.BTC-PERPETUAL"@) {
        match data.member("mark_iv"@) {
            Some(iv) => match iv.decimal(IV_PLACES as nat) {
                Some(fraction) => Some(
                    TickData {
                        source: "deribit_iv"@,
                        price: fraction,
                        timestamp_ms: data_stamp(data, now_ms),
                    },
                ),
                None => None,
            },
            None => None,
        }
    } else {
        None
    }
}

/// The ticks that a notification gives, the index tick first. None for a
/// message without `params`, channel or data.
pub open spec fn notification_ticks(v: Json, now_ms: u64) -> Seq<TickData> {
    match v.member("params"@) {
        Some(params) => match (params.text_member("channel"@), params.member("data"@)) {
            (Some(channel), Some(data)) => {
                let first = match index_tick(channel, data, now_ms) {
                    Some(t) => seq![t],
                    None => Seq::<TickData>::empty(),
                };
                match volatility_tick(channel, data, now_ms) {
                    Some(t) => first.push(t),
                    None => first,
                }
            },
            _ => Seq::<TickData>::empty(),
        },
        None => Seq::<TickData>::empty(),
    }
}

/// The plain data of a list of ticks.
pub open spec fn ticks_data(ticks: Seq<PriceTick>) -> Seq<TickData> {
    Seq::new(ticks.len(), |i: int| ticks[i]@)
}

/// The ticks of a parsed notification.
pub fn ticks_from_json(v: &Json, now_ms: u64) -> (ticks: Vec<PriceTick>)
    ensures
        ticks_data(ticks@) == notification_ticks(*v, now_ms),
{
    let mut ticks: Vec<PriceTick> = Vec::new();
    let params: &Json = match v.get("params") {
        Some(p) => p,
        None => {
            assert(ticks_data(ticks@) =~= Seq::<TickData>::empty());
            return ticks;
        },
    };
    let channel: &str = match params.get_str("channel") {
        Some(c) => c,
        None => {
            assert(ticks_data(ticks@) =~= Seq::<TickData>::empty());
            return ticks;
        },
    };
    let data: &Json = match params.get("data") {
        Some(d) => d,
        None => {
            assert(ticks_data(ticks@) =~= Seq::<TickData>::empty());
            return ticks;
        },
    };
    let stamp: u64 = match data.get("timestamp") {
        Some(t) => match t.as_u64() {
            Some(ms) => ms,
            None => now_ms,
        },
        None => now_ms,
    };
    if same_text(channel, "deribit_price_index.btc_usd") {
        let price: Option<i64> = match data.get("price") {
            Some(p) => p.as_decimal(PLACES),
            None => None,
        };
        match price {
            Some(price) => {
                ticks.push(
                    PriceTick { source: String::from_str("deribit"), price, timestamp_ms: stamp },
                );
            },
            None => {},
        }
    }
    if starts_with(channel, "ticker.BTC-PERPETUAL") {
        let iv: Option<i64> = match data.get("mark_iv") {
            Some(m) => m.as_decimal(IV_PLACES),
            None => None,
        };
        match iv {
            Some(fraction) => {
                ticks.push(
                    PriceTick {
                        source: String::from_str("deribit_iv"),
                        price: fraction,
                        timestamp_ms: stamp,
                    },
                );
            },
            None => {},
        }
    }
    assert(ticks_data(ticks@) =~= notification_ticks(*v, now_ms));
    ticks
}

/// The ticks of one text message.
pub fn parse_ticks(json: &str, now_ms: u64) -> (ticks: Vec<PriceTick>)
    ensures
        ticks_data(ticks@) == (match json_of(json@) {
            Some(v) => notification_ticks(v, now_ms),
            None => Seq::<TickData>::empty(),
        }),
{
    match parse_json(json) {
        Some(v) => ticks_from_json(&v, now_ms),
        None => {
            let ticks: Vec<PriceTick> = Vec::new();
            assert(ticks_data(ticks@) =~= Seq::<TickData>::empty());
            ticks
        },
    }
}

} // verus!
