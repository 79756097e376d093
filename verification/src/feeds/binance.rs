use vstd::prelude::*;
use vstd::string::StringExecFns;
use crate::book::PLACES;
use crate::feeds::aggregator::{tick_data, PriceTick, TickData};
use crate::json::{json_of, parse_json, Json};
use crate::text::{decimal_text, has_lowered_prefix, starts_with_lowered, u64_to_text};

verus! {

/// The asset that a trading symbol starts with, capitals lowered: one of
/// the four that are followed.
pub open spec fn asset_of_symbol(symbol: Seq<char>) -> Option<Seq<char>> {
    if has_lowered_prefix(symbol, "btc"@) {
        Some("btc"@)
    } else if has_lowered_prefix(symbol, "eth"@) {
        Some("eth"@)
    } else if has_lowered_prefix(symbol, "sol"@) {
        Some("sol"@)
    } else if has_lowered_prefix(symbol, "xrp"@) {
        Some("xrp"@)
    } else {
        None
    }
}

/// The tick that a trade message gives. The trade stands in the member
/// `data` of a message of the combined stream, or is the message itself. It
/// names its price as a string `p`, its time in milliseconds as a number
/// `T` and its symbol as a string `s`.
pub open spec fn combined_trade(v: Json) -> Option<TickData> {
    let data = match v.member("data"@) {
        Some(d) => d,
        None => v,
    };
    match (data.member("p"@), data.member("T"@), data.text_member("s"@)) {
        (Some(p), Some(t), Some(symbol)) => match (
            p.text_decimal(PLACES as nat),
            t.unsigned(),
            asset_of_symbol(symbol),
        ) {
            (Some(price), Some(ts), Some(asset)) => Some(
                TickData { source: asset, price, timestamp_ms: ts },
            ),
            _ => None,
        },
        _ => None,
    }
}

/// The asset of a trading symbol.
pub fn symbol_asset(symbol: &str) -> (asset: Option<&'static str>)
    ensures
        match asset {
            Some(a) => asset_of_symbol(symbol@) == Some(a@),
            None => asset_of_symbol(symbol@) is None,
        },
{
    if starts_with_lowered(symbol, "btc") {
        Some("btc")
    } else if starts_with_lowered(symbol, "eth") {
        Some("eth")
    } else if starts_with_lowered(symbol, "sol") {
        Some("sol")
    } else if starts_with_lowered(symbol, "xrp") {
        Some("xrp")
    } else {
        None
    }
}

/// The tick of a parsed trade message.
pub fn trade_from_json(v: &Json) -> (tick: Option<PriceTick>)
    ensures
        tick_data(tick) == combined_trade(*v),
{
    let data: &Json = match v.get("data") {
        Some(d) => d,
        None => v,
    };
    let price: i64 = match data.get("p") {
        Some(p) => match p.str_as_decimal(PLACES) {
            Some(price) => price,
            None => {
                return None;
            },
        },
        None => {
            return None;
        },
    };
    let ts: u64 = match data.get("T") {
        Some(t) => match t.as_u64() {
            Some(ts) => ts,
            None => {
                return None;
            },
        },
        None => {
            return None;
        },
    };
    let symbol: &str = match data.get_str("s") {
        Some(s) => s,
        None => {
            return None;
        },
    };
    match symbol_asset(symbol) {
        Some(asset) => Some(
            PriceTick { source: String::from_str(asset), price, timestamp_ms: ts },
        ),
        None => None,
    }
}

/// The tick of one text message of the combined trade stream.
pub fn parse_combined_trade(json: &str) -> (tick: Option<PriceTick>)
    ensures
        tick_data(tick) == (match json_of(json@) {
            Some(v) => combined_trade(v),
            None => None,
        }),
{
    match parse_json(json) {
        Some(v) => trade_from_json(&v),
        None => None,
    }
}

/// The host that is connected to where an endpoint names none.
pub const DEFAULT_HOST: &'static str = "stream.binance.com";

/// The port that is connected to where an endpoint names none.
pub const DEFAULT_PORT: u16 = 9443;

/// The host and the port that an absolute URL names, each where it names
/// one; nothing for a text that is no absolute URL. A port that is the
/// usual one of the scheme counts as not named.
pub uninterp spec fn url_parts(text: Seq<char>) -> Option<(Option<Seq<char>>, Option<u16>)>;

/// The plain data of the host and the port of a URL.
pub open spec fn parts_data(parts: Option<(Option<String>, Option<u16>)>) -> Option<
    (Option<Seq<char>>, Option<u16>),
> {
    match parts {
        Some((Some(h), p)) => Some((Some(h@), p)),
        Some((None, p)) => Some((None, p)),
        None => None,
    }
}

/// Parses an absolute URL with `url::Url::parse` and reads its host
/// (`host_str`) and its port (`port`). The result depends on the text
/// alone; it is nothing where the parser reports an error.
#[verifier::external_body]
fn parse_url(text: &str) -> (parts: Option<(Option<String>, Option<u16>)>)
    ensures
        parts_data(parts) == url_parts(text@),
{
    match url::Url::parse(text) {
        Ok(parsed) => Some((parsed.host_str().map(String::from), parsed.port())),
        Err(_) => None,
    }
}

/// The address of a host and a port: the two with a colon between them,
/// with the venue's own host and port where either is missing.
pub open spec fn address_text(host: Option<Seq<char>>, port: Option<u16>) -> Seq<char> {
    (match host {
        Some(h) => h,
        None => DEFAULT_HOST@,
    }) + seq![':'] + decimal_text(
        (match port {
            Some(p) => p,
            None => DEFAULT_PORT,
        }) as nat,
    )
}

/// The address to connect to, given the host and the port of an endpoint.
pub fn socket_address(host: Option<&str>, port: Option<u16>) -> (address: String)
    ensures
        address@ == address_text(
            match host {
                Some(h) => Some(h@),
                None => None,
            },
            port,
        ),
{
    let mut address: String = match host {
        Some(h) => String::from_str(h),
        None => String::from_str(DEFAULT_HOST),
    };
    proof {
        reveal_strlit(":");
        assert(":"@ =~= seq![':']);
    }
    address.append(":");
    let port_text: String = match port {
        Some(p) => u64_to_text(p as u64),
        None => u64_to_text(DEFAULT_PORT as u64),
    };
    address.append(port_text.as_str());
    address
}

/// The address to connect to, given what parsing the endpoint gave.
pub fn address_from_parts(parts: &Option<(Option<String>, Option<u16>)>) -> (address: Option<
    String,
>)
    ensures
        match address {
            Some(a) => parts_data(*parts) matches Some((host, port)) && a@ == address_text(
                host,
                port,
            ),
            None => parts_data(*parts) is None,
        },
{
    match parts {
        Some((host, port)) => {
            let address: String = match host {
                Some(h) => socket_address(Some(h.as_str()), *port),
                None => socket_address(None, *port),
            };
            Some(address)
        },
        None => None,
    }
}

/// The address to connect to for an endpoint; nothing for an endpoint that
/// is no absolute URL.
pub fn endpoint_address(endpoint: &str) -> (address: Option<String>)
    ensures
        match address {
            Some(a) => url_parts(endpoint@) matches Some((host, port)) && a@ == address_text(
                host,
                port,
            ),
            None => url_parts(endpoint@) is None,
        },
{
    let parts: Option<(Option<String>, Option<u16>)> = parse_url(endpoint);
    address_from_parts(&parts)
}

} // verus!
