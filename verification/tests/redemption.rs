use polymarket_arb::data::SharedLiveStats;
use polymarket_arb::json::Json;
use polymarket_arb::redemption::{
    book_result, choose_rpc, is_space_char, is_win, payout_from_text, rpc_url_in, normalize_condition_id, parse_payout, payout_call_data,
    payout_from_answer, pnl_of, resolution_of, PendingPosition, Redeemer, Resolution,
};

fn position(cid: &str, side: &str) -> PendingPosition {
    PendingPosition {
        condition_id: cid.to_string(),
        market_name: format!("market of {cid}"),
        side: side.to_string(),
        entry_price: 400_000,
        size_usd: 2_000_000,
    }
}

#[test]
fn condition_ids_are_padded_to_a_word() {
    let word = "00000000000000000000000000000000000000000000000000000000000000ab";
    assert_eq!(normalize_condition_id("0xab"), format!("0x{word}"));
    assert_eq!(normalize_condition_id("ab"), format!("0x{word}"));
    assert_eq!(normalize_condition_id("0x0xab"), format!("0x{word}"));
    assert_eq!(normalize_condition_id(""), format!("0x{}", "0".repeat(64)));
    let full = "1".repeat(64);
    assert_eq!(normalize_condition_id(&format!("0x{full}")), format!("0x{full}"));
    let long = "2".repeat(70);
    assert_eq!(normalize_condition_id(&long), format!("0x{long}"));
    assert_eq!(normalize_condition_id("0X1"), format!("0x{}0X1", "0".repeat(61)));
}

#[test]
fn call_data_for_a_payout() {
    let word = "00000000000000000000000000000000000000000000000000000000000000ab";
    assert_eq!(
        payout_call_data("0xab", 1),
        format!("0xda3550f7{word}{}1", "0".repeat(63))
    );
    assert_eq!(
        payout_call_data("ab", 0),
        format!("0xda3550f7{word}{}", "0".repeat(64))
    );
    assert_eq!(
        payout_call_data("ab", 0xdead_beef_0123_4567),
        format!("0xda3550f7{word}{}deadbeef01234567", "0".repeat(48))
    );
}

#[test]
fn payouts_are_read_from_hex() {
    assert_eq!(parse_payout("0x0"), 0);
    assert_eq!(parse_payout("0x"), 0);
    assert_eq!(parse_payout(""), 0);
    assert_eq!(parse_payout(&format!("0x{}", "0".repeat(64))), 0);
    assert_eq!(parse_payout(&format!("0x{}1", "0".repeat(63))), 1);
    assert_eq!(parse_payout("0xFf"), 255);
    assert_eq!(parse_payout("1f"), 31);
    // only the lowest sixteen digits count
    assert_eq!(parse_payout("0x123456789abcdef01"), 0x23456789abcdef01);
    assert_eq!(parse_payout("0xffffffffffffffff"), u64::MAX);
    assert_eq!(parse_payout("0xzz"), 0);
    assert_eq!(parse_payout("error"), 0);
    let answer = Json::Obj(vec![("result".to_string(), Json::Str("0x02".to_string()))]);
    assert_eq!(payout_from_answer(&answer), 2);
    let failed = Json::Obj(vec![("error".to_string(), Json::Str("boom".to_string()))]);
    assert_eq!(payout_from_answer(&failed), 0);
}

#[test]
fn resolutions() {
    assert_eq!(resolution_of(1, 0), Some(Resolution::Up));
    assert_eq!(resolution_of(0, 1), Some(Resolution::Down));
    assert_eq!(resolution_of(1, 1), Some(Resolution::Up));
    assert_eq!(resolution_of(0, 0), None);
    assert!(is_win("BUY_YES", Resolution::Up));
    assert!(is_win("BUY_NO", Resolution::Down));
    assert!(!is_win("BUY_YES", Resolution::Down));
    assert!(!is_win("BUY_NO", Resolution::Up));
    assert!(!is_win("buy_yes", Resolution::Up));
}

#[test]
fn results_of_settled_positions() {
    // 2.00 at 0.40: 5 shares pay 5.00, a gain of 3.00
    assert_eq!(pnl_of(true, 400_000, 2_000_000), 3_000_000);
    assert_eq!(pnl_of(false, 400_000, 2_000_000), -2_000_000);
    assert_eq!(pnl_of(true, 510_000, 2_000_000), 1_921_568);
    assert_eq!(pnl_of(true, 1_000_000, 2_000_000), 0);
    assert_eq!(pnl_of(true, 0, 2_000_000), 0);
    assert_eq!(pnl_of(false, 0, u64::MAX), i64::MIN);
    assert_eq!(pnl_of(true, 1, u64::MAX), i64::MAX);
}

#[test]
fn positions_wait_until_they_are_settled() {
    let mut redeemer = Redeemer::new();
    assert_eq!(redeemer.pending_count(), 0);
    redeemer.track_position(position("c1", "BUY_YES"));
    redeemer.track_position(position("c2", "BUY_NO"));
    redeemer.track_position(position("c3", "BUY_NO"));
    redeemer.track_position(position("c1", "BUY_YES"));
    assert_eq!(redeemer.pending_count(), 3);
    assert_eq!(
        redeemer.pending_conditions(),
        vec!["c1".to_string(), "c2".to_string(), "c3".to_string()]
    );

    let won = redeemer.settle("c2", Resolution::Down, "0xfeed".to_string()).unwrap();
    assert!(won.won);
    assert_eq!(won.condition_id, "c2");
    assert_eq!(won.market_name, "market of c2");
    assert_eq!(won.side, "BUY_NO");
    assert_eq!(won.entry_price, 400_000);
    assert_eq!(won.size_usd, 2_000_000);
    assert_eq!(won.tx_hash, "0xfeed");
    assert_eq!(redeemer.pending_count(), 2);
    assert!(redeemer.settle("c2", Resolution::Down, "0x1".to_string()).is_none());

    let lost = redeemer.settle("c3", Resolution::Up, "0x2".to_string()).unwrap();
    assert!(!lost.won);
    assert_eq!(redeemer.pending_conditions(), vec!["c1".to_string()]);

    let mut stats = SharedLiveStats::new();
    stats.open = 2;
    assert_eq!(book_result(&won, &mut stats), 3_000_000);
    assert_eq!(book_result(&lost, &mut stats), -2_000_000);
    assert_eq!(stats.open, 0);
    assert_eq!(stats.wins, 1);
    assert_eq!(stats.losses, 1);
    assert_eq!(stats.total_pnl, 1_000_000);
    assert_eq!(stats.session_pnl, 1_000_000);
    assert_eq!(stats.daily_pnl, 1_000_000);
}

#[test]
fn payout_from_the_text_of_an_answer() {
    assert_eq!(payout_from_text(r#"{"jsonrpc":"2.0","id":1,"result":"0x0000000000000000000000000000000000000000000000000000000000000001"}"#), 1);
    assert_eq!(payout_from_text(r#"{"jsonrpc":"2.0","id":1,"error":{"code":-32000}}"#), 0);
    assert_eq!(payout_from_text(r#"{"result":7}"#), 0);
    assert_eq!(payout_from_text("<html>"), 0);
}

#[test]
fn the_node_of_the_scanner_configuration() {
    let yaml = "chain:\n  name: polygon\n  rpc: \"https://polygon-mainnet.g.alchemy.com/v2/KEY\"  \r\n  other: https://polygon-mainnet.g.alchemy.com/v2/SECOND\n";
    assert_eq!(rpc_url_in(yaml).as_deref(), Some("https://polygon-mainnet.g.alchemy.com/v2/KEY"));
    assert_eq!(
        rpc_url_in("rpc: 'https://polygon-mainnet.g.alchemy.com/v2/K\"'\u{a0}").as_deref(),
        Some("https://polygon-mainnet.g.alchemy.com/v2/K\"")
    );
    assert_eq!(
        rpc_url_in("https://polygon-mainnet.g.alchemy.com").as_deref(),
        Some("https://polygon-mainnet.g.alchemy.com")
    );
    assert_eq!(
        rpc_url_in("x https://polygon-mainnet.g.alchemy.com/a b\"' \"").as_deref(),
        Some("https://polygon-mainnet.g.alchemy.com/a b\"' ")
    );
    assert_eq!(
        rpc_url_in("x https://polygon-mainnet.g.alchemy.com/a''\"\" \t").as_deref(),
        Some("https://polygon-mainnet.g.alchemy.com/a")
    );
    assert_eq!(rpc_url_in("rpc: https://polygon-mainnet.g.alchemy.co"), None);
    assert_eq!(rpc_url_in(""), None);

    assert_eq!(choose_rpc(Some("http://node".to_string()), Some(yaml)), "http://node");
    assert_eq!(choose_rpc(None, Some(yaml)), "https://polygon-mainnet.g.alchemy.com/v2/KEY");
    assert_eq!(choose_rpc(None, Some("nothing here")), "https://1rpc.io/matic");
    assert_eq!(choose_rpc(None, None), "https://1rpc.io/matic");
}

#[test]
fn white_space_is_what_the_standard_library_takes_for_it() {
    for code in 0..0x3100u32 {
        if let Some(c) = char::from_u32(code) {
            assert_eq!(is_space_char(c), c.is_whitespace(), "{code:#x}");
        }
    }
}
