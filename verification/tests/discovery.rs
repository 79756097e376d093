use polymarket_arb::discovery::{
    after_miss, check_fee_free, count_events, fee_free_answer, next_page, discover_window, is_five_minute, is_near_close, title_names_asset,
    token_ids, tokens_from_encoded, window_from_market, window_slug, DiscoveryStep, FeeCache,
    Market,
};
use polymarket_arb::json::Json;

fn object(members: Vec<(&str, Json)>) -> Json {
    Json::Obj(members.into_iter().map(|(k, v)| (k.to_string(), v)).collect())
}

fn text(s: &str) -> Json {
    Json::Str(s.to_string())
}

#[test]
fn slug_of_a_window() {
    assert_eq!(window_slug("btc", 1_700_000_100), "btc-updown-5m-1700000100");
    assert_eq!(window_slug("xrp", 0), "xrp-updown-5m-0");
}

#[test]
fn token_ids_come_as_a_list_or_as_a_string() {
    let listed = object(vec![("clobTokenIds", Json::Arr(vec![text("111"), Json::Null, text("222")]))]);
    assert_eq!(token_ids(&listed), Some(vec!["111".to_string(), "222".to_string()]));
    let encoded = object(vec![("clobTokenIds", text(r#"["111", "222"]"#))]);
    assert_eq!(token_ids(&encoded), Some(vec!["111".to_string(), "222".to_string()]));
    // an encoded list that holds anything but strings gives nothing
    let mixed = object(vec![("clobTokenIds", text(r#"["111", 222]"#))]);
    assert_eq!(token_ids(&mixed), Some(Vec::new()));
    let broken = object(vec![("clobTokenIds", text("[\"111\""))]);
    assert_eq!(token_ids(&broken), Some(Vec::new()));
    let no_list = object(vec![("clobTokenIds", text(r#"{"a":"b"}"#))]);
    assert_eq!(token_ids(&no_list), Some(Vec::new()));
    let number = object(vec![("clobTokenIds", Json::Num("5".to_string()))]);
    assert_eq!(token_ids(&number), None);
    assert_eq!(token_ids(&object(vec![])), None);
    assert!(tokens_from_encoded(&None).is_empty());
    assert_eq!(
        tokens_from_encoded(&Some(Json::Arr(vec![text("a")]))),
        vec!["a".to_string()]
    );
}

fn market(end_time_ms: Option<u64>) -> Market {
    Market {
        condition_id: "0xc0".to_string(),
        yes_token: "111".to_string(),
        no_token: "222".to_string(),
        end_time_ms,
        title: "Bitcoin Up or Down".to_string(),
        slug: "btc-updown-5m-1700000100".to_string(),
    }
}

#[test]
fn close_is_snapped_to_a_near_end_date() {
    // the computed close is 1700000400 s
    let plain = window_from_market(&market(None), "btc", 1_700_000_100, 300);
    assert_eq!(plain.open_time_ms, 1_700_000_100_000);
    assert_eq!(plain.close_time_ms, 1_700_000_400_000);
    assert_eq!(plain.slug, "btc-updown-5m-1700000100");
    assert_eq!(plain.asset, "btc");
    assert_eq!(plain.condition_id, "0xc0");
    assert_eq!(plain.yes_token, "111");
    assert_eq!(plain.no_token, "222");
    assert_eq!(plain.open_price, 0);

    let near = window_from_market(&market(Some(1_700_000_460_500)), "btc", 1_700_000_100, 300);
    assert_eq!(near.close_time_ms, 1_700_000_460_500);
    assert_eq!(near.open_time_ms, 1_700_000_160_500);

    let at_limit = window_from_market(&market(Some(1_700_001_000_000)), "btc", 1_700_000_100, 300);
    assert_eq!(at_limit.close_time_ms, 1_700_001_000_000);
    let early = window_from_market(&market(Some(1_699_999_800_000)), "btc", 1_700_000_100, 300);
    assert_eq!(early.close_time_ms, 1_699_999_800_000);
    assert_eq!(early.open_time_ms, 1_699_999_500_000);

    let far = window_from_market(&market(Some(1_700_001_000_001)), "btc", 1_700_000_100, 300);
    assert_eq!(far.close_time_ms, 1_700_000_400_000);
    assert_eq!(far.open_time_ms, 1_700_000_100_000);
    let far = window_from_market(&market(Some(1_699_999_799_999)), "btc", 1_700_000_100, 300);
    assert_eq!(far.close_time_ms, 1_700_000_400_000);

    assert!(is_near_close(Some(600_000), 0, 0));
    assert!(!is_near_close(Some(600_001), 0, 0));
    assert!(!is_near_close(None, 0, 0));
}

const EVENTS: &str = r#"[
  {"slug":"eth-updown-5m-1700000100","title":"Ethereum Up or Down - 5 Minutes","markets":[
     {"conditionId":"0xe1","question":"Ethereum Up or Down?","clobTokenIds":"[\"e-yes\",\"e-no\"]","endDate":"2023-11-14T22:20:00Z"}]},
  {"slug":"btc-updown-5m-1700000100","title":"Bitcoin Up or Down - 5 Minutes","endDate":"2023-11-14T22:20:05Z","markets":[
     {"conditionId":"0xb0","question":"broken","clobTokenIds":"[\"only-one\"]"},
     {"conditionId":"0xb1","question":"Bitcoin Up or Down - November 14, 5:15PM-5:20PM ET","clobTokenIds":"[\"b-yes\",\"b-no\"]"},
     {"conditionId":"0xb2","question":"later","clobTokenIds":["x","y"]}]}
]"#;

#[test]
fn window_is_found_by_its_slug() {
    let w = discover_window(EVENTS, "btc", 1_700_000_100, 300, true).unwrap();
    assert_eq!(w.slug, "btc-updown-5m-1700000100");
    assert_eq!(w.asset, "btc");
    assert_eq!(w.condition_id, "0xb1");
    assert_eq!(w.yes_token, "b-yes");
    assert_eq!(w.no_token, "b-no");
    // the end date of the event is 5 s after the computed close: it is taken
    assert_eq!(w.close_time_ms, 1_700_000_405_000);
    assert_eq!(w.open_time_ms, 1_700_000_105_000);
    assert_eq!(w.open_price, 0);

    let e = discover_window(EVENTS, "eth", 1_700_000_100, 300, true).unwrap();
    assert_eq!(e.condition_id, "0xe1");
    assert_eq!(e.close_time_ms, 1_700_000_400_000);
    assert_eq!(e.open_time_ms, 1_700_000_100_000);

    assert!(discover_window(EVENTS, "sol", 1_700_000_100, 300, true).is_none());
    assert!(discover_window(EVENTS, "btc", 1_700_000_400, 300, true).is_none());
    assert!(discover_window("[]", "btc", 1_700_000_100, 300, true).is_none());
    assert!(discover_window("oops", "btc", 1_700_000_100, 300, true).is_none());
}

#[test]
fn window_is_found_by_search() {
    // the slug of the event is another one: only the search finds the market
    let events = r#"[
      {"slug":"will-it-rain","title":"Rain?","markets":[{"question":"Rain up or down","clobTokenIds":["r1","r2"],"endDate":"2023-11-14T22:20:00Z"}]},
      {"slug":"bitcoin-up-or-down-15-minute","title":"Bitcoin Up or Down - 15 minute","markets":[{"question":"Bitcoin Up or Down","clobTokenIds":["q1","q2"],"endDate":"2023-11-14T22:20:00Z"}]},
      {"slug":"bitcoin-up-or-down-5-minute-a","title":"Bitcoin Up or Down","markets":[{"question":"Bitcoin Up or Down","clobTokenIds":["old1","old2"],"endDate":"2023-11-14T22:00:00Z"}]},
      {"slug":"bitcoin-up-or-down-5-minute-b","title":"Bitcoin Up or Down","markets":[{"conditionId":"0xfb","question":"BITCOIN UP OR DOWN","clobTokenIds":["s-yes","s-no"],"endDate":"2023-11-14T22:20:00Z"}]}
    ]"#;
    assert!(discover_window(events, "btc", 1_700_000_100, 300, true).is_none());
    let w = discover_window(events, "btc", 1_700_000_100, 300, false).unwrap();
    assert_eq!(w.condition_id, "0xfb");
    assert_eq!(w.yes_token, "s-yes");
    assert_eq!(w.no_token, "s-no");
    assert_eq!(w.slug, "btc-updown-5m-1700000100");
    assert_eq!(w.close_time_ms, 1_700_000_400_000);
    assert!(discover_window(events, "eth", 1_700_000_100, 300, false).is_none());
}

#[test]
fn an_event_without_markets_is_read_as_a_market() {
    let one = r#"{"slug":"btc-updown-5m-1700000100","title":"Bitcoin Up or Down","conditionId":"0x1","clobTokenIds":["a","b"]}"#;
    let w = discover_window(one, "btc", 1_700_000_100, 300, true).unwrap();
    assert_eq!(w.yes_token, "a");
    assert_eq!(w.no_token, "b");
    let empty_token = r#"{"slug":"btc-updown-5m-1700000100","clobTokenIds":["a",""]}"#;
    assert!(discover_window(empty_token, "btc", 1_700_000_100, 300, true).is_none());
}

#[test]
fn titles_and_cadence() {
    assert!(title_names_asset("Bitcoin Up or Down", "btc"));
    assert!(!title_names_asset("BTC Up or Down", "btc"));
    assert!(title_names_asset("ETHEREUM up or down", "eth"));
    assert!(title_names_asset("Solana Up or Down", "sol"));
    assert!(title_names_asset("XRP Up or Down", "xrp"));
    assert!(title_names_asset("Ripple Up or Down", "xrp"));
    assert!(!title_names_asset("Bitcoin Up or Down", "xrp"));
    assert!(title_names_asset("Dogecoin DOGE", "doge"));
    assert!(is_five_minute("btc-updown-5m-1700000100"));
    assert!(is_five_minute("Bitcoin 5-Minute"));
    assert!(is_five_minute("Bitcoin 5 minutes"));
    assert!(!is_five_minute("Bitcoin 15-minute"));
    assert!(!is_five_minute("Bitcoin 15 minutes"));
    assert!(!is_five_minute("btc-updown-15m-1700000100"));
    assert!(!is_five_minute("Bitcoin hourly"));
}

#[test]
fn the_search_goes_page_by_page() {
    let full = format!("[{}]", vec!["{}"; 100].join(","));
    let short = format!("[{}]", vec!["{}"; 99].join(","));
    assert_eq!(next_page(0, &full), Some(100));
    assert_eq!(next_page(300, &full), Some(400));
    assert_eq!(next_page(400, &full), None);
    assert_eq!(next_page(usize::MAX, &full), None);
    assert_eq!(next_page(0, &short), None);
    assert_eq!(next_page(0, "{}"), None);
    assert_eq!(next_page(0, "nothing"), None);
    assert_eq!(count_events(&None), 0);
    assert_eq!(count_events(&Some(Json::Arr(vec![Json::Null, Json::Null]))), 2);
}

#[test]
fn six_requests_then_one_search() {
    for made in 0..6 {
        assert_eq!(after_miss(made, false), DiscoveryStep::RetrySlug { delay_ms: 5_000 });
    }
    assert_eq!(after_miss(6, false), DiscoveryStep::Search);
    assert_eq!(after_miss(7, false), DiscoveryStep::Search);
    assert_eq!(after_miss(6, true), DiscoveryStep::GiveUp);
    assert_eq!(after_miss(2, true), DiscoveryStep::RetrySlug { delay_ms: 5_000 });
}

#[test]
fn fees_are_cached() {
    let free = object(vec![("taker", Json::Num("0".to_string())), ("maker", Json::Num("0.0".to_string()))]);
    let paid = object(vec![("taker", Json::Num("0.02".to_string())), ("maker", Json::Num("0".to_string()))]);
    let half = object(vec![("taker", Json::Num("0".to_string()))]);
    let texts = object(vec![("taker", text("0")), ("maker", text("0"))]);
    assert!(check_fee_free(&free));
    assert!(!check_fee_free(&paid));
    assert!(!check_fee_free(&half));
    assert!(!check_fee_free(&texts));

    let free = r#"{"taker":0,"maker":0.0}"#;
    let paid = r#"{"taker":0.02,"maker":0}"#;
    assert!(fee_free_answer(free));
    assert!(!fee_free_answer(paid));
    assert!(!fee_free_answer("busy"));
    assert!(!fee_free_answer(r#"{"taker":1e-9,"maker":0}"#));
    assert!(!fee_free_answer(r#"{"taker":0.00001,"maker":0}"#));
    assert!(fee_free_answer(r#"{"taker":-0.0,"maker":0}"#));

    let mut cache = FeeCache::new();
    assert_eq!(cache.lookup("t"), None);
    assert!(cache.is_fee_free("t", Some(free)));
    assert_eq!(cache.lookup("t"), Some(true));
    // what is known is not asked again
    assert!(cache.is_fee_free("t", Some(paid)));
    assert!(cache.is_fee_free("t", None));
    assert!(!cache.is_fee_free("u", None));
    assert_eq!(cache.lookup("u"), Some(false));
    assert!(!cache.is_fee_free("u", Some(free)));
    assert!(!cache.is_fee_free("v", Some(paid)));
}
