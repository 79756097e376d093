use polymarket_arb::book::{
    best_ask, best_bid, parse_level, process_clob_message, spawn_clob_ws, token_mid,
    BookSnapshot, TokenBook,
};
use polymarket_arb::json::Json;
use polymarket_arb::strmap::StrMap;

#[test]
fn the_hub_starts_empty() {
    let hub = spawn_clob_ws();
    assert_eq!(hub.subscribed.len(), 0);
    assert_eq!(hub.books.len(), 0);
    assert!(hub.subscribed_tokens().is_empty());
}

#[test]
fn only_new_tokens_are_subscribed() {
    let mut hub = spawn_clob_ws();
    let first = vec!["t1".to_string(), "t2".to_string()];
    let fresh = hub.new_tokens(&first);
    assert_eq!(fresh, first);
    hub.mark_subscribed(&fresh);
    assert_eq!(hub.subscribed_tokens(), first);

    // a request that names nothing new is a no-op
    assert!(hub.new_tokens(&first).is_empty());
    assert!(hub.new_tokens(&vec!["t2".to_string()]).is_empty());
    assert!(hub.new_tokens(&Vec::new()).is_empty());

    let second = vec!["t2".to_string(), "t3".to_string(), "t1".to_string(), "t4".to_string()];
    let fresh = hub.new_tokens(&second);
    assert_eq!(fresh, vec!["t3".to_string(), "t4".to_string()]);
    hub.mark_subscribed(&fresh);
    // after a reconnect the whole set is named, in the order of first request
    assert_eq!(
        hub.subscribed_tokens(),
        vec!["t1".to_string(), "t2".to_string(), "t3".to_string(), "t4".to_string()]
    );
    assert_eq!(hub.subscribed.len(), 4);
}

#[test]
fn book_message_gives_highest_bid_and_lowest_ask() {
    let mut books: BookSnapshot = StrMap::new();
    let msg = r#"{"event_type":"book","asset_id":"tok","bids":[{"price":"0.48","size":"10"},{"price":"0.50","size":"5"},{"price":"0.55","size":"0"},{"price":"0.49","size":"1"}],"asks":[{"price":"0.54","size":"3"},{"price":"0.52","size":"7"},{"price":"0.51","size":"0"},{"price":"x","size":"1"}]}"#;
    assert!(process_clob_message(msg, &mut books, 1234));
    assert_eq!(
        books.get("tok"),
        Some(&TokenBook { best_bid: 500_000, best_ask: 520_000, mid: 510_000, timestamp_ms: 1234 })
    );
    assert_eq!(token_mid(&books, "tok"), 510_000);
    assert_eq!(token_mid(&books, "other"), 0);
}

#[test]
fn price_change_message_is_read_like_a_book() {
    let mut books: BookSnapshot = StrMap::new();
    let msg = r#"{"event_type":"price_change","asset_id":"tok","bids":[{"price":"0.41","size":"2"}],"asks":[{"price":"0.44","size":"2"}]}"#;
    assert!(process_clob_message(msg, &mut books, 9));
    assert_eq!(
        books.get("tok"),
        Some(&TokenBook { best_bid: 410_000, best_ask: 440_000, mid: 425_000, timestamp_ms: 9 })
    );
}

#[test]
fn one_sided_book_has_no_mid() {
    let mut books: BookSnapshot = StrMap::new();
    let msg = r#"{"event_type":"book","asset_id":"tok","bids":[{"price":"0.41","size":"2"}],"asks":[]}"#;
    assert!(process_clob_message(msg, &mut books, 9));
    assert_eq!(
        books.get("tok"),
        Some(&TokenBook { best_bid: 410_000, best_ask: 0, mid: 0, timestamp_ms: 9 })
    );
    let msg = r#"{"event_type":"book","asset_id":"tok","bids":[],"asks":[{"price":"0.41","size":"2"}]}"#;
    assert!(process_clob_message(msg, &mut books, 10));
    assert_eq!(
        books.get("tok"),
        Some(&TokenBook { best_bid: 0, best_ask: 410_000, mid: 0, timestamp_ms: 10 })
    );
}

#[test]
fn best_bid_ask_message_overwrites() {
    let mut books: BookSnapshot = StrMap::new();
    books.insert("tok".to_string(), TokenBook { best_bid: 1, best_ask: 2, mid: 1, timestamp_ms: 3 });
    let msg = r#"{"event_type":"best_bid_ask","asset_id":"tok","best_bid":"0.47","best_ask":"0.50"}"#;
    assert!(process_clob_message(msg, &mut books, 77));
    assert_eq!(
        books.get("tok"),
        Some(&TokenBook { best_bid: 470_000, best_ask: 500_000, mid: 485_000, timestamp_ms: 77 })
    );
    assert_eq!(books.len(), 1);
}

#[test]
fn other_messages_change_nothing() {
    let mut books: BookSnapshot = StrMap::new();
    books.insert("tok".to_string(), TokenBook { best_bid: 1, best_ask: 2, mid: 1, timestamp_ms: 3 });
    for msg in [
        "",
        "not json",
        "[]",
        r#"{"event_type":"book","bids":[],"asks":[]}"#,
        r#"{"event_type":"book","asset_id":"","bids":[],"asks":[]}"#,
        r#"{"event_type":"book","asset_id":"tok","bids":[]}"#,
        r#"{"event_type":"book","asset_id":"tok","asks":[]}"#,
        r#"{"event_type":"book","asset_id":"tok","bids":{},"asks":[]}"#,
        r#"{"event_type":"last_trade_price","asset_id":"tok","price":"0.5"}"#,
        r#"{"asset_id":"tok","bids":[],"asks":[]}"#,
        r#"{"event_type":"best_bid_ask","asset_id":"tok","best_bid":"0.47"}"#,
        r#"{"event_type":"best_bid_ask","asset_id":"tok","best_bid":0.47,"best_ask":0.5}"#,
        r#"{"event_type":"best_bid_ask","asset_id":"tok","best_bid":"a","best_ask":"0.5"}"#,
        r#"{"event_type":"book","asset_id":7,"bids":[],"asks":[]}"#,
    ] {
        assert!(!process_clob_message(msg, &mut books, 50), "{msg}");
        assert_eq!(
            books.get("tok"),
            Some(&TokenBook { best_bid: 1, best_ask: 2, mid: 1, timestamp_ms: 3 })
        );
        assert_eq!(books.len(), 1);
    }
}

#[test]
fn the_hub_takes_messages() {
    let mut hub = spawn_clob_ws();
    let msg = r#"{"event_type":"best_bid_ask","asset_id":"a","best_bid":"0.20","best_ask":"0.30"}"#;
    assert!(hub.on_message(msg, 5));
    assert!(!hub.on_message("{}", 6));
    assert_eq!(hub.books.get("a").unwrap().mid, 250_000);
    assert_eq!(hub.books.get("a").unwrap().timestamp_ms, 5);
    assert_eq!(hub.subscribed.len(), 0);
}

#[test]
fn quoted_books_are_consistent() {
    assert_eq!(TokenBook::quoted(400_000, 500_000, 1).mid, 450_000);
    assert_eq!(TokenBook::quoted(400_001, 500_000, 1).mid, 450_000);
    assert_eq!(TokenBook::quoted(0, 500_000, 1).mid, 0);
    assert_eq!(TokenBook::quoted(500_000, -1, 1).mid, 0);
    assert_eq!(TokenBook::quoted(i64::MAX, i64::MAX, 1).mid, i64::MAX);
}

fn level(price: &str, size: &str) -> Json {
    Json::Obj(vec![
        ("price".to_string(), Json::Str(price.to_string())),
        ("size".to_string(), Json::Str(size.to_string())),
    ])
}

#[test]
fn a_level_counts_by_its_size_alone() {
    assert_eq!(parse_level(&level("0.5", "1")), Some(500_000));
    assert_eq!(parse_level(&level("0", "1")), Some(0));
    assert_eq!(parse_level(&level("-0.25", "1")), Some(-250_000));
    assert_eq!(parse_level(&level("0.5", "0")), None);
    assert_eq!(parse_level(&level("0.5", "0.000")), None);
    assert_eq!(parse_level(&level("0.5", "-1")), None);
    assert_eq!(parse_level(&level("0.5", "many")), None);
    assert_eq!(parse_level(&level("dear", "1")), None);
    // a size too small for a millionth or too large for 64 bits is a size
    assert_eq!(parse_level(&level("0.5", "0.00000000001")), Some(500_000));
    assert_eq!(parse_level(&level("0.5", "123456789012345678901234567890")), Some(500_000));
    let number = Json::Obj(vec![
        ("price".to_string(), Json::Str("0.5".to_string())),
        ("size".to_string(), Json::Num("1".to_string())),
    ]);
    assert_eq!(parse_level(&number), None);
}

#[test]
fn the_lowest_ask_may_be_zero() {
    assert_eq!(best_ask(&vec![level("0", "1"), level("0.5", "1")]), 0);
    assert_eq!(best_ask(&vec![level("0.5", "1"), level("0", "1")]), 0);
    assert_eq!(best_ask(&vec![level("0.5", "1"), level("0", "0")]), 500_000);
    assert_eq!(best_ask(&vec![level("0.5", "1"), level("-0.1", "2"), level("0.2", "1")]), -100_000);
    assert_eq!(best_ask(&vec![]), 0);
    assert_eq!(best_bid(&vec![level("0", "1"), level("-0.5", "1")]), 0);
    assert_eq!(best_bid(&vec![level("-0.5", "1"), level("0.3", "1"), level("0.2", "1")]), 300_000);

    let mut books: BookSnapshot = StrMap::new();
    let msg = r#"{"event_type":"book","asset_id":"tok","bids":[{"price":"0.48","size":"10"}],"asks":[{"price":"0","size":"1"},{"price":"0.5","size":"1"}]}"#;
    assert!(process_clob_message(msg, &mut books, 7));
    assert_eq!(
        books.get("tok"),
        Some(&TokenBook { best_bid: 480_000, best_ask: 0, mid: 0, timestamp_ms: 7 })
    );
}
