use polymarket_arb::book::{merge_requests, spawn_clob_ws, HubAction, HubEvent};
use polymarket_arb::feeds::binance::{address_from_parts, endpoint_address, socket_address};
use polymarket_arb::feeds::{after_disconnect, logs_tick, Failover};

fn tokens(names: &[&str]) -> Vec<String> {
    names.iter().map(|n| n.to_string()).collect()
}

#[test]
fn the_hub_step_by_step() {
    let mut hub = spawn_clob_ws();
    assert!(matches!(hub.step(HubEvent::Connected, 1), HubAction::Nothing));

    match hub.step(HubEvent::Requested { tokens: tokens(&["a", "b"]) }, 2) {
        HubAction::Subscribe { tokens: t } => assert_eq!(t, tokens(&["a", "b"])),
        _ => panic!("expected a subscription"),
    }
    // nothing counts as asked for before its frame was sent
    assert_eq!(hub.subscribed.len(), 0);
    assert!(matches!(
        hub.step(HubEvent::SubscribeSent { tokens: tokens(&["a", "b"]), sent: true }, 3),
        HubAction::Nothing
    ));
    assert_eq!(hub.subscribed.len(), 2);

    assert!(matches!(hub.step(HubEvent::Requested { tokens: tokens(&["b", "a"]) }, 4), HubAction::Nothing));
    match hub.step(HubEvent::Requested { tokens: tokens(&["b", "c"]) }, 5) {
        HubAction::Subscribe { tokens: t } => assert_eq!(t, tokens(&["c"])),
        _ => panic!("expected a subscription"),
    }
    assert!(matches!(
        hub.step(HubEvent::SubscribeSent { tokens: tokens(&["c"]), sent: false }, 6),
        HubAction::Reconnect { delay_ms: 1_000 }
    ));
    assert_eq!(hub.subscribed.len(), 2);

    let msg = r#"{"event_type":"best_bid_ask","asset_id":"a","best_bid":"0.40","best_ask":"0.44"}"#;
    assert!(matches!(hub.step(HubEvent::Message { text: msg.to_string() }, 7), HubAction::Publish));
    assert_eq!(hub.books.get("a").unwrap().mid, 420_000);
    assert_eq!(hub.books.get("a").unwrap().timestamp_ms, 7);
    assert!(matches!(hub.step(HubEvent::Message { text: "pong".to_string() }, 8), HubAction::Nothing));

    assert!(matches!(hub.step(HubEvent::Disconnected, 9), HubAction::Reconnect { delay_ms: 1_000 }));
    match hub.step(HubEvent::Connected, 10) {
        HubAction::Subscribe { tokens: t } => assert_eq!(t, tokens(&["a", "b"])),
        _ => panic!("expected the whole set"),
    }
    assert!(matches!(hub.step(HubEvent::RequestsClosed, 11), HubAction::Stop));
    assert_eq!(hub.books.len(), 1);
}

#[test]
fn requests_are_merged() {
    assert!(merge_requests(&vec![]).is_empty());
    assert_eq!(
        merge_requests(&vec![tokens(&["a", "b"]), tokens(&[]), tokens(&["c", "a"])]),
        tokens(&["a", "b", "c", "a"])
    );
}

#[test]
fn endpoints_are_tried_in_turn() {
    assert_eq!(after_disconnect(0, 2), Failover::Connect { index: 1 });
    assert_eq!(after_disconnect(1, 2), Failover::Restart { delay_ms: 1_000 });
    assert_eq!(after_disconnect(0, 1), Failover::Restart { delay_ms: 1_000 });
    assert_eq!(after_disconnect(0, 0), Failover::Restart { delay_ms: 1_000 });
    assert_eq!(after_disconnect(usize::MAX, usize::MAX), Failover::Restart { delay_ms: 1_000 });
    assert!(logs_tick(1));
    assert!(!logs_tick(2));
    assert!(!logs_tick(999));
    assert!(logs_tick(1000));
    assert!(logs_tick(0));
}

#[test]
fn addresses_of_endpoints() {
    assert_eq!(socket_address(Some("example.com"), Some(443)), "example.com:443");
    assert_eq!(socket_address(None, None), "stream.binance.com:9443");
    assert_eq!(socket_address(Some("h"), None), "h:9443");
    assert_eq!(
        endpoint_address("wss://stream.binance.com:9443/stream?streams=btcusdt@trade").as_deref(),
        Some("stream.binance.com:9443")
    );
    assert_eq!(
        endpoint_address("wss://stream.binance.us:9443/stream").as_deref(),
        Some("stream.binance.us:9443")
    );
    assert_eq!(endpoint_address("wss://example.org/ws").as_deref(), Some("example.org:9443"));
    assert_eq!(endpoint_address("unix:/run/foo.socket").as_deref(), Some("stream.binance.com:9443"));
    assert_eq!(endpoint_address("not a url"), None);
    assert_eq!(address_from_parts(&None), None);
    assert_eq!(
        address_from_parts(&Some((Some("h".to_string()), Some(1)))).as_deref(),
        Some("h:1")
    );
    assert_eq!(address_from_parts(&Some((None, None))).as_deref(), Some("stream.binance.com:9443"));
}
