use polymarket_arb::strike::{
    is_price_target, parse_strike, power_of, strike_from_groups, strip_commas,
};

#[test]
fn price_targets_are_read() {
    assert_eq!(parse_strike("Will Bitcoin hit $150k by June?"), Some(150_000_000_000));
    assert_eq!(parse_strike("Bitcoin above $100,000 on Friday?"), Some(100_000_000_000));
    assert_eq!(parse_strike("reach $1.5m"), Some(1_500_000_000_000));
    assert_eq!(parse_strike("reach $1.5 M"), Some(1_500_000_000_000));
    assert_eq!(parse_strike("$2B market cap"), Some(2_000_000_000_000_000));
    assert_eq!(parse_strike("costs $0.25."), Some(250_000));
    assert_eq!(parse_strike("pay $5. Then"), Some(5_000_000));
    // the first sign that is followed by a digit or a comma counts
    assert_eq!(parse_strike("$ and $x but $42 and $43"), Some(42_000_000));
    // a letter behind blanks is taken for a factor
    assert_eq!(parse_strike("$3 by noon"), Some(3_000_000_000_000_000));
}

#[test]
fn what_names_no_price_target() {
    for text in ["", "Bitcoin above 100,000", "$", "$abc", "$,", "$0", "$0.000", "$9999999999999999b"] {
        assert_eq!(parse_strike(text), None, "{text:?}");
    }
}

#[test]
fn groups_commas_and_factors() {
    assert_eq!(strip_commas("1,234,567.8"), "1234567.8");
    assert_eq!(strip_commas(",,"), "");
    assert_eq!(strip_commas("é,é"), "éé");
    assert_eq!(power_of(&Some("k".to_string())), 3);
    assert_eq!(power_of(&Some("M".to_string())), 6);
    assert_eq!(power_of(&Some("b".to_string())), 9);
    assert_eq!(power_of(&Some("x".to_string())), 0);
    assert_eq!(power_of(&None), 0);
    assert_eq!(strike_from_groups(&None), None);
    assert_eq!(strike_from_groups(&Some(vec![Some("$1".to_string()), Some("1".to_string())])), None);
    assert_eq!(strike_from_groups(&Some(vec![Some("$1".to_string()), None, None])), None);
    assert_eq!(
        strike_from_groups(&Some(vec![Some("$1k".to_string()), Some("1".to_string()), Some("k".to_string())])),
        Some(1_000_000_000)
    );
    assert_eq!(
        strike_from_groups(&Some(vec![None, Some("-1".to_string()), None])),
        None
    );
}

#[test]
fn questions_that_ask_for_a_target() {
    assert!(is_price_target("Will Bitcoin HIT $150k?"));
    assert!(is_price_target("Bitcoin above $100,000?"));
    assert!(is_price_target("Ether below $2k?"));
    assert!(is_price_target("Will Solana Reach $500?"));
    assert!(!is_price_target("How many Bitcoin does the fund hold?"));
}

#[test]
fn digits_beyond_a_millionth_count_before_a_factor() {
    assert_eq!(parse_strike("$1.0000005k"), Some(1_000_000_500));
    assert_eq!(parse_strike("$0.0000000015b"), Some(1_500_000));
    assert_eq!(parse_strike("$0.0000001m"), Some(100_000));
    assert_eq!(parse_strike("$0.0000001"), None);
    assert_eq!(parse_strike("$9223372036.854775807k"), Some(i64::MAX));
    assert_eq!(parse_strike("$9223372036.854775808k"), None);
}
