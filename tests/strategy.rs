use updown_arb::domain::{MarketData, TokenPrice};
use updown_arb::fixed::Fixed;
use updown_arb::monitor::{MarketMeta, MarketSnapshot};
use updown_arb::strategy::ArbitrageDetector;

fn px(micros: u128) -> Fixed {
    Fixed::from_micros(micros)
}

fn token(id: &str, ask: Option<u128>) -> Option<TokenPrice> {
    Some(TokenPrice { token_id: id.to_string(), bid: None, ask: ask.map(px) })
}

fn meta(slug: &str) -> MarketMeta {
    MarketMeta { name: String::new(), slug: slug.to_string(), end_time_unix: 0 }
}

fn snapshot(eth_up: Option<u128>, eth_down: Option<u128>, btc_up: Option<u128>, btc_down: Option<u128>) -> MarketSnapshot {
    MarketSnapshot {
        eth_market: MarketData {
            condition_id: "eth-cond".to_string(),
            market_name: "ETH".to_string(),
            up_token: token("eth-up", eth_up),
            down_token: token("eth-down", eth_down),
        },
        btc_market: MarketData {
            condition_id: "btc-cond".to_string(),
            market_name: "BTC".to_string(),
            up_token: token("btc-up", btc_up),
            down_token: token("btc-down", btc_down),
        },
        eth_market_meta: meta("eth-updown-15m-0"),
        btc_market_meta: meta("btc-updown-15m-0"),
        timestamp: 0,
    }
}

#[test]
fn eth_up_btc_down_below_one_is_an_opportunity() {
    let d = ArbitrageDetector::new(px(10_000));
    let ops = d.detect_opportunities(&snapshot(Some(520_000), None, None, Some(450_000)));
    assert_eq!(ops.len(), 1);
    let o = &ops[0];
    assert_eq!(o.bundle_cost, px(970_000));
    assert_eq!(o.profit_per_bundle, px(30_000));
    assert_eq!(o.shares, 10);
    assert_eq!(o.total_cost, px(9_700_000));
    assert_eq!(o.expected_profit, px(300_000));
    assert_eq!(o.eth_up_token_id, "eth-up");
    assert_eq!(o.btc_down_token_id, "btc-down");
    assert_eq!(o.eth_condition_id, "eth-cond");
    assert_eq!(o.btc_condition_id, "btc-cond");
    assert_eq!(o.eth_up_price, px(520_000));
    assert_eq!(o.btc_down_price, px(450_000));
}

#[test]
fn bundle_above_one_is_no_opportunity() {
    let d = ArbitrageDetector::new(px(10_000));
    let ops = d.detect_opportunities(&snapshot(Some(600_000), None, None, Some(450_000)));
    assert!(ops.is_empty());
}

#[test]
fn bundle_of_exactly_one_is_no_opportunity() {
    let d = ArbitrageDetector::new(px(0));
    let ops = d.detect_opportunities(&snapshot(Some(550_000), None, None, Some(450_000)));
    assert!(ops.is_empty());
}

#[test]
fn profit_below_threshold_is_rejected() {
    let d = ArbitrageDetector::new(px(50_000));
    let ops = d.detect_opportunities(&snapshot(Some(520_000), None, None, Some(450_000)));
    assert!(ops.is_empty());
}

#[test]
fn profit_equal_to_threshold_is_accepted() {
    let d = ArbitrageDetector::new(px(30_000));
    let ops = d.detect_opportunities(&snapshot(Some(520_000), None, None, Some(450_000)));
    assert_eq!(ops.len(), 1);
}

#[test]
fn both_combinations_are_reported_in_order() {
    let d = ArbitrageDetector::new(px(10_000));
    let ops = d.detect_opportunities(&snapshot(Some(400_000), Some(300_000), Some(500_000), Some(500_000)));
    assert_eq!(ops.len(), 2);
    assert_eq!(ops[0].eth_up_token_id, "eth-up");
    assert_eq!(ops[0].btc_down_token_id, "btc-down");
    assert_eq!(ops[0].bundle_cost, px(900_000));
    assert_eq!(ops[1].eth_up_token_id, "eth-down");
    assert_eq!(ops[1].btc_down_token_id, "btc-up");
    assert_eq!(ops[1].bundle_cost, px(800_000));
    assert_eq!(ops[1].shares, 12);
}

#[test]
fn missing_price_leaves_leg_out() {
    let d = ArbitrageDetector::new(px(10_000));
    let ops = d.detect_opportunities(&snapshot(None, Some(300_000), Some(500_000), Some(450_000)));
    assert_eq!(ops.len(), 1);
    assert_eq!(ops[0].eth_up_token_id, "eth-down");
}

#[test]
fn zero_shares_is_no_opportunity() {
    let d = ArbitrageDetector::with_limits(px(10_000), px(500_000), 1000, 1000);
    let ops = d.detect_opportunities(&snapshot(Some(520_000), None, None, Some(450_000)));
    assert!(ops.is_empty());
}

#[test]
fn shares_bounded_by_liquidity() {
    let d = ArbitrageDetector::with_limits(px(10_000), Fixed::from_units(1_000), 7, 9);
    let ops = d.detect_opportunities(&snapshot(Some(520_000), None, None, Some(450_000)));
    assert_eq!(ops.len(), 1);
    assert_eq!(ops[0].shares, 7);
    assert_eq!(ops[0].total_cost, px(6_790_000));
    assert_eq!(ops[0].expected_profit, px(210_000));
}

#[test]
fn shares_bounded_by_capital() {
    let d = ArbitrageDetector::with_limits(px(0), px(2_500_000), 1000, 1000);
    let ops = d.detect_opportunities(&snapshot(Some(300_000), None, None, Some(300_000)));
    assert_eq!(ops.len(), 1);
    assert_eq!(ops[0].shares, 4);
}

#[test]
fn zero_cost_bundle_is_no_opportunity() {
    let d = ArbitrageDetector::new(px(0));
    let ops = d.detect_opportunities(&snapshot(Some(0), None, None, Some(0)));
    assert!(ops.is_empty());
}
