use updown_arb::client::{usdc_balance, ApiCredentials, SubmitError};
use updown_arb::config::Config;
use updown_arb::discovery::{accepts_market, candidate_periods, market_slug};
use updown_arb::domain::{ArbitrageOpportunity, Balance, Market};
use updown_arb::execution::{calculate_position_size, plan_trade, TradeSkip};
use updown_arb::fixed::Fixed;

fn px(m: u128) -> Fixed {
    Fixed::from_micros(m)
}

fn opportunity(a: u128, b: u128) -> ArbitrageOpportunity {
    ArbitrageOpportunity {
        eth_condition_id: "e".to_string(),
        btc_condition_id: "b".to_string(),
        eth_up_token_id: "".to_string(),
        btc_down_token_id: "bd".to_string(),
        eth_up_price: px(a),
        btc_down_price: px(b),
        bundle_cost: px(a + b),
        profit_per_bundle: px(1_000_000 - a - b),
        shares: 10,
        total_cost: px((a + b) * 10),
        expected_profit: px((1_000_000 - a - b) * 10),
    }
}

fn creds(read_only: bool) -> ApiCredentials {
    ApiCredentials {
        api_key: "key".to_string(),
        api_secret: "secret".to_string(),
        api_passphrase: "pass".to_string(),
        read_only,
    }
}

#[test]
fn read_only_mode_blocks_submission() {
    let r = creds(true).prepare_order_submission("{}", "1700000000");
    assert_eq!(r.unwrap_err(), SubmitError::ReadOnly);
    assert_eq!(SubmitError::ReadOnly.message(), "READ-ONLY MODE ENABLED");
}

#[test]
fn submission_headers_carry_the_signature() {
    let h = creds(false).prepare_order_submission("{}", "1700000000").unwrap();
    assert_eq!(h.api_key, "key");
    assert_eq!(h.passphrase, "pass");
    assert_eq!(h.timestamp, "1700000000");
    assert_eq!(h.signature, "DwCcwwH1Jd1gwPhZhTfOC9kGKCl9MgPkH/rSb0Pg1ow=");
}

#[test]
fn request_signature_is_base64_hmac() {
    let c = ApiCredentials {
        api_key: String::new(),
        api_secret: "Jefe".to_string(),
        api_passphrase: String::new(),
        read_only: false,
    };
    assert_eq!(c.sign_request("", "", "", "what do ya want for nothing?"), "W9zBRr9gdU5qBCQmCJV1x1oAPwidJzmDnexYuWTsOEM=");
    assert_eq!(c.sign_request("post", "/orders", "{}", "1700000000"), c.sign_request("POST", "/orders", "{}", "1700000000"));
}

#[test]
fn position_size_divides_limit_by_bundle_cost() {
    assert_eq!(calculate_position_size(Fixed::from_units(100), &opportunity(520_000, 450_000)), Some(103));
    assert_eq!(calculate_position_size(Fixed::from_units(100), &opportunity(0, 0)), Some(0));
}

#[test]
fn plan_builds_two_buy_legs() {
    let p = plan_trade(&opportunity(520_000, 450_000), Fixed::from_units(10), true, true, 1_700_000_000, None).unwrap();
    assert_eq!(p.shares, 10);
    assert_eq!(p.first.price, 520_000);
    assert_eq!(p.second.price, 450_000);
    assert_eq!(p.first.size, 10_000_000);
    assert_eq!(p.first.side, 0);
    assert_eq!(p.first.expiration, 1_700_000_300);
    assert_eq!(p.first.nonce, 1_700_000_000);
    assert_eq!(p.second.nonce, 1_700_000_001);
    assert_eq!(p.last_nonce, 1_700_000_001);
    assert_eq!(
        p.first.token_id,
        vec![
            0xc5, 0xd2, 0x46, 0x01, 0x86, 0xf7, 0x23, 0x3c, 0x92, 0x7e, 0x7d, 0xb2, 0xdc, 0xc7, 0x03, 0xc0,
            0xe5, 0x00, 0xb6, 0x53, 0xca, 0x82, 0x27, 0x3b, 0x7b, 0xfa, 0xd8, 0x04, 0x5d, 0x85, 0xa4, 0x70
        ]
    );
    assert_eq!(p.second.token_id.len(), 32);
    assert_eq!(p.first_request.price, "0.520000");
    assert_eq!(p.second_request.price, "0.450000");
    assert_eq!(p.first_request.size, "10.000000");
    assert_eq!(p.first_request.side, "BUY");
    assert_eq!(p.first_request.order_type, "LIMIT");
    assert_eq!(p.second_request.token_id, "bd");
}

#[test]
fn closed_market_blocks_trade() {
    let r = plan_trade(&opportunity(520_000, 450_000), Fixed::from_units(10), true, false, 0, None);
    assert_eq!(r.unwrap_err(), TradeSkip::MarketClosed);
}

#[test]
fn small_limit_gives_zero_size() {
    let r = plan_trade(&opportunity(520_000, 450_000), px(500_000), true, true, 0, None);
    assert_eq!(r.unwrap_err(), TradeSkip::ZeroSize);
}

#[test]
fn oversized_position_is_refused() {
    let r = plan_trade(&opportunity(1, 0), Fixed::from_micros(u128::MAX), true, true, 0, None);
    assert_eq!(r.unwrap_err(), TradeSkip::TooLarge);
}

#[test]
fn usdc_balance_ignores_ascii_case() {
    let bs = vec![
        Balance { asset: "MATIC".to_string(), balance: px(5) },
        Balance { asset: "usdc".to_string(), balance: px(12_340_000) },
        Balance { asset: "USDC".to_string(), balance: px(1) },
    ];
    assert_eq!(usdc_balance(&bs), px(12_340_000));
    assert_eq!(usdc_balance(&vec![]), Fixed::zero());
}

#[test]
fn discovery_candidates_and_slugs() {
    assert_eq!(candidate_periods(1_700_000_500), vec![1_700_000_100, 1_699_999_200, 1_699_998_300, 1_699_997_400]);
    assert_eq!(candidate_periods(1000), vec![900, 0]);
    assert_eq!(market_slug("eth", 1_699_999_200), "eth-updown-15m-1699999200");
}

#[test]
fn discovery_skips_taken_and_inactive_markets() {
    let m = Market {
        condition_id: "c1".to_string(),
        slug: "s".to_string(),
        question: String::new(),
        active: true,
        closed: false,
        accepting_orders: true,
        tokens: None,
    };
    assert!(accepts_market(&m, &vec![]));
    assert!(!accepts_market(&m, &vec!["c1".to_string()]));
    let mut closed = m.clone();
    closed.closed = true;
    assert!(!accepts_market(&closed, &vec![]));
}

#[test]
fn default_config_values() {
    let c = Config::default();
    assert_eq!(c.trading.min_profit_threshold, px(10_000));
    assert_eq!(c.trading.max_position_size, Fixed::from_units(100));
    assert_eq!(c.trading.check_interval_ms, 1000);
    assert_eq!(c.wallet.chain_id, 137);
    assert_eq!(c.polymarket.clob_api_url, "https://clob.polymarket.com");
}

#[test]
fn nonces_never_repeat_within_a_second() {
    let o = opportunity(520_000, 450_000);
    let a = plan_trade(&o, Fixed::from_units(10), true, true, 1_000, None).unwrap();
    let b = plan_trade(&o, Fixed::from_units(10), true, true, 1_000, Some(a.last_nonce)).unwrap();
    assert_eq!((a.first.nonce, a.second.nonce), (1_000, 1_001));
    assert_eq!((b.first.nonce, b.second.nonce), (1_002, 1_003));
    let c = plan_trade(&o, Fixed::from_units(10), true, true, 5_000, Some(b.last_nonce)).unwrap();
    assert_eq!((c.first.nonce, c.second.nonce), (5_000, 5_001));
    let d = plan_trade(&o, Fixed::from_units(10), true, true, 0, Some(u64::MAX - 1));
    assert_eq!(d.unwrap_err(), TradeSkip::TooLarge);
}

#[test]
fn order_text_has_six_fraction_digits() {
    let p = plan_trade(&opportunity(5, 450_000), Fixed::from_units(1_234), true, true, 0, None).unwrap();
    assert_eq!(p.first_request.price, "0.000005");
    assert_eq!(p.first_request.size, "2742.000000");
}
