use updown_arb::cache::PriceCache;
use updown_arb::domain::{Market, MarketDetails, Token};
use updown_arb::fixed::Fixed;
use updown_arb::monitor::{outcome_role, period_of, resolve_tokens, MarketMonitor, Role};

fn market(id: &str, slug: &str) -> Market {
    Market {
        condition_id: id.to_string(),
        slug: slug.to_string(),
        question: format!("{} question", id),
        active: true,
        closed: false,
        accepting_orders: true,
        tokens: None,
    }
}

fn tok(id: &str, outcome: &str) -> Token {
    Token { token_id: id.to_string(), outcome: outcome.to_string() }
}

fn details(id: &str, tokens: Vec<Token>) -> MarketDetails {
    MarketDetails { condition_id: id.to_string(), accepting_orders: true, tokens }
}

#[test]
fn period_is_stable_within_a_window() {
    assert_eq!(period_of(1_700_000_500), 1_700_000_100);
    assert_eq!(period_of(900 * 5), 900 * 5);
    assert_eq!(period_of(900 * 6 - 1), 900 * 5);
    assert_eq!(period_of(900 * 6), 900 * 6);
    assert_eq!(period_of(0), 0);
}

#[test]
fn rotation_marks_tokens_stale() {
    let mut m = MarketMonitor::new(market("e", "eth-updown-15m-900"), market("b", "btc-updown-15m-900"), 1000, 1000);
    assert_eq!(m.current_period_timestamp, 900);
    assert!(m.refresh_due(1000));
    m.refresh_market_tokens(Some(&details("e", vec![])), Some(&details("b", vec![])), 1000);
    assert!(!m.refresh_due(1500));
    assert!(!m.on_tick(1799));
    assert_eq!(m.last_market_refresh, Some(1000));
    assert!(m.on_tick(1800));
    assert_eq!(m.current_period_timestamp, 1800);
    assert_eq!(m.last_market_refresh, None);
    assert!(m.refresh_due(1800));
}

#[test]
fn refresh_due_after_a_full_period() {
    let mut m = MarketMonitor::new(market("e", "x"), market("b", "y"), 1000, 0);
    m.refresh_market_tokens(Some(&details("e", vec![])), Some(&details("b", vec![])), 100);
    assert!(!m.refresh_due(999));
    assert!(m.refresh_due(1000));
    assert!(!m.refresh_due(50));
}

#[test]
fn outcome_labels_are_classified_without_case() {
    assert_eq!(outcome_role("Up"), Role::Up);
    assert_eq!(outcome_role("up"), Role::Up);
    assert_eq!(outcome_role("1"), Role::Up);
    assert_eq!(outcome_role("Down"), Role::Down);
    assert_eq!(outcome_role("0"), Role::Down);
    assert_eq!(outcome_role("Yes"), Role::Neither);
    assert_eq!(outcome_role("10"), Role::Neither);
}

#[test]
fn resolution_is_idempotent() {
    let tokens = vec![tok("t1", "Up"), tok("t2", "Down"), tok("t3", "Other")];
    let mut up = None;
    let mut down = None;
    resolve_tokens(&tokens, &mut up, &mut down);
    assert_eq!(up.as_deref(), Some("t1"));
    assert_eq!(down.as_deref(), Some("t2"));
    resolve_tokens(&tokens, &mut up, &mut down);
    assert_eq!(up.as_deref(), Some("t1"));
    assert_eq!(down.as_deref(), Some("t2"));
}

#[test]
fn refresh_resolves_each_market_that_was_fetched() {
    let mut m = MarketMonitor::new(market("e", "x"), market("b", "y"), 1000, 0);
    let e = details("e", vec![tok("eu", "UP"), tok("ed", "DOWN")]);
    m.refresh_market_tokens(Some(&e), None, 5);
    assert_eq!(m.eth_up_token_id.as_deref(), Some("eu"));
    assert_eq!(m.eth_down_token_id.as_deref(), Some("ed"));
    assert_eq!(m.btc_up_token_id, None);
    assert_eq!(m.last_market_refresh, None);
    assert!(m.refresh_due(6));
    let b = details("b", vec![tok("bu", "Up"), tok("bd", "Down")]);
    m.refresh_market_tokens(Some(&e), Some(&b), 6);
    assert_eq!(m.btc_down_token_id.as_deref(), Some("bd"));
    assert_eq!(m.last_market_refresh, Some(6));
}

#[test]
fn refresh_when_not_due_changes_nothing() {
    let mut m = MarketMonitor::new(market("e", "x"), market("b", "y"), 1000, 0);
    let e = details("e", vec![tok("eu", "Up")]);
    let b = details("b", vec![tok("bu", "Up")]);
    m.refresh_market_tokens(Some(&e), Some(&b), 100);
    let e2 = details("e", vec![tok("other", "Up")]);
    m.refresh_market_tokens(Some(&e2), Some(&b), 500);
    assert_eq!(m.eth_up_token_id.as_deref(), Some("eu"));
    assert_eq!(m.last_market_refresh, Some(100));
    m.refresh_market_tokens(Some(&e2), Some(&b), 1000);
    assert_eq!(m.eth_up_token_id.as_deref(), Some("other"));
    assert_eq!(m.last_market_refresh, Some(1000));
}

#[test]
fn end_time_from_slug_adds_one_period() {
    assert_eq!(MarketMonitor::end_time_from_slug("eth-updown-15m-1700000100"), 1_700_001_000);
    assert_eq!(MarketMonitor::end_time_from_slug("42"), 942);
    assert_eq!(MarketMonitor::end_time_from_slug("eth-updown-15m-"), 0);
    assert_eq!(MarketMonitor::end_time_from_slug("eth-updown-15m-abc"), 0);
    assert_eq!(MarketMonitor::end_time_from_slug("x-18446744073709551615"), 0);
}

#[test]
fn snapshot_reads_the_cache() {
    let mut m = MarketMonitor::new(market("e", "eth-updown-15m-900"), market("b", "btc-updown-15m-900"), 1000, 1000);
    let e = details("e", vec![tok("eu", "Up"), tok("ed", "Down")]);
    let b = details("b", vec![tok("bu", "Up"), tok("bd", "Down")]);
    m.refresh_market_tokens(Some(&e), Some(&b), 1000);
    let mut c = PriceCache::new();
    let p = |x: u128| Fixed::from_micros(x);
    c.update("eu", vec![(p(500_000), p(1))], vec![(p(520_000), p(2))], 1);
    c.update("bd", vec![], vec![(p(450_000), p(3))], 2);
    let s = m.fetch_market_data(&c, 77);
    assert_eq!(s.timestamp, 77);
    assert_eq!(s.eth_market.market_name, "ETH");
    assert_eq!(s.btc_market.market_name, "BTC");
    assert_eq!(s.eth_market.condition_id, "e");
    let eu = s.eth_market.up_token.as_ref().unwrap();
    assert_eq!(eu.token_id, "eu");
    assert_eq!(eu.bid, Some(p(500_000)));
    assert_eq!(eu.ask, Some(p(520_000)));
    assert!(s.eth_market.down_token.is_none());
    let bd = s.btc_market.down_token.as_ref().unwrap();
    assert_eq!(bd.bid, None);
    assert_eq!(bd.ask, Some(p(450_000)));
    assert_eq!(s.eth_market_meta.end_time_unix, 1800);
    assert_eq!(s.eth_market_meta.name, "e question");
    assert_eq!(s.btc_market_meta.slug, "btc-updown-15m-900");
}
