use updown_arb::cache::{now_ms, PriceCache};
use updown_arb::fixed::Fixed;

fn lv(p: u128, s: u128) -> (Fixed, Fixed) {
    (Fixed::from_micros(p), Fixed::from_micros(s))
}

#[test]
fn update_then_get_returns_the_books() {
    let mut c = PriceCache::new();
    assert!(c.get("a").is_none());
    c.update("a", vec![lv(480_000, 5)], vec![lv(520_000, 7), lv(530_000, 1)], 100);
    let b = c.get("a").unwrap();
    assert_eq!(b.bids, vec![lv(480_000, 5)]);
    assert_eq!(b.asks, vec![lv(520_000, 7), lv(530_000, 1)]);
    assert_eq!(b.last_update_ms, 100);
    assert!(c.get("b").is_none());
}

#[test]
fn update_replaces_whole_book() {
    let mut c = PriceCache::new();
    c.update("a", vec![lv(1, 1)], vec![lv(2, 2)], 100);
    c.update("b", vec![lv(3, 3)], vec![], 150);
    c.update("a", vec![], vec![lv(4, 4)], 200);
    let a = c.get("a").unwrap();
    assert!(a.bids.is_empty());
    assert_eq!(a.asks, vec![lv(4, 4)]);
    assert_eq!(a.last_update_ms, 200);
    let b = c.get("b").unwrap();
    assert_eq!(b.bids, vec![lv(3, 3)]);
    assert_eq!(b.last_update_ms, 150);
}

#[test]
fn stamp_never_moves_backwards() {
    let mut c = PriceCache::new();
    c.update("a", vec![], vec![], 500);
    c.update("a", vec![lv(1, 1)], vec![], 300);
    let a = c.get("a").unwrap();
    assert_eq!(a.last_update_ms, 500);
    assert_eq!(a.bids, vec![lv(1, 1)]);
}

#[test]
fn clock_reads_after_the_epoch() {
    assert!(now_ms() > 1_600_000_000_000);
}

#[test]
fn decimal_text_is_read_exactly() {
    assert_eq!(Fixed::parse_decimal_text("0.52"), Some(Fixed::from_micros(520_000)));
    assert_eq!(Fixed::parse_decimal_text("10"), Some(Fixed::from_micros(10_000_000)));
    assert_eq!(Fixed::parse_decimal_text("1.2345678"), None);
    assert_eq!(Fixed::parse_decimal_text("0.5200000"), Some(Fixed::from_micros(520_000)));
    assert_eq!(Fixed::parse_decimal_text("-1"), None);
    assert_eq!(Fixed::parse_decimal_text("abc"), None);
}

#[test]
fn decimal_parts_are_scaled_to_millionths() {
    assert_eq!(Fixed::from_decimal_parts(52, 2), Some(Fixed::from_micros(520_000)));
    assert_eq!(Fixed::from_decimal_parts(123_456_789, 8), None);
    assert_eq!(Fixed::from_decimal_parts(123_456_700, 8), Some(Fixed::from_micros(1_234_567)));
    assert_eq!(Fixed::from_decimal_parts(5, 60), None);
    assert_eq!(Fixed::from_decimal_parts(0, 60), Some(Fixed::from_micros(0)));
    assert_eq!(Fixed::from_decimal_parts(-5, 0), None);
    assert_eq!(Fixed::from_decimal_parts(i128::MAX, 0), None);
}
