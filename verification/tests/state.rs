//! The snapshot type and the configuration.

use updown_book::state::OrderbookState;
use updown_book::OrderbookConfig;

#[test]
fn new_state_is_empty() {
    let s = OrderbookState::new();
    assert_eq!(s.up_bid_price, "");
    assert_eq!(s.up_bid_size, "");
    assert_eq!(s.up_ask_price, "");
    assert_eq!(s.up_ask_size, "");
    assert_eq!(s.down_bid_price, "");
    assert_eq!(s.down_bid_size, "");
    assert_eq!(s.down_ask_price, "");
    assert_eq!(s.down_ask_size, "");
    assert_eq!(s.last_update_ms, 0);
}

#[test]
fn default_equals_new() {
    let d = OrderbookState::default();
    assert_eq!(d.up_bid_price, "");
    assert_eq!(d.last_update_ms, 0);
}

#[test]
fn snapshot_copies_every_field() {
    let mut s = OrderbookState::new();
    s.up_bid_price = String::from("0.4");
    s.down_ask_size = String::from("9");
    s.last_update_ms = 17;
    let c = s.snapshot();
    assert_eq!(c.up_bid_price, "0.4");
    assert_eq!(c.down_ask_size, "9");
    assert_eq!(c.last_update_ms, 17);
    assert_eq!(c.up_ask_price, "");
}

#[test]
fn config_keeps_both_tokens() {
    let c = OrderbookConfig::new(String::from("U"), String::from("D"));
    assert_eq!(c.token_up, "U");
    assert_eq!(c.token_down, "D");
}
