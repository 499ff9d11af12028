//! Frame interpretation and state mutation, end to end through the JSON
//! decoding.

use updown_book::book::process_frame_at;
use updown_book::book::process_message;
use updown_book::book::UpdateOutcome;
use updown_book::state::OrderbookState;
use updown_book::OrderbookConfig;

fn cfg() -> OrderbookConfig {
    OrderbookConfig::new(String::from("UP_ID"), String::from("DOWN_ID"))
}

#[test]
fn bid_update_sets_direct_and_derived_fields() {
    let cfg = cfg();
    let mut st = OrderbookState::new();
    let o = process_frame_at(
        r#"{"asset_id":"UP_ID","bids":[{"price":"0.40","size":"100"}]}"#,
        &cfg,
        &mut st,
        5,
    );
    assert_eq!(o, UpdateOutcome::Applied);
    assert_eq!(st.up_bid_price, "0.40");
    assert_eq!(st.up_bid_size, "100");
    assert_eq!(st.down_ask_price, "0.60");
    assert_eq!(st.down_ask_size, "100");
    assert_eq!(st.up_ask_price, "");
    assert_eq!(st.up_ask_size, "");
    assert_eq!(st.down_bid_price, "");
    assert_eq!(st.down_bid_size, "");
    assert_eq!(st.last_update_ms, 5);
}

#[test]
fn unrelated_asset_changes_nothing() {
    let cfg = cfg();
    let mut st = OrderbookState::new();
    process_frame_at(
        r#"{"asset_id":"UP_ID","bids":[{"price":"0.40","size":"100"}]}"#,
        &cfg,
        &mut st,
        5,
    );
    let before = st.snapshot();
    let o = process_frame_at(
        r#"{"asset_id":"SOMEONE_ELSE","bids":[{"price":"0.99","size":"1"}]}"#,
        &cfg,
        &mut st,
        9,
    );
    assert_eq!(o, UpdateOutcome::Ignored);
    assert_eq!(st.up_bid_price, before.up_bid_price);
    assert_eq!(st.up_bid_size, before.up_bid_size);
    assert_eq!(st.up_ask_price, before.up_ask_price);
    assert_eq!(st.up_ask_size, before.up_ask_size);
    assert_eq!(st.down_bid_price, before.down_bid_price);
    assert_eq!(st.down_bid_size, before.down_bid_size);
    assert_eq!(st.down_ask_price, before.down_ask_price);
    assert_eq!(st.down_ask_size, before.down_ask_size);
    assert_eq!(st.last_update_ms, before.last_update_ms);
}

#[test]
fn empty_sides_are_no_change() {
    let cfg = cfg();
    let mut st = OrderbookState::new();
    let o = process_frame_at(r#"{"asset_id":"UP_ID","bids":[],"asks":[]}"#, &cfg, &mut st, 5);
    assert_eq!(o, UpdateOutcome::NoChange);
    assert_eq!(st.up_bid_price, "");
    assert_eq!(st.last_update_ms, 0);
}

#[test]
fn replay_is_idempotent_on_quotes() {
    let cfg = cfg();
    let frame = r#"{"asset_id":"DOWN_ID","bids":[{"price":"0.30","size":"12"}],"asks":[{"price":"0.35","size":"4"}]}"#;
    let mut once = OrderbookState::new();
    process_frame_at(frame, &cfg, &mut once, 1);
    let mut twice = OrderbookState::new();
    process_frame_at(frame, &cfg, &mut twice, 1);
    let o = process_frame_at(frame, &cfg, &mut twice, 2);
    assert_eq!(o, UpdateOutcome::Applied);
    assert_eq!(twice.up_bid_price, once.up_bid_price);
    assert_eq!(twice.up_bid_size, once.up_bid_size);
    assert_eq!(twice.up_ask_price, once.up_ask_price);
    assert_eq!(twice.up_ask_size, once.up_ask_size);
    assert_eq!(twice.down_bid_price, once.down_bid_price);
    assert_eq!(twice.down_bid_size, once.down_bid_size);
    assert_eq!(twice.down_ask_price, once.down_ask_price);
    assert_eq!(twice.down_ask_size, once.down_ask_size);
}

#[test]
fn down_ask_derives_up_bid() {
    let cfg = cfg();
    let mut st = OrderbookState::new();
    let o = process_frame_at(
        r#"{"token_id":"DOWN_ID","asks":[{"price":"0.25","size":"7"}]}"#,
        &cfg,
        &mut st,
        3,
    );
    assert_eq!(o, UpdateOutcome::Applied);
    assert_eq!(st.down_ask_price, "0.25");
    assert_eq!(st.down_ask_size, "7");
    assert_eq!(st.up_bid_price, "0.75");
    assert_eq!(st.up_bid_size, "7");
    assert_eq!(st.down_bid_price, "");
    assert_eq!(st.up_ask_price, "");
}

#[test]
fn first_present_alias_wins_even_when_not_a_string() {
    let cfg = cfg();
    let mut st = OrderbookState::new();
    let o = process_frame_at(
        r#"{"asset_id":5,"assetId":"UP_ID","bids":[{"price":"0.40","size":"1"}]}"#,
        &cfg,
        &mut st,
        5,
    );
    assert_eq!(o, UpdateOutcome::Ignored);
    assert_eq!(st.up_bid_price, "");
}

#[test]
fn camel_case_alias_is_accepted() {
    let cfg = cfg();
    let mut st = OrderbookState::new();
    let o = process_frame_at(
        r#"{"assetId":"UP_ID","bids":[{"price":"0.40","size":"1"}]}"#,
        &cfg,
        &mut st,
        5,
    );
    assert_eq!(o, UpdateOutcome::Applied);
    assert_eq!(st.up_bid_price, "0.40");
}

#[test]
fn non_numeric_price_skips_only_the_derived_fields() {
    let cfg = cfg();
    let mut st = OrderbookState::new();
    let o = process_frame_at(
        r#"{"asset_id":"UP_ID","bids":[{"price":"abc","size":"3"}]}"#,
        &cfg,
        &mut st,
        5,
    );
    assert_eq!(o, UpdateOutcome::Applied);
    assert_eq!(st.up_bid_price, "abc");
    assert_eq!(st.up_bid_size, "3");
    assert_eq!(st.down_ask_price, "");
    assert_eq!(st.down_ask_size, "");
    assert_eq!(st.last_update_ms, 5);
}

#[test]
fn best_level_is_the_last_element() {
    let cfg = cfg();
    let mut st = OrderbookState::new();
    let o = process_frame_at(
        r#"{"asset_id":"UP_ID","bids":[{"price":"0.10","size":"1"},{"price":"0.20","size":"2"}]}"#,
        &cfg,
        &mut st,
        5,
    );
    assert_eq!(o, UpdateOutcome::Applied);
    assert_eq!(st.up_bid_price, "0.20");
    assert_eq!(st.up_bid_size, "2");
    assert_eq!(st.down_ask_price, "0.80");
}

#[test]
fn incomplete_last_level_disqualifies_the_side() {
    let cfg = cfg();
    let mut st = OrderbookState::new();
    let o = process_frame_at(
        r#"{"asset_id":"UP_ID","bids":[{"price":"0.40"}]}"#,
        &cfg,
        &mut st,
        5,
    );
    assert_eq!(o, UpdateOutcome::NoChange);
    assert_eq!(st.up_bid_price, "");
}

#[test]
fn bid_only_update_keeps_the_other_sides() {
    let cfg = cfg();
    let mut st = OrderbookState::new();
    process_frame_at(
        r#"{"asset_id":"UP_ID","asks":[{"price":"0.45","size":"9"}]}"#,
        &cfg,
        &mut st,
        1,
    );
    let o = process_frame_at(
        r#"{"asset_id":"UP_ID","bids":[{"price":"0.40","size":"100"}]}"#,
        &cfg,
        &mut st,
        2,
    );
    assert_eq!(o, UpdateOutcome::Applied);
    assert_eq!(st.up_ask_price, "0.45");
    assert_eq!(st.up_ask_size, "9");
    assert_eq!(st.down_bid_price, "0.55");
    assert_eq!(st.down_bid_size, "9");
    assert_eq!(st.up_bid_price, "0.40");
    assert_eq!(st.down_ask_price, "0.60");
    assert_eq!(st.last_update_ms, 2);
}

#[test]
fn wall_clock_processing_stamps_the_mutation() {
    let cfg = cfg();
    let mut st = OrderbookState::new();
    let o = process_message(
        r#"{"asset_id":"UP_ID","bids":[{"price":"0.40","size":"100"}]}"#,
        &cfg,
        &mut st,
    );
    assert_eq!(o, UpdateOutcome::Applied);
    assert_eq!(st.up_bid_price, "0.40");
    assert_eq!(st.down_ask_price, "0.60");
    assert!(st.last_update_ms > 0);
}

#[test]
fn not_json_is_ignored() {
    let cfg = cfg();
    let mut st = OrderbookState::new();
    let o = process_frame_at("not json at all", &cfg, &mut st, 5);
    assert_eq!(o, UpdateOutcome::Ignored);
    assert_eq!(st.last_update_ms, 0);
}

#[test]
fn missing_identifier_is_ignored() {
    let cfg = cfg();
    let mut st = OrderbookState::new();
    let o = process_frame_at(r#"{"bids":[{"price":"0.40","size":"1"}]}"#, &cfg, &mut st, 5);
    assert_eq!(o, UpdateOutcome::Ignored);
}
