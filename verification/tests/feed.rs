//! The outbound subscription request text.

use updown_book::feed::subscribe_message;

#[test]
fn subscribe_request_shape() {
    assert_eq!(
        subscribe_message("TOKEN_1"),
        r#"{"type":"subscribe","channel":"book","assets_ids":["TOKEN_1"]}"#
    );
}

#[test]
fn quotes_and_backslashes_are_escaped() {
    assert_eq!(
        subscribe_message("a\"b\\c"),
        r#"{"type":"subscribe","channel":"book","assets_ids":["a\"b\\c"]}"#
    );
}

#[test]
fn control_characters_are_escaped() {
    assert_eq!(
        subscribe_message("a\nb\u{1f}"),
        "{\"type\":\"subscribe\",\"channel\":\"book\",\"assets_ids\":[\"a\\u000ab\\u001f\"]}"
    );
}

#[test]
fn empty_token() {
    assert_eq!(
        subscribe_message(""),
        r#"{"type":"subscribe","channel":"book","assets_ids":[""]}"#
    );
}
