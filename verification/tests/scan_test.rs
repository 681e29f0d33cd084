use thalex_rust_sdk::scan::{classify, has_prefix, reply_kind, same_text, Frame, ReplyKind};

#[test]
fn reply_with_numeric_id_is_recognised() {
    assert_eq!(classify("{\"id\":42,\"result\":\"ok\"}"), Frame::Reply(42));
    assert_eq!(classify("{\"id\":0}"), Frame::Reply(0));
    assert_eq!(classify("{\"id\":7,\"error\":{\"code\":15}}"), Frame::Reply(7));
}

#[test]
fn reply_with_null_id_is_a_control_reply() {
    assert_eq!(classify("{\"id\":null,\"result\":[\"a\"]}"), Frame::ControlReply);
    assert_eq!(classify("{\"id\":null}"), Frame::ControlReply);
}

#[test]
fn largest_id_fits_and_the_next_does_not() {
    assert_eq!(classify("{\"id\":18446744073709551615,\"result\":1}"), Frame::Reply(u64::MAX));
    assert_eq!(classify("{\"id\":18446744073709551616,\"result\":1}"), Frame::Unhandled);
    assert_eq!(classify("{\"id\":99999999999999999999999999,\"result\":1}"), Frame::Unhandled);
}

#[test]
fn id_must_be_ended_by_comma_or_brace() {
    assert_eq!(classify("{\"id\":42"), Frame::Unhandled);
    assert_eq!(classify("{\"id\":42.5,\"result\":1}"), Frame::Unhandled);
    assert_eq!(classify("{\"id\":42e3}"), Frame::Unhandled);
    assert_eq!(classify("{\"id\":42 ,\"result\":1}"), Frame::Unhandled);
    assert_eq!(classify("{\"id\":nullx}"), Frame::Unhandled);
    assert_eq!(classify("{\"id\":null"), Frame::Unhandled);
}

#[test]
fn id_of_another_kind_is_unhandled() {
    assert_eq!(classify("{\"id\":\"abc\",\"result\":1}"), Frame::Unhandled);
    assert_eq!(classify("{\"id\":-1,\"result\":1}"), Frame::Unhandled);
    assert_eq!(classify("{\"id\":}"), Frame::Unhandled);
    assert_eq!(classify("{\"id\":"), Frame::Unhandled);
}

#[test]
fn notification_yields_its_channel_name() {
    let text = "{\"channel_name\":\"ticker.BTC-PERPETUAL.100ms\",\"notification\":{\"mark_price\":1}}";
    assert_eq!(classify(text), Frame::Notification("ticker.BTC-PERPETUAL.100ms"));
    assert_eq!(classify("{\"channel_name\":\"\"}"), Frame::Notification(""));
}

#[test]
fn channel_name_may_hold_characters_beyond_ascii() {
    let text = "{\"channel_name\":\"t\u{e9}l\u{e9}.\u{20ac}.\u{1f600}\",\"notification\":1}";
    assert_eq!(classify(text), Frame::Notification("t\u{e9}l\u{e9}.\u{20ac}.\u{1f600}"));
}

#[test]
fn channel_name_with_escape_or_without_end_is_unhandled() {
    assert_eq!(classify("{\"channel_name\":\"a\\\"b\",\"notification\":1}"), Frame::Unhandled);
    assert_eq!(classify("{\"channel_name\":\"a\\u0041\"}"), Frame::Unhandled);
    assert_eq!(classify("{\"channel_name\":\"abc"), Frame::Unhandled);
    assert_eq!(classify("{\"channel_name\":\"a\nb\"}"), Frame::Unhandled);
    assert_eq!(classify("{\"channel_name\":\""), Frame::Unhandled);
}

#[test]
fn other_payloads_are_unhandled() {
    assert_eq!(classify(""), Frame::Unhandled);
    assert_eq!(classify("{}"), Frame::Unhandled);
    assert_eq!(classify("{\"jsonrpc\":\"2.0\",\"id\":5,\"result\":1}"), Frame::Unhandled);
    assert_eq!(classify("{ \"id\":5}"), Frame::Unhandled);
    assert_eq!(classify("{\"channel_name\":5}"), Frame::Unhandled);
    assert_eq!(classify("not json"), Frame::Unhandled);
}

#[test]
fn reply_shape_is_looked_for_before_notification_shape() {
    let text = "{\"id\":3,\"channel_name\":\"ticker.X.raw\"}";
    assert_eq!(classify(text), Frame::Reply(3));
}

#[test]
fn prefix_test_compares_byte_by_byte() {
    assert!(has_prefix(b"abcdef", b"abc"));
    assert!(has_prefix(b"abc", b"abc"));
    assert!(has_prefix(b"abc", b""));
    assert!(!has_prefix(b"ab", b"abc"));
    assert!(!has_prefix(b"abd", b"abc"));
    assert!(!has_prefix(b"", b"a"));
}

#[test]
fn same_text_compares_character_by_character() {
    assert!(same_text("", ""));
    assert!(same_text("abc", "abc"));
    assert!(same_text("t\u{e9}l\u{e9}", "t\u{e9}l\u{e9}"));
    assert!(!same_text("abc", "abd"));
    assert!(!same_text("abc", "ab"));
    assert!(!same_text("ab", "abc"));
    assert!(!same_text("", "a"));
}

#[test]
fn reply_with_result_is_a_success() {
    assert_eq!(reply_kind("{\"id\":42,\"result\":\"ok\"}"), ReplyKind::Success);
    assert_eq!(reply_kind("{\"id\":1,\"result\":[\"ticker.A.raw\"]}"), ReplyKind::Success);
    assert_eq!(reply_kind("{\"id\":null,\"result\":null}"), ReplyKind::Success);
    assert_eq!(reply_kind("{\"id\":18446744073709551616,\"result\":1}"), ReplyKind::Success);
}

#[test]
fn reply_with_error_is_a_failure() {
    assert_eq!(
        reply_kind("{\"id\":7,\"error\":{\"code\":15,\"message\":\"tick\"}}"),
        ReplyKind::Failure
    );
    assert_eq!(reply_kind("{\"id\":null,\"error\":{\"code\":8}}"), ReplyKind::Failure);
}

#[test]
fn anything_else_is_neither() {
    for text in [
        "",
        "{}",
        "{\"id\":7}",
        "{\"id\":7,\"other\":1}",
        "{\"id\":,\"error\":{}}",
        "{\"id\":\"7\",\"result\":1}",
        "{\"id\":7 ,\"result\":1}",
        "{\"id\":nul,\"result\":1}",
        "{\"id\":7,\"error\"",
        "{\"error\":\"connection closed\"}",
        "{\"result\":1,\"id\":7}",
        "{\"channel_name\":\"a\",\"notification\":{\"error\":1}}",
    ] {
        assert_eq!(reply_kind(text), ReplyKind::Other);
    }
}
