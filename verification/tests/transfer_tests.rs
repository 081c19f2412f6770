use gor_keyless_backend::transfer::{decimal_string, transfer_message_text};

#[test]
fn numbers_are_written_in_decimal() {
    assert_eq!(decimal_string(0), "0");
    assert_eq!(decimal_string(7), "7");
    assert_eq!(decimal_string(10), "10");
    assert_eq!(decimal_string(1_000_000_000), "1000000000");
    assert_eq!(decimal_string(9_007_199_254_740_993), "9007199254740993");
    assert_eq!(decimal_string(u64::MAX), "18446744073709551615");
}

#[test]
fn the_transfer_message_names_sender_recipient_amount_and_time() {
    assert_eq!(
        transfer_message_text("From1", "To2", 42, 1_650_000_000_000_000_000),
        "{\"from\":\"From1\",\"to\":\"To2\",\"amount\":42,\"timestamp\":1650000000000000000}"
    );
}

#[test]
fn the_transfer_message_takes_the_recipient_as_it_is() {
    assert_eq!(
        transfer_message_text("", "a\"b\u{e9}", 0, 0),
        "{\"from\":\"\",\"to\":\"a\"b\u{e9}\",\"amount\":0,\"timestamp\":0}"
    );
}
