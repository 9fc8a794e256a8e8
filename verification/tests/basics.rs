use egelm::emoji::emoji;
use egelm::error::Error;
use egelm::text::format_decimal;

#[test]
fn emoji_are_looked_up_by_shortcode() {
    assert_eq!(emoji("rocket").to_string(), "🚀");
    assert_eq!(emoji("something_that_does_not_exist").to_string(), "⛔");
    assert_eq!(emoji("x").as_str(), "❌");
}

#[test]
fn decimals_are_written_without_leading_zeros() {
    assert_eq!(format_decimal(0), "0");
    assert_eq!(format_decimal(7), "7");
    assert_eq!(format_decimal(1234567890), "1234567890");
    assert_eq!(format_decimal(u64::MAX), "18446744073709551615");
}

#[test]
fn error_messages() {
    assert_eq!(Error::SendingOverChannel.to_string(), "could not send message over channel: channel disconnected");
    let utf8 = String::from_utf8(vec![0xff]).unwrap_err();
    let text = Error::ExpectedUtf8(utf8).to_string();
    assert!(text.starts_with("invalid utf8: "));
    assert!(text.len() > "invalid utf8: ".len());
}
