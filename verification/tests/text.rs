use zellij_utils::order::is_before;
use zellij_utils::text::decimal;

#[test]
fn numbers_are_written_in_decimal() {
    assert_eq!(decimal(0), "0");
    assert_eq!(decimal(9), "9");
    assert_eq!(decimal(10), "10");
    assert_eq!(decimal(4294967295), "4294967295");
    assert_eq!(decimal(u64::MAX), "18446744073709551615");
}

#[test]
fn order_of_texts_is_that_of_strings() {
    let texts = vec!["", "a", "ab", "b", "B", "tab-bar", "tab", "ä", "z", "\u{1f600}", "\u{ffff}"];
    for left in texts.iter() {
        for right in texts.iter() {
            assert_eq!(is_before(left, right), left < right);
        }
    }
}
