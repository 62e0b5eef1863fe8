use blaze_app::text::{append_str, ascii_lower_char, replace_spaces, str_equal, u64_to_decimal};

#[test]
fn decimal_notation() {
    assert_eq!(u64_to_decimal(0), "0");
    assert_eq!(u64_to_decimal(7), "7");
    assert_eq!(u64_to_decimal(10), "10");
    assert_eq!(u64_to_decimal(1234567890), "1234567890");
    assert_eq!(u64_to_decimal(u64::MAX), u64::MAX.to_string());
}

#[test]
fn appending_and_replacing() {
    let mut s = String::from("ab");
    append_str(&mut s, "cd");
    assert_eq!(s, "abcd");
    assert_eq!(replace_spaces("a b  c"), "a_b__c");
    assert_eq!(replace_spaces(""), "");
}

#[test]
fn equality_and_lowering() {
    assert!(str_equal("á", "á"));
    assert!(!str_equal("a", "A"));
    assert_eq!(ascii_lower_char('Q'), 'q');
    assert_eq!(ascii_lower_char('q'), 'q');
    assert_eq!(ascii_lower_char('É'), 'É');
    assert_eq!(ascii_lower_char('1'), '1');
}
