use rusty_bot::text::{append_padded, same_text, strip_slashes, u128_to_text};

#[test]
fn same_text_compares_characters() {
    assert!(same_text("", ""));
    assert!(same_text("BTCZAR", "BTCZAR"));
    assert!(!same_text("BTCZAR", "BTCZAr"));
    assert!(!same_text("BTC", "BTCZAR"));
    assert!(!same_text("BTCZAR", "BTC"));
    assert!(same_text("\u{e9}t\u{e9}", "\u{e9}t\u{e9}"));
    assert!(!same_text("\u{e9}", "e"));
}

#[test]
fn u128_to_text_writes_decimal() {
    assert_eq!(u128_to_text(0), "0");
    assert_eq!(u128_to_text(9), "9");
    assert_eq!(u128_to_text(10), "10");
    assert_eq!(u128_to_text(1558014486185), "1558014486185");
    assert_eq!(u128_to_text(1_000_000), "1000000");
    assert_eq!(u128_to_text(u128::MAX), "340282366920938463463374607431768211455");
}

#[test]
fn u128_to_text_agrees_with_std() {
    let mut n: u128 = 1;
    for _ in 0..60 {
        assert_eq!(u128_to_text(n), n.to_string());
        assert_eq!(u128_to_text(n - 1), (n - 1).to_string());
        n = n.wrapping_mul(7).wrapping_add(3);
    }
}

#[test]
fn strip_slashes_keeps_plain_text() {
    assert_eq!(strip_slashes(""), Some(String::new()));
    assert_eq!(strip_slashes("plain text"), Some(String::from("plain text")));
}

#[test]
fn strip_slashes_removes_escaping_backslashes() {
    assert_eq!(strip_slashes("a\\b"), Some(String::from("ab")));
    assert_eq!(strip_slashes("\\\"quoted\\\""), Some(String::from("\"quoted\"")));
    assert_eq!(strip_slashes("a\\\\b"), Some(String::from("a\\b")));
    assert_eq!(strip_slashes("\\\\"), Some(String::from("\\")));
    assert_eq!(strip_slashes("\\\u{e9}\u{4e2d}"), Some(String::from("\u{e9}\u{4e2d}")));
}

#[test]
fn strip_slashes_refuses_a_lone_backslash_at_the_end() {
    assert_eq!(strip_slashes("\\"), None);
    assert_eq!(strip_slashes("abc\\"), None);
    assert_eq!(strip_slashes("a\\\\\\"), None);
}

#[test]
fn append_padded_writes_the_lowest_digits() {
    let mut text = String::from("0.");
    append_padded(&mut text, 5, 3);
    assert_eq!(text, "0.005");
    append_padded(&mut text, 12345, 3);
    assert_eq!(text, "0.005345");
    append_padded(&mut text, 7, 0);
    assert_eq!(text, "0.005345");
    let mut wide = String::new();
    append_padded(&mut wide, u128::MAX, 42);
    assert_eq!(wide, "000340282366920938463463374607431768211455");
}
