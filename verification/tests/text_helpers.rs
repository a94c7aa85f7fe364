use taobao_order::text::{decimal_string, join_strings, lines_of, str_contains, str_starts_with, trim_str};

#[test]
fn decimal_of_edge_values() {
    assert_eq!(decimal_string(0), "0");
    assert_eq!(decimal_string(9), "9");
    assert_eq!(decimal_string(10), "10");
    assert_eq!(decimal_string(1700000000123), "1700000000123");
    assert_eq!(decimal_string(u128::MAX), u128::MAX.to_string());
}

#[test]
fn contains_and_starts_with() {
    assert!(str_contains("SUCCESS::调用成功", "SUCCESS"));
    assert!(!str_contains("FAIL_SYS", "SUCCESS"));
    assert!(str_contains("abc", ""));
    assert!(!str_contains("", "a"));
    assert!(str_starts_with("item_123", "item_"));
    assert!(!str_starts_with("itemInfo_1", "item_"));
    assert!(!str_starts_with("it", "item_"));
}

#[test]
fn join_with_separator() {
    let parts = vec!["a".to_string(), "b".to_string(), "c".to_string()];
    assert_eq!(join_strings(&parts, ","), "a,b,c");
    assert_eq!(join_strings(&vec!["x".to_string()], "; "), "x");
    assert_eq!(join_strings(&vec![], ","), "");
}

#[test]
fn trim_as_str_trim() {
    for t in ["  y \n", "\t\r\nabc d \u{a0}", "", "   ", "x", "\u{3000}全角\u{3000}"] {
        assert_eq!(trim_str(t), t.trim());
    }
}

#[test]
fn lines_as_str_lines() {
    for t in ["", "a", "a\n", "a\r\nb", "a\rb\n\nc\r", "\n", "\r\n\r\n", "x\ny\r\n"] {
        let expected: Vec<String> = t.lines().map(|l| l.to_string()).collect();
        assert_eq!(lines_of(t), expected);
    }
}
