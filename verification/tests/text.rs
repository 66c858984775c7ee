use freelance_market::text::{constant_time_eq, contains, decimal};

#[test]
fn decimal_writes_numerals_without_leading_zeros() {
    assert_eq!(decimal(0), "0");
    assert_eq!(decimal(7), "7");
    assert_eq!(decimal(10), "10");
    assert_eq!(decimal(1234567890), "1234567890");
    assert_eq!(decimal(u64::MAX), "18446744073709551615");
}

#[test]
fn contains_finds_a_needle_anywhere() {
    assert!(contains("write failed: E11000 duplicate key error collection: x", "E11000 duplicate key error collection"));
    assert!(contains("abc", ""));
    assert!(contains("", ""));
    assert!(!contains("", "a"));
    assert!(!contains("E11000 duplicate key", "E11000 duplicate key error collection"));
    assert!(contains("héllo wörld", "wör"));
}

#[test]
fn constant_time_eq_is_plain_equality() {
    assert!(constant_time_eq("p", "p"));
    assert!(constant_time_eq("", ""));
    assert!(!constant_time_eq("p", "q"));
    assert!(!constant_time_eq("p", "pp"));
    assert!(!constant_time_eq("pa", "pb"));
}
