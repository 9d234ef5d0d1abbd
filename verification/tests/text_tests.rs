use datalayerapi_tidb::utils::text::{contains, i64_to_decimal, starts_with, u64_to_decimal};

#[test]
fn decimal_of_zero_and_large_values() {
    assert_eq!(u64_to_decimal(0), "0");
    assert_eq!(u64_to_decimal(7), "7");
    assert_eq!(u64_to_decimal(10), "10");
    assert_eq!(u64_to_decimal(12345), "12345");
    assert_eq!(u64_to_decimal(u64::MAX), u64::MAX.to_string());
}

#[test]
fn signed_decimal_values() {
    assert_eq!(i64_to_decimal(0), "0");
    assert_eq!(i64_to_decimal(-42), "-42");
    assert_eq!(i64_to_decimal(i64::MIN), i64::MIN.to_string());
    assert_eq!(i64_to_decimal(i64::MAX), i64::MAX.to_string());
}

#[test]
fn prefix_tests() {
    assert!(starts_with("update t set a = 1", "update"));
    assert!(starts_with("update", "update"));
    assert!(!starts_with("upd", "update"));
    assert!(!starts_with("select 1", "update"));
    assert!(starts_with("anything", ""));
}

#[test]
fn substring_tests() {
    assert!(contains("update t set a = 1 where b = 2", "where"));
    assert!(contains("where", "where"));
    assert!(!contains("update t set a = 1 WHERE b = 2", "where"));
    assert!(!contains("", "where"));
    assert!(contains("", ""));
    assert!(contains("héllo wörld", "wö"));
}
