use org_cli::text::{chars_from, decimal_i64, decimal_u64, has_prefix};

#[test]
fn decimals() {
    assert_eq!(decimal_u64(0), "0");
    assert_eq!(decimal_u64(1234567890), "1234567890");
    assert_eq!(decimal_u64(u64::MAX), "18446744073709551615");
    assert_eq!(decimal_i64(-32000), "-32000");
    assert_eq!(decimal_i64(i64::MIN), "-9223372036854775808");
    assert_eq!(decimal_i64(i64::MAX), "9223372036854775807");
}

#[test]
fn prefixes_and_suffixes() {
    assert!(has_prefix("org://x", "org://"));
    assert!(!has_prefix("org:", "org://"));
    assert!(has_prefix("abc", ""));
    assert_eq!(chars_from("héllo", 1), "éllo");
    assert_eq!(chars_from("abc", 3), "");
}
