use cartographer_agent::mac::normalize_mac;
use cartographer_agent::text::{i64_to_decimal, u64_to_decimal};

#[test]
fn decimal_of_unsigned_numbers() {
    assert_eq!(u64_to_decimal(0), "0");
    assert_eq!(u64_to_decimal(7), "7");
    assert_eq!(u64_to_decimal(42), "42");
    assert_eq!(u64_to_decimal(1000), "1000");
    assert_eq!(u64_to_decimal(u64::MAX), "18446744073709551615");
}

#[test]
fn decimal_of_signed_numbers() {
    assert_eq!(i64_to_decimal(0), "0");
    assert_eq!(i64_to_decimal(-5), "-5");
    assert_eq!(i64_to_decimal(123), "123");
    assert_eq!(i64_to_decimal(i64::MIN), "-9223372036854775808");
    assert_eq!(i64_to_decimal(i64::MAX), "9223372036854775807");
}

#[test]
fn normalize_mac_dash_uppercase() {
    assert_eq!(normalize_mac("AA-BB-CC-DD-EE-FF"), "aa:bb:cc:dd:ee:ff");
}

#[test]
fn normalize_mac_already_normal() {
    assert_eq!(normalize_mac("aa:bb:cc:dd:ee:ff"), "aa:bb:cc:dd:ee:ff");
}

#[test]
fn normalize_mac_dotted_cisco_form() {
    assert_eq!(normalize_mac("AaBb.CcDd.EeFf"), "aa:bb:cc:dd:ee:ff");
}

#[test]
fn normalize_mac_without_separators() {
    assert_eq!(normalize_mac("0123456789AB"), "01:23:45:67:89:ab");
}

#[test]
fn normalize_mac_drops_non_hex_characters() {
    assert_eq!(normalize_mac("zz:11:gg:2é3"), "11:23");
    assert_eq!(normalize_mac("xyz"), "");
}

#[test]
fn normalize_mac_empty_and_odd_lengths() {
    assert_eq!(normalize_mac(""), "");
    assert_eq!(normalize_mac("a"), "a");
    assert_eq!(normalize_mac("abc"), "ab:c");
    assert_eq!(normalize_mac("A:B:C:D:E"), "ab:cd:e");
}

#[test]
fn normalize_mac_is_idempotent() {
    for mac in ["AA-BB-CC-DD-EE-FF", "abc", "", "00:1a:2B:3c:4D:5e", "q1w2e3r4"] {
        let once = normalize_mac(mac);
        let twice = normalize_mac(&once);
        assert_eq!(once, twice);
    }
}
