use evolve_desktop::text::{decimal_string, truth_string};

#[test]
fn decimal_string_writes_numbers() {
    assert_eq!(decimal_string(0), "0");
    assert_eq!(decimal_string(7), "7");
    assert_eq!(decimal_string(10), "10");
    assert_eq!(decimal_string(1_048_575), "1048575");
    assert_eq!(decimal_string(9_000_000_100), "9000000100");
    assert_eq!(decimal_string(u64::MAX), "18446744073709551615");
}

#[test]
fn decimal_string_agrees_with_std() {
    let mut n: u64 = 1;
    for _ in 0..64 {
        assert_eq!(decimal_string(n), n.to_string());
        assert_eq!(decimal_string(n - 1), (n - 1).to_string());
        n = n.wrapping_mul(2);
    }
}

#[test]
fn truth_string_writes_both_values() {
    assert_eq!(truth_string(true), "true");
    assert_eq!(truth_string(false), "false");
}
