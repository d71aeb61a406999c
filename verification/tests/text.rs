use dnsleaktest::text::{join, to_decimal};

#[test]
fn decimal_of_single_digits() {
    assert_eq!(to_decimal(0), "0");
    assert_eq!(to_decimal(7), "7");
    assert_eq!(to_decimal(9), "9");
}

#[test]
fn decimal_of_several_digits() {
    assert_eq!(to_decimal(10), "10");
    assert_eq!(to_decimal(64), "64");
    assert_eq!(to_decimal(255), "255");
    assert_eq!(to_decimal(33434), "33434");
    assert_eq!(to_decimal(1000000), "1000000");
}

#[test]
fn decimal_of_the_largest_value() {
    assert_eq!(to_decimal(u64::MAX), "18446744073709551615");
}

#[test]
fn decimal_agrees_with_display() {
    let mut n: u64 = 0;
    while n < 5000 {
        assert_eq!(to_decimal(n), format!("{}", n));
        n += 1;
    }
}

#[test]
fn join_of_nothing_is_empty() {
    assert_eq!(join(&Vec::new(), ", "), "");
}

#[test]
fn join_of_one_part_has_no_separator() {
    assert_eq!(join(&vec!["a".to_string()], ", "), "a");
}

#[test]
fn join_puts_the_separator_between_parts() {
    let parts = vec!["a".to_string(), "b".to_string(), "c".to_string()];
    assert_eq!(join(&parts, ", "), "a, b, c");
    assert_eq!(join(&parts, ""), "abc");
}

#[test]
fn join_keeps_empty_parts() {
    let parts = vec!["".to_string(), "x".to_string(), "".to_string()];
    assert_eq!(join(&parts, "-"), "-x-");
}
