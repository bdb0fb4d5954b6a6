use benchmark_bot::decimal::decimal_string;

#[test]
fn single_digits() {
    assert_eq!(decimal_string(0), "0");
    assert_eq!(decimal_string(7), "7");
    assert_eq!(decimal_string(9), "9");
}

#[test]
fn several_digits() {
    assert_eq!(decimal_string(10), "10");
    assert_eq!(decimal_string(42), "42");
    assert_eq!(decimal_string(9_999), "9999");
    assert_eq!(decimal_string(10_000), "10000");
    assert_eq!(decimal_string(1_020_304), "1020304");
}

#[test]
fn the_largest_number() {
    assert_eq!(decimal_string(u64::MAX), "18446744073709551615");
}

#[test]
fn decimal_notation_is_that_of_the_standard_library() {
    let mut n: u64 = 0;
    while n < 20_000 {
        assert_eq!(decimal_string(n), format!("{}", n));
        n += 1;
    }
    let mut m: u64 = 1;
    for _ in 0..19 {
        m *= 10;
        assert_eq!(decimal_string(m - 1), format!("{}", m - 1));
        assert_eq!(decimal_string(m), format!("{}", m));
        assert_eq!(decimal_string(m + 1), format!("{}", m + 1));
    }
}
