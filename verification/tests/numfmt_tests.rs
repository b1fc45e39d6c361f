use glabu::numfmt::u64_to_dec;

#[test]
fn renders_single_digits() {
    assert_eq!(u64_to_dec(0), "0");
    assert_eq!(u64_to_dec(7), "7");
}

#[test]
fn renders_multi_digit_numbers() {
    assert_eq!(u64_to_dec(10), "10");
    assert_eq!(u64_to_dec(100), "100");
    assert_eq!(u64_to_dec(12345), "12345");
    assert_eq!(u64_to_dec(68749765), "68749765");
}

#[test]
fn renders_the_largest_value() {
    assert_eq!(u64_to_dec(u64::MAX), "18446744073709551615");
}
