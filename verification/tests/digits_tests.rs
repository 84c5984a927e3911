use igotchu::digits::u64_to_string;

#[test]
fn zero_is_a_single_digit() {
    assert_eq!(u64_to_string(0), "0");
}

#[test]
fn single_and_multi_digit_values() {
    assert_eq!(u64_to_string(7), "7");
    assert_eq!(u64_to_string(10), "10");
    assert_eq!(u64_to_string(2048), "2048");
    assert_eq!(u64_to_string(1234567890), "1234567890");
}

#[test]
fn largest_value() {
    assert_eq!(u64_to_string(u64::MAX), "18446744073709551615");
}
