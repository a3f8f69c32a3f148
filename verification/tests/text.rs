use audio_merger::text::{decimal_string, signed_decimal_string};

#[test]
fn decimal_of_small_numbers() {
    assert_eq!(decimal_string(0), "0");
    assert_eq!(decimal_string(7), "7");
    assert_eq!(decimal_string(9), "9");
    assert_eq!(decimal_string(10), "10");
    assert_eq!(decimal_string(105), "105");
}

#[test]
fn decimal_of_large_numbers() {
    assert_eq!(decimal_string(4294967295), "4294967295");
    assert_eq!(decimal_string(u64::MAX), "18446744073709551615");
    assert_eq!(decimal_string(1000000), "1000000");
}

#[test]
fn decimal_agrees_with_the_standard_rendering() {
    let mut n: u64 = 0;
    while n < 2000 {
        assert_eq!(decimal_string(n), n.to_string());
        n += 1;
    }
}

#[test]
fn signed_decimal_covers_the_whole_range() {
    assert_eq!(signed_decimal_string(0), "0");
    assert_eq!(signed_decimal_string(1), "1");
    assert_eq!(signed_decimal_string(-1), "-1");
    assert_eq!(signed_decimal_string(-1094995529), "-1094995529");
    assert_eq!(signed_decimal_string(i32::MAX), "2147483647");
    assert_eq!(signed_decimal_string(i32::MIN), "-2147483648");
}
