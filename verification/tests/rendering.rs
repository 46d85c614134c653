use loopie::decimal::i64_to_string;
use loopie::decimal::u64_to_string;

#[test]
fn unsigned_decimal_rendering() {
    assert_eq!(u64_to_string(0), "0");
    assert_eq!(u64_to_string(7), "7");
    assert_eq!(u64_to_string(10), "10");
    assert_eq!(u64_to_string(1920), "1920");
    assert_eq!(u64_to_string(18446744073709551615), "18446744073709551615");
}

#[test]
fn signed_decimal_rendering() {
    assert_eq!(i64_to_string(0), "0");
    assert_eq!(i64_to_string(-1), "-1");
    assert_eq!(i64_to_string(2147483647), "2147483647");
    assert_eq!(i64_to_string(-2147483648), "-2147483648");
    assert_eq!(i64_to_string(-9223372036854775808), "-9223372036854775808");
}
