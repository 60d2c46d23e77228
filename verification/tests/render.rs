use bjj_lib::render::decimal_text;

#[test]
fn digits_are_their_characters() {
    let expected = ["0", "1", "2", "3", "4", "5", "6", "7", "8", "9"];
    for digit in 0u8..10 {
        assert_eq!(decimal_text(digit as u128), expected[digit as usize]);
    }
}

#[test]
fn numbers_are_written_in_decimal() {
    assert_eq!(decimal_text(0), "0");
    assert_eq!(decimal_text(7), "7");
    assert_eq!(decimal_text(10), "10");
    assert_eq!(decimal_text(255), "255");
    assert_eq!(decimal_text(1_000), "1000");
    assert_eq!(decimal_text(300_000), "300000");
    assert_eq!(decimal_text(9_876_543_210), "9876543210");
}

#[test]
fn largest_number_is_written_in_full() {
    assert_eq!(decimal_text(u128::MAX), "340282366920938463463374607431768211455");
    assert_eq!(decimal_text(u128::MAX), u128::MAX.to_string());
}
