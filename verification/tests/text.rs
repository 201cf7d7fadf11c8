use lmdb_helper::text::{append_dashes, append_padded, decimal_text};

#[test]
fn decimal_text_of_small_and_large_numbers() {
    assert_eq!(decimal_text(0), "0");
    assert_eq!(decimal_text(7), "7");
    assert_eq!(decimal_text(9), "9");
    assert_eq!(decimal_text(10), "10");
    assert_eq!(decimal_text(99), "99");
    assert_eq!(decimal_text(100), "100");
    assert_eq!(decimal_text(1203), "1203");
    assert_eq!(decimal_text(9876543210), "9876543210");
    assert_eq!(decimal_text(usize::MAX), format!("{}", usize::MAX));
}

#[test]
fn decimal_text_agrees_with_the_standard_formatting() {
    let mut n: usize = 1;
    for _ in 0..60 {
        assert_eq!(decimal_text(n), format!("{}", n));
        assert_eq!(decimal_text(n - 1), format!("{}", n - 1));
        n = n.wrapping_mul(3).wrapping_add(1) % (usize::MAX / 4) + 1;
    }
}

#[test]
fn padding_fills_up_to_the_width_and_never_cuts() {
    let mut line = String::from("[");
    append_padded(&mut line, "ab", 5);
    assert_eq!(line, "[ab   ");
    append_padded(&mut line, "abcdef", 3);
    assert_eq!(line, "[ab   abcdef");
    append_padded(&mut line, "", 0);
    assert_eq!(line, "[ab   abcdef");
    append_padded(&mut line, "é", 2);
    assert_eq!(line, "[ab   abcdefé ");
}

#[test]
fn dashes_are_appended_in_number() {
    let mut line = String::from("x");
    append_dashes(&mut line, 0);
    assert_eq!(line, "x");
    append_dashes(&mut line, 4);
    assert_eq!(line, "x----");
}
