use pgnotes::text::{format_decimal, pad_right};

#[test]
fn decimal_of_zero() {
    assert_eq!(format_decimal(0), "0");
}

#[test]
fn decimal_of_single_digits() {
    assert_eq!(format_decimal(1), "1");
    assert_eq!(format_decimal(7), "7");
    assert_eq!(format_decimal(9), "9");
}

#[test]
fn decimal_of_the_default_limit() {
    assert_eq!(format_decimal(10), "10");
}

#[test]
fn decimal_keeps_inner_zeros() {
    assert_eq!(format_decimal(1001), "1001");
    assert_eq!(format_decimal(120), "120");
}

#[test]
fn decimal_of_negative_numbers() {
    assert_eq!(format_decimal(-1), "-1");
    assert_eq!(format_decimal(-250), "-250");
}

#[test]
fn decimal_of_the_extremes() {
    assert_eq!(format_decimal(i32::MAX), "2147483647");
    assert_eq!(format_decimal(i32::MIN), "-2147483648");
}

#[test]
fn decimal_agrees_with_the_standard_library() {
    let samples = [0, 5, 42, 99, 100, 65536, -3, -99, -100, 123456789, -987654321];
    for n in samples {
        assert_eq!(format_decimal(n), n.to_string());
    }
}

#[test]
fn pad_fills_a_short_text() {
    assert_eq!(pad_right("ID", 4), "ID  ");
    assert_eq!(pad_right("", 3), "   ");
}

#[test]
fn pad_leaves_a_text_of_full_width() {
    assert_eq!(pad_right("abcd", 4), "abcd");
}

#[test]
fn pad_never_cuts_a_long_text() {
    assert_eq!(pad_right("abcdef", 4), "abcdef");
    assert_eq!(pad_right("x", 0), "x");
}

#[test]
fn pad_counts_characters_not_bytes() {
    assert_eq!(pad_right("é", 3), "é  ");
    assert_eq!(pad_right("日本語", 4), "日本語 ");
}

#[test]
fn pad_agrees_with_the_standard_library() {
    for text in ["", "a", "Title", "a much longer piece of text", "ünï"] {
        assert_eq!(pad_right(text, 20), format!("{:<20}", text));
    }
}
