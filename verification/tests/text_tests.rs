use shara::text::{chars_of, parse_i32, split_whitespace, white_space, write_decimal, write_signed};

#[test]
fn decimal_of_zero_and_large_numbers() {
    let mut s = String::new();
    write_decimal(&mut s, 0);
    assert_eq!(s, "0");
    let mut s = String::from("n=");
    write_decimal(&mut s, 18446744073709551615);
    assert_eq!(s, "n=18446744073709551615");
}

#[test]
fn signed_decimal_of_extremes() {
    let mut s = String::new();
    write_signed(&mut s, -42);
    assert_eq!(s, "-42");
    let mut s = String::new();
    write_signed(&mut s, i64::MIN);
    assert_eq!(s, "-9223372036854775808");
    let mut s = String::new();
    write_signed(&mut s, 7);
    assert_eq!(s, "7");
}

#[test]
fn chars_of_keeps_unicode() {
    assert_eq!(chars_of("Їж"), vec!['Ї', 'ж']);
    assert_eq!(chars_of(""), Vec::<char>::new());
}

#[test]
fn split_whitespace_matches_std() {
    for text in ["Шевченко Тарас Григорович", "  a\tb\n c  ", "", "   ", "one", "a\u{3000}b\u{85}c"] {
        let expected: Vec<String> = text.split_whitespace().map(String::from).collect();
        assert_eq!(split_whitespace(text), expected, "text {:?}", text);
    }
}

#[test]
fn white_space_matches_std() {
    for c in ['\t', '\n', ' ', '\u{a0}', '\u{2003}', '\u{3000}', 'a', 'Ї', '\u{200b}', '\u{1680}'] {
        assert_eq!(white_space(c), c.is_whitespace(), "char {:?}", c);
    }
}

#[test]
fn parse_i32_matches_std() {
    for text in [
        "0", "42", "-42", "+7", "-", "+", "", "2147483647", "2147483648", "-2147483648",
        "-2147483649", "12a", " 1", "1 ", "5:0", "007", "99999999999999999999",
    ] {
        assert_eq!(parse_i32(text), text.parse::<i32>().ok(), "text {:?}", text);
    }
}

#[test]
fn decimal_reads_back_scenario() {
    for n in [i32::MIN, -1, 0, 1, 9, 10, i32::MAX] {
        let mut s = String::new();
        write_signed(&mut s, n as i64);
        assert_eq!(parse_i32(&s), Some(n));
    }
}
