use yac_shell::text::chars_of;
use yac_shell::text::is_white_space_char;
use yac_shell::text::push_decimal;
use yac_shell::text::push_spaces;
use yac_shell::text::span_equals;
use yac_shell::text::trim_bounds;

#[test]
fn white_space_agrees_with_std() {
    for n in 0u32..0x3100 {
        if let Some(c) = char::from_u32(n) {
            assert_eq!(is_white_space_char(c), c.is_whitespace(), "{:#x}", n);
        }
    }
    for c in ['\u{10FFFF}', '\u{FEFF}', '\u{200B}', 'a'] {
        assert_eq!(is_white_space_char(c), c.is_whitespace());
    }
}

#[test]
fn trim_bounds_agree_with_std_trim() {
    for s in ["", "   ", " a ", "\tx y\r\n", "abc", "\u{2028}z\u{85}", "é ü"] {
        let v = chars_of(s);
        let (a, b) = trim_bounds(&v);
        let got: String = v[a..b].iter().collect();
        assert_eq!(got, s.trim(), "{:?}", s);
    }
}

#[test]
fn chars_of_keeps_every_char() {
    assert_eq!(chars_of("a\u{e9}\r\n"), vec!['a', '\u{e9}', '\r', '\n']);
    assert_eq!(chars_of(""), Vec::<char>::new());
}

#[test]
fn span_equals_compares_exactly() {
    let v = chars_of(" help ");
    assert!(span_equals(&v, 1, 5, "help"));
    assert!(!span_equals(&v, 0, 5, "help"));
    assert!(!span_equals(&v, 1, 5, "hell"));
    assert!(span_equals(&v, 3, 3, ""));
}

#[test]
fn decimal_numerals() {
    for (n, text) in [(0u64, "0"), (7, "7"), (10, "10"), (305, "305"), (u64::MAX, "18446744073709551615")] {
        let mut s = String::from("n=");
        push_decimal(&mut s, n);
        assert_eq!(s, format!("n={}", text));
    }
}

#[test]
fn spaces_are_appended() {
    let mut s = String::from("x");
    push_spaces(&mut s, 3);
    assert_eq!(s, "x   ");
    push_spaces(&mut s, 0);
    assert_eq!(s, "x   ");
}
