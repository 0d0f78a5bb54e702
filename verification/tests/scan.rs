use sdr_remote::scan::{chars_of, is_white_space_char, parse_unsigned_span, push_decimal, span_is, trim_span};

#[test]
fn white_space_set() {
    for c in [' ', '\t', '\n', '\r', '\u{0b}', '\u{0c}', '\u{85}', '\u{a0}', '\u{2003}', '\u{3000}'] {
        assert!(is_white_space_char(c));
        assert!(c.is_whitespace());
    }
    for c in ['a', '0', '\u{200b}', '_'] {
        assert!(!is_white_space_char(c));
        assert!(!c.is_whitespace());
    }
}

#[test]
fn trim_matches_std() {
    for s in ["  ab c \t", "", "   ", "x", "\u{a0}y\u{3000}"] {
        let c = chars_of(s);
        let (a, b) = trim_span(&c, 0, c.len());
        let got: String = c[a..b].iter().collect();
        assert_eq!(got, s.trim());
    }
}

#[test]
fn numbers_parse_like_std() {
    for s in ["0", "42", "+7", "255", "256", "", "+", "-1", "1a", "007", "4294967295", "4294967296"] {
        let c = chars_of(s);
        let n = c.len();
        assert_eq!(parse_unsigned_span(&c, 0, n, 255), s.parse::<u8>().ok().map(u64::from), "{}", s);
        assert_eq!(parse_unsigned_span(&c, 0, n, 0xffff_ffff), s.parse::<u32>().ok().map(u64::from), "{}", s);
    }
}

#[test]
fn decimals_write_like_std() {
    for n in [0u64, 7, 10, 99, 100, 65535, u64::MAX] {
        let mut out = String::from("x");
        push_decimal(&mut out, n);
        assert_eq!(out, format!("x{}", n));
    }
}

#[test]
fn spans_compare_words() {
    let c = chars_of("key=value");
    assert!(span_is(&c, 0, 3, "key"));
    assert!(!span_is(&c, 0, 3, "kez"));
    assert!(!span_is(&c, 0, 4, "key"));
}
