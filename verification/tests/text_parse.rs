use wezterm_gpui::text::{parse_isize, parse_usize, strip_prefix};

#[test]
fn parse_isize_accepts_signs_and_digits() {
    assert_eq!(parse_isize("7"), Some(7));
    assert_eq!(parse_isize("+12"), Some(12));
    assert_eq!(parse_isize("-3"), Some(-3));
    assert_eq!(parse_isize("-0"), Some(0));
    assert_eq!(parse_isize(""), None);
    assert_eq!(parse_isize("-"), None);
    assert_eq!(parse_isize("+"), None);
    assert_eq!(parse_isize("1a"), None);
    assert_eq!(parse_isize(" 1"), None);
    assert_eq!(parse_isize("--1"), None);
}

#[test]
fn parse_isize_matches_std_at_the_limits() {
    let max = isize::MAX.to_string();
    let min = isize::MIN.to_string();
    assert_eq!(parse_isize(&max), Some(isize::MAX));
    assert_eq!(parse_isize(&min), Some(isize::MIN));
    let over = format!("{}0", isize::MAX);
    assert_eq!(parse_isize(&over), None);
    assert_eq!(parse_isize("99999999999999999999999999"), None);
    for s in ["0", "-9", "+42", "00012", "-00", "1_0", "١", "9223372036854775808", "-9223372036854775809"] {
        assert_eq!(parse_isize(s), s.parse::<isize>().ok(), "{s}");
    }
}

#[test]
fn parse_usize_rejects_minus() {
    assert_eq!(parse_usize("3"), Some(3));
    assert_eq!(parse_usize("+3"), Some(3));
    assert_eq!(parse_usize("-0"), None);
    assert_eq!(parse_usize("-3"), None);
    assert_eq!(parse_usize(""), None);
    let max = usize::MAX.to_string();
    assert_eq!(parse_usize(&max), Some(usize::MAX));
    assert_eq!(parse_usize(&format!("{}1", usize::MAX)), None);
    for s in ["0", "+", "12x", "18446744073709551616", "007"] {
        assert_eq!(parse_usize(s), s.parse::<usize>().ok(), "{s}");
    }
}

#[test]
fn strip_prefix_matches_std() {
    assert_eq!(strip_prefix("domain:SSH", "domain:"), Some("SSH"));
    assert_eq!(strip_prefix("domain:", "domain:"), Some(""));
    assert_eq!(strip_prefix("domai", "domain:"), None);
    assert_eq!(strip_prefix("éx", "é"), Some("x"));
    assert_eq!(strip_prefix("abc", ""), Some("abc"));
}
