use rust_chat::text::{
    decimal_string, is_blank, parse_usize, split_once_str, split_str, trim_str,
};

#[test]
fn parse_usize_accepts_plus_and_digits() {
    assert_eq!(parse_usize("0"), Some(0));
    assert_eq!(parse_usize("+42"), Some(42));
    assert_eq!(parse_usize("18446744073709551615"), Some(usize::MAX));
}

#[test]
fn parse_usize_rejects_bad_input() {
    assert_eq!(parse_usize(""), None);
    assert_eq!(parse_usize("+"), None);
    assert_eq!(parse_usize("-1"), None);
    assert_eq!(parse_usize("1a"), None);
    assert_eq!(parse_usize(" 1"), None);
    assert_eq!(parse_usize("١"), None);
    assert_eq!(parse_usize("18446744073709551616"), None);
}

#[test]
fn parse_usize_agrees_with_std() {
    for s in ["0", "12", "+7", "", "+", "++1", "9x", "00", "99999999999999999999"] {
        assert_eq!(parse_usize(s), s.parse::<usize>().ok(), "input {s:?}");
    }
}

#[test]
fn decimal_round_trip() {
    for n in [0usize, 7, 10, 99, 1000, 123456789, usize::MAX] {
        let s = decimal_string(n);
        assert_eq!(s, n.to_string());
        assert_eq!(parse_usize(&s), Some(n));
    }
}

#[test]
fn trim_matches_std() {
    for s in ["  a b  ", "\t\n x\r", "", "   ", "\u{a0}y\u{3000}", "\u{200b}z"] {
        assert_eq!(trim_str(s), s.trim(), "input {s:?}");
        assert_eq!(is_blank(s), s.trim().is_empty(), "input {s:?}");
    }
}

#[test]
fn split_once_matches_std() {
    for s in ["a: b", "a: b: c", "ab", ": ", "::  "] {
        let ours = split_once_str(s, ": ");
        let std = s.split_once(": ").map(|(a, b)| (a.to_string(), b.to_string()));
        assert_eq!(ours, std, "input {s:?}");
    }
}

#[test]
fn split_matches_std_and_joins_back() {
    for s in ["a, b", "", ", ", "a,,b", "a, , b, ", ", , ,"] {
        let ours = split_str(s, ", ");
        let std: Vec<String> = s.split(", ").map(|p| p.to_string()).collect();
        assert_eq!(ours, std, "input {s:?}");
        assert_eq!(ours.join(", "), s);
    }
}
