use catfood_bar::launcher::{handle_bar_cli, parse_pid, pid_of_trimmed, Launch};
use catfood_bar::style::{end_column_of, Color, Fragment};
use catfood_bar::text::{
    chars_of, contains, decimal_string, equals, has_number_line, matches_at, parse_u32,
    signed_decimal_string, slice_chars, starts_with,
};

fn chars(s: &str) -> Vec<char> {
    s.chars().collect()
}

#[test]
fn chars_of_gives_every_character() {
    assert_eq!(chars_of("a\u{e9}\u{f018d}z"), vec!['a', '\u{e9}', '\u{f018d}', 'z']);
    assert!(chars_of("").is_empty());
    assert_eq!(slice_chars(&chars("hello"), 1, 3), vec!['e', 'l']);
    assert!(slice_chars(&chars("hello"), 5, 5).is_empty());
}

#[test]
fn prefix_substring_and_equality() {
    let text = chars("neovim rocks");
    assert!(starts_with(&text, "neo"));
    assert!(starts_with(&text, ""));
    assert!(starts_with(&text, "neovim rocks"));
    assert!(!starts_with(&text, "neovim rocks!"));
    assert!(!starts_with(&text, "vim"));
    assert!(contains(&text, "vim"));
    assert!(contains(&text, "rocks"));
    assert!(contains(&text, ""));
    assert!(!contains(&text, "rocky"));
    assert!(!contains(&chars(""), "a"));
    assert!(contains(&chars(""), ""));
    assert!(equals(&text, "neovim rocks"));
    assert!(!equals(&text, "neovim"));
    assert!(!equals(&text, "neovim rockz"));
    assert!(matches_at(&text, &chars("vim"), 3));
    assert!(!matches_at(&text, &chars("vim"), 4));
    assert!(!matches_at(&text, &chars("s!"), 11));
    assert!(matches_at(&text, &chars(""), 12));
    assert!(!matches_at(&text, &chars(""), 13));
}

#[test]
fn parse_u32_agrees_with_std() {
    for text in [
        "0", "7", "+7", "007", "4294967295", "4294967296", "99999999999999999999999", "", "+", "-0",
        "-1", " 1", "1 ", "1_000", "0x10", "１２", "+-1", "++1", "12a", "00000000000000000000001",
    ] {
        assert_eq!(parse_u32(&chars(text)), text.parse::<u32>().ok(), "{:?}", text);
    }
}

#[test]
fn decimal_strings_agree_with_std() {
    for n in [0u64, 1, 9, 10, 11, 99, 100, 101, 4294967295, 18446744073709551615] {
        assert_eq!(decimal_string(n), n.to_string());
    }
    for n in [0i64, -1, 1, -10, 2147483647, -2147483648, i64::MAX, i64::MIN] {
        assert_eq!(signed_decimal_string(n), n.to_string());
    }
    for n in [0u32, 5, 90, 4294967295] {
        assert_eq!(parse_u32(&chars(&decimal_string(n as u64))), Some(n));
    }
}

#[test]
fn number_lines_agree_with_std_lines() {
    for text in [
        "", "\n", "1", "1\n", "\n1", "1\r\n2\r\n", "1\r", "2\n1\r", "1\n\n2", "a\n1\nb", "12\n", "\r\n1",
        "1\r\r\n", "+1\n", "01",
    ] {
        let expected = text.lines().any(|l| l.parse::<u32>() == Ok(1));
        assert_eq!(has_number_line(&chars(text), 1), expected, "{:?}", text);
    }
}

#[test]
fn fragments_and_columns() {
    let plain = Fragment::raw("abc".to_string());
    assert_eq!((plain.fg, plain.bg), (None, None));
    let styled = plain.clone().fg(Color::Red).bg(Color::Rgb(1, 2, 3));
    assert_eq!(styled.content, "abc");
    assert_eq!(styled.fg, Some(Color::Red));
    assert_eq!(styled.bg, Some(Color::Rgb(1, 2, 3)));
    assert_eq!(styled.end_column(10), 13);
    assert_eq!(styled.end_column(65534), 1);
    // the width counts terminal cells
    assert_eq!(Fragment::raw("\u{f018d} ".to_string()).end_column(0), 2);
    assert_eq!(Fragment::raw("\u{e9}".to_string()).width(), 1);
    assert_eq!(Fragment::raw("\u{6f22}\u{5b57}".to_string()).width(), 4);
    assert_eq!(Fragment::raw("e\u{301}".to_string()).width(), 1);
    assert_eq!(Fragment::raw(String::new()).width(), 0);
    assert_eq!(Fragment::raw(String::new()).end_column(7), 7);
    assert_eq!(Fragment::text("abc").content, "abc");
    assert_eq!(Fragment::percent("12").content, "12%");
    let long = Fragment::raw("x".repeat(65536 + 2));
    assert_eq!(long.end_column(1), 3);
    assert_eq!(end_column_of(&vec![styled, long], 5), 10);
    assert_eq!(end_column_of(&Vec::new(), 5), 5);
}

#[test]
fn pid_records() {
    assert_eq!(parse_pid("1234\n"), Some(1234));
    assert_eq!(parse_pid("  \t1234 \r\n"), Some(1234));
    assert_eq!(parse_pid("1234"), Some(1234));
    assert_eq!(parse_pid("12 34\n"), None);
    assert_eq!(parse_pid(""), None);
    assert_eq!(parse_pid("\n"), None);
    assert_eq!(parse_pid("-1\n"), None);
    assert_eq!(parse_pid("4294967296\n"), None);
    assert_eq!(pid_of_trimmed("1234\n"), None);
    assert_eq!(pid_of_trimmed("1234"), Some(1234));
    assert_eq!(handle_bar_cli(true, Some(true)), Launch::Direct);
    assert_eq!(handle_bar_cli(true, None), Launch::Direct);
    assert_eq!(handle_bar_cli(false, Some(true)), Launch::AlreadyRunning);
    assert_eq!(handle_bar_cli(false, Some(false)), Launch::SpawnPanel);
    assert_eq!(handle_bar_cli(false, None), Launch::SpawnPanel);
}
