use awstgbot::bot::error_report;
use awstgbot::error::StringError;
use awstgbot::text::{join_output_lines, split_whitespace, u64_to_decimal};

fn markdown_escape(s: &str) -> String {
    error_report(&StringError::new(s))
}

#[test]
fn escapes_markdown_specials() {
    assert_eq!(markdown_escape("a_b.c"), "a\\_b\\.c");
    assert_eq!(
        markdown_escape("_*[]()~`>#+-=|{}.!"),
        "\\_\\*\\[\\]\\(\\)\\~\\`\\>\\#\\+\\-\\=\\|\\{\\}\\.\\!"
    );
    assert_eq!(markdown_escape("plain text\\"), "plain text\\");
    assert_eq!(markdown_escape(""), "");
}

#[test]
fn escaped_specials_are_preceded_by_backslash() {
    let e: Vec<char> = markdown_escape("x-1.2(y)").chars().collect();
    for (i, c) in e.iter().enumerate() {
        if "_*[]()~`>#+-=|{}.!".contains(*c) {
            assert!(i > 0 && e[i - 1] == '\\');
        }
    }
}

#[test]
fn splits_at_white_space() {
    assert_eq!(split_whitespace("  ls  -la\t/tmp\n"), vec!["ls", "-la", "/tmp"]);
    assert_eq!(split_whitespace("a\u{3000}b\u{a0}c"), vec!["a", "b", "c"]);
    assert!(split_whitespace(" \t\r\n ").is_empty());
    assert!(split_whitespace("").is_empty());
    assert_eq!(split_whitespace("uptime"), vec!["uptime"]);
}

#[test]
fn words_keep_other_characters() {
    let s = " echo  héllo\twörld ";
    let joined: String = split_whitespace(s).concat();
    let kept: String = s.chars().filter(|c| !c.is_whitespace()).collect();
    assert_eq!(joined, kept);
}

#[test]
fn joins_output_lines() {
    assert_eq!(join_output_lines(&vec!["a".to_string(), "b c".to_string()]), "a\nb c\n");
    assert_eq!(join_output_lines(&vec![]), "");
    assert_eq!(join_output_lines(&vec!["".to_string()]), "\n");
}

#[test]
fn formats_decimal() {
    assert_eq!(u64_to_decimal(0), "0");
    assert_eq!(u64_to_decimal(7), "7");
    assert_eq!(u64_to_decimal(12321321), "12321321");
    assert_eq!(u64_to_decimal(u64::MAX), "18446744073709551615");
}
