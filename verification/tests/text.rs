use job_runner::port::{parse_port, PortError};
use job_runner::text::{
    chars_of, contains, dashed, dots, is_blank, is_quotable, quoted_log,
};

#[test]
fn search_finds_occurrences() {
    assert!(contains("550 File exists", "550"));
    assert!(contains("mkdir: File exists", "File exists"));
    assert!(!contains("55 0", "550"));
    assert!(contains("aab", "ab"));
    assert!(contains("x", ""));
    assert!(contains("", ""));
    assert!(!contains("", "a"));
}

#[test]
fn underscores_become_dashes() {
    assert_eq!(dashed("my_first_project"), "my-first-project");
    assert_eq!(dashed("__"), "--");
    assert_eq!(dashed("plain"), "plain");
    assert_eq!(dashed("\u{e9}_\u{e9}"), "\u{e9}-\u{e9}");
    assert_eq!(dashed(""), "");
}

#[test]
fn dots_form_a_row() {
    assert_eq!(dots(0), "");
    assert_eq!(dots(4), "....");
}

#[test]
fn characters_keep_their_order() {
    assert_eq!(chars_of("a\u{20ac}b"), vec!['a', '\u{20ac}', 'b']);
}

#[test]
fn white_space_agrees_with_std_on_every_character() {
    for code in 0u32..=0x10ffff {
        if let Some(c) = char::from_u32(code) {
            assert_eq!(is_blank(&c.to_string()), c.is_whitespace(), "{:x}", code);
        }
    }
}

#[test]
fn blank_means_nothing_but_white_space() {
    assert!(is_blank(""));
    assert!(is_blank(" \n\t\r\n"));
    assert!(!is_blank("  x "));
}

#[test]
fn short_log_is_quoted_whole() {
    let log = "x".repeat(1000);
    assert!(is_quotable(&log));
    assert_eq!(quoted_log(&log), log);
    assert_eq!(quoted_log(""), "");
}

#[test]
fn long_log_is_cut_at_the_limit() {
    let log = "y".repeat(1001);
    assert!(is_quotable(&log));
    assert_eq!(quoted_log(&log), format!("{}... (truncated)", "y".repeat(1000)));
    let wide = "\u{e9}".repeat(501);
    assert!(is_quotable(&wide));
    assert_eq!(quoted_log(&wide), format!("{}... (truncated)", "\u{e9}".repeat(500)));
}

#[test]
fn log_with_a_character_across_the_limit_is_not_quotable() {
    let log = format!("{}{}", "z".repeat(999), "\u{e9}");
    assert!(!is_quotable(&log));
    let fits = format!("{}{}", "z".repeat(998), "\u{e9}");
    assert!(is_quotable(&fits));
    assert_eq!(quoted_log(&fits), fits);
}

#[test]
fn ports_agree_with_std() {
    let texts = [
        "", "0", "21", "8080", "65535", "65536", "99999", "+21", "+", "-", "-1", "++1", "00021",
        "0000000065535", "12a", "a12", "99999x", "65536x", "1x99999", " 21", "21 ", "2_1",
        "\u{664}", "9999x", "100000000000000000000000",
    ];
    for text in texts {
        let expected = text.parse::<u16>();
        match parse_port(text) {
            Ok(port) => assert_eq!(Ok(port), expected, "{:?}", text),
            Err(e) => assert_eq!(e.message(), expected.unwrap_err().to_string(), "{:?}", text),
        }
    }
}

#[test]
fn port_errors_tell_themselves_apart() {
    assert_eq!(parse_port("2121"), Ok(2121));
    assert_eq!(parse_port(""), Err(PortError::Empty));
    assert_eq!(parse_port("ftp"), Err(PortError::InvalidDigit));
    assert_eq!(parse_port("70000"), Err(PortError::TooLarge));
}
