use installer::text::{
    chars_of, contains, count_text, find_char, is_whitespace, join, lines, non_empty_lines,
    number_text, parse_u64, string_of, strip_prefix, substring, trim, trim_matches,
    unsigned_text, words,
};

#[test]
fn characters_and_back() {
    let v: Vec<char> = chars_of("héllo");
    assert_eq!(v, vec!['h', 'é', 'l', 'l', 'o']);
    assert_eq!(string_of(&v), "héllo");
    assert_eq!(substring(&v, 1, 3), "él");
    assert_eq!(substring(&v, 2, 2), "");
}

#[test]
fn lines_are_split_at_line_feeds() {
    assert_eq!(lines(""), Vec::<String>::new());
    assert_eq!(lines("a"), vec!["a"]);
    assert_eq!(lines("a\n"), vec!["a"]);
    assert_eq!(lines("a\nb"), vec!["a", "b"]);
    assert_eq!(lines("a\n\nb\n"), vec!["a", "", "b"]);
    assert_eq!(lines("\n"), vec![""]);
    assert_eq!(lines("a\r\nb\r\n"), vec!["a", "b"]);
    assert_eq!(lines("a\rb\n"), vec!["a\rb"]);
    assert_eq!(lines("a\r"), vec!["a\r"]);
    for text in ["", "x", "x\n", "\n\nx", "a\r\n\r\nb", "one\ntwo\r\nthree", "\r\n", "\r"] {
        let expected: Vec<String> = text.lines().map(|l| l.to_string()).collect();
        assert_eq!(lines(text), expected);
    }
}

#[test]
fn empty_lines_are_dropped() {
    assert_eq!(non_empty_lines("a\n\n b\n\r\nc"), vec!["a", " b", "c"]);
    assert_eq!(non_empty_lines("\n\n"), Vec::<String>::new());
}

#[test]
fn trimming() {
    assert_eq!(trim("  a b \t\n"), "a b");
    assert_eq!(trim(""), "");
    assert_eq!(trim(" \n "), "");
    assert_eq!(trim("x"), "x");
    assert_eq!(trim("\u{3000}x\u{a0}"), "x");
    assert_eq!(trim_matches("\"\"ubuntu\"", '"'), "ubuntu");
    assert_eq!(trim_matches("ubuntu", '"'), "ubuntu");
    assert_eq!(trim_matches("\"", '"'), "");
    for text in ["  a ", "a", "", "   ", "\ta\u{2003}b\u{2028}"] {
        assert_eq!(trim(text), text.trim());
    }
}

#[test]
fn white_space_is_what_unicode_says() {
    let mut n: u32 = 0;
    while n < 0x3100 {
        if let Some(c) = char::from_u32(n) {
            assert_eq!(is_whitespace(c), c.is_whitespace(), "U+{:04X}", n);
        }
        n += 1;
    }
}

#[test]
fn numbers_in_decimal() {
    assert_eq!(count_text(0), "0");
    assert_eq!(count_text(7), "7");
    assert_eq!(count_text(10), "10");
    assert_eq!(count_text(1234567890), "1234567890");
    assert_eq!(unsigned_text(u64::MAX), "18446744073709551615");
    assert_eq!(number_text(0), "0");
    assert_eq!(number_text(-1), "-1");
    assert_eq!(number_text(i32::MIN), "-2147483648");
    assert_eq!(number_text(i32::MAX), "2147483647");
}

#[test]
fn reading_numbers() {
    assert_eq!(parse_u64("0"), Some(0));
    assert_eq!(parse_u64("42"), Some(42));
    assert_eq!(parse_u64("+42"), Some(42));
    assert_eq!(parse_u64("007"), Some(7));
    assert_eq!(parse_u64("18446744073709551615"), Some(u64::MAX));
    assert_eq!(parse_u64("18446744073709551616"), None);
    assert_eq!(parse_u64("99999999999999999999999"), None);
    assert_eq!(parse_u64(""), None);
    assert_eq!(parse_u64("+"), None);
    assert_eq!(parse_u64("-1"), None);
    assert_eq!(parse_u64("1a"), None);
    assert_eq!(parse_u64(" 1"), None);
    assert_eq!(parse_u64("12Gi"), None);
    for text in ["5", "+5", "++5", "5+", "", "x", "١"] {
        assert_eq!(parse_u64(text), text.parse::<u64>().ok());
    }
}

#[test]
fn joining() {
    let parts: Vec<String> = vec!["a".to_string(), "b".to_string(), "c".to_string()];
    assert_eq!(join(&parts, " "), "a b c");
    assert_eq!(join(&parts[..1].to_vec(), ", "), "a");
    assert_eq!(join(&Vec::new(), ", "), "");
}

#[test]
fn prefixes_and_parts() {
    assert_eq!(strip_prefix("ID=ubuntu", "ID="), Some("ubuntu".to_string()));
    assert_eq!(strip_prefix("ID=", "ID="), Some("".to_string()));
    assert_eq!(strip_prefix("VERSION_ID=1", "ID="), None);
    assert_eq!(strip_prefix("I", "ID="), None);
    assert!(contains("Host *\n  AddKeysToAgent yes", "AddKeysToAgent"));
    assert!(!contains("Host *", "AddKeysToAgent"));
    assert!(contains("abc", ""));
    assert!(contains("abc", "c"));
    assert!(!contains("ab", "abc"));
    assert_eq!(find_char(&chars_of("a/b/c"), '/'), Some(1));
    assert_eq!(find_char(&chars_of("abc"), '/'), None);
}

#[test]
fn words_between_white_space() {
    assert_eq!(words("  a  bb\tccc\n"), vec!["a", "bb", "ccc"]);
    assert_eq!(words(""), Vec::<String>::new());
    assert_eq!(words("   "), Vec::<String>::new());
    assert_eq!(words("x"), vec!["x"]);
    for text in ["/dev/disk1 466 10 359 3% /", " a", "a ", "a\u{a0}b"] {
        let expected: Vec<String> = text.split_whitespace().map(|w| w.to_string()).collect();
        assert_eq!(words(text), expected);
    }
}
