use bank_ledger::text::{chars_of, is_whitespace, same_text, split_whitespace, trim};

#[test]
fn whitespace_is_the_unicode_property() {
    let mut code: u32 = 0;
    while code <= 0x10FFFF {
        if let Some(c) = char::from_u32(code) {
            assert_eq!(is_whitespace(c), c.is_whitespace(), "U+{:04X}", code);
        }
        code += 1;
    }
}

#[test]
fn whitespace_samples() {
    assert!(is_whitespace(' '));
    assert!(is_whitespace('\t'));
    assert!(is_whitespace('\n'));
    assert!(is_whitespace('\r'));
    assert!(is_whitespace('\u{A0}'));
    assert!(is_whitespace('\u{3000}'));
    assert!(!is_whitespace('a'));
    assert!(!is_whitespace('0'));
    assert!(!is_whitespace('\0'));
    assert!(!is_whitespace('\u{200B}'));
}

#[test]
fn chars_of_gives_every_character() {
    assert_eq!(chars_of(""), Vec::<char>::new());
    assert_eq!(chars_of("abc"), vec!['a', 'b', 'c']);
    assert_eq!(chars_of("é ü"), vec!['é', ' ', 'ü']);
}

#[test]
fn split_plain_request() {
    assert_eq!(split_whitespace("DEPOSIT alice 100"), vec!["DEPOSIT", "alice", "100"]);
}

#[test]
fn split_ignores_extra_whitespace() {
    assert_eq!(split_whitespace("  DEPOSIT \t alice   100 \r\n"), vec!["DEPOSIT", "alice", "100"]);
    assert_eq!(split_whitespace("a\u{3000}b"), vec!["a", "b"]);
}

#[test]
fn split_of_nothing_is_empty() {
    assert_eq!(split_whitespace(""), Vec::<String>::new());
    assert_eq!(split_whitespace("   "), Vec::<String>::new());
    assert_eq!(split_whitespace("\n"), Vec::<String>::new());
}

#[test]
fn split_single_tokens() {
    assert_eq!(split_whitespace("x"), vec!["x"]);
    assert_eq!(split_whitespace(" x"), vec!["x"]);
    assert_eq!(split_whitespace("x "), vec!["x"]);
    assert_eq!(split_whitespace("héllo wörld"), vec!["héllo", "wörld"]);
}

#[test]
fn split_agrees_with_std() {
    let samples = [
        "", " ", "a", "a b", " a  b ", "DEPOSIT alice 100\n", "\tx\ty\t", "a\u{A0}b\u{2003}c",
        "WITHDRAW bob 10", "one two three four", "tab\tseparated\tfields", "nul\0byte stays",
    ];
    for s in samples {
        let expected: Vec<String> = s.split_whitespace().map(|t| t.to_string()).collect();
        assert_eq!(split_whitespace(s), expected, "{:?}", s);
    }
}

#[test]
fn trim_removes_outer_whitespace_only() {
    assert_eq!(trim("  alice  "), "alice");
    assert_eq!(trim("alice\n"), "alice");
    assert_eq!(trim("\t a b \r\n"), "a b");
    assert_eq!(trim(""), "");
    assert_eq!(trim("   "), "");
    assert_eq!(trim("x"), "x");
}

#[test]
fn trim_agrees_with_std() {
    let samples = ["", " ", "a", " a", "a ", " a b ", "\u{3000}é\u{A0}", "\n\n12\n", "a\0 "];
    for s in samples {
        assert_eq!(trim(s), s.trim(), "{:?}", s);
    }
}

#[test]
fn same_text_compares_characters() {
    assert!(same_text("DEPOSIT", "DEPOSIT"));
    assert!(same_text("", ""));
    assert!(!same_text("DEPOSIT", "deposit"));
    assert!(!same_text("DEPOSIT", "DEPOSIT "));
    assert!(!same_text("DEPOSIT", "DEPOSI"));
    assert!(!same_text("a", "b"));
}
