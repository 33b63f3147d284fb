use tracing_fn::text::{
    char_is_whitespace, decimal_text, find_char, joined, same_text, split_on, trimmed, unquoted,
};

#[test]
fn whitespace_is_what_the_standard_library_says() {
    let mut code: u32 = 0;
    while code <= 0x3100 {
        if let Some(c) = char::from_u32(code) {
            assert_eq!(char_is_whitespace(c), c.is_whitespace(), "U+{:04X}", code);
        }
        code += 1;
    }
    assert!(!char_is_whitespace('\u{feff}'));
    assert!(!char_is_whitespace('\u{10ffff}'));
}

#[test]
fn trimmed_agrees_with_the_standard_library() {
    for s in ["", " ", "a", "  a b  ", "\t\n x\u{3000}", "\u{2028}\u{85}", " = ", "é \u{a0}"] {
        assert_eq!(trimmed(s), s.trim());
    }
}

#[test]
fn find_char_counts_characters() {
    assert_eq!(find_char("a=b=c", '='), Some(1));
    assert_eq!(find_char("é=b", '='), Some(1));
    assert_eq!(find_char("=", '='), Some(0));
    assert_eq!(find_char("abc", '='), None);
    assert_eq!(find_char("", '='), None);
}

#[test]
fn split_keeps_empty_pieces() {
    assert_eq!(split_on("", ','), vec![""]);
    assert_eq!(split_on("a", ','), vec!["a"]);
    assert_eq!(split_on("a,b", ','), vec!["a", "b"]);
    assert_eq!(split_on(",a,,b,", ','), vec!["", "a", "", "b", ""]);
    assert_eq!(split_on("é, ü", ','), vec!["é", " ü"]);
    for s in ["", ",", "a,b,c", ",,", "x , y"] {
        let expected: Vec<String> = s.split(',').map(|p| p.to_string()).collect();
        assert_eq!(split_on(s, ','), expected);
    }
}

#[test]
fn unquoted_removes_one_matching_pair() {
    assert_eq!(unquoted("\"a\""), "a");
    assert_eq!(unquoted("'a'"), "a");
    assert_eq!(unquoted("\"\"a\"\""), "\"a\"");
    assert_eq!(unquoted("\"a'"), "\"a'");
    assert_eq!(unquoted("a\""), "a\"");
    assert_eq!(unquoted("\""), "\"");
    assert_eq!(unquoted("''"), "");
    assert_eq!(unquoted(""), "");
    assert_eq!(unquoted("xax"), "xax");
}

#[test]
fn same_text_compares_characters() {
    assert!(same_text("", ""));
    assert!(same_text("level", "level"));
    assert!(!same_text("level", "Level"));
    assert!(!same_text("level", "levels"));
    assert!(!same_text("é", "e"));
}

#[test]
fn joined_puts_the_separator_between() {
    let none: Vec<String> = vec![];
    assert_eq!(joined(&none, ", "), "");
    assert_eq!(joined(&vec!["a".to_string()], ", "), "a");
    assert_eq!(joined(&vec!["a".to_string(), "".to_string(), "c".to_string()], ", "), "a, , c");
}

#[test]
fn decimal_text_writes_numbers() {
    assert_eq!(decimal_text(0), "0");
    assert_eq!(decimal_text(7), "7");
    assert_eq!(decimal_text(10), "10");
    assert_eq!(decimal_text(1234567890), "1234567890");
    assert_eq!(decimal_text(u32::MAX), "4294967295");
}
