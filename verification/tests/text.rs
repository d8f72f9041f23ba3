use titanium_os::text::{chars_of, decimal_string, joined, lines_of, string_of, trimmed};

#[test]
fn decimal_numbers() {
    assert_eq!(decimal_string(0), "0");
    assert_eq!(decimal_string(7), "7");
    assert_eq!(decimal_string(10), "10");
    assert_eq!(decimal_string(9999), "9999");
    assert_eq!(decimal_string(u64::MAX), "18446744073709551615");
}

#[test]
fn characters_of_a_string() {
    let s = String::from("añ🍎b");
    let v = chars_of(&s);
    assert_eq!(v, vec!['a', 'ñ', '🍎', 'b']);
    assert_eq!(string_of(&v, 1, 3), "ñ🍎");
    assert_eq!(string_of(&v, 0, 4), s);
    assert_eq!(string_of(&v, 2, 2), "");
}

#[test]
fn unicode_white_space_is_trimmed() {
    assert_eq!(trimmed(&String::from("\u{3000}\u{85}a\u{A0}")), "a");
    assert_eq!(trimmed(&String::from("\u{200B}a")), "\u{200B}a");
}

#[test]
fn trimming() {
    assert_eq!(trimmed(&String::from("  ls -la \t")), "ls -la");
    assert_eq!(trimmed(&String::from("\u{3000}x y\u{2028}")), "x y");
    assert_eq!(trimmed(&String::from(" \t ")), "");
    assert_eq!(trimmed(&String::new()), "");
    assert_eq!(trimmed(&String::from("echo")), "echo");
}

#[test]
fn splitting_into_lines() {
    assert_eq!(lines_of(&String::from("a\nb")), vec!["a", "b"]);
    assert_eq!(lines_of(&String::from("a\r\nb\n")), vec!["a", "b"]);
    assert_eq!(lines_of(&String::from("a\n\n")), vec!["a", ""]);
    assert_eq!(lines_of(&String::from("\n")), vec![""]);
    assert!(lines_of(&String::new()).is_empty());
    assert_eq!(lines_of(&String::from("x\r")), vec!["x\r"]);
    let text = String::from("one\r\ntwo\n\nthree\r");
    let expected: Vec<String> = text.lines().map(|l| l.to_string()).collect();
    assert_eq!(lines_of(&text), expected);
}

#[test]
fn joining_lines() {
    assert_eq!(joined(&vec![]), "");
    assert_eq!(joined(&vec![String::from("a")]), "a");
    assert_eq!(joined(&vec![String::from("a"), String::new(), String::from("c")]), "a\n\nc");
}

#[test]
fn white_space_matches_std_for_every_char() {
    for n in 0..=0x10FFFFu32 {
        if let Some(c) = char::from_u32(n) {
            assert_eq!(titanium_os::text::is_white_space(c), c.is_whitespace(), "U+{:04X}", n);
        }
    }
}
