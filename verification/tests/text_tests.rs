use pbo_tools::paths::is_safe_path;
use pbo_tools::result::ExtractResult;
use pbo_tools::text::{
    char_is_whitespace, chars_of, push_decimal_i64, push_decimal_u64, range_contains,
    range_find_char, string_of_range, trim_range,
};

#[test]
fn whitespace_is_the_unicode_set() {
    let mut c = '\0';
    loop {
        assert_eq!(char_is_whitespace(c), c.is_whitespace(), "U+{:04X}", c as u32);
        if c == char::MAX {
            break;
        }
        c = char::from_u32(c as u32 + 1).unwrap_or('\u{E000}');
    }
}

#[test]
fn control_characters_are_the_unicode_set() {
    let mut c = '\0';
    loop {
        if c.is_control() {
            assert!(!is_safe_path(&c.to_string()), "U+{:04X}", c as u32);
        }
        if c as u32 > 0x2FF {
            break;
        }
        c = char::from_u32(c as u32 + 1).unwrap();
    }
    assert!(is_safe_path("\u{a0}"));
    assert!(is_safe_path("\u{7e}"));
}

#[test]
fn decimal_rendering_agrees_with_formatting() {
    for n in [0u64, 1, 9, 10, 11, 99, 100, 101, 12345, 4294967295, u64::MAX] {
        let mut s = String::from("n=");
        push_decimal_u64(&mut s, n);
        assert_eq!(s, format!("n={}", n));
    }
    for n in [0i64, 1, -1, 9, -9, 10, -10, 2147483647, -2147483648, i64::MAX, i64::MIN] {
        let mut s = String::new();
        push_decimal_i64(&mut s, n);
        assert_eq!(s, format!("{}", n));
    }
}

#[test]
fn trimming_agrees_with_str_trim() {
    for text in ["", " ", "a", " a", "a ", "  a b  ", "\t\r\n x \u{3000}", "\u{85}y\u{a0}", " \u{200b} "] {
        let chars = chars_of(text);
        let (a, b) = trim_range(&chars, 0, chars.len());
        assert_eq!(string_of_range(&chars, a, b), text.trim());
    }
}

#[test]
fn searching_agrees_with_str_contains() {
    let hay = "the quick brown fox";
    let chars = chars_of(hay);
    for needle in ["", "the", "fox", "quick b", "x", "foxes", "the quick brown fox", "the quick brown fox!", "q"] {
        assert_eq!(
            range_contains(&chars, 0, chars.len(), &chars_of(needle)),
            hay.contains(needle),
            "{:?}",
            needle
        );
    }
    assert!(!range_contains(&chars, 4, 9, &chars_of("the")));
    assert!(range_contains(&chars, 4, 9, &chars_of("quick")));
    assert!(!range_contains(&chars, 4, 8, &chars_of("quick")));
    assert_eq!(range_find_char(&chars, 0, chars.len(), 'q'), 4);
    assert_eq!(range_find_char(&chars, 5, chars.len(), 'q'), chars.len());
    assert_eq!(chars_of("héllo"), vec!['h', 'é', 'l', 'l', 'o']);
}

#[test]
fn line_splitting_agrees_with_str_lines() {
    for text in [
        "",
        "a",
        "a\n",
        "a\nb",
        "a\r\nb\r\n",
        "\n",
        "\n\n",
        "a\n\nb",
        "a\rb\n",
        "a\r",
        "\r\n",
        "x\n\r\ny\r\r\nz",
    ] {
        let listed = ExtractResult {
            return_code: 0,
            stdout: text.to_string(),
            stderr: String::new(),
        }
        .get_file_list();
        let expected: Vec<String> = text
            .lines()
            .map(|l| l.trim().to_string())
            .filter(|l| !l.is_empty())
            .collect();
        assert_eq!(listed, expected, "{:?}", text);
    }
}
