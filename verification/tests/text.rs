use barkdocs::text::{
    chars_of, contains, decimal, ends_with, join_from, slice_of, split, split_lines, starts_with,
    str_concat, strip_trailing, substring, trim,
};

fn chars(s: &str) -> Vec<char> {
    s.chars().collect()
}

#[test]
fn lines_are_split_as_std_does() {
    for text in [
        "",
        "a",
        "a\n",
        "a\nb",
        "a\r\nb\r\n",
        "\n",
        "\n\n",
        "a\n\nb",
        "a\r",
        "a\rb\n",
        "\r\n",
        "a\r\r\n",
        "ż\nółw\n",
        "\na",
    ] {
        let expected: Vec<String> = text.lines().map(|l| l.to_string()).collect();
        assert_eq!(split_lines(text), expected, "text {:?}", text);
    }
}

#[test]
fn decimal_writes_numbers() {
    assert_eq!(decimal(0), "0");
    assert_eq!(decimal(7), "7");
    assert_eq!(decimal(10), "10");
    assert_eq!(decimal(1234567890), "1234567890");
    assert_eq!(decimal(u128::MAX), u128::MAX.to_string());
}

#[test]
fn characters_and_strings_convert_both_ways() {
    assert_eq!(chars_of("│ żółw"), chars("│ żółw"));
    assert!(chars_of("").is_empty());
    assert_eq!(substring(&chars("a😀b"), 0, 3), "a😀b");
    assert_eq!(slice_of(&chars("a😀b"), 1, 3), chars("😀b"));
    assert_eq!(substring(&chars("hello"), 1, 3), "el");
    assert_eq!(substring(&chars("hello"), 2, 2), "");
    assert_eq!(str_concat("ab", "cd"), "abcd");
}

#[test]
fn prefixes_suffixes_and_parts() {
    assert!(starts_with("http://x", "http://"));
    assert!(!starts_with("http:/", "http://"));
    assert!(starts_with("abc", ""));
    assert!(ends_with("a.md", ".md"));
    assert!(!ends_with("md", ".md"));
    assert!(ends_with("abc", ""));
    assert!(contains("x github.com y", "github.com"));
    assert!(!contains("githubcom", "github.com"));
    assert!(contains("abc", ""));
    assert!(contains("abc", "c"));
    assert!(!contains("", "a"));
    assert_eq!(strip_trailing(&chars("a/b//"), '/'), chars("a/b"));
    assert_eq!(strip_trailing(&chars("///"), '/'), chars(""));
    assert_eq!(strip_trailing(&chars("ab"), '/'), chars("ab"));
    for text in ["", "a", "a/b", "/a//b/", "//"] {
        let expected: Vec<Vec<char>> = text.split('/').map(|p| p.chars().collect()).collect();
        assert_eq!(split(&chars(text), '/'), expected, "text {:?}", text);
    }
    let parts = vec![chars("u"), chars("r"), chars("docs"), chars(""), chars("x.md")];
    assert_eq!(join_from(&parts, 2, &chars("/")), chars("docs//x.md"));
    assert_eq!(join_from(&parts, 4, &chars("/")), chars("x.md"));
    assert_eq!(join_from(&parts, 5, &chars("/")), chars(""));
}

#[test]
fn trim_follows_std() {
    for text in ["", "  a b \t\n", "a", " \u{a0}x\u{2003}", "\u{feff}x", "   "] {
        assert_eq!(trim(text), chars(text.trim()), "text {:?}", text);
    }
}

#[test]
fn white_space_is_what_trim_takes_away() {
    let spaces: Vec<u32> = (0x09..=0x0D)
        .chain([0x20, 0x85, 0xA0, 0x1680])
        .chain(0x2000..=0x200A)
        .chain([0x2028, 0x2029, 0x202F, 0x205F, 0x3000])
        .collect();
    for code in 0..=0x10FFFFu32 {
        let c = match char::from_u32(code) {
            Some(c) => c,
            None => continue,
        };
        let text: String = [c, 'x', c].iter().collect();
        let left: String = trim(&text).iter().collect();
        if spaces.contains(&code) {
            assert_eq!(left, "x", "U+{:04X}", code);
        } else {
            assert_eq!(left, text, "U+{:04X}", code);
        }
        assert_eq!(left, text.trim());
    }
}
