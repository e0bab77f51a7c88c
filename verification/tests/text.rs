use kubilitics_desktop::files::split;
use kubilitics_desktop::text::{
    char_is_whitespace, concat2, decimal_string, ends_with, first_line, starts_with, str_eq, trim,
};

#[test]
fn decimal_numbers() {
    assert_eq!(decimal_string(0), "0");
    assert_eq!(decimal_string(7), "7");
    assert_eq!(decimal_string(10), "10");
    assert_eq!(decimal_string(819), "819");
    assert_eq!(decimal_string(8081), "8081");
    assert_eq!(decimal_string(1234567890), "1234567890");
    assert_eq!(decimal_string(u64::MAX), "18446744073709551615");
    for n in [1u64, 9, 99, 100, 101, 65535, 4294967295] {
        assert_eq!(decimal_string(n), n.to_string());
    }
}

#[test]
fn string_comparisons() {
    assert!(str_eq("", ""));
    assert!(str_eq("kcli", "kcli"));
    assert!(!str_eq("kcli", "kcli "));
    assert!(!str_eq("kcli", "Kcli"));
    assert!(starts_with("kcli-x86_64", "kcli-"));
    assert!(starts_with("kcli-", "kcli-"));
    assert!(starts_with("anything", ""));
    assert!(!starts_with("kcli", "kcli-"));
    assert!(!starts_with("akcli-", "kcli-"));
    assert!(ends_with("kcli.exe", ".exe"));
    assert!(ends_with(".exe", ".exe"));
    assert!(!ends_with("exe", ".exe"));
    assert!(!ends_with("kcli.exe ", ".exe"));
    assert!(starts_with("größer", "grö"));
    assert!(ends_with("größer", "ßer"));
    assert_eq!(concat2("ab", "cd"), "abcd");
    assert_eq!(concat2("", ""), "");
}

#[test]
fn trimming_follows_unicode_white_space() {
    assert_eq!(trim("  /usr/bin/kubectl \n"), "/usr/bin/kubectl");
    assert_eq!(trim("\t\r\n x y \u{a0}\u{2003}\u{3000}"), "x y");
    assert_eq!(trim(""), "");
    assert_eq!(trim(" \n\t "), "");
    assert_eq!(trim("a"), "a");
    assert_eq!(trim("\u{200b}a"), "\u{200b}a");
    for c in ['\u{9}', '\u{a}', '\u{b}', '\u{c}', '\u{d}', ' ', '\u{85}', '\u{a0}', '\u{1680}',
        '\u{2000}', '\u{200a}', '\u{2028}', '\u{2029}', '\u{202f}', '\u{205f}', '\u{3000}']
    {
        assert!(char_is_whitespace(c));
    }
    for code in 0u32..0x3100 {
        if let Some(c) = char::from_u32(code) {
            assert_eq!(char_is_whitespace(c), c.is_whitespace(), "{code:#x}");
        }
    }
    for text in ["  a b  ", "\n\n", "x\n", "\u{2000}y\u{2001}", " é "] {
        assert_eq!(trim(text), text.trim());
    }
}

#[test]
fn first_lines() {
    assert_eq!(first_line("/usr/local/bin/kcli\n/usr/bin/kcli\n"), "/usr/local/bin/kcli");
    assert_eq!(first_line("C:\\tools\\kcli.exe\r\nC:\\other\\kcli.exe\r\n"), "C:\\tools\\kcli.exe");
    assert_eq!(first_line("  spaced  "), "spaced");
    assert_eq!(first_line(""), "");
    assert_eq!(first_line("\nsecond"), "");
    assert_eq!(first_line("   \nsecond"), "");
    assert_eq!(first_line("only\r"), "only");
    for text in ["a\nb", "\n", " x \r\n y", "no newline", "\r\n", "tab\t\nz"] {
        assert_eq!(first_line(text), text.lines().next().unwrap_or("").trim());
    }
}

#[test]
fn splitting() {
    assert_eq!(split("a:b:c", ':'), vec!["a", "b", "c"]);
    assert_eq!(split("", ':'), vec![""]);
    assert_eq!(split("abc", ':'), vec!["abc"]);
    assert_eq!(split(":", ':'), vec!["", ""]);
    assert_eq!(split("a::b:", ':'), vec!["a", "", "b", ""]);
    assert_eq!(split("/home/u/.kube/config:/etc/kube", ':'), vec!["/home/u/.kube/config", "/etc/kube"]);
    for text in ["x:y", ":::", "münchen:zürich", "a:"] {
        let expected: Vec<String> = text.split(':').map(|p| p.to_string()).collect();
        assert_eq!(split(text, ':'), expected);
    }
}
