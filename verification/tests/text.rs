use yt_dlp_gui::text::contains_char;
use yt_dlp_gui::text::decimal_string;
use yt_dlp_gui::text::ends_with;
use yt_dlp_gui::text::find;
use yt_dlp_gui::text::is_blank;
use yt_dlp_gui::text::join_strings;
use yt_dlp_gui::text::signed_decimal_string;
use yt_dlp_gui::text::starts_with;
use yt_dlp_gui::text::str_eq;
use yt_dlp_gui::text::to_chars;
use yt_dlp_gui::text::white_space;

#[test]
fn to_chars_gives_every_character_once() {
    assert_eq!(to_chars(""), Vec::<char>::new());
    assert_eq!(to_chars("aé終"), vec!['a', 'é', '終']);
}

#[test]
fn str_eq_compares_contents() {
    assert!(str_eq("", ""));
    assert!(str_eq("yt-dlp", "yt-dlp"));
    assert!(!str_eq("yt-dlp", "yt-dlq"));
    assert!(!str_eq("yt-dlp", "yt-dl"));
    assert!(!str_eq("é", "e"));
}

#[test]
fn white_space_follows_unicode() {
    for c in [' ', '\t', '\n', '\r', '\u{0B}', '\u{0C}', '\u{85}', '\u{A0}', '\u{1680}', '\u{2000}', '\u{200A}', '\u{2028}', '\u{2029}', '\u{202F}', '\u{205F}', '\u{3000}'] {
        assert!(white_space(c), "{:?}", c);
        assert!(c.is_whitespace());
    }
    for c in ['a', '0', '\u{200B}', '\u{180E}', '\u{FEFF}', '\u{08}', '\u{0E}'] {
        assert!(!white_space(c), "{:?}", c);
        assert!(!c.is_whitespace());
    }
}

#[test]
fn white_space_agrees_with_std_on_every_character() {
    let mut code: u32 = 0;
    while code <= 0x10FFFF {
        if let Some(c) = char::from_u32(code) {
            assert_eq!(white_space(c), c.is_whitespace(), "U+{:04X}", code);
        }
        code += 1;
    }
}

#[test]
fn is_blank_is_what_trim_leaves_empty() {
    assert!(is_blank(""));
    assert!(is_blank("   "));
    assert!(is_blank(" \t\r\n\u{3000}"));
    assert!(!is_blank(" a "));
    assert!(!is_blank("/usr/bin/yt-dlp"));
}

#[test]
fn starts_with_and_ends_with() {
    assert!(starts_with("yt-dlp.exe", "yt-dlp"));
    assert!(starts_with("yt-dlp", "yt-dlp"));
    assert!(starts_with("yt-dlp", ""));
    assert!(!starts_with("yt-dl", "yt-dlp"));
    assert!(!starts_with("xyt-dlp", "yt-dlp"));
    assert!(ends_with("yt-dlp.exe", ".exe"));
    assert!(ends_with(".exe", ".exe"));
    assert!(ends_with("abc", ""));
    assert!(!ends_with("exe", ".exe"));
    assert!(!ends_with("yt-dlp.exe.txt", ".exe"));
}

#[test]
fn contains_char_finds_a_dot() {
    assert!(contains_char("ffmpeg.exe", '.'));
    assert!(!contains_char("ffmpeg", '.'));
    assert!(!contains_char("", '.'));
}

#[test]
fn decimal_string_writes_digits() {
    assert_eq!(decimal_string(0), "0");
    assert_eq!(decimal_string(5), "5");
    assert_eq!(decimal_string(10), "10");
    assert_eq!(decimal_string(8193), "8193");
    assert_eq!(decimal_string(u64::MAX), "18446744073709551615");
}

#[test]
fn signed_decimal_string_writes_the_sign() {
    assert_eq!(signed_decimal_string(0), "0");
    assert_eq!(signed_decimal_string(-1), "-1");
    assert_eq!(signed_decimal_string(127), "127");
    assert_eq!(signed_decimal_string(i64::MAX), "9223372036854775807");
    assert_eq!(signed_decimal_string(i64::MIN), "-9223372036854775808");
}

#[test]
fn join_strings_puts_the_separator_between() {
    let none: Vec<String> = Vec::new();
    assert_eq!(join_strings(&none, " "), "");
    assert_eq!(join_strings(&vec!["a".to_string()], " "), "a");
    assert_eq!(
        join_strings(&vec!["a".to_string(), "".to_string(), "c".to_string()], ", "),
        "a, , c"
    );
}

#[test]
fn find_gives_the_first_place() {
    let text = to_chars("ab\r\n\r\ncd\r\n\r\n");
    let pattern = to_chars("\r\n\r\n");
    assert_eq!(find(&text, &pattern), Some(2));
    assert_eq!(find(&to_chars("abc"), &pattern), None);
    assert_eq!(find(&to_chars("\r\n\r"), &pattern), None);
    assert_eq!(find(&to_chars("abc"), &to_chars("")), Some(0));
    assert_eq!(find(&to_chars(""), &to_chars("")), Some(0));
    assert_eq!(find(&to_chars("aaab"), &to_chars("ab")), Some(2));
}
