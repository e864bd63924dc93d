use dockyard::error::Error;
use dockyard::text::{
    ascii_space, chars_of, decimal_string, is_listed, last_token_of, remove_char, replace_char,
    same_text, signed_decimal_string, space, string_of, trim, trim_bounds,
};

#[test]
fn last_token_is_the_last_word_of_the_line() {
    let line = "INFO Successfully backed up directory /input to 2020-09-01T10:00:00+00:00.tgz\n";
    assert_eq!(last_token_of(line), Some("2020-09-01T10:00:00+00:00.tgz".to_string()));
    assert_eq!(last_token_of("one"), Some("one".to_string()));
    assert_eq!(last_token_of("  a\tb  \r\n"), Some("b".to_string()));
}

#[test]
fn last_token_of_blank_line_is_none() {
    assert_eq!(last_token_of(""), None);
    assert_eq!(last_token_of("   \t\n"), None);
    assert_eq!(last_token_of("\u{a0}\u{2003}"), None);
}

#[test]
fn last_token_splits_on_ascii_white_space_only() {
    // A vertical tab is trimmed at the ends but does not separate words.
    assert_eq!(last_token_of("x a\u{b}b\u{b}"), Some("a\u{b}b".to_string()));
    assert_eq!(last_token_of("a\u{a0}b"), Some("a\u{a0}b".to_string()));
}

#[test]
fn trim_removes_unicode_white_space_at_both_ends() {
    assert_eq!(trim("\u{a0} hi there \u{2003}\n"), "hi there");
    assert_eq!(trim("\u{a0} hi there \u{2003}\n"), "\u{a0} hi there \u{2003}\n".trim());
    assert_eq!(trim(""), "");
    assert_eq!(trim(" \t "), "");
    assert_eq!(trim("x"), "x");
}

#[test]
fn trim_bounds_delimit_the_text() {
    let chars: Vec<char> = "  ab c ".chars().collect();
    assert_eq!(trim_bounds(&chars), (2, 6));
    let blank: Vec<char> = "   ".chars().collect();
    let (a, b) = trim_bounds(&blank);
    assert_eq!(a, b);
}

#[test]
fn decimal_strings_are_exact() {
    assert_eq!(decimal_string(0), "0");
    assert_eq!(decimal_string(7), "7");
    assert_eq!(decimal_string(10), "10");
    assert_eq!(decimal_string(1234567890), "1234567890");
    assert_eq!(decimal_string(u64::MAX), "18446744073709551615");
}

#[test]
fn signed_decimal_strings_are_exact() {
    assert_eq!(signed_decimal_string(0), "0");
    assert_eq!(signed_decimal_string(-1), "-1");
    assert_eq!(signed_decimal_string(137), "137");
    assert_eq!(signed_decimal_string(i64::MAX), "9223372036854775807");
    assert_eq!(signed_decimal_string(i64::MIN), "-9223372036854775808");
}

#[test]
fn replace_and_remove_characters() {
    assert_eq!(replace_char("/var/lib/data", '/', ':'), ":var:lib:data");
    assert_eq!(replace_char("plain", '/', ':'), "plain");
    assert_eq!(replace_char("", '/', ':'), "");
    assert_eq!(remove_char("/container", '/'), "container");
    assert_eq!(remove_char("a/b/c", '/'), "abc");
    assert_eq!(remove_char("///", '/'), "");
}

#[test]
fn listed_names_are_found() {
    let names = vec!["one".to_string(), "two".to_string()];
    assert!(is_listed(&names, "one"));
    assert!(is_listed(&names, "two"));
    assert!(!is_listed(&names, "three"));
    assert!(!is_listed(&names, "on"));
    assert!(!is_listed(&Vec::new(), "one"));
}

#[test]
fn same_text_compares_characters() {
    assert!(same_text("bind", "bind"));
    assert!(!same_text("bind", "Bind"));
    assert!(!same_text("bind", "bin"));
    assert!(same_text("", ""));
}

#[test]
fn error_messages() {
    assert_eq!(Error::NonZeroExit(3).message(), "Docker returned non-zero exit code: 3");
    assert_eq!(Error::NonZeroExit(-1).message(), "Docker returned non-zero exit code: -1");
    assert_eq!(Error::EmptyBackupFile.message(), "Found empty backup file");
    assert_eq!(
        Error::UnresolvableArchivePath.message(),
        "Unable to resolve the archive path from the output"
    );
    assert_eq!(Error::InvalidEncoding.message(), "Unable to decode contents as base64");
    assert_eq!(Error::InvalidMount.message(), "Mount has no name or source");
    assert_eq!(Error::MissingImage.message(), "Backup records no image");
    assert_eq!(Error::OutOfTurn.message(), "No helper was awaited");
}

#[test]
fn white_space_is_what_std_calls_white_space() {
    let mut code: u32 = 0;
    while code <= 0x10FFFF {
        if let Some(c) = char::from_u32(code) {
            assert_eq!(space(c), c.is_whitespace(), "U+{:04X}", code);
            assert_eq!(ascii_space(c), c.is_ascii_whitespace(), "U+{:04X}", code);
        }
        code += 1;
    }
}

#[test]
fn last_token_agrees_with_std_on_samples() {
    let samples = [
        "",
        " ",
        "a",
        " a ",
        "a b",
        "a\tb\n",
        "a\u{b}b \u{b}",
        "\u{2003}a b\u{a0}c\u{3000}",
        "a  b   c    ",
        "\r\n",
        "x\u{c}y",
        "p/q/r.tgz\r\n",
    ];
    for sample in samples {
        let expected = sample.trim().split_ascii_whitespace().last().map(|s| s.to_string());
        assert_eq!(last_token_of(sample), expected, "{:?}", sample);
        assert_eq!(trim(sample), sample.trim(), "{:?}", sample);
    }
}

#[test]
fn characters_and_strings_convert_both_ways() {
    assert_eq!(chars_of("a\u{e9}\u{1F600}"), vec!['a', '\u{e9}', '\u{1F600}']);
    assert_eq!(string_of(&vec!['a', '\u{e9}', '\u{1F600}']), "a\u{e9}\u{1F600}");
    assert!(chars_of("").is_empty());
    assert_eq!(string_of(&Vec::new()), "");
}
