use point_quaffer::text::{clean, contains, strip_repeated_suffix};

#[test]
fn contains_finds_a_fragment_anywhere() {
    assert!(contains("OGC WKT Coordinate System", "WKT"));
    assert!(contains("WKT", "WKT"));
    assert!(contains("xWKT", "WKT"));
    assert!(contains("WKTx", "WKT"));
    assert!(contains("WWKT", "WKT"));
    assert!(!contains("WK", "WKT"));
    assert!(!contains("wkt", "WKT"));
    assert!(!contains("W KT", "WKT"));
    assert!(!contains("", "WKT"));
    assert!(contains("", ""));
    assert!(contains("abc", ""));
    assert!(contains("h\u{e9}llo w\u{f6}rld", "w\u{f6}r"));
}

#[test]
fn clean_strips_white_space_around_and_nul_padding_behind() {
    assert_eq!(clean("  abc \t\r\n"), "abc");
    assert_eq!(clean("abc\0\0\0"), "abc");
    assert_eq!(clean(" \u{c}abc\0"), "abc");
    assert_eq!(clean("a b"), "a b");
    assert_eq!(clean(""), "");
    assert_eq!(clean("   "), "");
    assert_eq!(clean("\0\0"), "");
    assert_eq!(clean(" \0 "), "");
}

#[test]
fn clean_strips_padding_and_white_space_behind_in_any_order() {
    assert_eq!(clean("abc \0"), "abc");
    assert_eq!(clean("abc\0 "), "abc");
    assert_eq!(clean(" abc \0\0"), "abc");
    assert_eq!(clean("abc\0 \0\n\0"), "abc");
}

#[test]
fn clean_keeps_what_is_no_padding() {
    // NUL is padding only behind the text; a vertical tab is no white space.
    assert_eq!(clean("\0abc"), "\0abc");
    assert_eq!(clean(" \0abc"), "\0abc");
    assert_eq!(clean("a \0 b"), "a \0 b");
    assert_eq!(clean("abc\0\u{b}"), "abc\0\u{b}");
    assert_eq!(clean("\u{a0}abc\u{a0}"), "\u{a0}abc\u{a0}");
}

#[test]
fn clean_leaves_a_cleaned_text_as_it_is() {
    for sample in SAMPLES {
        let once = clean(sample);
        assert_eq!(clean(&once), once);
        assert!(!once.starts_with(|c: char| c.is_ascii_whitespace()));
        assert!(!once.ends_with(|c: char| c == '\0' || c.is_ascii_whitespace()));
    }
}

#[test]
fn strip_repeated_suffix_removes_every_repetition() {
    assert_eq!(strip_repeated_suffix("tile.laz", ".laz"), "tile");
    assert_eq!(strip_repeated_suffix("tile.laz.laz", ".laz"), "tile");
    assert_eq!(strip_repeated_suffix("tile.las", ".laz"), "tile.las");
    assert_eq!(strip_repeated_suffix(".laz", ".laz"), "");
    assert_eq!(strip_repeated_suffix("laz", ".laz"), "laz");
    assert_eq!(strip_repeated_suffix("tile.laz.bak", ".laz"), "tile.laz.bak");
    assert_eq!(strip_repeated_suffix("tile", ""), "tile");
    assert_eq!(strip_repeated_suffix("", ".laz"), "");
}

const SAMPLES: [&str; 16] = [
    "",
    " ",
    "\0",
    "abc",
    "  abc  ",
    "\t\r\n\u{c}abc\u{c}\n\r\t",
    "abc\0\0",
    "abc \0",
    "abc\0 ",
    " \0 ",
    "\0 \0",
    "\u{b}abc\u{b}",
    "\u{a0}abc\u{a0}",
    "PROJCS[\"NAD83 / UTM zone 10N\"]\0\0\0\0",
    "  h\u{e9}llo \u{1f30d}\0",
    "a.laz.laz.laz",
];

#[test]
fn clean_agrees_with_trimming_by_the_standard_library() {
    for sample in SAMPLES {
        let padding = |c: char| c == '\0' || c.is_ascii_whitespace();
        assert_eq!(clean(sample), sample.trim_end_matches(padding).trim_ascii_start());
    }
}

#[test]
fn contains_agrees_with_the_standard_library() {
    for hay in SAMPLES {
        for needle in ["", " ", "\0", "abc", "bc", "WKT", ".laz", "\u{e9}", "NAD83", "z.l"] {
            assert_eq!(contains(hay, needle), hay.contains(needle));
        }
    }
}

#[test]
fn strip_repeated_suffix_agrees_with_the_standard_library() {
    for text in SAMPLES {
        for suffix in [".laz", "z", "\0", " ", "abc", "\u{1f30d}\0"] {
            assert_eq!(strip_repeated_suffix(text, suffix), text.trim_end_matches(suffix));
        }
    }
}
