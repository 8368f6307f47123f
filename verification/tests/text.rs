use midnight_library::text::{char_is_space, rejection, text_is_blank, text_within_bounds};

#[test]
fn white_space_is_what_the_standard_library_trims() {
    let mut spaces = 0;
    for code in 0..=0x10ffffu32 {
        if let Some(c) = char::from_u32(code) {
            assert_eq!(char_is_space(c), c.is_whitespace(), "U+{code:04X}");
            if char_is_space(c) {
                spaces += 1;
            }
        }
    }
    assert_eq!(spaces, 25);
}

#[test]
fn blank_means_nothing_is_left_after_trimming() {
    for text in [
        "",
        " ",
        "   ",
        "\t\n\r",
        "\u{00a0}\u{2003}\u{3000}",
        "a",
        " a",
        "a ",
        " a ",
        "\u{200b}",
        "\u{feff}",
        " \u{0001} ",
        "\n.\n",
    ] {
        assert_eq!(text_is_blank(text), text.trim().is_empty(), "{text:?}");
    }
    assert!(text_is_blank(&" ".repeat(1000)));
    assert!(!text_is_blank(&format!("{}x", " ".repeat(1000))));
}

#[test]
fn bounds_count_characters() {
    assert!(text_within_bounds("abc", 3));
    assert!(!text_within_bounds("abcd", 3));
    assert!(text_within_bounds("a", usize::MAX));
    assert!(!text_within_bounds("a", 0));
    assert!(!text_within_bounds("", 0));
    assert!(!text_within_bounds("", 10));
    assert!(!text_within_bounds("   ", 10));
    assert!(text_within_bounds(" a ", 3));
    assert!(!text_within_bounds(" a ", 2));
    assert!(text_within_bounds("\u{1f600}\u{1f600}", 2));
    assert!(!text_within_bounds("\u{1f600}\u{1f600}\u{1f600}", 2));
    assert!(text_within_bounds("e\u{0301}", 2));
    assert!(!text_within_bounds("e\u{0301}", 1));
}

#[test]
fn rejection_quotes_the_value_and_names_the_kind() {
    assert_eq!(rejection("x", "thing"), "'x' is not a valid thing.");
    assert_eq!(rejection("", ""), "'' is not a valid .");
    assert_eq!(rejection("it's", "user name"), "'it's' is not a valid user name.");
    assert_eq!(rejection("\u{6d4b}", "book"), "'\u{6d4b}' is not a valid book.");
}
