use adb_sync::files::{split_file_list, whitespace};

fn std_words(text: &str) -> Vec<String> {
    text.split_whitespace().map(|word| word.to_string()).collect()
}

#[test]
fn newline_separated_listing_is_split_in_order() {
    assert_eq!(split_file_list("a.jpg\nb.jpg\n"), vec!["a.jpg", "b.jpg"]);
}

#[test]
fn empty_listing_has_no_files() {
    assert!(split_file_list("").is_empty());
}

#[test]
fn blank_listing_has_no_files() {
    assert!(split_file_list(" ").is_empty());
    assert!(split_file_list("\n").is_empty());
    assert!(split_file_list(" \t\r\n\u{0B}\u{0C} \n").is_empty());
    assert!(split_file_list("\u{A0}\u{2003}\u{3000}").is_empty());
}

#[test]
fn any_amount_of_whitespace_separates_two_files() {
    assert_eq!(split_file_list("  a \t\t b\r\n\r\nc"), vec!["a", "b", "c"]);
    assert_eq!(split_file_list("one"), vec!["one"]);
    assert_eq!(split_file_list("one "), vec!["one"]);
    assert_eq!(split_file_list(" one"), vec!["one"]);
}

#[test]
fn repeated_files_are_kept() {
    assert_eq!(split_file_list("a a b a"), vec!["a", "a", "b", "a"]);
}

#[test]
fn characters_beyond_ascii_are_kept_whole() {
    assert_eq!(
        split_file_list("caf\u{e9}.png\u{2028}\u{1F600}.jpg\u{85}x\u{FFFD}y"),
        vec!["caf\u{e9}.png", "\u{1F600}.jpg", "x\u{FFFD}y"]
    );
    assert_eq!(split_file_list("a\u{200B}b"), vec!["a\u{200B}b"]);
}

#[test]
fn splitting_agrees_with_the_standard_library() {
    for text in [
        "",
        " ",
        "a",
        "./DCIM/1.jpg\n./DCIM/2.jpg\n",
        "\t x\u{1680}y\u{2000}z\u{200A}w\u{202F}v\u{205F}u \u{180E}t",
        "\u{1C}a\u{1F}b",
        "tail\n\n\n",
    ] {
        assert_eq!(split_file_list(text), std_words(text), "on {text:?}");
    }
}

#[test]
fn whitespace_is_the_unicode_property() {
    let mut code: u32 = 0;
    while code <= 0x10FFFF {
        if let Some(c) = char::from_u32(code) {
            assert_eq!(whitespace(c), c.is_whitespace(), "at U+{code:04X}");
        }
        code += 1;
    }
}
