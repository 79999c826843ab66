use compress_dispatch::text::{chars_of, joined, copy_strings, starts_with, text_eq, trim};

#[test]
fn chars_are_listed_in_order() {
    assert_eq!(chars_of("a%é"), vec!['a', '%', 'é']);
    assert_eq!(chars_of(""), Vec::<char>::new());
}

#[test]
fn texts_are_equal_when_all_characters_are() {
    assert!(text_eq("zstd", "zstd"));
    assert!(text_eq("", ""));
    assert!(!text_eq("zstd", "zst"));
    assert!(!text_eq("zstd", "zstD"));
    assert!(!text_eq("", "a"));
}

#[test]
fn prefix_is_found_at_the_start_only() {
    assert!(starts_with(".tmp_folder.tar", ".tmp_"));
    assert!(starts_with(".tmp_", ".tmp_"));
    assert!(starts_with("anything", ""));
    assert!(!starts_with("a.tmp_b", ".tmp_"));
    assert!(!starts_with(".tmp", ".tmp_"));
    assert!(!starts_with("", ".tmp_"));
}

#[test]
fn joined_puts_two_texts_together() {
    assert_eq!(joined("Input file does not exist: ", "/tmp/x"), "Input file does not exist: /tmp/x");
    assert_eq!(joined("", ""), "");
}

#[test]
fn copy_keeps_every_string() {
    let flags = vec!["-19".to_string(), "--long".to_string(), "".to_string()];
    assert_eq!(copy_strings(&flags), flags);
    assert_eq!(copy_strings(&Vec::new()), Vec::<String>::new());
}

#[test]
fn trim_removes_white_space_at_both_ends() {
    assert_eq!(trim("  12% \t"), "12%");
    assert_eq!(trim("\u{a0}x y\u{2003}"), "x y");
    assert_eq!(trim("x"), "x");
    assert_eq!(trim(""), "");
    assert_eq!(trim(" \t\r\n"), "");
}

#[test]
fn trim_agrees_with_the_standard_library() {
    let samples = ["  a  ", "\u{feff} a", "\u{200b}a\u{200b}", "\u{3000}全角\u{3000}", "a\u{85}", "\u{1680}b"];
    for s in samples {
        assert_eq!(trim(s), s.trim());
    }
}
