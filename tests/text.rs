use polydb::text::{split_words, trim_text};

#[test]
fn trimming_matches_unicode_white_space() {
    assert_eq!(trim_text("  a b \t\n"), "a b");
    assert_eq!(trim_text("\u{2003}x\u{3000}"), "x");
    assert_eq!(trim_text(""), "");
    assert_eq!(trim_text(" \u{85} "), "");
}

#[test]
fn splitting_matches_split_whitespace() {
    for s in ["", "a", "  a  bb\tccc\n", "x\u{a0}y", "\u{2028}lead and trail\u{2029}"] {
        let expected: Vec<String> = s.split_whitespace().map(|w| w.to_string()).collect();
        assert_eq!(split_words(s), expected);
    }
}
