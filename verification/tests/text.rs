use prompt_footer::left_side::teammates_label;
use prompt_footer::text::{chars_of, is_white_space, join_parts, str_is_blank, trim_bounds};

#[test]
fn white_space_follows_the_unicode_property() {
    for c in ['\t', '\n', '\u{b}', '\u{c}', '\r', ' ', '\u{85}', '\u{a0}', '\u{1680}', '\u{2000}', '\u{200a}', '\u{2028}', '\u{2029}', '\u{202f}', '\u{205f}', '\u{3000}'] {
        assert!(is_white_space(c), "{c:?}");
        assert_eq!(is_white_space(c), c.is_whitespace());
    }
    for c in ['a', '\u{200b}', '\u{feff}', '\u{180e}', '日', '\0'] {
        assert!(!is_white_space(c), "{c:?}");
        assert_eq!(is_white_space(c), c.is_whitespace());
    }
}

#[test]
fn trim_bounds_match_str_trim() {
    for s in ["", "   ", " a ", "\u{3000}日本\u{a0}", "x", "a b\t"] {
        let chars = chars_of(s);
        let (start, end) = trim_bounds(&chars);
        let trimmed: String = chars[start..end].iter().collect();
        assert_eq!(trimmed, s.trim());
        assert_eq!(str_is_blank(s), s.trim().is_empty());
    }
}

#[test]
fn decimal_counts_in_labels() {
    assert_eq!(teammates_label(0), "0 teammates");
    assert_eq!(teammates_label(10), "10 teammates");
    assert_eq!(teammates_label(907), "907 teammates");
}

#[test]
fn parts_join_with_single_spaces() {
    assert_eq!(join_parts(&vec![]), "");
    assert_eq!(join_parts(&vec!["a".to_string()]), "a");
    assert_eq!(
        join_parts(&vec!["a".to_string(), "".to_string(), "c".to_string()]),
        "a  c"
    );
}
