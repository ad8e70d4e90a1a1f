use holo_dev::property::{
    clean_properties, find_labeled, nonblank_texts, strip_line, value_of_line, MEMBER_LABEL,
    PUBLISHED_LABEL,
};
use holo_dev::text::{begins_with, chars_of, find_char, is_space, text_of, trim, trim_bounds};

fn owned(items: &[&str]) -> Vec<String> {
    items.iter().map(|s| s.to_string()).collect()
}

#[test]
fn trim_removes_ascii_space_on_both_sides() {
    assert_eq!(trim("  \t hello world \r\n"), "hello world");
}

#[test]
fn trim_removes_ideographic_space() {
    assert_eq!(trim("\u{3000}メンバー\u{3000}"), "メンバー");
}

#[test]
fn trim_keeps_inner_space() {
    assert_eq!(trim(" a  b "), "a  b");
}

#[test]
fn trim_of_blank_text_is_empty() {
    assert_eq!(trim(" \n\t\u{a0}\u{2003} "), "");
    assert_eq!(trim(""), "");
}

#[test]
fn trim_agrees_with_the_standard_library() {
    let samples = [
        "",
        " ",
        "a",
        " a",
        "a ",
        "\u{85}x\u{1680}",
        "\u{2000}\u{200a}y\u{2028}\u{2029}",
        "\u{202f}z\u{205f}",
        "\u{200b}w\u{200b}",
        "\u{b}\u{c}v\u{1c}",
    ];
    for s in samples {
        assert_eq!(trim(s), s.trim(), "trimming {s:?}");
    }
}

#[test]
fn is_space_agrees_with_the_standard_library() {
    let mut n: u32 = 0;
    while n <= 0x3100 {
        if let Some(c) = char::from_u32(n) {
            assert_eq!(is_space(c), c.is_whitespace(), "U+{n:04X}");
        }
        n += 1;
    }
}

#[test]
fn chars_of_lists_characters_not_bytes() {
    assert_eq!(chars_of("aメ："), vec!['a', 'メ', '：']);
    assert_eq!(chars_of(""), Vec::<char>::new());
}

#[test]
fn text_of_takes_a_range_of_characters() {
    let chars = chars_of("音源公開日");
    assert_eq!(text_of(&chars, 1, 3), "源公");
    assert_eq!(text_of(&chars, 2, 2), "");
    assert_eq!(text_of(&chars, 0, 5), "音源公開日");
}

#[test]
fn trim_bounds_stay_inside_the_range() {
    let chars = chars_of("ab  cd  ef");
    assert_eq!(trim_bounds(&chars, 2, 8), (4, 6));
    assert_eq!(trim_bounds(&chars, 2, 4), (4, 4));
}

#[test]
fn find_char_gives_the_first_occurrence() {
    let chars = chars_of("a:b:c");
    assert_eq!(find_char(&chars, ':'), Some(1));
    assert_eq!(find_char(&chars, '：'), None);
    assert_eq!(find_char(&chars, 'c'), Some(4));
}

#[test]
fn begins_with_compares_characters() {
    let line = chars_of("メンバー：A");
    assert!(begins_with(&line, &chars_of(MEMBER_LABEL)));
    assert!(!begins_with(&line, &chars_of(PUBLISHED_LABEL)));
    assert!(begins_with(&line, &chars_of("")));
    assert!(!begins_with(&chars_of("メン"), &chars_of(MEMBER_LABEL)));
}

#[test]
fn member_value_follows_the_fullwidth_colon() {
    assert_eq!(value_of_line("メンバー：A、B、C"), Some("A、B、C".to_string()));
}

#[test]
fn value_is_trimmed() {
    assert_eq!(value_of_line("メンバー：  A \u{3000}"), Some("A".to_string()));
}

#[test]
fn ascii_colon_is_preferred_to_fullwidth_colon() {
    assert_eq!(value_of_line("メンバー：A:B"), Some("B".to_string()));
    assert_eq!(value_of_line("key:x：y"), Some("x：y".to_string()));
}

#[test]
fn value_is_all_that_follows_the_first_separator() {
    assert_eq!(value_of_line("a:b:c"), Some("b:c".to_string()));
    assert_eq!(value_of_line("メンバー：A：B"), Some("A：B".to_string()));
}

#[test]
fn line_without_separator_has_no_value() {
    assert_eq!(value_of_line("no separator here"), None);
    assert_eq!(value_of_line(""), None);
}

#[test]
fn value_may_be_empty() {
    assert_eq!(value_of_line("メンバー："), Some(String::new()));
    assert_eq!(value_of_line(":"), Some(String::new()));
}

#[test]
fn trailing_comma_is_stripped() {
    assert_eq!(strip_line("ジャンル：ロック、"), "ジャンル：ロック");
    assert_eq!(strip_line("genre:rock,"), "genre:rock");
}

#[test]
fn trailing_colon_is_stripped() {
    assert_eq!(strip_line("Live："), "Live");
    assert_eq!(strip_line("Live:"), "Live");
}

#[test]
fn comma_then_colon_are_both_stripped() {
    assert_eq!(strip_line("Live：、"), "Live");
    assert_eq!(strip_line("Live:,"), "Live");
    assert_eq!(strip_line("Live：,"), "Live");
}

#[test]
fn at_most_one_comma_and_one_colon_are_stripped() {
    assert_eq!(strip_line("a、、"), "a、");
    assert_eq!(strip_line("a：："), "a：");
    assert_eq!(strip_line("a：：、"), "a：");
    assert_eq!(strip_line("a、："), "a、");
    assert_eq!(strip_line("a,:,"), "a,");
}

#[test]
fn line_without_trailing_noise_is_kept() {
    assert_eq!(strip_line("作詞：X"), "作詞：X");
    assert_eq!(strip_line(""), "");
}

#[test]
fn line_of_noise_becomes_empty() {
    assert_eq!(strip_line("、"), "");
    assert_eq!(strip_line("："), "");
    assert_eq!(strip_line(":,"), "");
}

#[test]
fn nonblank_texts_trims_and_drops_blank_ones() {
    let texts = owned(&["\n  a ", "   ", "", "b", "\u{3000}"]);
    assert_eq!(nonblank_texts(&texts), owned(&["a", "b"]));
    assert_eq!(nonblank_texts(&Vec::new()), Vec::<String>::new());
}

#[test]
fn find_labeled_gives_the_first_line_with_the_label() {
    let props = owned(&["作詞：X", "メンバー：A", "メンバー：B"]);
    assert_eq!(find_labeled(&props, MEMBER_LABEL), Some(1));
    assert_eq!(find_labeled(&props, PUBLISHED_LABEL), None);
    assert_eq!(find_labeled(&Vec::new(), MEMBER_LABEL), None);
}

#[test]
fn label_must_stand_at_the_front() {
    let props = owned(&["x メンバー：A", "メンバー:A"]);
    assert_eq!(find_labeled(&props, MEMBER_LABEL), None);
}

#[test]
fn clean_properties_strips_and_drops_empty_lines() {
    let props = owned(&["ジャンル：ロック、", "、", "Live：、", "作曲：Y", ":"]);
    assert_eq!(clean_properties(&props), owned(&["ジャンル：ロック", "Live", "作曲：Y"]));
}
