use real_estate_bot::html::escape_html;
use real_estate_bot::numbers::{format_price, i64_to_text, parse_i32, parse_i64, parse_u16};
use real_estate_bot::text::{char_is_whitespace, eq_ignore_ascii_case, is_blank, str_eq, strip_prefix, trim};

#[test]
fn trim_removes_surrounding_whitespace() {
    assert_eq!(trim("  Казань \t\n"), "Казань");
    assert_eq!(trim("a b"), "a b");
    assert_eq!(trim("\u{A0}x\u{2003}"), "x");
    assert_eq!(trim("   "), "");
    assert_eq!(trim(""), "");
}

#[test]
fn blank_text_is_whitespace_only() {
    assert!(is_blank(""));
    assert!(is_blank(" \t\r\n"));
    assert!(!is_blank(" . "));
}

#[test]
fn strip_prefix_gives_the_rest() {
    assert_eq!(strip_prefix("city:Москва", "city:"), Some("Москва".to_string()));
    assert_eq!(strip_prefix("city:", "city:"), Some(String::new()));
    assert_eq!(strip_prefix("cit", "city:"), None);
    assert_eq!(strip_prefix("rooms:1", "city:"), None);
}

#[test]
fn ascii_case_comparison_leaves_cyrillic_alone() {
    assert!(eq_ignore_ascii_case("нет", "нет"));
    assert!(!eq_ignore_ascii_case("НЕТ", "нет"));
    assert!(eq_ignore_ascii_case("No", "nO"));
    assert!(!eq_ignore_ascii_case("no", "nop"));
    assert!(str_eq("abc", "abc"));
    assert!(!str_eq("abc", "abd"));
}

#[test]
fn integers_are_read_as_from_str_reads_them() {
    assert_eq!(parse_i64("3000000"), Some(3_000_000));
    assert_eq!(parse_i64("+12"), Some(12));
    assert_eq!(parse_i64("-9223372036854775808"), Some(i64::MIN));
    assert_eq!(parse_i64("9223372036854775808"), None);
    assert_eq!(parse_i64(" 5"), None);
    assert_eq!(parse_i64("-"), None);
    assert_eq!(parse_i64(""), None);
    assert_eq!(parse_i32("5"), Some(5));
    assert_eq!(parse_i32("2147483648"), None);
    assert_eq!(parse_u16("8080"), Some(8080));
    assert_eq!(parse_u16("+80"), Some(80));
    assert_eq!(parse_u16("-0"), None);
    assert_eq!(parse_u16("65536"), None);
}

#[test]
fn integers_are_written_in_decimal() {
    assert_eq!(i64_to_text(0), "0");
    assert_eq!(i64_to_text(42), "42");
    assert_eq!(i64_to_text(-7), "-7");
    assert_eq!(i64_to_text(i64::MIN), "-9223372036854775808");
    assert_eq!(i64_to_text(i64::MAX), "9223372036854775807");
}

#[test]
fn prices_are_grouped_in_threes() {
    assert_eq!(format_price(0), "0");
    assert_eq!(format_price(999), "999");
    assert_eq!(format_price(1000), "1 000");
    assert_eq!(format_price(3_000_000), "3 000 000");
    assert_eq!(format_price(999_999_999), "999 999 999");
    assert_eq!(format_price(12_345), "12 345");
    assert_eq!(format_price(-123_456), "- 123 456");
    assert_eq!(format_price(-1000), "-1 000");
}

#[test]
fn price_without_spaces_is_its_decimal_text() {
    for p in [0i64, 7, 1234, -98765, 1_000_000_000, i64::MIN, i64::MAX] {
        assert_eq!(format_price(p).replace(' ', ""), p.to_string());
    }
}

#[test]
fn html_special_characters_are_escaped() {
    assert_eq!(escape_html("a & b"), "a &amp; b");
    assert_eq!(escape_html("<b>\"x\"</b>"), "&lt;b&gt;&quot;x&quot;&lt;/b&gt;");
    assert_eq!(escape_html("Дом 'у моря'"), "Дом 'у моря'");
    assert_eq!(escape_html("&amp;"), "&amp;amp;");
}

#[test]
fn escaped_text_has_no_markup_characters() {
    let e = escape_html("<script>alert(\"1\")</script> & more >");
    assert!(!e.contains('<') && !e.contains('>') && !e.contains('"'));
}

#[test]
fn white_space_is_the_unicode_property() {
    for c in (0u32..=0x10FFFF).filter_map(char::from_u32) {
        assert_eq!(char_is_whitespace(c), c.is_whitespace(), "{:?}", c);
    }
    assert!(is_blank("\u{3000}\u{85}\u{2029}"));
    assert!(!is_blank("\u{180E}"));
}

#[test]
fn escaped_text_reads_back() {
    for s in ["", "a & b", "<b>\"x\"</b>", "&amp;", "&lt;&gt;", "Дом & <сад>"] {
        let back = escape_html(s)
            .replace("&quot;", "\"")
            .replace("&gt;", ">")
            .replace("&lt;", "<")
            .replace("&amp;", "&");
        assert_eq!(back, s);
    }
}

#[test]
fn price_groups_have_three_digits_after_the_first() {
    for p in [0i64, 12, 999, 1000, 12_345, 123_456, 1_234_567, -1000, i64::MAX, i64::MIN] {
        let t = format_price(p);
        let groups: Vec<&str> = t.split(' ').collect();
        assert!((1..=3).contains(&groups[0].chars().count()));
        for g in &groups[1..] {
            assert_eq!(g.chars().count(), 3);
        }
    }
}
