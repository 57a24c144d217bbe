use touchhle::foundation::ns_number_formatter::{
    clean_number_string, nil, number_string_style, white_space, NSNumberFormatterHostObject,
    NumberStringStyle, NS_NUMBER_FORMATTER_BEHAVIOR_10_4,
};

fn cleaned(s: &str) -> String {
    clean_number_string(s).into_iter().collect()
}

#[test]
fn new_formatter_defaults() {
    let f = NSNumberFormatterHostObject::new();
    assert_eq!(f.formatter_behavior, 1040);
    assert_eq!(NS_NUMBER_FORMATTER_BEHAVIOR_10_4, 1040);
    assert_eq!(f.maximum_integer_digits, 42);
    assert_eq!(f.minimum_integer_digits, 1);
    assert_eq!(f.grouping_size, 3);
    assert_eq!(f.secondary_grouping_size, 0);
    assert_eq!(f.number_style, 0);
    assert_eq!(f.locale, nil);
    assert_eq!(f.multiplier, nil);
    assert!(!f.uses_grouping_separator);
    assert!(!f.is_lenient);
    assert!(!f.generates_decimal_numbers);
}

#[test]
fn set_formatter_behavior_resolves_the_default() {
    let mut f = NSNumberFormatterHostObject::new();
    f.set_formatter_behavior(1000, 1040);
    assert_eq!(f.formatter_behavior, 1000);
    f.set_formatter_behavior(0, 1000);
    assert_eq!(f.formatter_behavior, 1000);
    f.set_formatter_behavior(0, 1040);
    assert_eq!(f.formatter_behavior, 1040);
    let mut g = NSNumberFormatterHostObject::new();
    g.set_formatter_behavior(0, 1040);
    assert_eq!(g, NSNumberFormatterHostObject::new());
}

#[test]
fn dealloc_releases_every_object_property_in_order() {
    let mut f = NSNumberFormatterHostObject::new();
    f.locale = 1;
    f.positive_format = 2;
    f.negative_format = 3;
    f.positive_prefix = 4;
    f.positive_suffix = 5;
    f.negative_prefix = 6;
    f.negative_suffix = 7;
    f.currency_symbol = 8;
    f.currency_code = 9;
    f.international_currency_symbol = 10;
    f.currency_decimal_separator = 11;
    f.currency_grouping_separator = 12;
    f.decimal_separator = 13;
    f.not_a_number_symbol = 14;
    f.plus_sign = 15;
    f.minus_sign = 16;
    f.padding_character = 17;
    f.percent_symbol = 18;
    f.per_mill_symbol = 19;
    f.zero_symbol = 20;
    f.nil_symbol = 21;
    f.rounding_increment = 22;
    f.multiplier = 23;
    f.grouping_separator = 99;
    assert_eq!(f.ids_to_release(), (1..=23).collect::<Vec<u32>>());
    assert_eq!(NSNumberFormatterHostObject::new().ids_to_release(), vec![nil; 23]);
}

#[test]
fn string_styles() {
    assert_eq!(number_string_style(0), NumberStringStyle::Plain);
    assert_eq!(number_string_style(1), NumberStringStyle::Plain);
    assert_eq!(number_string_style(2), NumberStringStyle::Currency);
    assert_eq!(number_string_style(3), NumberStringStyle::Percent);
    assert_eq!(number_string_style(4), NumberStringStyle::Scientific);
    assert_eq!(number_string_style(5), NumberStringStyle::Plain);
}

#[test]
fn cleaning_removes_currency_grouping_and_percent_signs() {
    assert_eq!(cleaned("$1,234.50"), "1234.50");
    assert_eq!(cleaned("12%"), "12");
    assert_eq!(cleaned("1$2,3%4"), "1234");
    assert_eq!(cleaned("$,%"), "");
    assert_eq!(cleaned(""), "");
}

#[test]
fn cleaning_trims_unicode_whitespace_after_removing_signs() {
    assert_eq!(cleaned("  3.5 \n"), "3.5");
    assert_eq!(cleaned(" $ 7 % "), "7");
    assert_eq!(cleaned("\u{3000}5\u{a0}"), "5");
    assert_eq!(cleaned("1 000"), "1 000");
    assert_eq!(cleaned(" \t "), "");
    assert_eq!(cleaned("\u{200b}1"), "\u{200b}1");
    for s in [" $1, 2% ", "\u{2028}-4e3\u{85}", "abc", "%%x%%"] {
        assert_eq!(cleaned(s), s.replace(['$', ',', '%'], "").trim());
    }
}

#[test]
fn white_space_is_unicode_white_space() {
    for c in ['\t', '\n', '\u{b}', '\u{c}', '\r', ' ', '\u{85}', '\u{a0}', '\u{1680}', '\u{2000}', '\u{200a}', '\u{2028}', '\u{2029}', '\u{202f}', '\u{205f}', '\u{3000}'] {
        assert!(white_space(c));
        assert!(c.is_whitespace());
    }
    for c in ['a', '0', '\u{200b}', '\u{1c}', '\u{feff}', '$'] {
        assert!(!white_space(c));
        assert_eq!(c.is_whitespace(), white_space(c));
    }
}

#[test]
fn white_space_matches_std_for_every_char() {
    for c in char::MIN..=char::MAX {
        assert_eq!(white_space(c), c.is_whitespace(), "{:?}", c);
    }
}

#[test]
fn cleaned_strings_are_bare() {
    for s in [" $1,234.5% ", "\u{3000}$\u{a0}9\u{2029}", "%,$", " a b ", "$ , %"] {
        let r = clean_number_string(s);
        assert!(r.iter().all(|c| *c != '$' && *c != ',' && *c != '%'));
        if let (Some(first), Some(last)) = (r.first(), r.last()) {
            assert!(!white_space(*first) && !white_space(*last));
        }
    }
}

#[test]
fn cleaning_twice_is_cleaning_once() {
    for s in [" $1,234.5% ", "\u{3000}$\u{a0}9\u{2029}", "%,$", " a b ", "$ , %", "x"] {
        let once = cleaned(s);
        assert_eq!(cleaned(&once), once);
    }
}
