//! `NSNumberFormatter`: formats numbers into strings and parses strings into
//! numbers.
//!
//! The formatter's host object and the decisions of its methods stand here;
//! the formatting and parsing of the floating-point values themselves do not.

use vstd::prelude::*;

verus! {

broadcast use vstd::string::group_string_axioms;

/// An unsigned integer of the guest (32 bits).
pub type NSUInteger = u32;

/// A guest Objective-C object pointer; `0` is `nil`.
#[allow(non_camel_case_types)]
pub type id = u32;

/// The `nil` object pointer.
pub const nil: id = 0;

/// `NSNumberFormatterBehavior10_4`, the formatter behaviour of modern
/// systems. (`NSNumberFormatterBehaviorDefault` is 0 and
/// `NSNumberFormatterBehavior10_0` is 1000.)
pub const NS_NUMBER_FORMATTER_BEHAVIOR_10_4: NSUInteger = 1040;

/// `NSNumberFormatterBehaviorDefault`: stands for the process-wide default
/// behaviour.
pub const NS_NUMBER_FORMATTER_BEHAVIOR_DEFAULT: NSUInteger = 0;

/// The behaviour that `-setFormatterBehavior:` stores: the default value 0
/// stands for the process-wide default behaviour at the time of the call.
pub open spec fn resolved_formatter_behavior(behavior: NSUInteger, default_behavior: NSUInteger) -> NSUInteger {
    if behavior == NS_NUMBER_FORMATTER_BEHAVIOR_DEFAULT {
        default_behavior
    } else {
        behavior
    }
}

/// How `-stringFromNumber:` writes a number, by number style.
#[derive(Clone, Copy, Debug, PartialEq, Eq, Structural)]
pub enum NumberStringStyle {
    /// Style 2 (currency): `$` and two decimals.
    Currency,
    /// Style 3 (percent): the value times 100, then `%`.
    Percent,
    /// Style 4 (scientific): exponent notation.
    Scientific,
    /// Any other style: the plain number.
    Plain,
}

/// The string style of a number style.
pub open spec fn number_string_style_spec(style: NSUInteger) -> NumberStringStyle {
    if style == 2 {
        NumberStringStyle::Currency
    } else if style == 3 {
        NumberStringStyle::Percent
    } else if style == 4 {
        NumberStringStyle::Scientific
    } else {
        NumberStringStyle::Plain
    }
}

/// The string style that `-stringFromNumber:` uses for `style`
/// (0 none, 1 decimal, 2 currency, 3 percent, 4 scientific).
pub fn number_string_style(style: NSUInteger) -> (r: NumberStringStyle)
    ensures
        r == number_string_style_spec(style),
{
    if style == 2 {
        NumberStringStyle::Currency
    } else if style == 3 {
        NumberStringStyle::Percent
    } else if style == 4 {
        NumberStringStyle::Scientific
    } else {
        NumberStringStyle::Plain
    }
}

/// The currency and percent signs, and the grouping comma, that
/// `-numberFromString:` ignores.
pub open spec fn is_number_decoration(c: char) -> bool {
    c == '$' || c == ',' || c == '%'
}

/// `s` without its number decorations.
pub open spec fn strip_decorations(s: Seq<char>) -> Seq<char>
    decreases s.len(),
{
    if s.len() == 0 {
        s
    } else {
        let rest = strip_decorations(s.drop_last());
        if is_number_decoration(s.last()) {
            rest
        } else {
            rest.push(s.last())
        }
    }
}

/// Unicode `White_Space`, the whitespace that `str::trim` removes.
pub open spec fn is_white_space(c: char) -> bool {
    ||| '\u{9}' <= c <= '\u{d}'
    ||| c == ' '
    ||| c == '\u{85}'
    ||| c == '\u{a0}'
    ||| c == '\u{1680}'
    ||| '\u{2000}' <= c <= '\u{200a}'
    ||| c == '\u{2028}'
    ||| c == '\u{2029}'
    ||| c == '\u{202f}'
    ||| c == '\u{205f}'
    ||| c == '\u{3000}'
}

/// `s` without its leading whitespace.
pub open spec fn trim_start(s: Seq<char>) -> Seq<char>
    decreases s.len(),
{
    if s.len() > 0 && is_white_space(s[0]) {
        trim_start(s.drop_first())
    } else {
        s
    }
}

/// `s` without its trailing whitespace.
pub open spec fn trim_end(s: Seq<char>) -> Seq<char>
    decreases s.len(),
{
    if s.len() > 0 && is_white_space(s.last()) {
        trim_end(s.drop_last())
    } else {
        s
    }
}

/// What `-numberFromString:` parses: the string without `$`, `,` and `%`,
/// with surrounding whitespace trimmed.
pub open spec fn cleaned_number_string(s: Seq<char>) -> Seq<char> {
    trim_end(trim_start(strip_decorations(s)))
}

/// Whether `c` is Unicode whitespace.
pub fn white_space(c: char) -> (r: bool)
    ensures
        r == is_white_space(c),
{
    ('\u{9}' <= c && c <= '\u{d}') || c == ' ' || c == '\u{85}' || c == '\u{a0}' || c == '\u{1680}'
        || ('\u{2000}' <= c && c <= '\u{200a}') || c == '\u{2028}' || c == '\u{2029}' || c
        == '\u{202f}' || c == '\u{205f}' || c == '\u{3000}'
}

/// The text that `-numberFromString:` hands to the number parser: `s`
/// without `$`, `,` and `%`, and without surrounding whitespace.
pub fn clean_number_string(s: &str) -> (r: Vec<char>)
    ensures
        r@ == cleaned_number_string(s@),
{
    let mut kept: Vec<char> = Vec::new();
    for c in it: s.chars()
        invariant
            it.seq() == s@,
            kept@ == strip_decorations(s@.take(it.index())),
    {
        proof {
            assert(s@.take(it.index() + 1).drop_last() =~= s@.take(it.index()));
        }
        if !(c == '$' || c == ',' || c == '%') {
            kept.push(c);
        }
    }
    proof {
        assert(s@.take(s@.len() as int) =~= s@);
    }
    let n = kept.len();
    proof {
        assert(kept@.subrange(0, n as int) =~= kept@);
    }
    let mut start: usize = 0;
    while start < n && white_space(kept[start])
        invariant
            start <= n,
            n == kept.len(),
            trim_start(kept@) == trim_start(kept@.subrange(start as int, n as int)),
        decreases n - start,
    {
        proof {
            assert(kept@.subrange(start as int + 1, n as int) =~= kept@.subrange(
                start as int,
                n as int,
            ).drop_first());
        }
        start = start + 1;
    }
    proof {
        let rest = kept@.subrange(start as int, n as int);
        if start < n {
            assert(rest[0] == kept@[start as int]);
        }
        assert(trim_start(rest) == rest);
    }
    let mut end: usize = n;
    while end > start && white_space(kept[end - 1])
        invariant
            start <= end <= n,
            n == kept.len(),
            trim_start(kept@) == kept@.subrange(start as int, n as int),
            trim_end(kept@.subrange(start as int, n as int)) == trim_end(
                kept@.subrange(start as int, end as int),
            ),
        decreases end - start,
    {
        proof {
            assert(kept@.subrange(start as int, end as int - 1) =~= kept@.subrange(
                start as int,
                end as int,
            ).drop_last());
        }
        end = end - 1;
    }
    let mut trimmed: Vec<char> = Vec::new();
    let mut i: usize = start;
    while i < end
        invariant
            start <= i <= end <= n,
            n == kept.len(),
            trimmed@ == kept@.subrange(start as int, i as int),
        decreases end - i,
    {
        trimmed.push(kept[i]);
        proof {
            assert(trimmed@ =~= kept@.subrange(start as int, i as int + 1));
        }
        i = i + 1;
    }
    trimmed
}

/// Removing the number decorations leaves none.
proof fn lemma_strip_leaves_no_decorations(s: Seq<char>)
    ensures
        forall|i: int|
            0 <= i < strip_decorations(s).len() ==> !is_number_decoration(
                #[trigger] strip_decorations(s)[i],
            ),
    decreases s.len(),
{
    if s.len() > 0 {
        let rest = strip_decorations(s.drop_last());
        lemma_strip_leaves_no_decorations(s.drop_last());
        assert forall|i: int| 0 <= i < strip_decorations(s).len() implies !is_number_decoration(
            #[trigger] strip_decorations(s)[i],
        ) by {
            if i < rest.len() {
                assert(strip_decorations(s)[i] == rest[i]);
            }
        }
    }
}

/// A sequence without number decorations has none to remove.
proof fn lemma_strip_without_decorations(s: Seq<char>)
    requires
        forall|i: int| 0 <= i < s.len() ==> !is_number_decoration(#[trigger] s[i]),
    ensures
        strip_decorations(s) == s,
    decreases s.len(),
{
    if s.len() > 0 {
        lemma_strip_without_decorations(s.drop_last());
        assert(s.drop_last().push(s.last()) =~= s);
    }
}

/// Trimming the start leaves a suffix that does not start with whitespace.
proof fn lemma_trim_start_is_suffix(s: Seq<char>)
    ensures
        trim_start(s) == s.subrange(s.len() - trim_start(s).len(), s.len() as int),
        trim_start(s).len() <= s.len(),
        trim_start(s).len() > 0 ==> !is_white_space(trim_start(s)[0]),
    decreases s.len(),
{
    if s.len() > 0 && is_white_space(s[0]) {
        lemma_trim_start_is_suffix(s.drop_first());
        assert(s.drop_first().subrange(
            s.drop_first().len() - trim_start(s).len(),
            s.drop_first().len() as int,
        ) =~= s.subrange(s.len() - trim_start(s).len(), s.len() as int));
    } else {
        assert(s.subrange(0, s.len() as int) =~= s);
    }
}

/// Trimming the end leaves a prefix that does not end with whitespace.
proof fn lemma_trim_end_is_prefix(s: Seq<char>)
    ensures
        trim_end(s) == s.subrange(0, trim_end(s).len() as int),
        trim_end(s).len() <= s.len(),
        trim_end(s).len() > 0 ==> !is_white_space(trim_end(s).last()),
    decreases s.len(),
{
    if s.len() > 0 && is_white_space(s.last()) {
        lemma_trim_end_is_prefix(s.drop_last());
        assert(s.drop_last().subrange(0, trim_end(s).len() as int) =~= s.subrange(
            0,
            trim_end(s).len() as int,
        ));
    } else {
        assert(s.subrange(0, s.len() as int) =~= s);
    }
}

/// What `-numberFromString:` hands to the parser holds no `$`, `,` or `%`,
/// and neither starts nor ends with whitespace.
pub proof fn lemma_cleaned_number_string_is_bare(s: Seq<char>)
    ensures
        ({
            let r = cleaned_number_string(s);
            &&& forall|i: int| 0 <= i < r.len() ==> !is_number_decoration(#[trigger] r[i])
            &&& r.len() > 0 ==> !is_white_space(r[0]) && !is_white_space(r.last())
        }),
{
    let x = strip_decorations(s);
    let t = trim_start(x);
    let r = trim_end(t);
    lemma_strip_leaves_no_decorations(s);
    lemma_trim_start_is_suffix(x);
    lemma_trim_end_is_prefix(t);
    let k = x.len() - t.len();
    assert forall|i: int| 0 <= i < r.len() implies !is_number_decoration(#[trigger] r[i]) by {
        assert(r[i] == t[i]);
        assert(t[i] == x[k + i]);
    }
    if r.len() > 0 {
        assert(r[0] == t[0]);
    }
}

/// Cleaning a string that has already been cleaned changes nothing.
pub proof fn lemma_cleaning_is_idempotent(s: Seq<char>)
    ensures
        cleaned_number_string(cleaned_number_string(s)) == cleaned_number_string(s),
{
    let r = cleaned_number_string(s);
    lemma_cleaned_number_string_is_bare(s);
    lemma_strip_without_decorations(r);
    assert(trim_start(r) == r);
    assert(trim_end(r) == r);
}

/// `-setFormatterBehavior:` stores a non-default behaviour as it is given
/// and the default behaviour (0) as the process-wide default; so where the
/// process-wide default is a real behaviour, the stored behaviour is never
/// the default placeholder.
pub proof fn lemma_formatter_behavior_is_stored_as_given(
    behavior: NSUInteger,
    default_behavior: NSUInteger,
)
    ensures
        behavior != 0 ==> resolved_formatter_behavior(behavior, default_behavior) == behavior,
        behavior == 0 ==> resolved_formatter_behavior(behavior, default_behavior)
            == default_behavior,
        default_behavior != 0 ==> resolved_formatter_behavior(behavior, default_behavior) != 0,
{
}

/// `-stringFromNumber:` writes currency for style 2, percent for style 3,
/// scientific notation for style 4 and the plain number for any other style.
pub proof fn lemma_number_string_styles(style: NSUInteger)
    ensures
        style == 2 ==> number_string_style_spec(style) == NumberStringStyle::Currency,
        style == 3 ==> number_string_style_spec(style) == NumberStringStyle::Percent,
        style == 4 ==> number_string_style_spec(style) == NumberStringStyle::Scientific,
        (style != 2 && style != 3 && style != 4) ==> number_string_style_spec(style)
            == NumberStringStyle::Plain,
{
}

/// Removing the number decorations removes exactly `$`, `,` and `%`, and
/// keeps every other character in order.
pub proof fn lemma_strip_removes_exactly_the_signs(s: Seq<char>)
    ensures
        strip_decorations(s) == s.filter(|c: char| c != '$' && c != ',' && c != '%'),
    decreases s.len(),
{
    reveal_with_fuel(Seq::filter, 1);
    if s.len() > 0 {
        lemma_strip_removes_exactly_the_signs(s.drop_last());
    }
}

/// A string with no `$`, `,` or `%` that neither starts nor ends with
/// whitespace is parsed as it is.
pub proof fn lemma_cleaning_keeps_plain_strings(s: Seq<char>)
    requires
        forall|i: int| 0 <= i < s.len() ==> #[trigger] s[i] != '$' && s[i] != ',' && s[i] != '%',
        s.len() > 0 ==> !is_white_space(s[0]) && !is_white_space(s.last()),
    ensures
        cleaned_number_string(s) == s,
{
    lemma_strip_without_decorations(s);
    assert(trim_start(s) == s);
    assert(trim_end(s) == s);
}

/// A single character is parsed as it is unless it is `$`, `,`, `%` or
/// whitespace, which are dropped.
pub proof fn lemma_cleaning_one_character(c: char)
    ensures
        (c != '$' && c != ',' && c != '%' && !is_white_space(c)) ==> cleaned_number_string(
            seq![c],
        ) == seq![c],
        (c == '$' || c == ',' || c == '%' || is_white_space(c)) ==> cleaned_number_string(
            seq![c],
        ) == Seq::<char>::empty(),
{
    let s = seq![c];
    assert(s.drop_last() =~= Seq::<char>::empty());
    assert(strip_decorations(Seq::<char>::empty()) == Seq::<char>::empty());
    assert(s.last() == c);
    assert(Seq::<char>::empty().push(c) =~= s);
    if c != '$' && c != ',' && c != '%' && !is_white_space(c) {
        lemma_cleaning_keeps_plain_strings(s);
    } else if c == '$' || c == ',' || c == '%' {
        assert(strip_decorations(s) =~= Seq::<char>::empty());
    } else {
        assert(strip_decorations(s) =~= s);
        assert(s.drop_first() =~= Seq::<char>::empty());
        assert(s[0] == c);
        assert(trim_start(Seq::<char>::empty()) == Seq::<char>::empty());
        assert(trim_start(s) =~= Seq::<char>::empty());
        assert(trim_end(Seq::<char>::empty()) == Seq::<char>::empty());
    }
}

/// The host object of an `NSNumberFormatter`: its properties. Object
/// properties hold guest object pointers (retained by the formatter).
#[derive(Clone, Copy, Debug, PartialEq, Eq, Structural)]
pub struct NSNumberFormatterHostObject {
    /// `numberStyle`: 0 none, 1 decimal, 2 currency, 3 percent, 4 scientific.
    pub number_style: NSUInteger,
    pub locale: id,
    pub grouping_separator: id,
    pub uses_grouping_separator: bool,
    pub minimum_fraction_digits: NSUInteger,
    pub maximum_fraction_digits: NSUInteger,
    /// `formatterBehavior` (`NSNumberFormatterBehavior`).
    pub formatter_behavior: NSUInteger,
    /// `positiveFormat`, a format string such as `"#,##0.##"` (10.0-style API).
    pub positive_format: id,
    /// `negativeFormat` (10.0-style API).
    pub negative_format: id,
    pub positive_prefix: id,
    pub positive_suffix: id,
    pub negative_prefix: id,
    pub negative_suffix: id,
    /// `generatesDecimalNumbers`: whether parsing yields `NSDecimalNumber`s.
    pub generates_decimal_numbers: bool,
    pub currency_symbol: id,
    pub currency_code: id,
    pub international_currency_symbol: id,
    pub currency_decimal_separator: id,
    pub currency_grouping_separator: id,
    pub decimal_separator: id,
    pub always_shows_decimal_separator: bool,
    pub not_a_number_symbol: id,
    pub plus_sign: id,
    pub minus_sign: id,
    pub padding_character: id,
    pub percent_symbol: id,
    pub per_mill_symbol: id,
    pub zero_symbol: id,
    pub nil_symbol: id,
    pub maximum_integer_digits: NSUInteger,
    pub minimum_integer_digits: NSUInteger,
    pub maximum_significant_digits: NSUInteger,
    pub minimum_significant_digits: NSUInteger,
    pub uses_significant_digits: bool,
    /// `roundingMode` (`NSNumberFormatterRoundingMode`, 0 to 7).
    pub rounding_mode: NSUInteger,
    /// `roundingIncrement`, or `nil`.
    pub rounding_increment: id,
    /// `multiplier` applied before formatting, or `nil` for none.
    pub multiplier: id,
    pub grouping_size: NSUInteger,
    pub secondary_grouping_size: NSUInteger,
    /// `paddingPosition` (`NSNumberFormatterPadPosition`, 0 to 3).
    pub padding_position: NSUInteger,
    pub is_lenient: bool,
    pub partial_string_validation_enabled: bool,
}

impl NSNumberFormatterHostObject {
    /// The properties of a newly allocated formatter (`+allocWithZone:`):
    /// the 10.4 behaviour, at least 1 and at most 42 integer digits, groups
    /// of 3, and everything else zero, `nil` or off.
    pub fn new() -> (r: Self)
        ensures
            r.number_style == 0,
            r.locale == nil,
            r.grouping_separator == nil,
            r.uses_grouping_separator == false,
            r.minimum_fraction_digits == 0,
            r.maximum_fraction_digits == 0,
            r.formatter_behavior == NS_NUMBER_FORMATTER_BEHAVIOR_10_4,
            r.positive_format == nil,
            r.negative_format == nil,
            r.positive_prefix == nil,
            r.positive_suffix == nil,
            r.negative_prefix == nil,
            r.negative_suffix == nil,
            r.generates_decimal_numbers == false,
            r.currency_symbol == nil,
            r.currency_code == nil,
            r.international_currency_symbol == nil,
            r.currency_decimal_separator == nil,
            r.currency_grouping_separator == nil,
            r.decimal_separator == nil,
            r.always_shows_decimal_separator == false,
            r.not_a_number_symbol == nil,
            r.plus_sign == nil,
            r.minus_sign == nil,
            r.padding_character == nil,
            r.percent_symbol == nil,
            r.per_mill_symbol == nil,
            r.zero_symbol == nil,
            r.nil_symbol == nil,
            r.maximum_integer_digits == 42,
            r.minimum_integer_digits == 1,
            r.maximum_significant_digits == 0,
            r.minimum_significant_digits == 0,
            r.uses_significant_digits == false,
            r.rounding_mode == 0,
            r.rounding_increment == nil,
            r.multiplier == nil,
            r.grouping_size == 3,
            r.secondary_grouping_size == 0,
            r.padding_position == 0,
            r.is_lenient == false,
            r.partial_string_validation_enabled == false,
    {
        NSNumberFormatterHostObject {
            number_style: 0,
            locale: nil,
            grouping_separator: nil,
            uses_grouping_separator: false,
            minimum_fraction_digits: 0,
            maximum_fraction_digits: 0,
            formatter_behavior: NS_NUMBER_FORMATTER_BEHAVIOR_10_4,
            positive_format: nil,
            negative_format: nil,
            positive_prefix: nil,
            positive_suffix: nil,
            negative_prefix: nil,
            negative_suffix: nil,
            generates_decimal_numbers: false,
            currency_symbol: nil,
            currency_code: nil,
            international_currency_symbol: nil,
            currency_decimal_separator: nil,
            currency_grouping_separator: nil,
            decimal_separator: nil,
            always_shows_decimal_separator: false,
            not_a_number_symbol: nil,
            plus_sign: nil,
            minus_sign: nil,
            padding_character: nil,
            percent_symbol: nil,
            per_mill_symbol: nil,
            zero_symbol: nil,
            nil_symbol: nil,
            maximum_integer_digits: 42,
            minimum_integer_digits: 1,
            maximum_significant_digits: 0,
            minimum_significant_digits: 0,
            uses_significant_digits: false,
            rounding_mode: 0,
            rounding_increment: nil,
            multiplier: nil,
            grouping_size: 3,
            secondary_grouping_size: 0,
            padding_position: 0,
            is_lenient: false,
            partial_string_validation_enabled: false,
        }
    }

    /// `-setFormatterBehavior:`: stores `behavior`, where the default
    /// behaviour (0) stands for `default_behavior`, the process-wide default
    /// at the time of the call; nothing else changes.
    pub fn set_formatter_behavior(&mut self, behavior: NSUInteger, default_behavior: NSUInteger)
        ensures
            *final(self) == (NSNumberFormatterHostObject {
                formatter_behavior: resolved_formatter_behavior(behavior, default_behavior),
                ..*old(self)
            }),
    {
        let resolved = if behavior == NS_NUMBER_FORMATTER_BEHAVIOR_DEFAULT {
            default_behavior
        } else {
            behavior
        };
        self.formatter_behavior = resolved;
    }

    /// The object properties, which `-dealloc` releases, in the order it
    /// releases them.
    pub open spec fn object_properties(&self) -> Seq<id> {
        seq![self.locale, self.positive_format, self.negative_format, self.positive_prefix, self.positive_suffix, self.negative_prefix, self.negative_suffix, self.currency_symbol, self.currency_code, self.international_currency_symbol, self.currency_decimal_separator, self.currency_grouping_separator, self.decimal_separator, self.not_a_number_symbol, self.plus_sign, self.minus_sign, self.padding_character, self.percent_symbol, self.per_mill_symbol, self.zero_symbol, self.nil_symbol, self.rounding_increment, self.multiplier]
    }

    /// `-dealloc`: the objects to release before the formatter goes.
    pub fn ids_to_release(&self) -> (r: Vec<id>)
        ensures
            r@ == self.object_properties(),
    {
        let r = vec![self.locale, self.positive_format, self.negative_format, self.positive_prefix, self.positive_suffix, self.negative_prefix, self.negative_suffix, self.currency_symbol, self.currency_code, self.international_currency_symbol, self.currency_decimal_separator, self.currency_grouping_separator, self.decimal_separator, self.not_a_number_symbol, self.plus_sign, self.minus_sign, self.padding_character, self.percent_symbol, self.per_mill_symbol, self.zero_symbol, self.nil_symbol, self.rounding_increment, self.multiplier];
        proof {
            assert(r@ =~= self.object_properties());
        }
        r
    }
}

} // verus!
