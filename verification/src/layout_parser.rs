//! How the components read their settings from LiveSplit layout files: the
//! meaning of the texts of the setting elements, and the colors, which only
//! count where the layout overrides the layout's own colors.

use vstd::prelude::*;
use crate::reset_chance::{CalculationBasis, ChanceMode, PercentageAccuracy};
use crate::settings::{Accuracy, Color, Gradient};
use crate::text::{chars_of, str_equal};

verus! {

/// Whether a character is an ASCII digit.
pub open spec fn is_ascii_digit(c: char) -> bool {
    '0' <= c <= '9'
}

/// The value of a sequence of decimal digits.
pub open spec fn digits_value(digits: Seq<char>) -> int
    decreases digits.len(),
{
    if digits.len() == 0 {
        0
    } else {
        digits_value(digits.drop_last()) * 10 + (digits.last() as int - 48)
    }
}

/// The digits of a number's text: the text without a leading `+`.
pub open spec fn unsigned_digits(text: Seq<char>) -> Seq<char> {
    if text.len() > 0 && text[0] == '+' {
        text.drop_first()
    } else {
        text
    }
}

/// Whether every character of a text is an ASCII digit.
pub open spec fn all_digits(text: Seq<char>) -> bool {
    forall|i: int| 0 <= i < text.len() ==> is_ascii_digit(#[trigger] text[i])
}

/// The number that a text denotes as an unsigned 64-bit integer: an
/// optional `+` followed by at least one decimal digit, of a value that fits.
pub open spec fn spec_parse_u64(text: Seq<char>) -> Option<u64> {
    let digits = unsigned_digits(text);
    if digits.len() > 0 && all_digits(digits) && digits_value(digits) <= u64::MAX {
        Some(digits_value(digits) as u64)
    } else {
        None
    }
}

/// A longer run of decimal digits has at least the value of its prefix.
pub proof fn lemma_digits_value_grows(digits: Seq<char>, n: int)
    requires
        0 <= n <= digits.len(),
        all_digits(digits),
    ensures
        digits_value(digits.take(n)) <= digits_value(digits),
    decreases digits.len() - n,
{
    if n < digits.len() {
        lemma_digits_value_grows(digits, n + 1);
        assert(digits.take(n + 1).drop_last() =~= digits.take(n));
        assert(digits_value(digits.take(n)) >= 0) by {
            lemma_digits_value_nonnegative(digits.take(n));
        }
    } else {
        assert(digits.take(n) =~= digits);
    }
}

/// The value of decimal digits is not negative.
pub proof fn lemma_digits_value_nonnegative(digits: Seq<char>)
    requires
        all_digits(digits),
    ensures
        digits_value(digits) >= 0,
    decreases digits.len(),
{
    if digits.len() > 0 {
        lemma_digits_value_nonnegative(digits.drop_last());
    }
}

/// Parses an unsigned 64-bit integer as `str::parse::<u64>` does: an
/// optional `+` and decimal digits whose value fits.
pub fn parse_u64(text: &str) -> (number: Option<u64>)
    ensures
        number == spec_parse_u64(text@),
{
    let chars = chars_of(text);
    let start: usize = if chars.len() > 0 && chars[0] == '+' { 1 } else { 0 };
    let ghost digits = unsigned_digits(text@);
    assert(digits =~= chars@.skip(start as int));
    if start >= chars.len() {
        return None;
    }
    let mut value: u64 = 0;
    let mut i: usize = start;
    while i < chars.len()
        invariant
            chars@ == text@,
            start <= i <= chars@.len(),
            digits == chars@.skip(start as int),
            digits == unsigned_digits(text@),
            digits.len() > 0,
            forall|j: int| 0 <= j < i - start ==> is_ascii_digit(#[trigger] digits[j]),
            value as int == digits_value(digits.take(i - start)),
        decreases chars.len() - i,
    {
        let c = chars[i];
        assert(digits[i - start] == c);
        if !('0' <= c && c <= '9') {
            assert(!is_ascii_digit(digits[i - start]));
            assert(!all_digits(digits));
            return None;
        }
        let digit: u64 = (c as u32 - 48) as u64;
        assert(digits.take(i + 1 - start).drop_last() =~= digits.take(i - start));
        let shifted = match value.checked_mul(10) {
            Some(v) => v,
            None => {
                proof {
                    let prefix = digits.take(i + 1 - start);
                    assert(prefix.last() == c);
                    assert(digits_value(prefix) == digits_value(prefix.drop_last()) * 10 + (c as int - 48));
                    assert(digits_value(prefix) > u64::MAX);
                    if spec_parse_u64(text@) is Some {
                        assert(all_digits(digits));
                        lemma_digits_value_grows(digits, i + 1 - start);
                        assert(false);
                    }
                }
                return None;
            },
        };
        value = match shifted.checked_add(digit) {
            Some(v) => v,
            None => {
                proof {
                    let prefix = digits.take(i + 1 - start);
                    assert(prefix.last() == c);
                    assert(digits_value(prefix) > u64::MAX);
                    if spec_parse_u64(text@) is Some {
                        assert(all_digits(digits));
                        lemma_digits_value_grows(digits, i + 1 - start);
                        assert(false);
                    }
                }
                return None;
            },
        };
        i = i + 1;
    }
    assert(digits.take(i - start) =~= digits);
    Some(value)
}

/// What a `PrecisionType` text means: automatic precision for
/// `FromLeaderboard`, and seconds for `Seconds`, else milliseconds.
pub open spec fn spec_precision_from_layout(text: Seq<char>) -> (bool, Accuracy) {
    (
        text == "FromLeaderboard"@,
        if text == "Seconds"@ {
            Accuracy::Seconds
        } else {
            Accuracy::Milliseconds
        },
    )
}

/// Returns what a World Record `PrecisionType` text means: whether the
/// precision is automatic, and the accuracy otherwise.
pub fn precision_from_layout(text: &str) -> (precision: (bool, Accuracy))
    ensures
        precision == spec_precision_from_layout(text@),
{
    let automatic = str_equal(text, "FromLeaderboard");
    let accuracy = if str_equal(text, "Seconds") {
        Accuracy::Seconds
    } else {
        Accuracy::Milliseconds
    };
    (automatic, accuracy)
}

/// The chance mode a `ChanceMode` text names.
pub open spec fn spec_chance_mode_from_layout(text: Seq<char>) -> Option<ChanceMode> {
    if text == "ResetChance"@ {
        Some(ChanceMode::ResetChance)
    } else if text == "SuccessChance"@ {
        Some(ChanceMode::SuccessChance)
    } else if text == "RunsEnded"@ {
        Some(ChanceMode::RunsEnded)
    } else {
        None
    }
}

/// Returns the chance mode a Reset Chance `ChanceMode` text names, if any.
pub fn chance_mode_from_layout(text: &str) -> (mode: Option<ChanceMode>)
    ensures
        mode == spec_chance_mode_from_layout(text@),
{
    if str_equal(text, "ResetChance") {
        Some(ChanceMode::ResetChance)
    } else if str_equal(text, "SuccessChance") {
        Some(ChanceMode::SuccessChance)
    } else if str_equal(text, "RunsEnded") {
        Some(ChanceMode::RunsEnded)
    } else {
        None
    }
}

/// The accuracy an `Accuracy` text names.
pub open spec fn spec_percentage_accuracy_from_layout(text: Seq<char>) -> Option<PercentageAccuracy> {
    if text == "ZeroDecimal"@ {
        Some(PercentageAccuracy::Integer)
    } else if text == "OneDecimal"@ {
        Some(PercentageAccuracy::Tenths)
    } else if text == "TwoDecimal"@ {
        Some(PercentageAccuracy::Hundredths)
    } else {
        None
    }
}

/// The English word for a number of digits up to two.
pub open spec fn number_word(n: nat) -> Seq<char> {
    if n == 0 {
        "Zero"@
    } else if n == 1 {
        "One"@
    } else {
        "Two"@
    }
}

/// An `Accuracy` text names the number of fractional digits a percentage
/// is shown with: the accuracy read from `ZeroDecimal`, `OneDecimal` or
/// `TwoDecimal` shows that many digits.
pub proof fn lemma_accuracy_text_names_its_digits(n: nat, settings: crate::reset_chance::Settings)
    requires
        n <= 2,
        settings.chance_mode != ChanceMode::RunsEnded,
    ensures
        spec_percentage_accuracy_from_layout(number_word(n) + "Decimal"@) matches Some(accuracy)
            && crate::reset_chance::spec_fraction_digits(
            crate::reset_chance::Settings { accuracy, ..settings },
        ) == n,
{
    reveal_strlit("Zero");
    reveal_strlit("One");
    reveal_strlit("Two");
    reveal_strlit("Decimal");
    reveal_strlit("ZeroDecimal");
    reveal_strlit("OneDecimal");
    reveal_strlit("TwoDecimal");
    if n == 0 {
        assert("Zero"@ + "Decimal"@ =~= "ZeroDecimal"@);
    } else if n == 1 {
        assert("One"@ + "Decimal"@ =~= "OneDecimal"@);
        assert("OneDecimal"@ != "ZeroDecimal"@);
    } else {
        assert("Two"@ + "Decimal"@ =~= "TwoDecimal"@);
        assert("TwoDecimal"@ != "ZeroDecimal"@);
        assert("TwoDecimal"@[0] != "OneDecimal"@[0]);
    }
}

/// Returns the accuracy a Reset Chance `Accuracy` text names, if any.
pub fn percentage_accuracy_from_layout(text: &str) -> (accuracy: Option<PercentageAccuracy>)
    ensures
        accuracy == spec_percentage_accuracy_from_layout(text@),
{
    if str_equal(text, "ZeroDecimal") {
        Some(PercentageAccuracy::Integer)
    } else if str_equal(text, "OneDecimal") {
        Some(PercentageAccuracy::Tenths)
    } else if str_equal(text, "TwoDecimal") {
        Some(PercentageAccuracy::Hundredths)
    } else {
        None
    }
}

/// The calculation basis a `Basis` text names.
pub open spec fn spec_calculation_basis_from_layout(text: Seq<char>) -> Option<CalculationBasis> {
    if text == "AllRuns"@ {
        Some(CalculationBasis::AllRuns)
    } else if text == "Subset"@ {
        Some(CalculationBasis::RecentRuns)
    } else if text == "SubsetSplits"@ {
        Some(CalculationBasis::RecentSplitAttempts)
    } else {
        None
    }
}

/// Returns the calculation basis a Reset Chance `Basis` text names, if any.
pub fn calculation_basis_from_layout(text: &str) -> (basis: Option<CalculationBasis>)
    ensures
        basis == spec_calculation_basis_from_layout(text@),
{
    if str_equal(text, "AllRuns") {
        Some(CalculationBasis::AllRuns)
    } else if str_equal(text, "Subset") {
        Some(CalculationBasis::RecentRuns)
    } else if str_equal(text, "SubsetSplits") {
        Some(CalculationBasis::RecentSplitAttempts)
    } else {
        None
    }
}

/// Returns the window size a Reset Chance `BasisSubset` or
/// `BasisSubsetSplits` text gives, if it is a number.
pub fn window_from_layout(text: &str) -> (window: Option<u64>)
    ensures
        window == spec_parse_u64(text@),
{
    parse_u64(text)
}

/// What the layout's reader reads of a setting element: a color, a boolean
/// or the element's text.
#[derive(Debug)]
pub enum LayoutValue {
    Color(Color),
    Bool(bool),
    Text(String),
}

/// How the layout's reader reads the element of a tag; a skipped element
/// is passed over.
#[derive(Clone, Copy, Debug, PartialEq, Eq, Structural)]
pub enum TagKind {
    Color,
    Bool,
    Text,
    Skipped,
}

/// How the element of a Reset Chance setting tag is read.
pub open spec fn spec_reset_chance_tag_kind(tag: Seq<char>) -> TagKind {
    if tag == "TextColor"@ || tag == "ChanceColor"@ {
        TagKind::Color
    } else if tag == "OverrideTextColor"@ || tag == "OverrideChanceColor"@ || tag
        == "ShowTrailingZeroes"@ || tag == "Display2Rows"@ {
        TagKind::Bool
    } else if tag == "ChanceMode"@ || tag == "Accuracy"@ || tag == "Basis"@ || tag
        == "BasisSubset"@ || tag == "BasisSubsetSplits"@ {
        TagKind::Text
    } else {
        TagKind::Skipped
    }
}

/// Returns how the element of a Reset Chance setting tag is read.
pub fn reset_chance_tag_kind(tag: &str) -> (kind: TagKind)
    ensures
        kind == spec_reset_chance_tag_kind(tag@),
{
    if str_equal(tag, "TextColor") || str_equal(tag, "ChanceColor") {
        TagKind::Color
    } else if str_equal(tag, "OverrideTextColor") || str_equal(tag, "OverrideChanceColor")
        || str_equal(tag, "ShowTrailingZeroes") || str_equal(tag, "Display2Rows") {
        TagKind::Bool
    } else if str_equal(tag, "ChanceMode") || str_equal(tag, "Accuracy") || str_equal(
        tag,
        "Basis",
    ) || str_equal(tag, "BasisSubset") || str_equal(tag, "BasisSubsetSplits") {
        TagKind::Text
    } else {
        TagKind::Skipped
    }
}

/// The Reset Chance settings read so far from a layout, and whether the
/// layout overrides the label and the value colors.
#[derive(Debug)]
pub struct ResetChanceLayout {
    pub settings: crate::reset_chance::Settings,
    pub override_label: bool,
    pub override_value: bool,
}

/// What a setting element does to the Reset Chance settings read so far:
/// the colors and override flags, the flags for trailing zeros and two
/// rows, and the chance mode, accuracy, basis and window sizes whose texts
/// name a value; any other element, or text naming nothing, changes
/// nothing.
pub open spec fn spec_read_reset_chance_tag(
    layout: ResetChanceLayout,
    tag: Seq<char>,
    value: LayoutValue,
) -> ResetChanceLayout {
    let settings = layout.settings;
    match value {
        LayoutValue::Color(color) => if tag == "TextColor"@ {
            ResetChanceLayout {
                settings: crate::reset_chance::Settings { label_color: Some(color), ..settings },
                ..layout
            }
        } else if tag == "ChanceColor"@ {
            ResetChanceLayout {
                settings: crate::reset_chance::Settings { value_color: Some(color), ..settings },
                ..layout
            }
        } else {
            layout
        },
        LayoutValue::Bool(b) => if tag == "OverrideTextColor"@ {
            ResetChanceLayout { override_label: b, ..layout }
        } else if tag == "OverrideChanceColor"@ {
            ResetChanceLayout { override_value: b, ..layout }
        } else if tag == "ShowTrailingZeroes"@ {
            ResetChanceLayout {
                settings: crate::reset_chance::Settings { show_trailing_zeroes: b, ..settings },
                ..layout
            }
        } else if tag == "Display2Rows"@ {
            ResetChanceLayout {
                settings: crate::reset_chance::Settings { display_two_rows: b, ..settings },
                ..layout
            }
        } else {
            layout
        },
        LayoutValue::Text(text) => if tag == "ChanceMode"@ {
            match spec_chance_mode_from_layout(text@) {
                Some(chance_mode) => ResetChanceLayout {
                    settings: crate::reset_chance::Settings { chance_mode, ..settings },
                    ..layout
                },
                None => layout,
            }
        } else if tag == "Accuracy"@ {
            match spec_percentage_accuracy_from_layout(text@) {
                Some(accuracy) => ResetChanceLayout {
                    settings: crate::reset_chance::Settings { accuracy, ..settings },
                    ..layout
                },
                None => layout,
            }
        } else if tag == "Basis"@ {
            match spec_calculation_basis_from_layout(text@) {
                Some(calculation_basis) => ResetChanceLayout {
                    settings: crate::reset_chance::Settings { calculation_basis, ..settings },
                    ..layout
                },
                None => layout,
            }
        } else if tag == "BasisSubset"@ {
            match spec_parse_u64(text@) {
                Some(recent_runs) => ResetChanceLayout {
                    settings: crate::reset_chance::Settings { recent_runs, ..settings },
                    ..layout
                },
                None => layout,
            }
        } else if tag == "BasisSubsetSplits"@ {
            match spec_parse_u64(text@) {
                Some(recent_split_attempts) => ResetChanceLayout {
                    settings: crate::reset_chance::Settings { recent_split_attempts, ..settings },
                    ..layout
                },
                None => layout,
            }
        } else {
            layout
        },
    }
}

/// A calculation basis read from a layout counts with the window the layout
/// gives it: `Subset` counts over the `BasisSubset` latest runs,
/// `SubsetSplits` over the `BasisSubsetSplits` latest split attempts, and
/// `AllRuns` over all runs.
pub proof fn lemma_basis_texts_use_their_windows(
    layout: ResetChanceLayout,
    basis: String,
    window: String,
    run: crate::timer::Run,
    segment: int,
)
    requires
        0 <= segment < run.segments@.len(),
        spec_parse_u64(window@) is Some,
    ensures
        basis@ == "Subset"@ ==> crate::reset_chance::spec_counts(
            spec_read_reset_chance_tag(
                spec_read_reset_chance_tag(layout, "Basis"@, LayoutValue::Text(basis)),
                "BasisSubset"@,
                LayoutValue::Text(window),
            ).settings,
            run,
            segment,
        ) == crate::reset_chance::spec_recent_runs(spec_parse_u64(window@)->0, run, segment),
        basis@ == "SubsetSplits"@ ==> crate::reset_chance::spec_counts(
            spec_read_reset_chance_tag(
                spec_read_reset_chance_tag(layout, "Basis"@, LayoutValue::Text(basis)),
                "BasisSubsetSplits"@,
                LayoutValue::Text(window),
            ).settings,
            run,
            segment,
        ) == crate::reset_chance::spec_recent_split_attempts(
            spec_parse_u64(window@)->0,
            run,
            segment,
        ),
        basis@ == "AllRuns"@ ==> crate::reset_chance::spec_counts(
            spec_read_reset_chance_tag(layout, "Basis"@, LayoutValue::Text(basis)).settings,
            run,
            segment,
        ) == crate::reset_chance::spec_all_runs(run, segment),
{
    reveal_strlit("Subset");
    reveal_strlit("SubsetSplits");
    reveal_strlit("AllRuns");
    reveal_strlit("Basis");
    reveal_strlit("BasisSubset");
    reveal_strlit("BasisSubsetSplits");
    reveal_strlit("ChanceMode");
    reveal_strlit("Accuracy");
    let first = spec_read_reset_chance_tag(layout, "Basis"@, LayoutValue::Text(basis));
    assert("Basis"@.len() == 5 && "ChanceMode"@.len() == 10 && "Accuracy"@.len() == 8);
    assert("BasisSubset"@.len() == 11 && "BasisSubsetSplits"@.len() == 17);
    assert("Subset"@.len() == 6 && "SubsetSplits"@.len() == 12 && "AllRuns"@.len() == 7);
    assert("Basis"@ != "ChanceMode"@ && "Basis"@ != "Accuracy"@);
    assert("BasisSubset"@ != "ChanceMode"@ && "BasisSubset"@ != "Accuracy"@ && "BasisSubset"@
        != "Basis"@);
    assert("BasisSubsetSplits"@ != "ChanceMode"@ && "BasisSubsetSplits"@ != "Accuracy"@
        && "BasisSubsetSplits"@ != "Basis"@ && "BasisSubsetSplits"@ != "BasisSubset"@);
    if basis@ == "Subset"@ {
        assert(basis@ != "AllRuns"@);
        assert(first.settings.calculation_basis == CalculationBasis::RecentRuns);
    }
    if basis@ == "SubsetSplits"@ {
        assert(basis@ != "AllRuns"@ && basis@ != "Subset"@);
        assert(first.settings.calculation_basis == CalculationBasis::RecentSplitAttempts);
    }
}

/// Reads one setting element of a Reset Chance layout into the settings
/// read so far.
pub fn read_reset_chance_tag(layout: &mut ResetChanceLayout, tag: &str, value: &LayoutValue)
    ensures
        *final(layout) == spec_read_reset_chance_tag(*old(layout), tag@, *value),
{
    match value {
        LayoutValue::Color(color) => {
            if str_equal(tag, "TextColor") {
                layout.settings.label_color = Some(*color);
            } else if str_equal(tag, "ChanceColor") {
                layout.settings.value_color = Some(*color);
            }
        },
        LayoutValue::Bool(b) => {
            if str_equal(tag, "OverrideTextColor") {
                layout.override_label = *b;
            } else if str_equal(tag, "OverrideChanceColor") {
                layout.override_value = *b;
            } else if str_equal(tag, "ShowTrailingZeroes") {
                layout.settings.show_trailing_zeroes = *b;
            } else if str_equal(tag, "Display2Rows") {
                layout.settings.display_two_rows = *b;
            }
        },
        LayoutValue::Text(text) => {
            let text = text.as_str();
            if str_equal(tag, "ChanceMode") {
                if let Some(mode) = chance_mode_from_layout(text) {
                    layout.settings.chance_mode = mode;
                }
            } else if str_equal(tag, "Accuracy") {
                if let Some(accuracy) = percentage_accuracy_from_layout(text) {
                    layout.settings.accuracy = accuracy;
                }
            } else if str_equal(tag, "Basis") {
                if let Some(basis) = calculation_basis_from_layout(text) {
                    layout.settings.calculation_basis = basis;
                }
            } else if str_equal(tag, "BasisSubset") {
                if let Some(window) = window_from_layout(text) {
                    layout.settings.recent_runs = window;
                }
            } else if str_equal(tag, "BasisSubsetSplits") {
                if let Some(window) = window_from_layout(text) {
                    layout.settings.recent_split_attempts = window;
                }
            }
        },
    }
}

/// How the element of a World Record setting tag is read.
pub open spec fn spec_world_record_tag_kind(tag: Seq<char>) -> TagKind {
    if tag == "TextColor"@ || tag == "TimeColor"@ {
        TagKind::Color
    } else if tag == "OverrideTextColor"@ || tag == "OverrideTimeColor"@ || tag
        == "Display2Rows"@ || tag == "FilterRegion"@ || tag == "FilterPlatform"@ || tag
        == "FilterVariables"@ || tag == "FilterSubcategories"@ {
        TagKind::Bool
    } else if tag == "TimingMethod"@ || tag == "PrecisionType"@ {
        TagKind::Text
    } else {
        TagKind::Skipped
    }
}

/// Returns how the element of a World Record setting tag is read.
pub fn world_record_tag_kind(tag: &str) -> (kind: TagKind)
    ensures
        kind == spec_world_record_tag_kind(tag@),
{
    if str_equal(tag, "TextColor") || str_equal(tag, "TimeColor") {
        TagKind::Color
    } else if str_equal(tag, "OverrideTextColor") || str_equal(tag, "OverrideTimeColor")
        || str_equal(tag, "Display2Rows") || str_equal(tag, "FilterRegion") || str_equal(
        tag,
        "FilterPlatform",
    ) || str_equal(tag, "FilterVariables") || str_equal(tag, "FilterSubcategories") {
        TagKind::Bool
    } else if str_equal(tag, "TimingMethod") || str_equal(tag, "PrecisionType") {
        TagKind::Text
    } else {
        TagKind::Skipped
    }
}

/// The World Record settings read so far from a layout, and whether the
/// layout overrides the label and the value colors.
#[derive(Debug)]
pub struct WorldRecordLayout {
    pub settings: crate::world_record::Settings,
    pub override_label: bool,
    pub override_value: bool,
}

/// What a setting element does to the World Record settings read so far:
/// the colors and override flags, the two-rows and filter flags, the timing
/// method, which any unknown text resets to the leaderboard's, and the
/// precision; any other element changes nothing.
pub open spec fn spec_read_world_record_tag(
    layout: WorldRecordLayout,
    tag: Seq<char>,
    value: LayoutValue,
) -> WorldRecordLayout {
    let settings = layout.settings;
    match value {
        LayoutValue::Color(color) => if tag == "TextColor"@ {
            WorldRecordLayout {
                settings: crate::world_record::Settings { label_color: Some(color), ..settings },
                ..layout
            }
        } else if tag == "TimeColor"@ {
            WorldRecordLayout {
                settings: crate::world_record::Settings { value_color: Some(color), ..settings },
                ..layout
            }
        } else {
            layout
        },
        LayoutValue::Bool(b) => if tag == "OverrideTextColor"@ {
            WorldRecordLayout { override_label: b, ..layout }
        } else if tag == "OverrideTimeColor"@ {
            WorldRecordLayout { override_value: b, ..layout }
        } else if tag == "Display2Rows"@ {
            WorldRecordLayout {
                settings: crate::world_record::Settings { display_two_rows: b, ..settings },
                ..layout
            }
        } else if tag == "FilterRegion"@ {
            WorldRecordLayout {
                settings: crate::world_record::Settings { filter_region: b, ..settings },
                ..layout
            }
        } else if tag == "FilterPlatform"@ {
            WorldRecordLayout {
                settings: crate::world_record::Settings { filter_platform: b, ..settings },
                ..layout
            }
        } else if tag == "FilterVariables"@ {
            WorldRecordLayout {
                settings: crate::world_record::Settings { filter_variables: b, ..settings },
                ..layout
            }
        } else if tag == "FilterSubcategories"@ {
            WorldRecordLayout {
                settings: crate::world_record::Settings { filter_subcategories: b, ..settings },
                ..layout
            }
        } else {
            layout
        },
        LayoutValue::Text(text) => if tag == "TimingMethod"@ {
            WorldRecordLayout {
                settings: crate::world_record::Settings {
                    timing_method: crate::world_record::spec_parse_timing_method(text@),
                    ..settings
                },
                ..layout
            }
        } else if tag == "PrecisionType"@ {
            let (automatic_precision, accuracy) = spec_precision_from_layout(text@);
            WorldRecordLayout {
                settings: crate::world_record::Settings {
                    automatic_precision,
                    accuracy,
                    ..settings
                },
                ..layout
            }
        } else {
            layout
        },
    }
}

/// A `PrecisionType` text decides how a record's time is shown: `Seconds`
/// shows whole seconds, `FromLeaderboard` shows whole seconds exactly for
/// a time without a fractional second and milliseconds otherwise, and any
/// other text shows milliseconds.
pub proof fn lemma_precision_text_decides_record_accuracy(
    layout: WorldRecordLayout,
    precision: String,
    nanoseconds: i128,
)
    ensures
        ({
            let accuracy = crate::world_record::spec_record_accuracy(
                spec_read_world_record_tag(
                    layout,
                    "PrecisionType"@,
                    LayoutValue::Text(precision),
                ).settings,
                nanoseconds,
            );
            &&& precision@ == "Seconds"@ ==> accuracy == Accuracy::Seconds
            &&& precision@ == "FromLeaderboard"@ ==> (accuracy == Accuracy::Seconds
                <==> crate::time_format::magnitude(nanoseconds) % 1_000_000_000 == 0)
            &&& precision@ != "Seconds"@ && precision@ != "FromLeaderboard"@ ==> accuracy
                == Accuracy::Milliseconds
        }),
{
    reveal_strlit("PrecisionType");
    reveal_strlit("TimingMethod");
    reveal_strlit("Seconds");
    reveal_strlit("FromLeaderboard");
    assert("PrecisionType"@.len() == 13 && "TimingMethod"@.len() == 12);
    assert("Seconds"@.len() == 7 && "FromLeaderboard"@.len() == 15);
    assert("PrecisionType"@ != "TimingMethod"@);
    assert("Seconds"@ != "FromLeaderboard"@);
}

/// Reads one setting element of a World Record layout into the settings
/// read so far.
pub fn read_world_record_tag(layout: &mut WorldRecordLayout, tag: &str, value: &LayoutValue)
    ensures
        *final(layout) == spec_read_world_record_tag(*old(layout), tag@, *value),
{
    match value {
        LayoutValue::Color(color) => {
            if str_equal(tag, "TextColor") {
                layout.settings.label_color = Some(*color);
            } else if str_equal(tag, "TimeColor") {
                layout.settings.value_color = Some(*color);
            }
        },
        LayoutValue::Bool(b) => {
            if str_equal(tag, "OverrideTextColor") {
                layout.override_label = *b;
            } else if str_equal(tag, "OverrideTimeColor") {
                layout.override_value = *b;
            } else if str_equal(tag, "Display2Rows") {
                layout.settings.display_two_rows = *b;
            } else if str_equal(tag, "FilterRegion") {
                layout.settings.filter_region = *b;
            } else if str_equal(tag, "FilterPlatform") {
                layout.settings.filter_platform = *b;
            } else if str_equal(tag, "FilterVariables") {
                layout.settings.filter_variables = *b;
            } else if str_equal(tag, "FilterSubcategories") {
                layout.settings.filter_subcategories = *b;
            }
        },
        LayoutValue::Text(text) => {
            let text = text.as_str();
            if str_equal(tag, "TimingMethod") {
                layout.settings.timing_method = crate::world_record::parse_timing_method(text);
            } else if str_equal(tag, "PrecisionType") {
                let (automatic, accuracy) = precision_from_layout(text);
                layout.settings.automatic_precision = automatic;
                layout.settings.accuracy = accuracy;
            }
        },
    }
}

/// Completes the World Record settings read from a layout: the colors count
/// only where the layout overrides them, and the background is the one the
/// layout built.
pub fn finish_world_record_layout(
    settings: &mut crate::world_record::Settings,
    override_label: bool,
    override_value: bool,
    background: Gradient,
)
    ensures
        *final(settings) == (crate::world_record::Settings {
            label_color: if override_label {
                old(settings).label_color
            } else {
                None
            },
            value_color: if override_value {
                old(settings).value_color
            } else {
                None
            },
            background,
            ..*old(settings)
        }),
{
    if !override_label {
        settings.label_color = None;
    }
    if !override_value {
        settings.value_color = None;
    }
    settings.background = background;
}

/// Completes the Reset Chance settings read from a layout: the colors count
/// only where the layout overrides them, and the background is the one the
/// layout built.
pub fn finish_reset_chance_layout(
    settings: &mut crate::reset_chance::Settings,
    override_label: bool,
    override_value: bool,
    background: Gradient,
)
    ensures
        *final(settings) == (crate::reset_chance::Settings {
            label_color: if override_label {
                old(settings).label_color
            } else {
                None
            },
            value_color: if override_value {
                old(settings).value_color
            } else {
                None
            },
            background,
            ..*old(settings)
        }),
{
    if !override_label {
        settings.label_color = None;
    }
    if !override_value {
        settings.value_color = None;
    }
    settings.background = background;
}

/// The Reset Chance settings read from the setting elements of a layout,
/// in order, starting from the given settings with no color overridden.
pub open spec fn spec_reset_chance_elements(
    start: crate::reset_chance::Settings,
    elements: Seq<(String, LayoutValue)>,
) -> ResetChanceLayout
    decreases elements.len(),
{
    if elements.len() == 0 {
        ResetChanceLayout { settings: start, override_label: false, override_value: false }
    } else {
        spec_read_reset_chance_tag(
            spec_reset_chance_elements(start, elements.drop_last()),
            elements.last().0@,
            elements.last().1,
        )
    }
}

/// The settings a layout gives once its elements are read: the colors count
/// only where the layout overrides them, and the background is the one the
/// layout built.
pub open spec fn spec_finished_reset_chance(layout: ResetChanceLayout, background: Gradient) -> crate::reset_chance::Settings {
    crate::reset_chance::Settings {
        label_color: if layout.override_label {
            layout.settings.label_color
        } else {
            None
        },
        value_color: if layout.override_value {
            layout.settings.value_color
        } else {
            None
        },
        background,
        ..layout.settings
    }
}

/// Reads the Reset Chance settings from the setting elements of a layout,
/// as tags with what the layout's reader read of them, starting from the
/// given settings, and completes them with the background the layout built.
pub fn read_reset_chance_layout(
    start: crate::reset_chance::Settings,
    elements: &Vec<(String, LayoutValue)>,
    background: Gradient,
) -> (settings: crate::reset_chance::Settings)
    ensures
        settings == spec_finished_reset_chance(spec_reset_chance_elements(start, elements@), background),
{
    let mut layout = ResetChanceLayout { settings: start, override_label: false, override_value: false };
    let mut i: usize = 0;
    while i < elements.len()
        invariant
            i <= elements@.len(),
            layout == spec_reset_chance_elements(start, elements@.take(i as int)),
        decreases elements.len() - i,
    {
        assert(elements@.take(i + 1).drop_last() =~= elements@.take(i as int));
        read_reset_chance_tag(&mut layout, elements[i].0.as_str(), &elements[i].1);
        i = i + 1;
    }
    assert(elements@.take(i as int) =~= elements@);
    let mut settings = layout.settings;
    finish_reset_chance_layout(&mut settings, layout.override_label, layout.override_value, background);
    settings
}

/// The World Record settings read from the setting elements of a layout,
/// in order, starting from the given settings with no color overridden.
pub open spec fn spec_world_record_elements(
    start: crate::world_record::Settings,
    elements: Seq<(String, LayoutValue)>,
) -> WorldRecordLayout
    decreases elements.len(),
{
    if elements.len() == 0 {
        WorldRecordLayout { settings: start, override_label: false, override_value: false }
    } else {
        spec_read_world_record_tag(
            spec_world_record_elements(start, elements.drop_last()),
            elements.last().0@,
            elements.last().1,
        )
    }
}

/// The World Record settings a layout gives once its elements are read:
/// the colors count only where the layout overrides them, and the
/// background is the one the layout built.
pub open spec fn spec_finished_world_record(layout: WorldRecordLayout, background: Gradient) -> crate::world_record::Settings {
    crate::world_record::Settings {
        label_color: if layout.override_label {
            layout.settings.label_color
        } else {
            None
        },
        value_color: if layout.override_value {
            layout.settings.value_color
        } else {
            None
        },
        background,
        ..layout.settings
    }
}

/// Reads the World Record settings from the setting elements of a layout,
/// as tags with what the layout's reader read of them, starting from the
/// given settings, and completes them with the background the layout built.
pub fn read_world_record_layout(
    start: crate::world_record::Settings,
    elements: &Vec<(String, LayoutValue)>,
    background: Gradient,
) -> (settings: crate::world_record::Settings)
    ensures
        settings == spec_finished_world_record(spec_world_record_elements(start, elements@), background),
{
    let mut layout = WorldRecordLayout { settings: start, override_label: false, override_value: false };
    let mut i: usize = 0;
    while i < elements.len()
        invariant
            i <= elements@.len(),
            layout == spec_world_record_elements(start, elements@.take(i as int)),
        decreases elements.len() - i,
    {
        assert(elements@.take(i + 1).drop_last() =~= elements@.take(i as int));
        read_world_record_tag(&mut layout, elements[i].0.as_str(), &elements[i].1);
        i = i + 1;
    }
    assert(elements@.take(i as int) =~= elements@);
    let mut settings = layout.settings;
    finish_world_record_layout(&mut settings, layout.override_label, layout.override_value, background);
    settings
}

} // verus!
