//! The Reset Chance component: how likely an attempt is to end at the
//! current segment, judged from the run's history.

use vstd::prelude::*;
use crate::settings::{
    Color, Field, Gradient, KeyValueState, SettingValue, SettingsDescription, default_gradient,
    spec_default_gradient,
};
use crate::text::{chars_of, push_char, push_str};
use crate::timer::{Run, Snapshot, TimerPhase};

verus! {

/// The value shown by the component.
#[derive(Clone, Copy, Debug, PartialEq, Eq, Structural)]
pub enum ChanceMode {
    /// The percentage of attempts that ended at the current segment.
    ResetChance,
    /// The percentage of attempts that completed the current segment.
    SuccessChance,
    /// The number of attempts that ended at the current segment.
    RunsEnded,
}

/// The history window used by the calculation.
#[derive(Clone, Copy, Debug, PartialEq, Eq, Structural)]
pub enum CalculationBasis {
    /// All recorded attempts.
    AllRuns,
    /// A recent window of overall attempts.
    RecentRuns,
    /// A separate recent attempt window for every segment.
    RecentSplitAttempts,
}

/// The number of fractional digits shown for percentages.
#[derive(Clone, Copy, Debug, PartialEq, Eq, Structural)]
pub enum PercentageAccuracy {
    /// No fractional digits.
    Integer,
    /// At most one fractional digit.
    Tenths,
    /// At most two fractional digits.
    Hundredths,
}

/// The settings of the Reset Chance component.
#[derive(Clone, Copy, Debug, PartialEq, Eq, Structural)]
pub struct Settings {
    /// The background shown behind the component.
    pub background: Gradient,
    /// The value shown by the component.
    pub chance_mode: ChanceMode,
    /// The accuracy of percentages.
    pub accuracy: PercentageAccuracy,
    /// Whether insignificant fractional zeroes are shown.
    pub show_trailing_zeroes: bool,
    /// The history window used by the calculation.
    pub calculation_basis: CalculationBasis,
    /// The size of the recent overall-attempt window.
    pub recent_runs: u64,
    /// The size of each recent segment-attempt window.
    pub recent_split_attempts: u64,
    /// Whether the label and value are displayed on separate rows.
    pub display_two_rows: bool,
    /// The label color, or the layout's color if absent.
    pub label_color: Option<Color>,
    /// The value color, or the layout's color if absent.
    pub value_color: Option<Color>,
}

/// The settings a new component starts with.
pub open spec fn spec_default_settings() -> Settings {
    Settings {
        background: spec_default_gradient(),
        chance_mode: ChanceMode::ResetChance,
        accuracy: PercentageAccuracy::Integer,
        show_trailing_zeroes: false,
        calculation_basis: CalculationBasis::AllRuns,
        recent_runs: 100,
        recent_split_attempts: 50,
        display_two_rows: false,
        label_color: None,
        value_color: None,
    }
}

impl Default for Settings {
    fn default() -> (settings: Self)
        ensures
            settings == spec_default_settings(),
    {
        Settings {
            background: default_gradient(),
            chance_mode: ChanceMode::ResetChance,
            accuracy: PercentageAccuracy::Integer,
            show_trailing_zeroes: false,
            calculation_basis: CalculationBasis::AllRuns,
            recent_runs: 100,
            recent_split_attempts: 50,
            display_two_rows: false,
            label_color: None,
            value_color: None,
        }
    }
}

// ---------------------------------------------------------------------------
// The mathematical model of the calculation.

/// Whether a history entry is an attempt at or after `minimum`. Entries
/// below 1 are imported times, not attempts.
pub open spec fn is_counted(index: i32, minimum: int) -> bool {
    index >= 1 && index >= minimum
}

/// How many entries of a segment history are attempts at or after `minimum`.
pub open spec fn count_at_least(history: Seq<i32>, minimum: int) -> nat
    decreases history.len(),
{
    if history.len() == 0 {
        0
    } else {
        count_at_least(history.drop_last(), minimum) + if is_counted(history.last(), minimum) {
            1nat
        } else {
            0nat
        }
    }
}

/// The entries of a segment history that are attempts, in order.
pub open spec fn actual_runs(history: Seq<i32>) -> Seq<i32>
    decreases history.len(),
{
    if history.len() == 0 {
        Seq::empty()
    } else if history.last() >= 1 {
        actual_runs(history.drop_last()).push(history.last())
    } else {
        actual_runs(history.drop_last())
    }
}

/// The largest attempt index of a nonempty attempt history.
pub open spec fn seq_max(s: Seq<i32>) -> int
    decreases s.len(),
{
    if s.len() <= 1 {
        s[0] as int
    } else {
        let rest = seq_max(s.drop_last());
        if s.last() > rest {
            s.last() as int
        } else {
            rest
        }
    }
}

/// Counts are shown only when some attempt reached the segment and the
/// completions do not exceed the attempts.
pub open spec fn spec_valid_counts(completions: int, attempts: int) -> Option<(int, int)> {
    if attempts != 0 && completions != 0 && completions <= attempts {
        Some((completions, attempts))
    } else {
        None
    }
}

/// A window setting as a size: it saturates at the largest `usize`.
pub open spec fn window_size(setting: u64) -> int {
    if setting > usize::MAX {
        usize::MAX as int
    } else {
        setting as int
    }
}

/// Clamps an integer to the range of `i32`.
pub open spec fn clamp_i32(x: int) -> int {
    if x > i32::MAX {
        i32::MAX as int
    } else if x < i32::MIN {
        i32::MIN as int
    } else {
        x
    }
}

/// The first attempt index inside a window of the `window` latest attempts,
/// computed with saturating `i32` arithmetic and never below 1.
pub open spec fn recent_minimum(latest: int, window: int) -> int {
    let window_i32 = if window > i32::MAX {
        i32::MAX as int
    } else {
        window
    };
    let m = clamp_i32(clamp_i32(latest + 1) - window_i32);
    if m > 1 {
        m
    } else {
        1
    }
}

pub open spec fn min_int(a: int, b: int) -> int {
    if a <= b {
        a
    } else {
        b
    }
}

/// The counts over all recorded attempts.
pub open spec fn spec_all_runs(run: Run, segment: int) -> Option<(int, int)> {
    let completions = count_at_least(run.segments@[segment].segment_history@, 1);
    let attempts = if segment == 0 {
        run.attempt_history@.len() as int
    } else {
        count_at_least(run.segments@[segment - 1].segment_history@, 1) as int
    };
    spec_valid_counts(completions as int, attempts)
}

/// The counts over the window of the latest `window_setting` attempts.
pub open spec fn spec_recent_runs(window_setting: u64, run: Run, segment: int) -> Option<(int, int)> {
    let window = window_size(window_setting);
    let attempts_history = run.attempt_history@;
    if window == 0 || attempts_history.len() == 0 {
        None
    } else {
        let minimum = recent_minimum(seq_max(attempts_history), window);
        let completions = count_at_least(run.segments@[segment].segment_history@, minimum);
        let attempts = if segment == 0 {
            min_int(attempts_history.len() as int, window)
        } else {
            count_at_least(run.segments@[segment - 1].segment_history@, minimum) as int
        };
        spec_valid_counts(completions as int, attempts)
    }
}

/// The counts over the `window_setting` latest attempts that reached the
/// previous segment.
pub open spec fn spec_recent_split_attempts(window_setting: u64, run: Run, segment: int) -> Option<
    (int, int),
> {
    let window = window_size(window_setting);
    if window == 0 {
        None
    } else if segment == 0 {
        spec_recent_runs(window_setting, run, 0)
    } else {
        let previous = actual_runs(run.segments@[segment - 1].segment_history@);
        let attempts = min_int(previous.len() as int, window);
        if attempts == 0 {
            None
        } else {
            let minimum = if previous.len() <= window {
                1
            } else {
                previous[previous.len() - window] as int
            };
            let completions = count_at_least(run.segments@[segment].segment_history@, minimum);
            spec_valid_counts(completions as int, attempts)
        }
    }
}

/// Whether attempt indices come in strictly increasing order, as a segment
/// history keeps them.
pub open spec fn strictly_increasing(runs: Seq<i32>) -> bool {
    forall|i: int, j: int| 0 <= i < j < runs.len() ==> #[trigger] runs[i] < #[trigger] runs[j]
}

/// Counting attempts in a segment history reads only its attempts: the
/// imported times below 1 never count.
pub proof fn lemma_count_reads_attempts(history: Seq<i32>, minimum: int)
    ensures
        count_at_least(history, minimum) == count_at_least(actual_runs(history), minimum),
    decreases history.len(),
{
    if history.len() > 0 {
        lemma_count_reads_attempts(history.drop_last(), minimum);
        if history.last() >= 1 {
            let runs = actual_runs(history.drop_last());
            assert(runs.push(history.last()).drop_last() =~= runs);
        }
    }
}

/// Attempts all below `minimum` count nothing at or after it.
pub proof fn lemma_count_none_at_least(history: Seq<i32>, minimum: int)
    requires
        forall|i: int| 0 <= i < history.len() ==> history[i] < minimum,
    ensures
        count_at_least(history, minimum) == 0,
    decreases history.len(),
{
    if history.len() > 0 {
        lemma_count_none_at_least(history.drop_last(), minimum);
    }
}

/// In strictly increasing attempts, the attempts at or after the one at
/// position `k` are those from position `k` on.
pub proof fn lemma_count_from_position(runs: Seq<i32>, k: int)
    requires
        0 <= k < runs.len(),
        forall|i: int| 0 <= i < runs.len() ==> runs[i] >= 1,
        strictly_increasing(runs),
    ensures
        count_at_least(runs, runs[k] as int) == runs.len() - k,
    decreases runs.len(),
{
    let rest = runs.drop_last();
    if k < runs.len() - 1 {
        lemma_count_from_position(rest, k);
    } else {
        lemma_count_none_at_least(rest, runs[k] as int);
    }
}

/// Attempts count in full from the first attempt on.
pub proof fn lemma_count_all_attempts(runs: Seq<i32>)
    requires
        forall|i: int| 0 <= i < runs.len() ==> runs[i] >= 1,
    ensures
        count_at_least(runs, 1) == runs.len(),
    decreases runs.len(),
{
    if runs.len() > 0 {
        lemma_count_all_attempts(runs.drop_last());
    }
}

/// The attempts of a segment history are attempts.
pub proof fn lemma_actual_runs_are_attempts(history: Seq<i32>)
    ensures
        forall|i: int| 0 <= i < actual_runs(history).len() ==> actual_runs(history)[i] >= 1,
    decreases history.len(),
{
    if history.len() > 0 {
        lemma_actual_runs_are_attempts(history.drop_last());
        let previous = actual_runs(history.drop_last());
        if history.last() >= 1 {
            assert forall|i: int| 0 <= i < previous.push(history.last()).len() implies previous.push(
                history.last(),
            )[i] >= 1 by {
                if i < previous.len() {
                    assert(previous.push(history.last())[i] == previous[i]);
                }
            }
        }
    }
}

/// With a window of the latest split attempts, the window starts at the
/// oldest of the `w` latest attempts that reached the previous segment:
/// when every attempt that reached the previous segment, in increasing
/// order, also completed the current one, all attempts of the window
/// completed it, and the counts are the window's size twice, at most the
/// number of those attempts.
pub proof fn lemma_split_window_counts_every_completion(window_setting: u64, run: Run, segment: int)
    requires
        0 < segment < run.segments@.len(),
        window_size(window_setting) > 0,
        actual_runs(run.segments@[segment - 1].segment_history@).len() > 0,
        strictly_increasing(actual_runs(run.segments@[segment - 1].segment_history@)),
        actual_runs(run.segments@[segment].segment_history@) == actual_runs(
            run.segments@[segment - 1].segment_history@,
        ),
    ensures
        ({
            let n = actual_runs(run.segments@[segment - 1].segment_history@).len() as int;
            let w = window_size(window_setting);
            let both = if n <= w {
                n
            } else {
                w
            };
            spec_recent_split_attempts(window_setting, run, segment) == Some((both, both))
        }),
{
    let previous = actual_runs(run.segments@[segment - 1].segment_history@);
    let current = run.segments@[segment].segment_history@;
    let n = previous.len() as int;
    let w = window_size(window_setting);
    lemma_actual_runs_are_attempts(run.segments@[segment - 1].segment_history@);
    if n <= w {
        lemma_count_reads_attempts(current, 1);
        lemma_count_all_attempts(previous);
    } else {
        lemma_count_reads_attempts(current, previous[n - w] as int);
        lemma_count_from_position(previous, n - w);
    }
}

/// The completions and attempts of a segment under the given settings.
pub open spec fn spec_counts(settings: Settings, run: Run, segment: int) -> Option<(int, int)> {
    if segment < 0 || segment >= run.segments@.len() {
        None
    } else {
        match settings.calculation_basis {
            CalculationBasis::AllRuns => spec_all_runs(run, segment),
            CalculationBasis::RecentRuns => spec_recent_runs(settings.recent_runs, run, segment),
            CalculationBasis::RecentSplitAttempts => spec_recent_split_attempts(
                settings.recent_split_attempts,
                run,
                segment,
            ),
        }
    }
}

/// The largest attempt index is an `i32`.
pub proof fn lemma_seq_max_bounds(s: Seq<i32>)
    requires
        s.len() > 0,
    ensures
        i32::MIN <= seq_max(s) <= i32::MAX,
    decreases s.len(),
{
    if s.len() > 1 {
        lemma_seq_max_bounds(s.drop_last());
    }
}

/// A window of recent runs that covers every attempt counts like all runs.
pub proof fn lemma_full_window_counts_all_runs(window_setting: u64, run: Run, segment: int)
    requires
        0 <= segment < run.segments@.len(),
        run.attempt_history@.len() > 0,
        window_size(window_setting) >= seq_max(run.attempt_history@),
        window_size(window_setting) >= run.attempt_history@.len(),
    ensures
        spec_recent_runs(window_setting, run, segment) == spec_all_runs(run, segment),
{
    lemma_seq_max_bounds(run.attempt_history@);
}

/// A window of recent split attempts never counts more attempts than its
/// size.
pub proof fn lemma_split_window_bounds_attempts(window_setting: u64, run: Run, segment: int)
    requires
        0 <= segment < run.segments@.len(),
    ensures
        spec_recent_split_attempts(window_setting, run, segment) matches Some((_, attempts))
            ==> attempts <= window_size(window_setting),
{
}

/// A pair of counts as mathematical integers.
pub open spec fn int_pair(counts: Option<(usize, usize)>) -> Option<(int, int)> {
    match counts {
        Some((c, a)) => Some((c as int, a as int)),
        None => None,
    }
}

/// What the component shows before formatting.
#[derive(Clone, Copy, Debug, PartialEq, Eq, Structural)]
pub enum ChanceValue {
    /// No attempt is running: the value is zero.
    Inactive,
    /// The completions and attempts of the current segment.
    Counts { completions: usize, attempts: usize },
}

/// The texts of a chance mode in the display language: the component's
/// label and its short form.
#[derive(Debug)]
pub struct ModeTexts {
    pub label: String,
    pub short_label: String,
}

/// The texts of the component in the display language, for each chance
/// mode.
#[derive(Debug)]
pub struct Texts {
    pub reset_chance: ModeTexts,
    pub success_chance: ModeTexts,
    pub runs_ended: ModeTexts,
}

/// The texts of a chance mode.
pub open spec fn spec_mode_texts(texts: Texts, mode: ChanceMode) -> ModeTexts {
    match mode {
        ChanceMode::ResetChance => texts.reset_chance,
        ChanceMode::SuccessChance => texts.success_chance,
        ChanceMode::RunsEnded => texts.runs_ended,
    }
}

/// Returns the texts of a chance mode.
pub fn mode_texts(texts: &Texts, mode: ChanceMode) -> (chosen: &ModeTexts)
    ensures
        *chosen == spec_mode_texts(*texts, mode),
{
    match mode {
        ChanceMode::ResetChance => &texts.reset_chance,
        ChanceMode::SuccessChance => &texts.success_chance,
        ChanceMode::RunsEnded => &texts.runs_ended,
    }
}

/// Whether a value is the one the component shows for the timer.
pub open spec fn value_matches(value: Option<ChanceValue>, settings: Settings, timer: Snapshot) -> bool {
    if timer.current_phase == TimerPhase::NotRunning || timer.current_phase == TimerPhase::Ended {
        value == Some(ChanceValue::Inactive)
    } else {
        match timer.current_split_index {
            None => value is None,
            Some(segment) => match spec_counts(settings, timer.run, segment as int) {
                None => value is None,
                Some((c, a)) => value matches Some(ChanceValue::Counts { completions, attempts })
                    && completions == c && attempts == a,
            },
        }
    }
}

/// The number of fractional digits the value is formatted with.
pub open spec fn spec_fraction_digits(settings: Settings) -> nat {
    match settings.chance_mode {
        ChanceMode::RunsEnded => 0,
        _ => match settings.accuracy {
            PercentageAccuracy::Integer => 0,
            PercentageAccuracy::Tenths => 1,
            PercentageAccuracy::Hundredths => 2,
        },
    }
}

/// A text without its trailing zeros.
pub open spec fn strip_trailing_zeros(text: Seq<char>) -> Seq<char>
    decreases text.len(),
{
    if text.len() > 0 && text.last() == '0' {
        strip_trailing_zeros(text.drop_last())
    } else {
        text
    }
}

/// A text without one trailing decimal point.
pub open spec fn strip_trailing_dot(text: Seq<char>) -> Seq<char> {
    if text.len() > 0 && text.last() == '.' {
        text.drop_last()
    } else {
        text
    }
}

/// A text with every `.` replaced by the decimal separator.
pub open spec fn replace_dots(text: Seq<char>, separator: char) -> Seq<char>
    decreases text.len(),
{
    if text.len() == 0 {
        Seq::empty()
    } else {
        replace_dots(text.drop_last(), separator).push(
            if text.last() == '.' {
                separator
            } else {
                text.last()
            },
        )
    }
}

/// The text of the value, given the number formatted with the fraction
/// digits, if there is a value.
pub open spec fn rendered_value(settings: Settings, formatted: Option<Seq<char>>, separator: char) -> Seq<char> {
    match formatted {
        None => seq!['?'],
        Some(number) => if settings.chance_mode == ChanceMode::RunsEnded {
            number
        } else {
            let kept = if !settings.show_trailing_zeroes && spec_fraction_digits(settings) != 0 {
                strip_trailing_dot(strip_trailing_zeros(number))
            } else {
                number
            };
            replace_dots(kept, separator).push('%')
        },
    }
}

/// Whether a value is of the kind of the setting of the given index.
pub open spec fn setting_accepts(index: int, value: SettingValue) -> bool {
    if index == 0 {
        value is Gradient
    } else if index == 1 {
        value is ChanceMode
    } else if index == 2 {
        value is PercentageAccuracy
    } else if index == 3 || index == 7 {
        value is Bool
    } else if index == 4 {
        value is CalculationBasis
    } else if index == 5 || index == 6 {
        value is UInt
    } else {
        (index == 8 || index == 9) && value is OptionalColor
    }
}

/// The value of the setting of the given stable index.
pub open spec fn spec_setting_value(settings: Settings, index: int) -> SettingValue {
    if index == 0 {
        SettingValue::Gradient(settings.background)
    } else if index == 1 {
        SettingValue::ChanceMode(settings.chance_mode)
    } else if index == 2 {
        SettingValue::PercentageAccuracy(settings.accuracy)
    } else if index == 3 {
        SettingValue::Bool(settings.show_trailing_zeroes)
    } else if index == 4 {
        SettingValue::CalculationBasis(settings.calculation_basis)
    } else if index == 5 {
        SettingValue::UInt(settings.recent_runs)
    } else if index == 6 {
        SettingValue::UInt(settings.recent_split_attempts)
    } else if index == 7 {
        SettingValue::Bool(settings.display_two_rows)
    } else if index == 8 {
        SettingValue::OptionalColor(settings.label_color)
    } else {
        SettingValue::OptionalColor(settings.value_color)
    }
}

/// A setting that is set is described with its new value, and every other
/// setting keeps the value it is described with.
pub proof fn lemma_set_value_is_described(settings: Settings, index: int, value: SettingValue, other: int)
    requires
        0 <= index < 10,
        0 <= other < 10,
        setting_accepts(index, value),
    ensures
        spec_setting_value(spec_set_value(settings, index, value), index) == value,
        other != index ==> spec_setting_value(spec_set_value(settings, index, value), other)
            == spec_setting_value(settings, other),
{
}

/// The settings with the setting of the given index set to a value.
pub open spec fn spec_set_value(settings: Settings, index: int, value: SettingValue) -> Settings {
    match value {
        SettingValue::Gradient(background) => Settings { background, ..settings },
        SettingValue::ChanceMode(chance_mode) => Settings { chance_mode, ..settings },
        SettingValue::PercentageAccuracy(accuracy) => Settings { accuracy, ..settings },
        SettingValue::CalculationBasis(calculation_basis) => Settings { calculation_basis, ..settings },
        SettingValue::Bool(b) => if index == 3 {
            Settings { show_trailing_zeroes: b, ..settings }
        } else {
            Settings { display_two_rows: b, ..settings }
        },
        SettingValue::UInt(n) => if index == 5 {
            Settings { recent_runs: n, ..settings }
        } else {
            Settings { recent_split_attempts: n, ..settings }
        },
        SettingValue::OptionalColor(color) => if index == 8 {
            Settings { label_color: color, ..settings }
        } else {
            Settings { value_color: color, ..settings }
        },
        _ => settings,
    }
}

// ---------------------------------------------------------------------------
// The calculation.

/// Returns the counts if some attempt reached the segment and the completions
/// do not exceed the attempts.
pub fn valid_counts(completions: usize, attempts: usize) -> (counts: Option<(usize, usize)>)
    ensures
        int_pair(counts) == spec_valid_counts(completions as int, attempts as int),
{
    if attempts != 0 && completions != 0 && completions <= attempts {
        Some((completions, attempts))
    } else {
        None
    }
}

/// Counts the entries of a history that are attempts at or after `minimum`.
pub fn count_history_at_least(history: &Vec<i32>, minimum: i32) -> (count: usize)
    ensures
        count == count_at_least(history@, minimum as int),
{
    let mut count: usize = 0;
    let mut i: usize = 0;
    while i < history.len()
        invariant
            i <= history.len(),
            count <= i,
            count == count_at_least(history@.take(i as int), minimum as int),
        decreases history.len() - i,
    {
        assert(history@.take(i + 1).drop_last() =~= history@.take(i as int));
        if history[i] >= 1 && history[i] >= minimum {
            count = count + 1;
        }
        i = i + 1;
    }
    assert(history@.take(i as int) =~= history@);
    count
}

/// Collects the entries of a history that are attempts, in order.
pub fn collect_actual_runs(history: &Vec<i32>) -> (runs: Vec<i32>)
    ensures
        runs@ == actual_runs(history@),
{
    let mut runs: Vec<i32> = Vec::new();
    let mut i: usize = 0;
    while i < history.len()
        invariant
            i <= history.len(),
            runs@ == actual_runs(history@.take(i as int)),
        decreases history.len() - i,
    {
        assert(history@.take(i + 1).drop_last() =~= history@.take(i as int));
        if history[i] >= 1 {
            runs.push(history[i]);
        }
        i = i + 1;
    }
    assert(history@.take(i as int) =~= history@);
    runs
}

/// The largest attempt index of an attempt history, if there is any attempt.
pub fn latest_attempt(history: &Vec<i32>) -> (latest: Option<i32>)
    ensures
        history@.len() == 0 ==> latest is None,
        history@.len() > 0 ==> (latest matches Some(l) && l as int == seq_max(history@)),
{
    if history.len() == 0 {
        return None;
    }
    let mut best: i32 = history[0];
    let mut i: usize = 1;
    while i < history.len()
        invariant
            1 <= i <= history.len(),
            best as int == seq_max(history@.take(i as int)),
        decreases history.len() - i,
    {
        assert(history@.take(i + 1).drop_last() =~= history@.take(i as int));
        if history[i] > best {
            best = history[i];
        }
        i = i + 1;
    }
    assert(history@.take(i as int) =~= history@);
    Some(best)
}

/// A window setting as a size, saturating at the largest `usize`.
pub fn window_from_setting(setting: u64) -> (window: usize)
    ensures
        window as int == window_size(setting),
{
    if setting > usize::MAX as u64 {
        usize::MAX
    } else {
        setting as usize
    }
}

/// The first attempt index inside the window of the `window` latest
/// attempts, with the saturating `i32` arithmetic of the calculation.
pub fn recent_window_minimum(latest: i32, window: usize) -> (minimum: i32)
    ensures
        minimum as int == recent_minimum(latest as int, window as int),
{
    let window_i32: i64 = if window > i32::MAX as usize {
        i32::MAX as i64
    } else {
        window as i64
    };
    let after_latest: i64 = if latest == i32::MAX {
        i32::MAX as i64
    } else {
        latest as i64 + 1
    };
    let start: i64 = after_latest - window_i32;
    let start: i64 = if start < i32::MIN as i64 {
        i32::MIN as i64
    } else {
        start
    };
    if start > 1 {
        start as i32
    } else {
        1
    }
}

/// Shows the historical likelihood of an attempt ending at the current split.
#[derive(Clone, Copy, Debug)]
pub struct Component {
    pub settings: Settings,
}

impl Component {
    /// Creates a new Reset Chance component with the default settings.
    pub fn new() -> (component: Self)
        ensures
            component.settings == spec_default_settings(),
    {
        Component { settings: Settings::default() }
    }

    /// Creates a Reset Chance component with the given settings.
    pub fn with_settings(settings: Settings) -> (component: Self)
        ensures
            component.settings == settings,
    {
        Component { settings }
    }

    /// Accesses the component's settings.
    pub fn settings(&self) -> (settings: &Settings)
        ensures
            *settings == self.settings,
    {
        &self.settings
    }

    /// Counts the attempts at or after `minimum` in the history of a segment.
    pub fn count_at_or_after(timer: &Snapshot, segment: usize, minimum: i32) -> (count: usize)
        requires
            segment < timer.run.segments@.len(),
        ensures
            count == count_at_least(
                timer.run.segments@[segment as int].segment_history@,
                minimum as int,
            ),
    {
        count_history_at_least(&timer.run.segments[segment].segment_history, minimum)
    }

    /// The counts of a segment over all recorded attempts.
    pub fn all_runs(&self, timer: &Snapshot, segment: usize) -> (counts: Option<(usize, usize)>)
        requires
            segment < timer.run.segments@.len(),
        ensures
            int_pair(counts) == spec_all_runs(timer.run, segment as int),
    {
        let completions = Self::count_at_or_after(timer, segment, 1);
        let attempts: usize = if segment == 0 {
            timer.run.attempt_history.len()
        } else {
            Self::count_at_or_after(timer, segment - 1, 1)
        };
        valid_counts(completions, attempts)
    }

    /// The counts of a segment over the window of the latest attempts.
    pub fn recent_runs(&self, timer: &Snapshot, segment: usize) -> (counts: Option<(usize, usize)>)
        requires
            segment < timer.run.segments@.len(),
        ensures
            int_pair(counts) == spec_recent_runs(self.settings.recent_runs, timer.run, segment as int),
    {
        let window = window_from_setting(self.settings.recent_runs);
        if window == 0 {
            return None;
        }
        let attempts_history = &timer.run.attempt_history;
        let latest = match latest_attempt(attempts_history) {
            Some(latest) => latest,
            None => return None,
        };
        let minimum = recent_window_minimum(latest, window);
        let completions = Self::count_at_or_after(timer, segment, minimum);
        let attempts: usize = if segment == 0 {
            if attempts_history.len() <= window {
                attempts_history.len()
            } else {
                window
            }
        } else {
            Self::count_at_or_after(timer, segment - 1, minimum)
        };
        valid_counts(completions, attempts)
    }

    /// The counts of a segment over the latest attempts that reached the
    /// previous segment.
    pub fn recent_split_attempts(&self, timer: &Snapshot, segment: usize) -> (counts: Option<
        (usize, usize),
    >)
        requires
            segment < timer.run.segments@.len(),
        ensures
            int_pair(counts) == spec_recent_split_attempts(
                self.settings.recent_split_attempts,
                timer.run,
                segment as int,
            ),
    {
        let window = window_from_setting(self.settings.recent_split_attempts);
        if window == 0 {
            return None;
        }
        if segment == 0 {
            let attempts_history = &timer.run.attempt_history;
            let latest = match latest_attempt(attempts_history) {
                Some(latest) => latest,
                None => return None,
            };
            let minimum = recent_window_minimum(latest, window);
            let completions = Self::count_at_or_after(timer, 0, minimum);
            let attempts: usize = if attempts_history.len() <= window {
                attempts_history.len()
            } else {
                window
            };
            return valid_counts(completions, attempts);
        }
        let previous = collect_actual_runs(&timer.run.segments[segment - 1].segment_history);
        let previous_count: usize = previous.len();
        let attempts: usize = if previous_count <= window {
            previous_count
        } else {
            window
        };
        if attempts == 0 {
            return None;
        }
        let minimum: i32 = if previous_count <= window {
            1
        } else {
            previous[previous_count - window]
        };
        let completions = Self::count_at_or_after(timer, segment, minimum);
        valid_counts(completions, attempts)
    }

    /// The completions and attempts of a segment under the component's
    /// calculation basis. Whenever it returns counts, the completions are
    /// between 1 and the attempts.
    pub fn counts(&self, timer: &Snapshot, segment: usize) -> (counts: Option<(usize, usize)>)
        ensures
            int_pair(counts) == spec_counts(self.settings, timer.run, segment as int),
            counts matches Some((c, a)) ==> 1 <= c <= a,
    {
        if segment >= timer.run.segments.len() {
            return None;
        }
        match self.settings.calculation_basis {
            CalculationBasis::AllRuns => self.all_runs(timer, segment),
            CalculationBasis::RecentRuns => self.recent_runs(timer, segment),
            CalculationBasis::RecentSplitAttempts => self.recent_split_attempts(timer, segment),
        }
    }

    /// Grants mutable access to the component's settings.
    pub fn settings_mut(&mut self) -> (settings: &mut Settings)
        ensures
            *settings == old(self).settings,
            final(self).settings == *final(settings),
    {
        &mut self.settings
    }

    /// The value the component shows: nothing to show while no attempt
    /// runs, else the counts of the current segment, if there are any.
    pub fn value(&self, timer: &Snapshot) -> (value: Option<ChanceValue>)
        ensures
            value_matches(value, self.settings, *timer),
    {
        if timer.current_phase == TimerPhase::NotRunning || timer.current_phase == TimerPhase::Ended {
            return Some(ChanceValue::Inactive);
        }
        let segment = match timer.current_split_index {
            Some(segment) => segment,
            None => return None,
        };
        match self.counts(timer, segment) {
            Some((completions, attempts)) => Some(ChanceValue::Counts { completions, attempts }),
            None => None,
        }
    }

    /// The number of fractional digits the value is formatted with.
    pub fn fraction_digits(&self) -> (digits: usize)
        ensures
            digits == spec_fraction_digits(self.settings),
    {
        match self.settings.chance_mode {
            ChanceMode::RunsEnded => 0,
            _ => match self.settings.accuracy {
                PercentageAccuracy::Integer => 0,
                PercentageAccuracy::Tenths => 1,
                PercentageAccuracy::Hundredths => 2,
            },
        }
    }

    /// Writes the value: `?` when there is none; the number of runs ended
    /// as it is formatted; a percentage without insignificant fractional
    /// zeros unless they are to be shown, with the language's decimal
    /// separator and a `%` sign. `formatted` is the value formatted with
    /// [`Component::fraction_digits`] fractional digits.
    pub fn format_value(&self, output: &mut String, formatted: Option<&str>, decimal_separator: char)
        ensures
            final(output)@ == old(output)@ + rendered_value(
                self.settings,
                match formatted {
                    Some(f) => Some(f@),
                    None => None,
                },
                decimal_separator,
            ),
    {
        let formatted = match formatted {
            Some(formatted) => formatted,
            None => {
                push_char(output, '?');
                return;
            },
        };
        if self.settings.chance_mode == ChanceMode::RunsEnded {
            push_str(output, formatted);
            return;
        }
        let digits = self.fraction_digits();
        let chars = chars_of(formatted);
        let mut end: usize = chars.len();
        assert(chars@.take(end as int) =~= chars@);
        if !self.settings.show_trailing_zeroes && digits != 0 {
            while end > 0 && chars[end - 1] == '0'
                invariant
                    end <= chars@.len(),
                    strip_trailing_zeros(chars@) == strip_trailing_zeros(chars@.take(end as int)),
                decreases end,
            {
                assert(chars@.take(end as int).drop_last() =~= chars@.take(end - 1));
                end = end - 1;
            }
            assert(strip_trailing_zeros(chars@.take(end as int)) == chars@.take(end as int));
            if end > 0 && chars[end - 1] == '.' {
                assert(chars@.take(end as int).drop_last() =~= chars@.take(end - 1));
                end = end - 1;
            }
        }
        let ghost kept = chars@.take(end as int);
        let ghost start = output@;
        let mut i: usize = 0;
        while i < end
            invariant
                i <= end <= chars@.len(),
                kept == chars@.take(end as int),
                output@ == start + replace_dots(kept.take(i as int), decimal_separator),
            decreases end - i,
        {
            assert(kept.take(i + 1).drop_last() =~= kept.take(i as int));
            if chars[i] == '.' {
                push_char(output, decimal_separator);
            } else {
                push_char(output, chars[i]);
            }
            i = i + 1;
        }
        assert(kept.take(i as int) =~= kept);
        push_char(output, '%');
        proof {
            if !self.settings.show_trailing_zeroes && digits != 0 {
                assert(kept == strip_trailing_dot(strip_trailing_zeros(formatted@)));
            } else {
                assert(kept =~= formatted@);
            }
        }
    }

    /// Returns the value of the setting of the given stable index.
    pub fn setting_value(&self, index: usize) -> (value: SettingValue)
        requires
            index < 10,
        ensures
            value == spec_setting_value(self.settings, index as int),
    {
        if index == 0 {
            SettingValue::Gradient(self.settings.background)
        } else if index == 1 {
            SettingValue::ChanceMode(self.settings.chance_mode)
        } else if index == 2 {
            SettingValue::PercentageAccuracy(self.settings.accuracy)
        } else if index == 3 {
            SettingValue::Bool(self.settings.show_trailing_zeroes)
        } else if index == 4 {
            SettingValue::CalculationBasis(self.settings.calculation_basis)
        } else if index == 5 {
            SettingValue::UInt(self.settings.recent_runs)
        } else if index == 6 {
            SettingValue::UInt(self.settings.recent_split_attempts)
        } else if index == 7 {
            SettingValue::Bool(self.settings.display_two_rows)
        } else if index == 8 {
            SettingValue::OptionalColor(self.settings.label_color)
        } else {
            SettingValue::OptionalColor(self.settings.value_color)
        }
    }

    /// Describes the settings in their stable order: background, chance
    /// mode, accuracy, trailing zeros, calculation basis, recent runs,
    /// recent split attempts, two rows, label color and value color. The
    /// names and descriptions of the fields, in the display language, are
    /// given in that order.
    pub fn settings_description(&self, texts: &[(String, String); 10]) -> (description:
        SettingsDescription)
        ensures
            description.fields@.len() == 10,
            forall|i: int|
                0 <= i < 10 ==> {
                    &&& (#[trigger] description.fields@[i]).name@ == texts@[i].0@
                    &&& description.fields@[i].description@ == texts@[i].1@
                    &&& description.fields@[i].value == spec_setting_value(self.settings, i)
                },
    {
        let mut fields: Vec<Field> = Vec::new();
        let mut i: usize = 0;
        while i < 10
            invariant
                i <= 10,
                texts@.len() == 10,
                fields@.len() == i,
                forall|j: int|
                    0 <= j < i ==> {
                        &&& (#[trigger] fields@[j]).name@ == texts@[j].0@
                        &&& fields@[j].description@ == texts@[j].1@
                        &&& fields@[j].value == spec_setting_value(self.settings, j)
                    },
            decreases 10 - i,
        {
            let mut name = String::new();
            push_str(&mut name, texts[i].0.as_str());
            let mut description = String::new();
            push_str(&mut description, texts[i].1.as_str());
            fields.push(Field { name, description, value: self.setting_value(i) });
            i = i + 1;
        }
        SettingsDescription { fields }
    }

    /// Sets a setting by its stable index.
    pub fn set_value(&mut self, index: usize, value: SettingValue)
        requires
            index <= 9,
            setting_accepts(index as int, value),
        ensures
            final(self).settings == spec_set_value(old(self).settings, index as int, value),
    {
        match value {
            SettingValue::Gradient(background) => self.settings.background = background,
            SettingValue::ChanceMode(mode) => self.settings.chance_mode = mode,
            SettingValue::PercentageAccuracy(accuracy) => self.settings.accuracy = accuracy,
            SettingValue::CalculationBasis(basis) => self.settings.calculation_basis = basis,
            SettingValue::Bool(b) => {
                if index == 3 {
                    self.settings.show_trailing_zeroes = b;
                } else {
                    self.settings.display_two_rows = b;
                }
            },
            SettingValue::UInt(n) => {
                if index == 5 {
                    self.settings.recent_runs = n;
                } else {
                    self.settings.recent_split_attempts = n;
                }
            },
            SettingValue::OptionalColor(color) => {
                if index == 8 {
                    self.settings.label_color = color;
                } else {
                    self.settings.value_color = color;
                }
            },
            _ => {},
        }
    }

    /// The component's name: the label of its chance mode.
    pub fn name<'a>(&self, texts: &'a Texts) -> (name: &'a str)
        ensures
            name@ == spec_mode_texts(*texts, self.settings.chance_mode).label@,
    {
        mode_texts(texts, self.settings.chance_mode).label.as_str()
    }

    /// Updates the visual state, but for the value's text: background,
    /// colors, layout, the label of the chance mode with its short form as
    /// the only abbreviation, and that the value does not update every
    /// frame. Returns the value to show, which [`Component::format_value`]
    /// writes once it is formatted.
    pub fn update_state(&self, state: &mut KeyValueState, timer: &Snapshot, texts: &Texts) -> (value:
        Option<ChanceValue>)
        ensures
            value_matches(value, self.settings, *timer),
            final(state).background == self.settings.background,
            final(state).key_color == self.settings.label_color,
            final(state).value_color == self.settings.value_color,
            final(state).key@ == spec_mode_texts(*texts, self.settings.chance_mode).label@,
            final(state).value@.len() == 0,
            final(state).key_abbreviations@.len() == 1,
            final(state).key_abbreviations@[0]@ == spec_mode_texts(
                *texts,
                self.settings.chance_mode,
            ).short_label@,
            final(state).display_two_rows == self.settings.display_two_rows,
            !final(state).updates_frequently,
    {
        let chosen = mode_texts(texts, self.settings.chance_mode);
        state.background = self.settings.background;
        state.key_color = self.settings.label_color;
        state.value_color = self.settings.value_color;
        let mut key = String::new();
        push_str(&mut key, chosen.label.as_str());
        state.key = key;
        state.value = String::new();
        let mut short = String::new();
        push_str(&mut short, chosen.short_label.as_str());
        let mut abbreviations: Vec<String> = Vec::new();
        abbreviations.push(short);
        state.key_abbreviations = abbreviations;
        state.display_two_rows = self.settings.display_two_rows;
        state.updates_frequently = false;
        self.value(timer)
    }
}

} // verus!
