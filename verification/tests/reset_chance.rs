use livesplit_components::reset_chance::{
    CalculationBasis, ChanceMode, ChanceValue, Component, ModeTexts, PercentageAccuracy, Texts,
    valid_counts,
};
use livesplit_components::settings::{Color, KeyValueState, SettingValue, default_gradient};
use livesplit_components::timer::{
    FrequentUpdates, Run, RunMetadata, Segment, Snapshot, Time, TimerPhase, TimingMethod,
};

fn timer(attempt_ids: &[i32], histories: &[&[i32]], running: bool) -> Snapshot {
    let segments = histories
        .iter()
        .map(|ids| Segment {
            segment_history: ids.to_vec(),
            personal_best_split_time: Time { real_time: None, game_time: None },
            split_time: Time { real_time: None, game_time: None },
        })
        .collect();
    Snapshot {
        run: Run {
            game_name: String::new(),
            category_name: String::new(),
            metadata: RunMetadata {
                platform_name: String::new(),
                region_name: String::new(),
                uses_emulator: false,
                speedrun_com_variables: Vec::new(),
            },
            segments,
            attempt_history: attempt_ids.to_vec(),
        },
        current_phase: if running { TimerPhase::Running } else { TimerPhase::NotRunning },
        current_split_index: if running { Some(0) } else { None },
        current_timing_method: TimingMethod::RealTime,
        current_time: Time { real_time: None, game_time: None },
        frequent_updates: FrequentUpdates { real_time: running, game_time: running },
    }
}

fn texts() -> Texts {
    let mode = |label: &str, short: &str| ModeTexts {
        label: label.to_string(),
        short_label: short.to_string(),
    };
    Texts {
        reset_chance: mode("Reset Chance", "Reset"),
        success_chance: mode("Success Chance", "Success"),
        runs_ended: mode("Runs Ended", "Ended"),
    }
}

fn empty_state() -> KeyValueState {
    KeyValueState {
        background: default_gradient(),
        key_color: None,
        value_color: None,
        key: String::new(),
        value: String::new(),
        key_abbreviations: Vec::new(),
        display_two_rows: false,
        updates_frequently: false,
    }
}

/// The value text the component shows, with the number formatted as a
/// double the way the layout does.
fn render(component: &Component, timer: &Snapshot, separator: char) -> String {
    let mut state = empty_state();
    let value = component.update_state(&mut state, timer, &texts());
    let number = value.map(|value| match value {
        ChanceValue::Inactive => 0.0,
        ChanceValue::Counts { completions, attempts } => {
            let completions = completions as f64;
            let attempts = attempts as f64;
            match component.settings.chance_mode {
                ChanceMode::ResetChance => (1.0 - completions / attempts) * 100.0,
                ChanceMode::SuccessChance => completions / attempts * 100.0,
                ChanceMode::RunsEnded => attempts - completions,
            }
        }
    });
    let digits = component.fraction_digits();
    let formatted = number.map(|number| format!("{number:.digits$}"));
    component.format_value(&mut state.value, formatted.as_deref(), separator);
    state.value
}

#[test]
fn all_modes_and_artifacts() {
    let timer = timer(&[1, 2, 3, 4], &[&[-1, 0, 1, 2, 3]], true);
    let mut component = Component::new();
    assert_eq!(render(&component, &timer, '.'), "25%");
    component.settings.chance_mode = ChanceMode::SuccessChance;
    assert_eq!(render(&component, &timer, '.'), "75%");
    component.settings.chance_mode = ChanceMode::RunsEnded;
    assert_eq!(render(&component, &timer, '.'), "1");
}

#[test]
fn later_segment_uses_previous_completions() {
    let mut timer = timer(&[1, 2, 3, 4], &[&[1, 2, 3], &[1, 3]], true);
    timer.current_split_index = Some(1);
    assert_eq!(render(&Component::new(), &timer, '.'), "33%");
}

#[test]
fn recent_run_and_split_windows() {
    let timer = timer(&[1, 4, 8, 10], &[&[1, 4, 8, 10], &[1, 8, 10], &[1, 10]], true);
    let mut component = Component::new();
    component.settings.calculation_basis = CalculationBasis::RecentRuns;
    component.settings.recent_runs = 3;
    assert_eq!(component.counts(&timer, 1), Some((2, 2)));
    component.settings.calculation_basis = CalculationBasis::RecentSplitAttempts;
    component.settings.recent_split_attempts = 2;
    assert_eq!(component.counts(&timer, 2), Some((1, 2)));
}

#[test]
fn unavailable_and_inconsistent_histories_are_safe() {
    let empty = timer(&[], &[&[]], true);
    assert_eq!(render(&Component::new(), &empty, '.'), "?");
    assert_eq!(valid_counts(2, 1), None);
    let inconsistent = timer(&[1], &[&[1, 2]], true);
    let mut component = Component::new();
    component.settings.calculation_basis = CalculationBasis::RecentRuns;
    component.settings.recent_runs = 0;
    assert_eq!(render(&component, &inconsistent, '.'), "?");
}

#[test]
fn inactive_timer_shows_zero() {
    let timer = timer(&[], &[&[]], false);
    assert_eq!(render(&Component::new(), &timer, '.'), "0%");
}

#[test]
fn percentage_formatting_and_state_settings() {
    let timer = timer(&[1, 2, 3], &[&[1, 2]], true);
    let mut component = Component::new();
    component.settings.accuracy = PercentageAccuracy::Hundredths;
    assert_eq!(render(&component, &timer, '.'), "33.33%");
    component.settings.show_trailing_zeroes = true;
    component.settings.accuracy = PercentageAccuracy::Tenths;
    component.settings.display_two_rows = true;
    component.settings.label_color = Some(Color::rgba8(1, 2, 3, 255));
    assert_eq!(render(&component, &timer, ','), "33,3%");
    let mut state = empty_state();
    component.update_state(&mut state, &timer, &texts());
    assert!(state.display_two_rows);
    assert_eq!(state.key_color, component.settings.label_color);
    assert!(!state.updates_frequently);
}

#[test]
fn settings_have_stable_shape() {
    let mut component = Component::new();
    let names: [(String, String); 10] =
        std::array::from_fn(|i| (format!("Setting {i}"), format!("Describes setting {i}")));
    assert_eq!(component.settings_description(&names).fields.len(), 10);
    component.set_value(1, SettingValue::ChanceMode(ChanceMode::RunsEnded));
    component.set_value(2, SettingValue::PercentageAccuracy(PercentageAccuracy::Tenths));
    component.set_value(4, SettingValue::CalculationBasis(CalculationBasis::RecentRuns));
    component.set_value(5, SettingValue::UInt(12));
    assert!(component.settings.chance_mode == ChanceMode::RunsEnded);
    assert!(component.settings.accuracy == PercentageAccuracy::Tenths);
    assert!(component.settings.calculation_basis == CalculationBasis::RecentRuns);
    assert_eq!(component.settings.recent_runs, 12);
}

#[test]
fn trailing_zeros_are_stripped_unless_shown() {
    let component = Component::new();
    let mut with_digits = component;
    with_digits.settings.accuracy = PercentageAccuracy::Hundredths;
    let mut out = String::new();
    with_digits.format_value(&mut out, Some("50.00"), '.');
    assert_eq!(out, "50%");
    let mut out = String::new();
    with_digits.format_value(&mut out, Some("12.50"), ',');
    assert_eq!(out, "12,5%");
    let mut out = String::new();
    with_digits.format_value(&mut out, Some("100.00"), '.');
    assert_eq!(out, "100%");
    with_digits.settings.show_trailing_zeroes = true;
    let mut out = String::new();
    with_digits.format_value(&mut out, Some("50.00"), '.');
    assert_eq!(out, "50.00%");
    let mut out = String::new();
    component.format_value(&mut out, Some("50"), '.');
    assert_eq!(out, "50%");
}

#[test]
fn all_runs_uses_every_attempt_for_the_first_segment() {
    let timer = timer(&[1, 2, 3, 4, 5], &[&[0, 2, 5], &[5]], true);
    let component = Component::new();
    assert_eq!(component.counts(&timer, 0), Some((2, 5)));
    assert_eq!(component.counts(&timer, 1), Some((1, 2)));
    assert_eq!(component.counts(&timer, 2), None);
}

#[test]
fn recent_windows_larger_than_history_and_at_segment_zero() {
    let timer = timer(&[3, 7, 9], &[&[3, 9], &[9]], true);
    let mut component = Component::new();
    component.settings.calculation_basis = CalculationBasis::RecentRuns;
    component.settings.recent_runs = 2;
    // The window starts at attempt 8: only attempt 9 completed the first segment.
    assert_eq!(component.counts(&timer, 0), Some((1, 2)));
    component.settings.recent_runs = u64::MAX;
    assert_eq!(component.counts(&timer, 0), Some((2, 3)));
    component.settings.calculation_basis = CalculationBasis::RecentSplitAttempts;
    component.settings.recent_split_attempts = 5;
    assert_eq!(component.counts(&timer, 1), Some((1, 2)));
    // At the first segment the window covers attempts 5 to 9.
    assert_eq!(component.counts(&timer, 0), Some((1, 3)));
    component.settings.recent_split_attempts = 0;
    assert_eq!(component.counts(&timer, 1), None);
}

#[test]
fn valid_counts_needs_completions_within_attempts() {
    assert_eq!(valid_counts(1, 1), Some((1, 1)));
    assert_eq!(valid_counts(0, 3), None);
    assert_eq!(valid_counts(3, 0), None);
}

#[test]
fn state_labels_follow_the_chance_mode() {
    let timer = timer(&[1, 2, 3], &[&[1, 2]], true);
    let mut component = Component::new();
    let mut state = empty_state();
    state.key_abbreviations = vec!["old".to_string(), "older".to_string()];
    component.update_state(&mut state, &timer, &texts());
    assert_eq!(state.key, "Reset Chance");
    assert_eq!(state.key_abbreviations, vec!["Reset".to_string()]);
    assert_eq!(component.name(&texts()), "Reset Chance");
    component.set_value(1, SettingValue::ChanceMode(ChanceMode::RunsEnded));
    component.update_state(&mut state, &timer, &texts());
    assert_eq!(state.key, "Runs Ended");
    assert_eq!(state.key_abbreviations, vec!["Ended".to_string()]);
}

#[test]
fn settings_description_follows_set_value() {
    let mut component = Component::new();
    let names: [(String, String); 10] =
        std::array::from_fn(|i| (format!("Setting {i}"), format!("Describes setting {i}")));
    component.set_value(6, SettingValue::UInt(7));
    component.set_value(9, SettingValue::OptionalColor(Some(Color::rgba8(9, 8, 7, 6))));
    let description = component.settings_description(&names);
    assert_eq!(description.fields[6].value, SettingValue::UInt(7));
    assert_eq!(description.fields[6].name, "Setting 6");
    assert_eq!(description.fields[6].description, "Describes setting 6");
    assert_eq!(
        description.fields[9].value,
        SettingValue::OptionalColor(Some(Color::rgba8(9, 8, 7, 6)))
    );
    assert_eq!(description.fields[1].value, SettingValue::ChanceMode(ChanceMode::ResetChance));
}
