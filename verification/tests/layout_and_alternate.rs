use livesplit_components::alternate_timing_method::{Component, opposite_method};
use livesplit_components::layout_parser::{
    LayoutValue, ResetChanceLayout, TagKind, WorldRecordLayout, calculation_basis_from_layout,
    chance_mode_from_layout, finish_reset_chance_layout, finish_world_record_layout,
    percentage_accuracy_from_layout, precision_from_layout, read_reset_chance_layout,
    read_reset_chance_tag, read_world_record_layout,
    read_world_record_tag, reset_chance_tag_kind, window_from_layout, world_record_tag_kind,
};
use livesplit_components::reset_chance::{CalculationBasis, ChanceMode, PercentageAccuracy};
use livesplit_components::settings::{
    Accuracy, Color, DigitsFormat, Gradient, KeyValueState, SettingValue, default_gradient,
};
use livesplit_components::time_format::format_time;
use livesplit_components::timer::{
    FrequentUpdates, Run, RunMetadata, Snapshot, Time, TimeSpan, TimerPhase, TimingMethod,
};

#[test]
fn layout_texts() {
    assert_eq!(precision_from_layout("FromLeaderboard"), (true, Accuracy::Milliseconds));
    assert_eq!(precision_from_layout("Seconds"), (false, Accuracy::Seconds));
    assert_eq!(precision_from_layout("Milliseconds"), (false, Accuracy::Milliseconds));
    assert_eq!(chance_mode_from_layout("SuccessChance"), Some(ChanceMode::SuccessChance));
    assert_eq!(chance_mode_from_layout("successchance"), None);
    assert_eq!(percentage_accuracy_from_layout("TwoDecimal"), Some(PercentageAccuracy::Hundredths));
    assert_eq!(calculation_basis_from_layout("SubsetSplits"), Some(CalculationBasis::RecentSplitAttempts));
    assert_eq!(calculation_basis_from_layout("Subset"), Some(CalculationBasis::RecentRuns));
}

#[test]
fn layout_windows_are_unsigned_numbers() {
    assert_eq!(window_from_layout("25"), Some(25));
    assert_eq!(window_from_layout("+7"), Some(7));
    assert_eq!(window_from_layout("007"), Some(7));
    assert_eq!(window_from_layout("18446744073709551615"), Some(u64::MAX));
    assert_eq!(window_from_layout("18446744073709551616"), None);
    assert_eq!(window_from_layout("-1"), None);
    assert_eq!(window_from_layout("+"), None);
    assert_eq!(window_from_layout(""), None);
    assert_eq!(window_from_layout("1 "), None);
}

#[test]
fn layout_colors_count_only_when_overridden() {
    let mut settings = livesplit_components::world_record::Settings::default();
    settings.label_color = Some(Color::rgba8(1, 2, 3, 4));
    settings.value_color = Some(Color::rgba8(5, 6, 7, 8));
    finish_world_record_layout(&mut settings, true, false, Gradient::Transparent);
    assert_eq!(settings.label_color, Some(Color::rgba8(1, 2, 3, 4)));
    assert_eq!(settings.value_color, None);
    assert_eq!(settings.background, Gradient::Transparent);
    let mut settings = livesplit_components::reset_chance::Settings::default();
    settings.label_color = Some(Color::rgba8(1, 2, 3, 4));
    finish_reset_chance_layout(&mut settings, false, false, default_gradient());
    assert_eq!(settings.label_color, None);
}

fn snapshot(method: TimingMethod, real: Option<i128>, game: Option<i128>) -> Snapshot {
    Snapshot {
        run: Run {
            game_name: String::new(),
            category_name: String::new(),
            metadata: RunMetadata {
                platform_name: String::new(),
                region_name: String::new(),
                uses_emulator: false,
                speedrun_com_variables: Vec::new(),
            },
            segments: Vec::new(),
            attempt_history: Vec::new(),
        },
        current_phase: TimerPhase::Running,
        current_split_index: Some(0),
        current_timing_method: method,
        current_time: Time {
            real_time: real.map(|nanoseconds| TimeSpan { nanoseconds }),
            game_time: game.map(|nanoseconds| TimeSpan { nanoseconds }),
        },
        frequent_updates: FrequentUpdates { real_time: true, game_time: false },
    }
}

fn empty_state() -> KeyValueState {
    KeyValueState {
        background: Gradient::Transparent,
        key_color: None,
        value_color: None,
        key: String::new(),
        value: String::new(),
        key_abbreviations: vec!["x".into()],
        display_two_rows: false,
        updates_frequently: false,
    }
}

#[test]
fn alternate_shows_the_opposite_method() {
    let component = Component::new();
    let mut state = empty_state();
    let show = |state: &mut KeyValueState, timer: &Snapshot| {
        component.update_state(state, timer, "Real Time", "Game Time", '.')
    };
    let shown = show(&mut state, &snapshot(TimingMethod::RealTime, Some(5), Some(3)));
    assert_eq!(shown, (TimingMethod::GameTime, Some(TimeSpan { nanoseconds: 3 })));
    assert_eq!(state.key, "Game Time");
    assert_eq!(state.value, "0.00");
    assert!(!state.updates_frequently);
    let shown = show(&mut state, &snapshot(TimingMethod::RealTime, Some(5), None));
    assert_eq!(shown, (TimingMethod::GameTime, Some(TimeSpan { nanoseconds: 5 })));
    let shown = show(&mut state, &snapshot(TimingMethod::GameTime, Some(5), Some(3)));
    assert_eq!(shown, (TimingMethod::RealTime, Some(TimeSpan { nanoseconds: 5 })));
    assert_eq!(state.key, "Real Time");
    assert!(state.updates_frequently);
    let computed = component.state(
        &snapshot(TimingMethod::GameTime, Some(3_725_456_000_000), None),
        "Real Time",
        "Game Time",
        ',',
    );
    assert_eq!(computed.value, "1:02:05,45");
    assert_eq!(computed.key, "Real Time");
    show(&mut state, &snapshot(TimingMethod::GameTime, None, Some(3)));
    assert!(!state.updates_frequently);
    assert!(state.key_abbreviations.is_empty());
    assert_eq!(state.background, default_gradient());
    assert_eq!(opposite_method(opposite_method(TimingMethod::GameTime)), TimingMethod::GameTime);
    assert_eq!(component.name(), "Alternate Timing Method");
}

#[test]
fn alternate_settings_description_follows_set_value() {
    let mut component = Component::new();
    let names: [(String, String); 6] =
        std::array::from_fn(|i| (format!("Setting {i}"), format!("Describes setting {i}")));
    assert_eq!(component.settings_description(&names).fields.len(), 6);
    component.set_value(5, SettingValue::Accuracy(Accuracy::Tenths));
    let description = component.settings_description(&names);
    assert_eq!(description.fields[5].value, SettingValue::Accuracy(Accuracy::Tenths));
    assert_eq!(description.fields[5].name, "Setting 5");
    assert_eq!(description.fields[1].value, SettingValue::Bool(false));
}

#[test]
fn layout_tags_fill_the_settings() {
    let mut layout = ResetChanceLayout {
        settings: livesplit_components::reset_chance::Settings::default(),
        override_label: false,
        override_value: false,
    };
    assert_eq!(reset_chance_tag_kind("ChanceMode"), TagKind::Text);
    assert_eq!(reset_chance_tag_kind("ChanceColor"), TagKind::Color);
    assert_eq!(reset_chance_tag_kind("Unknown"), TagKind::Skipped);
    read_reset_chance_tag(&mut layout, "ChanceMode", &LayoutValue::Text("RunsEnded".into()));
    read_reset_chance_tag(&mut layout, "BasisSubset", &LayoutValue::Text("12".into()));
    read_reset_chance_tag(&mut layout, "BasisSubsetSplits", &LayoutValue::Text("x".into()));
    read_reset_chance_tag(&mut layout, "ChanceColor", &LayoutValue::Color(Color::rgba8(1, 2, 3, 4)));
    read_reset_chance_tag(&mut layout, "OverrideChanceColor", &LayoutValue::Bool(true));
    assert!(layout.settings.chance_mode == ChanceMode::RunsEnded);
    assert_eq!(layout.settings.recent_runs, 12);
    assert_eq!(
        layout.settings.recent_split_attempts,
        livesplit_components::reset_chance::Settings::default().recent_split_attempts
    );
    assert!(layout.override_value && !layout.override_label);
    finish_reset_chance_layout(
        &mut layout.settings,
        layout.override_label,
        layout.override_value,
        default_gradient(),
    );
    assert_eq!(layout.settings.value_color, Some(Color::rgba8(1, 2, 3, 4)));

    let mut layout = WorldRecordLayout {
        settings: livesplit_components::world_record::Settings::default(),
        override_label: false,
        override_value: false,
    };
    assert_eq!(world_record_tag_kind("PrecisionType"), TagKind::Text);
    read_world_record_tag(&mut layout, "PrecisionType", &LayoutValue::Text("Seconds".into()));
    read_world_record_tag(&mut layout, "FilterRegion", &LayoutValue::Bool(true));
    read_world_record_tag(&mut layout, "TimingMethod", &LayoutValue::Text("Game Time".into()));
    assert_eq!(layout.settings.accuracy, Accuracy::Seconds);
    assert!(!layout.settings.automatic_precision);
    assert!(layout.settings.filter_region);
    assert!(layout.settings.timing_method.is_some());
}

#[test]
fn alternate_settings() {
    let mut component = Component::new();
    assert_eq!(component.settings().digits_format, DigitsFormat::SingleDigitSeconds);
    assert_eq!(component.settings().accuracy, Accuracy::Hundredths);
    component.set_value(4, SettingValue::DigitsFormat(DigitsFormat::DoubleDigitMinutes));
    component.set_value(1, SettingValue::Bool(true));
    component.settings_mut().accuracy = Accuracy::Seconds;
    assert_eq!(component.settings().digits_format, DigitsFormat::DoubleDigitMinutes);
    assert!(component.settings().display_two_rows);
    assert_eq!(component.settings().accuracy, Accuracy::Seconds);
}

#[test]
fn times_are_written_with_their_digits_and_accuracy() {
    assert_eq!(format_time(None, DigitsFormat::SingleDigitSeconds, Accuracy::Tenths, '.'), "\u{2014}");
    assert_eq!(
        format_time(Some(5_250_000_000), DigitsFormat::DoubleDigitMinutes, Accuracy::Hundredths, '.'),
        "00:05.25"
    );
    assert_eq!(
        format_time(Some(-65_400_000_000), DigitsFormat::SingleDigitSeconds, Accuracy::Tenths, '.'),
        "\u{2212}1:05.4"
    );
    assert_eq!(
        format_time(Some(7_000_000_000), DigitsFormat::DoubleDigitHours, Accuracy::Seconds, '.'),
        "00:00:07"
    );
}

#[test]
fn layout_elements_are_read_in_order() {
    let elements = vec![
        ("ChanceMode".to_string(), LayoutValue::Text("SuccessChance".into())),
        ("TextColor".to_string(), LayoutValue::Color(Color::rgba8(1, 2, 3, 4))),
        ("ChanceColor".to_string(), LayoutValue::Color(Color::rgba8(5, 6, 7, 8))),
        ("OverrideChanceColor".to_string(), LayoutValue::Bool(true)),
        ("ChanceMode".to_string(), LayoutValue::Text("Unknown".into())),
        ("Ignored".to_string(), LayoutValue::Bool(true)),
    ];
    let settings = read_reset_chance_layout(
        livesplit_components::reset_chance::Settings::default(),
        &elements,
        Gradient::Transparent,
    );
    assert!(settings.chance_mode == ChanceMode::SuccessChance);
    assert_eq!(settings.label_color, None);
    assert_eq!(settings.value_color, Some(Color::rgba8(5, 6, 7, 8)));
    assert_eq!(settings.background, Gradient::Transparent);

    let elements = vec![
        ("OverrideTextColor".to_string(), LayoutValue::Bool(true)),
        ("TextColor".to_string(), LayoutValue::Color(Color::rgba8(1, 2, 3, 4))),
        ("PrecisionType".to_string(), LayoutValue::Text("FromLeaderboard".into())),
    ];
    let settings = read_world_record_layout(
        livesplit_components::world_record::Settings::default(),
        &elements,
        default_gradient(),
    );
    assert_eq!(settings.label_color, Some(Color::rgba8(1, 2, 3, 4)));
    assert!(settings.automatic_precision);
    assert_eq!(settings.accuracy, Accuracy::Milliseconds);
}

#[test]
fn window_texts_parse_as_std_does() {
    assert_eq!(window_from_layout("+12"), Some(12));
    assert_eq!(window_from_layout("18446744073709551615"), Some(u64::MAX));
    assert_eq!(window_from_layout("18446744073709551616"), None);
    assert_eq!(window_from_layout("99999999999999999999"), None);
    assert_eq!(window_from_layout(""), None);
    assert_eq!(window_from_layout("+"), None);
    assert_eq!(window_from_layout("1a"), None);
    assert_eq!(window_from_layout("-1"), None);
}
