use livesplit_components::settings::{Accuracy, KeyValueState, SettingValue, default_gradient};
use livesplit_components::timer::{
    FrequentUpdates, Run, RunMetadata, Segment, Snapshot, Time, TimeSpan, TimerPhase,
    TimingMethod,
};
use livesplit_components::world_record::{
    Component, ParseResponseError, Record, RecordDisplay, Stage, Times, TimingMethodOverride,
    format_record_time, is_expired, local_pb, parse_timing_method, record_accuracy, timing_method_name,
    write_record_value,
};

/// The number of nanoseconds nearest to a number of seconds.
fn nanoseconds_of(seconds: f64) -> i128 {
    (seconds * 1e9).round() as i128
}

fn segment(name_unused: &str) -> Segment {
    let _ = name_unused;
    Segment {
        segment_history: Vec::new(),
        personal_best_split_time: Time { real_time: None, game_time: None },
        split_time: Time { real_time: None, game_time: None },
    }
}

fn timer() -> Snapshot {
    Snapshot {
        run: Run {
            game_name: "Game & Watch".to_string(),
            category_name: "Any%".to_string(),
            metadata: RunMetadata {
                platform_name: String::new(),
                region_name: String::new(),
                uses_emulator: false,
                speedrun_com_variables: vec![("Glitches".to_string(), "No".to_string())],
            },
            segments: vec![segment("End")],
            attempt_history: Vec::new(),
        },
        current_phase: TimerPhase::NotRunning,
        current_split_index: None,
        current_timing_method: TimingMethod::RealTime,
        current_time: Time { real_time: None, game_time: None },
        frequent_updates: FrequentUpdates { real_time: false, game_time: false },
    }
}

fn empty_state() -> KeyValueState {
    KeyValueState {
        background: default_gradient(),
        key_color: None,
        value_color: None,
        key: String::new(),
        value: String::new(),
        key_abbreviations: Vec::new(),
        display_two_rows: false,
        updates_frequently: false,
    }
}

#[test]
fn follows_the_current_run_and_resolves_ties() {
    let timer = timer();
    let mut component = Component::new();
    assert_eq!(
        component.request_url(&timer).as_deref(),
        Some("https://www.speedrun.com/api/v1/games?name=Game%20%26%20Watch")
    );
    component
        .parse_response(r#"{"data":[{"id":"g","names":{"international":"Game & Watch"}}]}"#)
        .unwrap();
    component
        .parse_response(r#"{"data":[{"id":"c","name":"Any%"}]}"#)
        .unwrap();
    component
        .parse_response(r#"{"data":[{"id":"v","name":"Glitches","is-subcategory":true,"values":{"choices":{"no":{"label":"No"}}}}]}"#)
        .unwrap();
    assert!(component.request_url(&timer).unwrap().contains("var-v=no"));
    component
        .parse_response(r#"{"data":{"runs":[{"run":{"times":{"primary_t":65.23},"players":[{"rel":"user","id":"a"}]}},{"run":{"times":{"primary_t":65.23},"players":[{"rel":"guest","name":"Guest"}]}}],"players":{"data":[{"id":"a","names":{"international":"Runner"}}]}}}"#)
        .unwrap();

    let mut state = empty_state();
    let display = component.update_state(&mut state, &timer);
    match display {
        RecordDisplay::Record { seconds_bits, runners, tie_count, personal_best } => {
            assert_eq!(f64::from_bits(seconds_bits), 65.23);
            assert_eq!(runners, "Runner");
            assert_eq!(tie_count, 2);
            assert_eq!(personal_best, None);
            let nanoseconds = nanoseconds_of(f64::from_bits(seconds_bits));
            let accuracy = record_accuracy(component.settings(), nanoseconds);
            assert_eq!(accuracy, Accuracy::Milliseconds);
            let time = format_record_time(nanoseconds, accuracy, '.');
            assert_eq!(time, "1:05.230");
            write_record_value(&mut state.value, &time, tie_count, &runners);
        }
        other => panic!("unexpected display {:?}", other),
    }
    assert_eq!(state.value, "1:05.230 (2-way tie)");
}

#[test]
fn shows_a_single_runner_and_automatic_precision() {
    let timer = timer();
    let mut component = Component::new();
    component.lookup.query = Some(component.current_query(&timer));
    component.lookup.stage = Stage::Complete;
    component.lookup.records.push(Record {
        times: Times {
            primary: Some(10.0f64.to_bits()),
            real_time: None,
            real_time_without_loads: None,
            game_time: None,
        },
        runners: vec!["Guest".into()],
    });
    let mut state = empty_state();
    match component.update_state(&mut state, &timer) {
        RecordDisplay::Record { seconds_bits, runners, tie_count, .. } => {
            assert_eq!(f64::from_bits(seconds_bits), 10.0);
            let nanoseconds = nanoseconds_of(f64::from_bits(seconds_bits));
            let accuracy = record_accuracy(component.settings(), nanoseconds);
            assert_eq!(accuracy, Accuracy::Seconds);
            let time = format_record_time(nanoseconds, accuracy, '.');
            write_record_value(&mut state.value, &time, tie_count, &runners);
        }
        other => panic!("unexpected display {:?}", other),
    }
    assert_eq!(state.value, "0:10 by Guest");
    assert_eq!(state.key, "World Record");
    assert_eq!(state.key_abbreviations, vec!["WR".to_string()]);
}

#[test]
fn loading_until_complete_then_dash() {
    let timer = timer();
    let mut component = Component::new();
    let mut state = empty_state();
    assert!(matches!(component.update_state(&mut state, &timer), RecordDisplay::Loading));
    assert_eq!(state.value, "Loading...");
    component
        .parse_response(r#"{"data":[]}"#)
        .unwrap_err();
    assert!(matches!(component.update_state(&mut state, &timer), RecordDisplay::Unavailable));
    assert_eq!(state.value, "-");
    assert_eq!(component.request_url(&timer), None);
}

#[test]
fn invalid_json_changes_nothing() {
    let timer = timer();
    let mut component = Component::new();
    component.request_url(&timer);
    match component.parse_response("not json") {
        Err(ParseResponseError::Json { message }) => assert!(!message.is_empty()),
        other => panic!("unexpected result {:?}", other),
    }
    assert_eq!(component.lookup.stage, Stage::Game);
    assert_eq!(component.lookup.error, None);
    assert!(component.request_url(&timer).is_some());
}

#[test]
fn errors_are_recorded_and_stop_the_lookup() {
    let timer = timer();
    let mut component = Component::new();
    component.request_url(&timer);
    let error = component.parse_response(r#"{"nodata":1}"#).unwrap_err();
    assert_eq!(
        error,
        ParseResponseError::InvalidResponse { message: "The response has no data array.".into() }
    );
    assert_eq!(error.to_string(), "The response has no data array.");
    assert_eq!(component.lookup.error.as_deref(), Some("The response has no data array."));
    assert_eq!(component.lookup.stage, Stage::Game);
    assert_eq!(component.request_url(&timer), None);
    component.refresh();
    assert_eq!(
        component.request_url(&timer).as_deref(),
        Some("https://www.speedrun.com/api/v1/games?name=Game%20%26%20Watch")
    );
}

#[test]
fn game_falls_back_to_the_first_and_category_must_match() {
    let timer = timer();
    let mut component = Component::new();
    component.request_url(&timer);
    component
        .parse_response(r#"{"data":[{"id":"first","names":{"international":"Other"}},{"id":"second"}]}"#)
        .unwrap();
    assert_eq!(component.lookup.game_id, "first");
    assert_eq!(
        component.request_url(&timer).as_deref(),
        Some("https://www.speedrun.com/api/v1/games/first/categories")
    );
    let error = component.parse_response(r#"{"data":[{"id":"c","name":"100%"}]}"#).unwrap_err();
    assert_eq!(error.to_string(), "Category not found: Any%");
    assert_eq!(component.lookup.stage, Stage::Category);
}

#[test]
fn missing_id_and_missing_game() {
    let timer = timer();
    let mut component = Component::new();
    component.request_url(&timer);
    let error = component.parse_response(r#"{"data":[]}"#).unwrap_err();
    assert_eq!(error.to_string(), "Game not found: Game & Watch");
    let mut component = Component::new();
    component.request_url(&timer);
    let error = component
        .parse_response(r#"{"data":[{"names":{"international":"GAME & WATCH"}}]}"#)
        .unwrap_err();
    assert_eq!(error.to_string(), "The response is missing /id.");
}

#[test]
fn leaderboard_url_with_all_filters() {
    let mut timer = timer();
    timer.run.metadata.platform_name = "Game Boy".into();
    timer.run.metadata.region_name = "USA / NTSC".into();
    timer.run.metadata.uses_emulator = true;
    let mut component = Component::new();
    component.settings.filter_platform = true;
    component.settings.filter_region = true;
    component.settings.filter_variables = true;
    component.settings.timing_method = Some(TimingMethodOverride::RealTimeWithoutLoads);
    component.request_url(&timer);
    component.parse_response(r#"{"data":[{"id":"g"}]}"#).unwrap();
    component.parse_response(r#"{"data":[{"id":"c","name":"ANY%"}]}"#).unwrap();
    assert_eq!(component.lookup.stage, Stage::Variables);
    component
        .parse_response(r#"{"data":[{"id":"v","name":"glitches","is-subcategory":false,"values":{"choices":{"a":{"label":"Yes"},"b":{"label":"no"}}}}]}"#)
        .unwrap();
    assert_eq!(component.lookup.stage, Stage::Platforms);
    assert_eq!(
        component.request_url(&timer).as_deref(),
        Some("https://www.speedrun.com/api/v1/platforms?max=200")
    );
    component
        .parse_response(r#"{"data":[{"id":"p1","name":"NES"},{"id":"p2","name":"game boy"}]}"#)
        .unwrap();
    assert_eq!(component.lookup.stage, Stage::Regions);
    component
        .parse_response(r#"{"data":[{"id":"r1","name":"USA / NTSC"}]}"#)
        .unwrap();
    assert_eq!(component.lookup.stage, Stage::Leaderboard);
    assert_eq!(
        component.request_url(&timer).as_deref(),
        Some("https://www.speedrun.com/api/v1/leaderboards/g/category/c?top=1&embed=players&platform=p2&emulators=1&region=r1&var-v=b&timing=realtime_noloads")
    );
}

#[test]
fn leaderboard_errors() {
    let timer = timer();
    let mut component = Component::new();
    component.lookup.query = Some(component.current_query(&timer));
    component.lookup.stage = Stage::Leaderboard;
    let error = component.parse_response(r#"{"data":{}}"#).unwrap_err();
    assert_eq!(error.to_string(), "The response has no leaderboard runs.");
    component.lookup.error = None;
    let error = component.parse_response(r#"{"data":{"runs":[{}]}}"#).unwrap_err();
    assert_eq!(error.to_string(), "A leaderboard entry has no run.");
    component.lookup.error = None;
    let error = component
        .parse_response(r#"{"data":{"runs":[{"run":{"players":[{"rel":"guest"}]}}]}}"#)
        .unwrap_err();
    assert_eq!(error.to_string(), "The response is missing /name.");
    assert_eq!(component.lookup.stage, Stage::Leaderboard);
}

#[test]
fn user_without_embedded_name_shows_its_id() {
    let timer = timer();
    let mut component = Component::new();
    component.lookup.query = Some(component.current_query(&timer));
    component.lookup.stage = Stage::Leaderboard;
    component
        .parse_response(r#"{"data":{"runs":[{"run":{"times":{"primary_t":3,"realtime_t":4},"players":[{"rel":"user","id":"x"},{"rel":"guest","name":"G"}]}}]}}"#)
        .unwrap();
    assert_eq!(component.lookup.stage, Stage::Complete);
    assert_eq!(component.lookup.records.len(), 1);
    assert_eq!(component.lookup.records[0].runners, vec!["x".to_string(), "G".to_string()]);
    assert_eq!(component.lookup.records[0].time(None), Some(3.0f64.to_bits()));
    assert_eq!(
        component.lookup.records[0].time(Some(TimingMethodOverride::RealTime)),
        Some(4.0f64.to_bits())
    );
    assert_eq!(component.lookup.records[0].time(Some(TimingMethodOverride::GameTime)), None);
    let mut state = empty_state();
    match component.update_state(&mut state, &timer) {
        RecordDisplay::Record { runners, tie_count, .. } => {
            assert_eq!(runners, "x & G");
            assert_eq!(tie_count, 1);
        }
        other => panic!("unexpected display {:?}", other),
    }
}

#[test]
fn a_changed_run_restarts_the_lookup() {
    let mut timer = timer();
    let mut component = Component::new();
    component.request_url(&timer);
    component.parse_response(r#"{"data":[{"id":"g"}]}"#).unwrap();
    assert_eq!(component.lookup.stage, Stage::Category);
    component.request_url(&timer);
    assert_eq!(component.lookup.stage, Stage::Category);
    timer.run.category_name = "100%".into();
    assert_eq!(
        component.request_url(&timer).as_deref(),
        Some("https://www.speedrun.com/api/v1/games?name=Game%20%26%20Watch")
    );
    assert_eq!(component.lookup.stage, Stage::Game);
}

#[test]
fn no_request_without_game_or_category() {
    let mut timer = timer();
    timer.run.game_name = String::new();
    let mut component = Component::new();
    assert_eq!(component.request_url(&timer), None);
}

#[test]
fn timing_method_names_round_trip() {
    for method in [
        None,
        Some(TimingMethodOverride::RealTime),
        Some(TimingMethodOverride::RealTimeWithoutLoads),
        Some(TimingMethodOverride::GameTime),
    ] {
        assert_eq!(parse_timing_method(timing_method_name(method)), method);
    }
    assert_eq!(parse_timing_method("real time"), None);
}

#[test]
fn settings_read_back_what_was_set() {
    let mut component = Component::new();
    let description = component.settings_description();
    assert_eq!(description.fields.len(), 11);
    assert_eq!(description.fields[6].name, "Timing Method");
    assert_eq!(description.fields[6].value, SettingValue::String("Default for Leaderboard".into()));
    component.set_value(6, SettingValue::String("Game Time".into()));
    assert_eq!(component.settings.timing_method, Some(TimingMethodOverride::GameTime));
    component.set_value(8, SettingValue::Accuracy(Accuracy::Tenths));
    component.set_value(4, SettingValue::Bool(true));
    let description = component.settings_description();
    assert_eq!(description.fields[6].value, SettingValue::String("Game Time".into()));
    assert_eq!(description.fields[8].value, SettingValue::Accuracy(Accuracy::Tenths));
    assert_eq!(description.fields[4].value, SettingValue::Bool(true));
    assert_eq!(description.fields[0].name, "Background");
    assert_eq!(description.fields[10].description, "The color of the value.");
}

#[test]
fn default_settings() {
    let component = Component::new();
    let settings = component.settings();
    assert!(settings.filter_subcategories);
    assert!(settings.automatic_precision);
    assert!(!settings.filter_variables);
    assert_eq!(settings.accuracy, Accuracy::Milliseconds);
    assert_eq!(settings.timing_method, None);
    assert_eq!(component.name(), "World Record");
}

#[test]
fn local_pb_prefers_a_faster_finished_attempt() {
    let mut timer = timer();
    let pb = TimeSpan { nanoseconds: 70_000_000_000 };
    let split = TimeSpan { nanoseconds: 60_000_000_000 };
    timer.run.segments[0].personal_best_split_time = Time { real_time: Some(pb), game_time: None };
    timer.run.segments[0].split_time = Time { real_time: Some(split), game_time: None };
    assert_eq!(local_pb(&timer, TimingMethod::RealTime), Some(pb));
    timer.current_phase = TimerPhase::Ended;
    assert_eq!(local_pb(&timer, TimingMethod::RealTime), Some(split));
    assert_eq!(local_pb(&timer, TimingMethod::GameTime), None);
    timer.run.segments.clear();
    assert_eq!(local_pb(&timer, TimingMethod::RealTime), None);
}

#[test]
fn an_expired_result_restarts_the_lookup() {
    let timer = timer();
    let mut component = Component::new();
    component.lookup.query = Some(component.current_query(&timer));
    component.lookup.stage = Stage::Complete;
    component.follow_run(&timer, false);
    assert_eq!(component.lookup.stage, Stage::Complete);
    assert_eq!(component.request_url(&timer), None);
    component.follow_run(&timer, true);
    assert_eq!(component.lookup.stage, Stage::Game);
    assert!(component.lookup.query.is_some());
}

#[test]
fn a_complete_lookup_answers_ok_and_stays() {
    let timer = timer();
    let mut component = Component::new();
    component.request_url(&timer);
    component.parse_response(r#"{"data":[{"id":"g","names":{"international":"Game & Watch"}}]}"#).unwrap();
    assert_eq!(component.lookup.game_id, "g");
    component.parse_response(r#"{"data":[{"id":"c","name":"Any%"}]}"#).unwrap();
    assert_eq!(component.lookup.category_id, "c");
    component
        .parse_response(r#"{"data":[{"id":"v","name":"Glitches","is-subcategory":true,"values":{"choices":{"no":{"label":"No"}}}}]}"#)
        .unwrap();
    assert_eq!(component.lookup.variable_filters, vec![("v".to_string(), "no".to_string())]);
    assert!(component.lookup.completed_at.is_none());
    component
        .parse_response(r#"{"data":{"runs":[{"run":{"times":{"primary_t":3.5},"players":[{"rel":"guest","name":"Guest"}]}}]}}"#)
        .unwrap();
    assert_eq!(component.lookup.stage, Stage::Complete);
    assert!(component.lookup.completed_at.is_some());
    assert_eq!(component.lookup.records.len(), 1);
    assert_eq!(component.lookup.records[0].runners, vec!["Guest".to_string()]);
    assert_eq!(component.parse_response(r#"{"anything":1}"#), Ok(()));
    assert_eq!(component.lookup.stage, Stage::Complete);
    assert_eq!(component.lookup.records.len(), 1);
    assert_eq!(component.lookup.error, None);
    assert_eq!(component.request_url(&timer), None);
}

#[test]
fn a_result_expires_after_five_minutes() {
    assert!(!is_expired(0));
    assert!(!is_expired(299));
    assert!(is_expired(300));
    assert!(is_expired(301));
    let timer = timer();
    let mut component = Component::new();
    component.lookup.query = Some(component.current_query(&timer));
    component.lookup.stage = Stage::Complete;
    component.follow_run_after(&timer, Some(299));
    assert_eq!(component.lookup.stage, Stage::Complete);
    component.follow_run_after(&timer, None);
    assert_eq!(component.lookup.stage, Stage::Complete);
    component.follow_run_after(&timer, Some(300));
    assert_eq!(component.lookup.stage, Stage::Game);
    assert_eq!(
        component.request_url(&timer).as_deref(),
        Some("https://www.speedrun.com/api/v1/games?name=Game%20%26%20Watch")
    );
}
