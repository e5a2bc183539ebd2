//! The Alternate Timing Method component: shows the current time in the
//! timing method opposite to the one the timer uses. When the timer compares
//! against game time, it shows real time, and the other way round.

use vstd::prelude::*;
use crate::settings::{
    Accuracy, Color, DigitsFormat, Field, Gradient, KeyValueState, SettingValue,
    SettingsDescription, default_gradient, spec_default_gradient,
};
use crate::text::push_str;
use crate::time_format::{format_time, spec_format_time};
use crate::timer::{Snapshot, TimeSpan, TimingMethod};

verus! {

/// The settings of the Alternate Timing Method component.
#[derive(Clone, Copy, Debug, PartialEq, Eq, Structural)]
pub struct Settings {
    /// The background shown behind the component.
    pub background: Gradient,
    /// Whether the name of the component and its value are shown on two
    /// separate rows.
    pub display_two_rows: bool,
    /// The color of the label, or the layout's color if absent.
    pub label_color: Option<Color>,
    /// The color of the value, or the layout's color if absent.
    pub value_color: Option<Color>,
    /// How many digits are always shown; shorter times are filled up with
    /// zeros.
    pub digits_format: DigitsFormat,
    /// The accuracy of the time shown.
    pub accuracy: Accuracy,
}

/// The settings a new component starts with.
pub open spec fn spec_default_settings() -> Settings {
    Settings {
        background: spec_default_gradient(),
        display_two_rows: false,
        label_color: None,
        value_color: None,
        digits_format: DigitsFormat::SingleDigitSeconds,
        accuracy: Accuracy::Hundredths,
    }
}

impl Default for Settings {
    fn default() -> (settings: Self)
        ensures
            settings == spec_default_settings(),
    {
        Settings {
            background: default_gradient(),
            display_two_rows: false,
            label_color: None,
            value_color: None,
            digits_format: DigitsFormat::SingleDigitSeconds,
            accuracy: Accuracy::Hundredths,
        }
    }
}

/// The timing method opposite to the given one.
pub open spec fn spec_opposite_method(method: TimingMethod) -> TimingMethod {
    match method {
        TimingMethod::RealTime => TimingMethod::GameTime,
        TimingMethod::GameTime => TimingMethod::RealTime,
    }
}

/// The opposite of the opposite timing method is the method itself.
pub proof fn lemma_opposite_method_involution(method: TimingMethod)
    ensures
        spec_opposite_method(spec_opposite_method(method)) == method,
        spec_opposite_method(method) != method,
{
}

/// Returns the timing method opposite to the given one.
pub fn opposite_method(method: TimingMethod) -> (opposite: TimingMethod)
    ensures
        opposite == spec_opposite_method(method),
{
    match method {
        TimingMethod::RealTime => TimingMethod::GameTime,
        TimingMethod::GameTime => TimingMethod::RealTime,
    }
}

/// Whether a value is of the kind of the setting of the given index.
pub open spec fn setting_accepts(index: int, value: SettingValue) -> bool {
    if index == 0 {
        value is Gradient
    } else if index == 1 {
        value is Bool
    } else if index == 2 || index == 3 {
        value is OptionalColor
    } else if index == 4 {
        value is DigitsFormat
    } else {
        index == 5 && value is Accuracy
    }
}

/// The settings with the setting of the given index set to a value.
pub open spec fn spec_set_value(settings: Settings, index: int, value: SettingValue) -> Settings {
    match value {
        SettingValue::Gradient(background) => Settings { background, ..settings },
        SettingValue::Bool(display_two_rows) => Settings { display_two_rows, ..settings },
        SettingValue::OptionalColor(color) => if index == 2 {
            Settings { label_color: color, ..settings }
        } else {
            Settings { value_color: color, ..settings }
        },
        SettingValue::DigitsFormat(digits_format) => Settings { digits_format, ..settings },
        SettingValue::Accuracy(accuracy) => Settings { accuracy, ..settings },
        _ => settings,
    }
}

/// The value of the setting of the given index.
pub open spec fn spec_setting_value(settings: Settings, index: int) -> SettingValue {
    if index == 0 {
        SettingValue::Gradient(settings.background)
    } else if index == 1 {
        SettingValue::Bool(settings.display_two_rows)
    } else if index == 2 {
        SettingValue::OptionalColor(settings.label_color)
    } else if index == 3 {
        SettingValue::OptionalColor(settings.value_color)
    } else if index == 4 {
        SettingValue::DigitsFormat(settings.digits_format)
    } else {
        SettingValue::Accuracy(settings.accuracy)
    }
}

/// A setting that is set is described with its new value, and every other
/// setting keeps the value it is described with.
pub proof fn lemma_set_value_is_described(settings: Settings, index: int, value: SettingValue, other: int)
    requires
        0 <= index < 6,
        0 <= other < 6,
        setting_accepts(index, value),
    ensures
        spec_setting_value(spec_set_value(settings, index, value), index) == value,
        other != index ==> spec_setting_value(spec_set_value(settings, index, value), other)
            == spec_setting_value(settings, other),
{
}

/// The time the component shows for the timer: the current time in the
/// timing method opposite to the timer's, else in real time.
pub open spec fn spec_shown_time(timer: Snapshot) -> Option<TimeSpan> {
    match timer.current_time.spec_get(spec_opposite_method(timer.current_timing_method)) {
        Some(time) => Some(time),
        None => timer.current_time.real_time,
    }
}

/// Whether a visual state is the one the component shows for the timer:
/// background, colors and layout of the settings, no abbreviations, the
/// name of the timing method shown as the label, the time shown as the
/// value, and frequent updates when the time exists and keeps changing in
/// the timer's phase.
pub open spec fn shows_state(
    settings: Settings,
    state: KeyValueState,
    timer: Snapshot,
    real_time_name: Seq<char>,
    game_time_name: Seq<char>,
    decimal_separator: char,
) -> bool {
    let method = spec_opposite_method(timer.current_timing_method);
    let time = spec_shown_time(timer);
    &&& state.background == settings.background
    &&& state.key_color == settings.label_color
    &&& state.value_color == settings.value_color
    &&& state.key@ == match method {
        TimingMethod::RealTime => real_time_name,
        TimingMethod::GameTime => game_time_name,
    }
    &&& state.value@ == spec_format_time(
        match time {
            Some(t) => Some(t.nanoseconds),
            None => None,
        },
        settings.digits_format,
        settings.accuracy,
        decimal_separator,
    )
    &&& state.key_abbreviations@.len() == 0
    &&& state.display_two_rows == settings.display_two_rows
    &&& state.updates_frequently == (timer.frequent_updates.spec_get(method) && time is Some)
}

/// The Alternate Timing Method component shows the time of the timing
/// method opposite to the main one.
#[derive(Clone, Copy, Debug)]
pub struct Component {
    pub settings: Settings,
}

impl Component {
    /// Creates a new Alternate Timing Method component.
    pub fn new() -> (component: Self)
        ensures
            component.settings == spec_default_settings(),
    {
        Component { settings: Settings::default() }
    }

    /// Creates a new Alternate Timing Method component with the given
    /// settings.
    pub fn with_settings(settings: Settings) -> (component: Self)
        ensures
            component.settings == settings,
    {
        Component { settings }
    }

    /// Accesses the settings of the component.
    pub fn settings(&self) -> (settings: &Settings)
        ensures
            *settings == self.settings,
    {
        &self.settings
    }

    /// Grants mutable access to the settings of the component.
    pub fn settings_mut(&mut self) -> (settings: &mut Settings)
        ensures
            *settings == old(self).settings,
            final(self).settings == *final(settings),
    {
        &mut self.settings
    }

    /// Accesses the name of the component.
    pub fn name(&self) -> (name: &'static str)
        ensures
            name@ == "Alternate Timing Method"@,
    {
        "Alternate Timing Method"
    }

    /// Updates the visual state: background, colors, layout, no
    /// abbreviations; the label is the name of the timing method shown,
    /// `real_time_name` or `game_time_name` in the display language; the
    /// value is the time shown, written with the settings' digits format and
    /// accuracy and the language's decimal separator, and it updates every
    /// frame when the time exists and keeps changing in the timer's phase.
    /// Returns the timing method shown, the opposite of the timer's, and the
    /// time shown: the current time in that method, else in real time.
    pub fn update_state(
        &self,
        state: &mut KeyValueState,
        timer: &Snapshot,
        real_time_name: &str,
        game_time_name: &str,
        decimal_separator: char,
    ) -> (shown: (TimingMethod, Option<TimeSpan>))
        ensures
            shown.0 == spec_opposite_method(timer.current_timing_method),
            shown.1 == spec_shown_time(*timer),
            shows_state(self.settings, *final(state), *timer, real_time_name@, game_time_name@, decimal_separator),
    {
        let method = opposite_method(timer.current_timing_method);
        let time = match timer.current_time.get(method) {
            Some(time) => Some(time),
            None => timer.current_time.real_time,
        };
        state.background = self.settings.background;
        state.key_color = self.settings.label_color;
        state.value_color = self.settings.value_color;
        let mut key = String::new();
        match method {
            TimingMethod::RealTime => push_str(&mut key, real_time_name),
            TimingMethod::GameTime => push_str(&mut key, game_time_name),
        }
        state.key = key;
        let nanoseconds = match time {
            Some(time) => Some(time.nanoseconds),
            None => None,
        };
        state.value = format_time(
            nanoseconds,
            self.settings.digits_format,
            self.settings.accuracy,
            decimal_separator,
        );
        state.key_abbreviations = Vec::new();
        state.display_two_rows = self.settings.display_two_rows;
        state.updates_frequently = timer.frequent_updates.get(method) && time.is_some();
        (method, time)
    }

    /// Calculates the visual state of the component for the timer.
    pub fn state(
        &self,
        timer: &Snapshot,
        real_time_name: &str,
        game_time_name: &str,
        decimal_separator: char,
    ) -> (state: KeyValueState)
        ensures
            shows_state(self.settings, state, *timer, real_time_name@, game_time_name@, decimal_separator),
    {
        let mut state = KeyValueState {
            background: default_gradient(),
            key_color: None,
            value_color: None,
            key: String::new(),
            value: String::new(),
            key_abbreviations: Vec::new(),
            display_two_rows: false,
            updates_frequently: false,
        };
        self.update_state(&mut state, timer, real_time_name, game_time_name, decimal_separator);
        state
    }

    /// Returns the value of the setting of the given index.
    pub fn setting_value(&self, index: usize) -> (value: SettingValue)
        requires
            index < 6,
        ensures
            value == spec_setting_value(self.settings, index as int),
    {
        if index == 0 {
            SettingValue::Gradient(self.settings.background)
        } else if index == 1 {
            SettingValue::Bool(self.settings.display_two_rows)
        } else if index == 2 {
            SettingValue::OptionalColor(self.settings.label_color)
        } else if index == 3 {
            SettingValue::OptionalColor(self.settings.value_color)
        } else if index == 4 {
            SettingValue::DigitsFormat(self.settings.digits_format)
        } else {
            SettingValue::Accuracy(self.settings.accuracy)
        }
    }

    /// Describes the settings in their order: background, two rows, label
    /// color, value color, digits format and accuracy. The names and
    /// descriptions of the fields, in the display language, are given in
    /// that order.
    pub fn settings_description(&self, texts: &[(String, String); 6]) -> (description:
        SettingsDescription)
        ensures
            description.fields@.len() == 6,
            forall|i: int|
                0 <= i < 6 ==> {
                    &&& (#[trigger] description.fields@[i]).name@ == texts@[i].0@
                    &&& description.fields@[i].description@ == texts@[i].1@
                    &&& description.fields@[i].value == spec_setting_value(self.settings, i)
                },
    {
        let mut fields: Vec<Field> = Vec::new();
        let mut i: usize = 0;
        while i < 6
            invariant
                i <= 6,
                texts@.len() == 6,
                fields@.len() == i,
                forall|j: int|
                    0 <= j < i ==> {
                        &&& (#[trigger] fields@[j]).name@ == texts@[j].0@
                        &&& fields@[j].description@ == texts@[j].1@
                        &&& fields@[j].value == spec_setting_value(self.settings, j)
                    },
            decreases 6 - i,
        {
            let mut name = String::new();
            push_str(&mut name, texts[i].0.as_str());
            let mut description = String::new();
            push_str(&mut description, texts[i].1.as_str());
            fields.push(Field { name, description, value: self.setting_value(i) });
            i = i + 1;
        }
        SettingsDescription { fields }
    }

    /// Sets a setting by its index.
    pub fn set_value(&mut self, index: usize, value: SettingValue)
        requires
            index <= 5,
            setting_accepts(index as int, value),
        ensures
            final(self).settings == spec_set_value(old(self).settings, index as int, value),
    {
        match value {
            SettingValue::Gradient(background) => self.settings.background = background,
            SettingValue::Bool(b) => self.settings.display_two_rows = b,
            SettingValue::OptionalColor(color) => {
                if index == 2 {
                    self.settings.label_color = color;
                } else {
                    self.settings.value_color = color;
                }
            },
            SettingValue::DigitsFormat(digits_format) => self.settings.digits_format = digits_format,
            SettingValue::Accuracy(accuracy) => self.settings.accuracy = accuracy,
            _ => {},
        }
    }
}

} // verus!
