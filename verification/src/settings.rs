//! The setting types that the components share: colors, backgrounds, time
//! accuracies and the generic setting values of a settings description.

use vstd::prelude::*;
use crate::reset_chance::{CalculationBasis, ChanceMode, PercentageAccuracy};

verus! {

/// A color with 8-bit red, green, blue and alpha channels.
#[derive(Clone, Copy, Debug, PartialEq, Eq, Structural)]
pub struct Color {
    pub red: u8,
    pub green: u8,
    pub blue: u8,
    pub alpha: u8,
}

impl Color {
    /// Creates a color from its 8-bit channels.
    pub fn rgba8(red: u8, green: u8, blue: u8, alpha: u8) -> (color: Color)
        ensures
            color == (Color { red, green, blue, alpha }),
    {
        Color { red, green, blue, alpha }
    }
}

/// The background of a component.
#[derive(Clone, Copy, Debug, PartialEq, Eq, Structural)]
pub enum Gradient {
    /// No background at all.
    Transparent,
    /// A single color.
    Plain(Color),
    /// A gradient from the top color to the bottom color.
    Vertical(Color, Color),
    /// A gradient from the left color to the right color.
    Horizontal(Color, Color),
}

/// The background shared by the key-value components: a faint white
/// vertical gradient.
pub open spec fn spec_default_gradient() -> Gradient {
    Gradient::Vertical(
        Color { red: 255, green: 255, blue: 255, alpha: 15 },
        Color { red: 255, green: 255, blue: 255, alpha: 1 },
    )
}

/// Returns the background shared by the key-value components.
pub fn default_gradient() -> (gradient: Gradient)
    ensures
        gradient == spec_default_gradient(),
{
    Gradient::Vertical(Color::rgba8(255, 255, 255, 15), Color::rgba8(255, 255, 255, 1))
}

/// How many fractional digits of a time are shown.
#[derive(Clone, Copy, Debug, PartialEq, Eq, Structural)]
pub enum Accuracy {
    /// No fractional part.
    Seconds,
    /// One fractional digit.
    Tenths,
    /// Two fractional digits.
    Hundredths,
    /// Three fractional digits.
    Milliseconds,
}

/// How many digits of a time are always shown.
#[derive(Clone, Copy, Debug, PartialEq, Eq, Structural)]
pub enum DigitsFormat {
    /// `1`
    SingleDigitSeconds,
    /// `01`
    DoubleDigitSeconds,
    /// `0:01`
    SingleDigitMinutes,
    /// `00:01`
    DoubleDigitMinutes,
    /// `0:00:01`
    SingleDigitHours,
    /// `00:00:01`
    DoubleDigitHours,
}

/// The value of a setting, as a settings description shows it and as a
/// setting is set.
#[derive(Debug, PartialEq)]
pub enum SettingValue {
    Bool(bool),
    UInt(u64),
    String(String),
    OptionalColor(Option<Color>),
    Gradient(Gradient),
    Accuracy(Accuracy),
    DigitsFormat(DigitsFormat),
    ChanceMode(ChanceMode),
    PercentageAccuracy(PercentageAccuracy),
    CalculationBasis(CalculationBasis),
}

/// A setting: its name, a description and its current value.
#[derive(Debug, PartialEq)]
pub struct Field {
    pub name: String,
    pub description: String,
    pub value: SettingValue,
}

/// The settings of a component, in a stable order.
#[derive(Debug, PartialEq)]
pub struct SettingsDescription {
    pub fields: Vec<Field>,
}

/// The visual state of a component that shows a label and a value.
#[derive(Debug, PartialEq)]
pub struct KeyValueState {
    /// The background shown behind the component.
    pub background: Gradient,
    /// The color of the label, if it overrides the layout's.
    pub key_color: Option<Color>,
    /// The color of the value, if it overrides the layout's.
    pub value_color: Option<Color>,
    /// The label.
    pub key: String,
    /// The value.
    pub value: String,
    /// Shorter forms of the label, from longest to shortest.
    pub key_abbreviations: Vec<String>,
    /// Whether the label and the value are shown on separate rows.
    pub display_two_rows: bool,
    /// Whether the value changes often enough to be redrawn every frame.
    pub updates_frequently: bool,
}

} // verus!
