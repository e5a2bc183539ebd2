//! How a time is written: an optional sign, hours, minutes and seconds with
//! the digits that are always shown, and the fraction that the accuracy
//! asks for.

use vstd::prelude::*;
use crate::settings::{Accuracy, DigitsFormat};
use crate::text::{push_char, push_padded, zero_padded};

verus! {

/// The number of nanoseconds in a second.
pub const NANOSECONDS_PER_SECOND: u128 = 1_000_000_000;

/// The size of a signed number of nanoseconds.
pub open spec fn magnitude(nanoseconds: i128) -> nat {
    if nanoseconds < 0 {
        (-nanoseconds) as nat
    } else {
        nanoseconds as nat
    }
}

/// The widths that hours, minutes and seconds are always shown with:
/// hours and minutes only where the format asks for them.
pub open spec fn forced_widths(digits: DigitsFormat) -> (Option<nat>, Option<nat>, nat) {
    match digits {
        DigitsFormat::SingleDigitSeconds => (None, None, 1),
        DigitsFormat::DoubleDigitSeconds => (None, None, 2),
        DigitsFormat::SingleDigitMinutes => (None, Some(1), 2),
        DigitsFormat::DoubleDigitMinutes => (None, Some(2), 2),
        DigitsFormat::SingleDigitHours => (Some(1), Some(2), 2),
        DigitsFormat::DoubleDigitHours => (Some(2), Some(2), 2),
    }
}

/// Whole seconds as `h:mm:ss`, `m:ss` or `s`: hours where there are any or
/// the format asks for them, minutes likewise, each filled up to the width
/// the format asks for.
pub open spec fn clock_text(whole: nat, digits: DigitsFormat) -> Seq<char> {
    let hours = whole / 3600;
    let minutes = (whole / 60) % 60;
    let seconds = whole % 60;
    let (hour_width, minute_width, second_width) = forced_widths(digits);
    if hours > 0 || hour_width is Some {
        zero_padded(hours, if hour_width is Some { hour_width->0 } else { 1 }) + seq![':']
            + zero_padded(minutes, 2) + seq![':'] + zero_padded(seconds, 2)
    } else if minutes > 0 || minute_width is Some {
        zero_padded(minutes, if minute_width is Some { minute_width->0 } else { 1 }) + seq![':']
            + zero_padded(seconds, 2)
    } else {
        zero_padded(seconds, second_width)
    }
}

/// The fraction of a second, in nanoseconds, as the accuracy shows it:
/// nothing, or the separator and one, two or three truncated digits.
pub open spec fn fraction_text(fraction: nat, accuracy: Accuracy, separator: char) -> Seq<char> {
    match accuracy {
        Accuracy::Seconds => Seq::empty(),
        Accuracy::Tenths => seq![separator] + zero_padded(fraction / 100_000_000, 1),
        Accuracy::Hundredths => seq![separator] + zero_padded(fraction / 10_000_000, 2),
        Accuracy::Milliseconds => seq![separator] + zero_padded(fraction / 1_000_000, 3),
    }
}

/// The text of a time, or a dash where there is none.
pub open spec fn spec_format_time(
    time: Option<i128>,
    digits: DigitsFormat,
    accuracy: Accuracy,
    separator: char,
) -> Seq<char> {
    match time {
        None => seq!['\u{2014}'],
        Some(nanoseconds) => {
            let m = magnitude(nanoseconds);
            (if nanoseconds < 0 {
                seq!['\u{2212}']
            } else {
                Seq::empty()
            }) + clock_text(m / 1_000_000_000, digits) + fraction_text(
                m % 1_000_000_000,
                accuracy,
                separator,
            )
        },
    }
}

/// Appends whole seconds as `h:mm:ss`, `m:ss` or `s`, as the format asks.
pub fn push_clock(text: &mut String, whole: u128, digits: DigitsFormat)
    ensures
        final(text)@ == old(text)@ + clock_text(whole as nat, digits),
{
    let hours = whole / 3600;
    let minutes = (whole / 60) % 60;
    let seconds = whole % 60;
    let (hour_width, minute_width, second_width): (Option<usize>, Option<usize>, usize) =
        match digits {
        DigitsFormat::SingleDigitSeconds => (None, None, 1),
        DigitsFormat::DoubleDigitSeconds => (None, None, 2),
        DigitsFormat::SingleDigitMinutes => (None, Some(1), 2),
        DigitsFormat::DoubleDigitMinutes => (None, Some(2), 2),
        DigitsFormat::SingleDigitHours => (Some(1), Some(2), 2),
        DigitsFormat::DoubleDigitHours => (Some(2), Some(2), 2),
    };
    let ghost start = text@;
    if hours > 0 || hour_width.is_some() {
        let width: usize = match hour_width {
            Some(w) => w,
            None => 1,
        };
        push_padded(text, hours, width);
        push_char(text, ':');
        push_padded(text, minutes, 2);
        push_char(text, ':');
        push_padded(text, seconds, 2);
    } else if minutes > 0 || minute_width.is_some() {
        let width: usize = match minute_width {
            Some(w) => w,
            None => 1,
        };
        push_padded(text, minutes, width);
        push_char(text, ':');
        push_padded(text, seconds, 2);
    } else {
        push_padded(text, seconds, second_width);
    }
    assert(text@ =~= start + clock_text(whole as nat, digits));
}

/// Appends the fraction of a second, given in nanoseconds, as the accuracy
/// shows it.
pub fn push_fraction(text: &mut String, fraction: u128, accuracy: Accuracy, separator: char)
    ensures
        final(text)@ == old(text)@ + fraction_text(fraction as nat, accuracy, separator),
{
    let ghost start = text@;
    match accuracy {
        Accuracy::Seconds => {},
        Accuracy::Tenths => {
            push_char(text, separator);
            push_padded(text, fraction / 100_000_000, 1);
        },
        Accuracy::Hundredths => {
            push_char(text, separator);
            push_padded(text, fraction / 10_000_000, 2);
        },
        Accuracy::Milliseconds => {
            push_char(text, separator);
            push_padded(text, fraction / 1_000_000, 3);
        },
    }
    assert(text@ =~= start + fraction_text(fraction as nat, accuracy, separator));
}

/// Returns the size of a signed number of nanoseconds.
pub fn nanosecond_magnitude(nanoseconds: i128) -> (m: u128)
    ensures
        m == magnitude(nanoseconds),
{
    if nanoseconds < 0 {
        ((-(nanoseconds + 1)) as u128) + 1
    } else {
        nanoseconds as u128
    }
}

/// Writes a time in nanoseconds, or a dash where there is none.
pub fn format_time(
    time: Option<i128>,
    digits: DigitsFormat,
    accuracy: Accuracy,
    separator: char,
) -> (text: String)
    ensures
        text@ == spec_format_time(time, digits, accuracy, separator),
{
    let mut text = String::new();
    let nanoseconds = match time {
        None => {
            push_char(&mut text, '\u{2014}');
            assert(text@ =~= seq!['\u{2014}']);
            return text;
        },
        Some(nanoseconds) => nanoseconds,
    };
    let m = nanosecond_magnitude(nanoseconds);
    if nanoseconds < 0 {
        push_char(&mut text, '\u{2212}');
    }
    let ghost sign = text@;
    push_clock(&mut text, m / NANOSECONDS_PER_SECOND, digits);
    push_fraction(&mut text, m % NANOSECONDS_PER_SECOND, accuracy, separator);
    proof {
        let tail = clock_text(m as nat / 1_000_000_000, digits) + fraction_text(
            m as nat % 1_000_000_000,
            accuracy,
            separator,
        );
        assert(text@ =~= sign + tail);
        if nanoseconds < 0 {
            assert(sign =~= seq!['\u{2212}']);
        } else {
            assert(sign =~= Seq::<char>::empty());
        }
    }
    text
}

} // verus!
