//! The state of a timer as the components read it: the run with its
//! segments and histories, the current phase, split and timing method.

use vstd::prelude::*;

verus! {

/// The two timing methods that a run is timed with.
#[derive(Clone, Copy, Debug, PartialEq, Eq, Structural)]
pub enum TimingMethod {
    /// Real time.
    RealTime,
    /// Game time, that is real time without loads or the game's own timer.
    GameTime,
}

/// The phase the timer is in.
#[derive(Clone, Copy, Debug, PartialEq, Eq, Structural)]
pub enum TimerPhase {
    /// No attempt is in progress.
    NotRunning,
    /// An attempt is in progress.
    Running,
    /// The attempt has reached its final split.
    Ended,
    /// The attempt is paused.
    Paused,
}

/// A signed duration, in nanoseconds.
#[derive(Clone, Copy, Debug, PartialEq, Eq, Structural)]
pub struct TimeSpan {
    pub nanoseconds: i128,
}

/// A time for each of the two timing methods, each of them possibly absent.
#[derive(Clone, Copy, Debug, PartialEq, Eq, Structural)]
pub struct Time {
    pub real_time: Option<TimeSpan>,
    pub game_time: Option<TimeSpan>,
}

impl Time {
    /// The time for the given timing method.
    pub open spec fn spec_get(self, method: TimingMethod) -> Option<TimeSpan> {
        match method {
            TimingMethod::RealTime => self.real_time,
            TimingMethod::GameTime => self.game_time,
        }
    }

    /// Returns the time for the given timing method.
    pub fn get(&self, method: TimingMethod) -> (time: Option<TimeSpan>)
        ensures
            time == self.spec_get(method),
    {
        match method {
            TimingMethod::RealTime => self.real_time,
            TimingMethod::GameTime => self.game_time,
        }
    }
}

/// The order of optional times: an absent time comes before every time.
pub open spec fn optional_time_less(a: Option<TimeSpan>, b: Option<TimeSpan>) -> bool {
    match (a, b) {
        (None, Some(_)) => true,
        (Some(x), Some(y)) => x.nanoseconds < y.nanoseconds,
        _ => false,
    }
}

/// Returns whether `a` comes strictly before `b`, an absent time coming
/// before every time.
pub fn is_optional_time_less(a: Option<TimeSpan>, b: Option<TimeSpan>) -> (less: bool)
    ensures
        less == optional_time_less(a, b),
{
    match (a, b) {
        (None, Some(_)) => true,
        (Some(x), Some(y)) => x.nanoseconds < y.nanoseconds,
        _ => false,
    }
}

/// A segment of a run.
#[derive(Debug)]
pub struct Segment {
    /// The indices of the attempts that completed this segment, in the order
    /// the segment history keeps them. Indices below 1 stand for times that
    /// were imported rather than run.
    pub segment_history: Vec<i32>,
    /// The split time of this segment in the personal best.
    pub personal_best_split_time: Time,
    /// The split time of this segment in the current attempt.
    pub split_time: Time,
}

/// Additional information about a run.
#[derive(Debug)]
pub struct RunMetadata {
    /// The name of the platform the run is played on.
    pub platform_name: String,
    /// The name of the region the game is from.
    pub region_name: String,
    /// Whether the run is played on an emulator.
    pub uses_emulator: bool,
    /// The speedrun.com variables of the run, as names and values.
    pub speedrun_com_variables: Vec<(String, String)>,
}

/// A run: the game and category, its segments and its attempts.
#[derive(Debug)]
pub struct Run {
    pub game_name: String,
    pub category_name: String,
    pub metadata: RunMetadata,
    pub segments: Vec<Segment>,
    /// The indices of all the attempts of the run.
    pub attempt_history: Vec<i32>,
}

/// For each timing method, whether the timer's time in that method keeps
/// changing in the timer's current phase, so that a display of it is
/// redrawn every frame.
#[derive(Clone, Copy, Debug, PartialEq, Eq, Structural)]
pub struct FrequentUpdates {
    pub real_time: bool,
    pub game_time: bool,
}

impl FrequentUpdates {
    /// Whether the time in the given timing method keeps changing.
    pub open spec fn spec_get(self, method: TimingMethod) -> bool {
        match method {
            TimingMethod::RealTime => self.real_time,
            TimingMethod::GameTime => self.game_time,
        }
    }

    /// Returns whether the time in the given timing method keeps changing.
    pub fn get(&self, method: TimingMethod) -> (frequent: bool)
        ensures
            frequent == self.spec_get(method),
    {
        match method {
            TimingMethod::RealTime => self.real_time,
            TimingMethod::GameTime => self.game_time,
        }
    }
}

/// The state of the timer at one moment.
#[derive(Debug)]
pub struct Snapshot {
    pub run: Run,
    pub current_phase: TimerPhase,
    /// The index of the segment that is being run, if any.
    pub current_split_index: Option<usize>,
    pub current_timing_method: TimingMethod,
    /// The time of the current attempt.
    pub current_time: Time,
    /// Which of the current attempt's times keep changing in the current
    /// phase.
    pub frequent_updates: FrequentUpdates,
}

} // verus!
