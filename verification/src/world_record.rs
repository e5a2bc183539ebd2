//! The World Record component: shows the first-place run on speedrun.com
//! for the game and category of the current run.
//!
//! The lookup is transport-neutral: [`Component::request_url`] returns the
//! next URL to fetch and [`Component::parse_response`] consumes the response
//! body. The lookup passes through the stages game, category, variables,
//! platforms, regions and leaderboard, skipping those that the filters do
//! not need, and ends complete.

use vstd::prelude::*;
use crate::percent::{encoded, percent_encode};
use crate::settings::{
    Accuracy, Color, DigitsFormat, Field, Gradient, KeyValueState, SettingValue, SettingsDescription,
    default_gradient, spec_default_gradient,
};
use crate::text::{
    decimal, eq_ignore_ascii_case, eq_ignoring_ascii_case, join, joined, push_decimal,
    push_str, str_equal,
};
use crate::time_format::{
    NANOSECONDS_PER_SECOND, format_time, magnitude, nanosecond_magnitude, spec_format_time,
};
use crate::timer::{
    Snapshot, TimeSpan, TimerPhase, TimingMethod, is_optional_time_less, optional_time_less,
};
use crate::json::{
    JsonRef, JsonTree, document_root, is_json_text, json_as_object, json_error_message,
    json_pointer, option_text, optional_array, optional_bool, optional_f64_bits, optional_str,
    parse_json_text, parsed_json, pointer_target, spec_optional_array, spec_optional_bool,
    spec_optional_f64_bits, spec_optional_str, trees,
};

verus! {

/// A speedrun.com timing method that can override the leaderboard default.
#[derive(Clone, Copy, Debug, PartialEq, Eq, Structural)]
pub enum TimingMethodOverride {
    /// Real time including loads.
    RealTime,
    /// Real time with loads removed.
    RealTimeWithoutLoads,
    /// The game's internal timing method.
    GameTime,
}

/// The settings of the World Record component.
#[derive(Clone, Copy, Debug, PartialEq, Eq, Structural)]
pub struct Settings {
    /// The background shown behind the component.
    pub background: Gradient,
    /// Whether the label and value are displayed in two separate rows.
    pub display_two_rows: bool,
    /// Filters the leaderboard to the run's non-subcategory variables.
    pub filter_variables: bool,
    /// Filters the leaderboard to the run's subcategory variables.
    pub filter_subcategories: bool,
    /// Filters the leaderboard to the run's platform and emulator usage.
    pub filter_platform: bool,
    /// Filters the leaderboard to the run's region.
    pub filter_region: bool,
    /// Overrides the leaderboard timing method. `None` uses the leaderboard's
    /// primary timing method.
    pub timing_method: Option<TimingMethodOverride>,
    /// Automatically uses millisecond precision only if the leaderboard time
    /// has a fractional part.
    pub automatic_precision: bool,
    /// The precision used when automatic precision is disabled.
    pub accuracy: Accuracy,
    /// The color of the label. If `None`, the layout's color is used.
    pub label_color: Option<Color>,
    /// The color of the value. If `None`, the layout's color is used.
    pub value_color: Option<Color>,
}

/// The settings a new component starts with.
pub open spec fn spec_default_settings() -> Settings {
    Settings {
        background: spec_default_gradient(),
        display_two_rows: false,
        filter_variables: false,
        filter_subcategories: true,
        filter_platform: false,
        filter_region: false,
        timing_method: None,
        automatic_precision: true,
        accuracy: Accuracy::Milliseconds,
        label_color: None,
        value_color: None,
    }
}

impl Default for Settings {
    fn default() -> (settings: Self)
        ensures
            settings == spec_default_settings(),
    {
        Settings {
            background: default_gradient(),
            display_two_rows: false,
            filter_variables: false,
            filter_subcategories: true,
            filter_platform: false,
            filter_region: false,
            timing_method: None,
            automatic_precision: true,
            accuracy: Accuracy::Milliseconds,
            label_color: None,
            value_color: None,
        }
    }
}

/// The name of a timing method override as the settings show it.
pub open spec fn spec_timing_method_name(method: Option<TimingMethodOverride>) -> Seq<char> {
    match method {
        None => "Default for Leaderboard"@,
        Some(TimingMethodOverride::RealTime) => "Real Time"@,
        Some(TimingMethodOverride::RealTimeWithoutLoads) => "Real Time Without Loads"@,
        Some(TimingMethodOverride::GameTime) => "Game Time"@,
    }
}

/// Returns the name of a timing method override as the settings show it.
pub fn timing_method_name(method: Option<TimingMethodOverride>) -> (name: &'static str)
    ensures
        name@ == spec_timing_method_name(method),
{
    match method {
        None => "Default for Leaderboard",
        Some(TimingMethodOverride::RealTime) => "Real Time",
        Some(TimingMethodOverride::RealTimeWithoutLoads) => "Real Time Without Loads",
        Some(TimingMethodOverride::GameTime) => "Game Time",
    }
}

/// The timing method override that a setting's text names; any other text
/// names the leaderboard default.
pub open spec fn spec_parse_timing_method(value: Seq<char>) -> Option<TimingMethodOverride> {
    if value == "Real Time"@ {
        Some(TimingMethodOverride::RealTime)
    } else if value == "Real Time Without Loads"@ {
        Some(TimingMethodOverride::RealTimeWithoutLoads)
    } else if value == "Game Time"@ {
        Some(TimingMethodOverride::GameTime)
    } else {
        None
    }
}

/// Parses the name of a timing method override; any other text gives the
/// leaderboard default.
pub fn parse_timing_method(value: &str) -> (method: Option<TimingMethodOverride>)
    ensures
        method == spec_parse_timing_method(value@),
{
    if str_equal(value, "Real Time") {
        Some(TimingMethodOverride::RealTime)
    } else if str_equal(value, "Real Time Without Loads") {
        Some(TimingMethodOverride::RealTimeWithoutLoads)
    } else if str_equal(value, "Game Time") {
        Some(TimingMethodOverride::GameTime)
    } else {
        None
    }
}

/// Naming a timing method override and parsing the name gives back the
/// override.
pub proof fn lemma_parse_timing_method_name(method: Option<TimingMethodOverride>)
    ensures
        spec_parse_timing_method(spec_timing_method_name(method)) == method,
{
    reveal_strlit("Real Time");
    reveal_strlit("Real Time Without Loads");
    reveal_strlit("Game Time");
    reveal_strlit("Default for Leaderboard");
    assert("Real Time"@.len() != "Real Time Without Loads"@.len());
    assert("Real Time"@[0] != "Game Time"@[0]);
    assert("Real Time Without Loads"@ != "Game Time"@);
    assert("Default for Leaderboard"@ != "Real Time"@);
    assert("Default for Leaderboard"@[0] != "Real Time Without Loads"@[0]);
    assert("Default for Leaderboard"@ != "Game Time"@);
}

/// The times of a leaderboard run in seconds, each as the bit pattern of an
/// IEEE 754 double, as speedrun.com reports them.
#[derive(Clone, Copy, Debug, PartialEq, Eq, Structural)]
pub struct Times {
    pub primary: Option<u64>,
    pub real_time: Option<u64>,
    pub real_time_without_loads: Option<u64>,
    pub game_time: Option<u64>,
}

/// A leaderboard run: its times and the names of its runners.
#[derive(Debug)]
pub struct Record {
    pub times: Times,
    pub runners: Vec<String>,
}

/// The time of a record for a timing method override.
pub open spec fn spec_record_time(times: Times, method: Option<TimingMethodOverride>) -> Option<u64> {
    match method {
        None => times.primary,
        Some(TimingMethodOverride::RealTime) => times.real_time,
        Some(TimingMethodOverride::RealTimeWithoutLoads) => times.real_time_without_loads,
        Some(TimingMethodOverride::GameTime) => times.game_time,
    }
}

impl Record {
    /// Returns the time of the record for a timing method override; `None`
    /// selects the leaderboard's primary time.
    pub fn time(&self, method: Option<TimingMethodOverride>) -> (time: Option<u64>)
        ensures
            time == spec_record_time(self.times, method),
    {
        match method {
            None => self.times.primary,
            Some(TimingMethodOverride::RealTime) => self.times.real_time,
            Some(TimingMethodOverride::RealTimeWithoutLoads) => self.times.real_time_without_loads,
            Some(TimingMethodOverride::GameTime) => self.times.game_time,
        }
    }
}


/// An error encountered while consuming a speedrun.com API response.
#[derive(Debug, PartialEq, Eq)]
pub enum ParseResponseError {
    /// The response is not valid JSON.
    Json {
        /// A description of the JSON parsing error.
        message: String,
    },
    /// The response does not contain the expected data.
    InvalidResponse {
        /// A description of the invalid or missing data.
        message: String,
    },
}

/// The text that describes an error.
pub open spec fn error_text(error: ParseResponseError) -> Seq<char> {
    match error {
        ParseResponseError::Json { message } => "The speedrun.com response is not valid JSON: "@
            + message@,
        ParseResponseError::InvalidResponse { message } => message@,
    }
}

impl ParseResponseError {
    /// Describes the error.
    pub fn to_string(&self) -> (text: String)
        ensures
            text@ == error_text(*self),
    {
        match self {
            ParseResponseError::Json { message } => {
                let mut text = String::new();
                push_str(&mut text, "The speedrun.com response is not valid JSON: ");
                push_str(&mut text, message.as_str());
                text
            },
            ParseResponseError::InvalidResponse { message } => message.clone(),
        }
    }
}

/// An error for a response that does not contain the expected data.
pub fn invalid(message: String) -> (error: ParseResponseError)
    ensures
        error == (ParseResponseError::InvalidResponse { message }),
{
    ParseResponseError::InvalidResponse { message }
}

/// What the lookup searches for: the run's game, category and metadata,
/// and the filters of the settings.
#[derive(Debug)]
pub struct Query {
    pub game: String,
    pub category: String,
    pub platform: String,
    pub region: String,
    pub uses_emulator: bool,
    pub variables: Vec<(String, String)>,
    pub filter_variables: bool,
    pub filter_subcategories: bool,
    pub filter_platform: bool,
    pub filter_region: bool,
    pub timing_method: Option<TimingMethodOverride>,
}

/// The stage of the lookup: the next request that it makes.
#[derive(Clone, Copy, Debug, PartialEq, Eq, Structural)]
pub enum Stage {
    Game,
    Category,
    Variables,
    Platforms,
    Regions,
    Leaderboard,
    Complete,
}

/// The position of a stage in the order of the lookup.
pub open spec fn stage_rank(stage: Stage) -> int {
    match stage {
        Stage::Game => 0,
        Stage::Category => 1,
        Stage::Variables => 2,
        Stage::Platforms => 3,
        Stage::Regions => 4,
        Stage::Leaderboard => 5,
        Stage::Complete => 6,
    }
}

/// The state of the speedrun.com lookup.
#[derive(Debug)]
pub struct Lookup {
    /// The query the lookup answers; `None` until the first request.
    pub query: Option<Query>,
    pub stage: Stage,
    pub game_id: String,
    pub category_id: String,
    pub platform_id: String,
    pub region_id: String,
    /// The leaderboard filters of the run's variables: variable ids and
    /// value ids.
    pub variable_filters: Vec<(String, String)>,
    /// The first-place runs; more than one is a tie.
    pub records: Vec<Record>,
    /// The error that stopped the lookup, if any.
    pub error: Option<String>,
    /// When the lookup completed.
    pub completed_at: Option<std::time::Instant>,
}

/// Whether a lookup is at its start: at the game stage, with nothing found,
/// no error and no completion.
pub open spec fn lookup_at_start(lookup: Lookup) -> bool {
    &&& lookup.stage == Stage::Game
    &&& lookup.game_id@.len() == 0
    &&& lookup.category_id@.len() == 0
    &&& lookup.platform_id@.len() == 0
    &&& lookup.region_id@.len() == 0
    &&& lookup.variable_filters@.len() == 0
    &&& lookup.records@.len() == 0
    &&& lookup.error is None
    &&& lookup.completed_at is None
}

/// Returns a lookup at its start, answering the given query.
pub fn fresh_lookup(query: Option<Query>) -> (lookup: Lookup)
    ensures
        lookup_at_start(lookup),
        lookup.query == query,
{
    Lookup {
        query,
        stage: Stage::Game,
        game_id: String::new(),
        category_id: String::new(),
        platform_id: String::new(),
        region_id: String::new(),
        variable_filters: Vec::new(),
        records: Vec::new(),
        error: None,
        completed_at: None,
    }
}

/// The stage after the category: the variables if any variable filter
/// applies, else the platform, the region or the leaderboard.
pub open spec fn spec_after_category(query: Query) -> Stage {
    if (query.filter_variables || query.filter_subcategories) && query.variables@.len() != 0 {
        Stage::Variables
    } else {
        spec_after_variables(query)
    }
}

/// The stage after the variables: the platform if it is filtered on and
/// known, else the region or the leaderboard.
pub open spec fn spec_after_variables(query: Query) -> Stage {
    if query.filter_platform && query.platform@.len() != 0 {
        Stage::Platforms
    } else {
        spec_after_platforms(query)
    }
}

/// The stage after the platform: the region if it is filtered on and known,
/// else the leaderboard.
pub open spec fn spec_after_platforms(query: Query) -> Stage {
    if query.filter_region && query.region@.len() != 0 {
        Stage::Regions
    } else {
        Stage::Leaderboard
    }
}

/// The URL parameter `&name=value`, both percent-encoded.
pub open spec fn parameter(name: Seq<char>, value: Seq<char>) -> Seq<char> {
    "&"@ + encoded(name) + "="@ + encoded(value)
}

/// Appends the URL parameter `&name=value`, both percent-encoded.
pub fn push_parameter(url: &mut String, name: &str, value: &str)
    ensures
        final(url)@ == old(url)@ + parameter(name@, value@),
{
    push_str(url, "&");
    let name_encoded = percent_encode(name);
    push_str(url, name_encoded.as_str());
    push_str(url, "=");
    let value_encoded = percent_encode(value);
    push_str(url, value_encoded.as_str());
    assert(final(url)@ =~= old(url)@ + parameter(name@, value@));
}

/// The base of the speedrun.com API.
pub open spec fn api_base() -> Seq<char> {
    "https://www.speedrun.com/api/v1"@
}

/// The parameters of the variable filters, in order.
pub open spec fn variable_parameters(filters: Seq<(String, String)>) -> Seq<char>
    decreases filters.len(),
{
    if filters.len() == 0 {
        Seq::empty()
    } else {
        variable_parameters(filters.drop_last()) + parameter(
            "var-"@ + filters.last().0@,
            filters.last().1@,
        )
    }
}

/// The speedrun.com name of a timing method override.
pub open spec fn timing_parameter_value(method: TimingMethodOverride) -> Seq<char> {
    match method {
        TimingMethodOverride::RealTime => "realtime"@,
        TimingMethodOverride::RealTimeWithoutLoads => "realtime_noloads"@,
        TimingMethodOverride::GameTime => "ingame"@,
    }
}

/// The URL of the leaderboard request: the first place of the category,
/// filtered by platform and emulator use, region, variables and timing
/// method as the query and the found ids call for.
pub open spec fn spec_leaderboard_url(lookup: Lookup, query: Query) -> Seq<char> {
    let base = api_base() + "/leaderboards/"@ + encoded(lookup.game_id@) + "/category/"@ + encoded(
        lookup.category_id@,
    ) + "?top=1&embed=players"@;
    let platform = if query.filter_platform && lookup.platform_id@.len() != 0 {
        parameter("platform"@, lookup.platform_id@) + parameter(
            "emulators"@,
            if query.uses_emulator {
                "1"@
            } else {
                "0"@
            },
        )
    } else {
        Seq::empty()
    };
    let region = if query.filter_region && lookup.region_id@.len() != 0 {
        parameter("region"@, lookup.region_id@)
    } else {
        Seq::empty()
    };
    let timing = match query.timing_method {
        Some(method) => parameter("timing"@, timing_parameter_value(method)),
        None => Seq::empty(),
    };
    base + platform + region + variable_parameters(lookup.variable_filters@) + timing
}

/// The URL of the request of the lookup's stage, if it makes one.
pub open spec fn spec_stage_url(lookup: Lookup) -> Option<Seq<char>> {
    match lookup.query {
        None => None,
        Some(query) => if lookup.error is Some || query.game@.len() == 0
            || query.category@.len() == 0 {
            None
        } else {
            match lookup.stage {
                Stage::Game => Some(api_base() + "/games?name="@ + encoded(query.game@)),
                Stage::Category => Some(
                    api_base() + "/games/"@ + encoded(lookup.game_id@) + "/categories"@,
                ),
                Stage::Variables => Some(
                    api_base() + "/categories/"@ + encoded(lookup.category_id@) + "/variables"@,
                ),
                Stage::Platforms => Some(api_base() + "/platforms?max=200"@),
                Stage::Regions => Some(api_base() + "/regions?max=200"@),
                Stage::Leaderboard => Some(spec_leaderboard_url(lookup, query)),
                Stage::Complete => None,
            }
        },
    }
}

/// Returns the speedrun.com name of a timing method override.
fn timing_parameter(method: TimingMethodOverride) -> (value: &'static str)
    ensures
        value@ == timing_parameter_value(method),
{
    match method {
        TimingMethodOverride::RealTime => "realtime",
        TimingMethodOverride::RealTimeWithoutLoads => "realtime_noloads",
        TimingMethodOverride::GameTime => "ingame",
    }
}

impl Lookup {
    /// Builds the URL of the leaderboard request.
    pub fn leaderboard_url(&self, query: &Query) -> (url: String)
        ensures
            url@ == spec_leaderboard_url(*self, *query),
    {
        let mut url = String::new();
        push_str(&mut url, "https://www.speedrun.com/api/v1/leaderboards/");
        let game = percent_encode(self.game_id.as_str());
        push_str(&mut url, game.as_str());
        push_str(&mut url, "/category/");
        let category = percent_encode(self.category_id.as_str());
        push_str(&mut url, category.as_str());
        push_str(&mut url, "?top=1&embed=players");
        proof {
            reveal_strlit("https://www.speedrun.com/api/v1/leaderboards/");
            reveal_strlit("https://www.speedrun.com/api/v1");
            reveal_strlit("/leaderboards/");
            assert("https://www.speedrun.com/api/v1/leaderboards/"@ =~= api_base() + "/leaderboards/"@);
        }
        let ghost base = url@;
        if query.filter_platform && !self.platform_id.as_str().is_empty() {
            push_parameter(&mut url, "platform", self.platform_id.as_str());
            push_parameter(&mut url, "emulators", if query.uses_emulator { "1" } else { "0" });
        }
        let ghost with_platform = url@;
        if query.filter_region && !self.region_id.as_str().is_empty() {
            push_parameter(&mut url, "region", self.region_id.as_str());
        }
        let ghost with_region = url@;
        let mut i: usize = 0;
        while i < self.variable_filters.len()
            invariant
                i <= self.variable_filters@.len(),
                url@ == with_region + variable_parameters(self.variable_filters@.take(i as int)),
            decreases self.variable_filters.len() - i,
        {
            assert(self.variable_filters@.take(i + 1).drop_last() =~= self.variable_filters@.take(i as int));
            let mut name = String::new();
            push_str(&mut name, "var-");
            push_str(&mut name, self.variable_filters[i].0.as_str());
            push_parameter(&mut url, name.as_str(), self.variable_filters[i].1.as_str());
            assert(url@ =~= with_region + variable_parameters(self.variable_filters@.take(i + 1)));
            i = i + 1;
        }
        assert(self.variable_filters@.take(i as int) =~= self.variable_filters@);
        match query.timing_method {
            Some(method) => push_parameter(&mut url, "timing", timing_parameter(method)),
            None => {},
        }
        proof {
            let platform = if query.filter_platform && self.platform_id@.len() != 0 {
                parameter("platform"@, self.platform_id@) + parameter(
                    "emulators"@,
                    if query.uses_emulator {
                        "1"@
                    } else {
                        "0"@
                    },
                )
            } else {
                Seq::empty()
            };
            assert(with_platform =~= base + platform);
            assert(url@ =~= spec_leaderboard_url(*self, *query));
        }
        url
    }

    /// The stage after the category.
    pub fn advance_after_category(&mut self)
        requires
            old(self).query is Some,
        ensures
            final(self).stage == spec_after_category(old(self).query->0),
            final(self).query == old(self).query,
            final(self).game_id == old(self).game_id,
            final(self).category_id == old(self).category_id,
            final(self).platform_id == old(self).platform_id,
            final(self).region_id == old(self).region_id,
            final(self).variable_filters == old(self).variable_filters,
            final(self).records == old(self).records,
            final(self).error == old(self).error,
            final(self).completed_at == old(self).completed_at,
    {
        let stage = match &self.query {
            Some(query) => if (query.filter_variables || query.filter_subcategories)
                && query.variables.len() != 0 {
                Stage::Variables
            } else if query.filter_platform && !query.platform.as_str().is_empty() {
                Stage::Platforms
            } else if query.filter_region && !query.region.as_str().is_empty() {
                Stage::Regions
            } else {
                Stage::Leaderboard
            },
            None => Stage::Game,
        };
        self.stage = stage;
    }

    /// The stage after the variables.
    pub fn advance_after_variables(&mut self)
        requires
            old(self).query is Some,
        ensures
            final(self).stage == spec_after_variables(old(self).query->0),
            final(self).query == old(self).query,
            final(self).game_id == old(self).game_id,
            final(self).category_id == old(self).category_id,
            final(self).platform_id == old(self).platform_id,
            final(self).region_id == old(self).region_id,
            final(self).variable_filters == old(self).variable_filters,
            final(self).records == old(self).records,
            final(self).error == old(self).error,
            final(self).completed_at == old(self).completed_at,
    {
        let stage = match &self.query {
            Some(query) => if query.filter_platform && !query.platform.as_str().is_empty() {
                Stage::Platforms
            } else if query.filter_region && !query.region.as_str().is_empty() {
                Stage::Regions
            } else {
                Stage::Leaderboard
            },
            None => Stage::Game,
        };
        self.stage = stage;
    }

    /// The stage after the platform.
    pub fn advance_after_platforms(&mut self)
        requires
            old(self).query is Some,
        ensures
            final(self).stage == spec_after_platforms(old(self).query->0),
            final(self).query == old(self).query,
            final(self).game_id == old(self).game_id,
            final(self).category_id == old(self).category_id,
            final(self).platform_id == old(self).platform_id,
            final(self).region_id == old(self).region_id,
            final(self).variable_filters == old(self).variable_filters,
            final(self).records == old(self).records,
            final(self).error == old(self).error,
            final(self).completed_at == old(self).completed_at,
    {
        let stage = match &self.query {
            Some(query) => if query.filter_region && !query.region.as_str().is_empty() {
                Stage::Regions
            } else {
                Stage::Leaderboard
            },
            None => Stage::Game,
        };
        self.stage = stage;
    }

    /// Returns the URL of the request of the lookup's stage, if it makes one.
    pub fn stage_url(&self) -> (url: Option<String>)
        ensures
            match url {
                Some(u) => spec_stage_url(*self) == Some(u@),
                None => spec_stage_url(*self) is None,
            },
    {
        if self.error.is_some() {
            return None;
        }
        let query = match &self.query {
            Some(query) => query,
            None => return None,
        };
        if query.game.as_str().is_empty() || query.category.as_str().is_empty() {
            return None;
        }
        proof {
            reveal_strlit("https://www.speedrun.com/api/v1");
        }
        match self.stage {
            Stage::Game => {
                let mut url = String::new();
                push_str(&mut url, "https://www.speedrun.com/api/v1/games?name=");
                let game = percent_encode(query.game.as_str());
                push_str(&mut url, game.as_str());
                proof {
                    reveal_strlit("https://www.speedrun.com/api/v1/games?name=");
                    reveal_strlit("/games?name=");
                    assert(url@ =~= api_base() + "/games?name="@ + encoded(query.game@));
                }
                Some(url)
            },
            Stage::Category => {
                let mut url = String::new();
                push_str(&mut url, "https://www.speedrun.com/api/v1/games/");
                let game = percent_encode(self.game_id.as_str());
                push_str(&mut url, game.as_str());
                push_str(&mut url, "/categories");
                proof {
                    reveal_strlit("https://www.speedrun.com/api/v1/games/");
                    reveal_strlit("/games/");
                    assert(url@ =~= api_base() + "/games/"@ + encoded(self.game_id@)
                        + "/categories"@);
                }
                Some(url)
            },
            Stage::Variables => {
                let mut url = String::new();
                push_str(&mut url, "https://www.speedrun.com/api/v1/categories/");
                let category = percent_encode(self.category_id.as_str());
                push_str(&mut url, category.as_str());
                push_str(&mut url, "/variables");
                proof {
                    reveal_strlit("https://www.speedrun.com/api/v1/categories/");
                    reveal_strlit("/categories/");
                    assert(url@ =~= api_base() + "/categories/"@ + encoded(self.category_id@)
                        + "/variables"@);
                }
                Some(url)
            },
            Stage::Platforms => {
                let mut url = String::new();
                push_str(&mut url, "https://www.speedrun.com/api/v1/platforms?max=200");
                proof {
                    reveal_strlit("https://www.speedrun.com/api/v1/platforms?max=200");
                    reveal_strlit("/platforms?max=200");
                    assert(url@ =~= api_base() + "/platforms?max=200"@);
                }
                Some(url)
            },
            Stage::Regions => {
                let mut url = String::new();
                push_str(&mut url, "https://www.speedrun.com/api/v1/regions?max=200");
                proof {
                    reveal_strlit("https://www.speedrun.com/api/v1/regions?max=200");
                    reveal_strlit("/regions?max=200");
                    assert(url@ =~= api_base() + "/regions?max=200"@);
                }
                Some(url)
            },
            Stage::Leaderboard => Some(self.leaderboard_url(query)),
            Stage::Complete => None,
        }
    }
}

/// The texts of a sequence of pairs of strings.
pub open spec fn pairs_view(pairs: Seq<(String, String)>) -> Seq<(Seq<char>, Seq<char>)> {
    pairs.map_values(|p: (String, String)| (p.0@, p.1@))
}

/// Whether two queries ask for the same thing.
pub open spec fn same_query(a: Query, b: Query) -> bool {
    &&& a.game@ == b.game@
    &&& a.category@ == b.category@
    &&& a.platform@ == b.platform@
    &&& a.region@ == b.region@
    &&& a.uses_emulator == b.uses_emulator
    &&& pairs_view(a.variables@) == pairs_view(b.variables@)
    &&& a.filter_variables == b.filter_variables
    &&& a.filter_subcategories == b.filter_subcategories
    &&& a.filter_platform == b.filter_platform
    &&& a.filter_region == b.filter_region
    &&& a.timing_method == b.timing_method
}

/// Whether a query asks for the current run of the timer with the filters
/// of the settings.
pub open spec fn query_matches(query: Query, settings: Settings, timer: Snapshot) -> bool {
    &&& query.game@ == timer.run.game_name@
    &&& query.category@ == timer.run.category_name@
    &&& query.platform@ == timer.run.metadata.platform_name@
    &&& query.region@ == timer.run.metadata.region_name@
    &&& query.uses_emulator == timer.run.metadata.uses_emulator
    &&& pairs_view(query.variables@) == pairs_view(timer.run.metadata.speedrun_com_variables@)
    &&& query.filter_variables == settings.filter_variables
    &&& query.filter_subcategories == settings.filter_subcategories
    &&& query.filter_platform == settings.filter_platform
    &&& query.filter_region == settings.filter_region
    &&& query.timing_method == settings.timing_method
}

/// Returns a copy of a sequence of pairs of strings.
pub fn copy_pairs(pairs: &Vec<(String, String)>) -> (copy: Vec<(String, String)>)
    ensures
        copy@ == pairs@,
{
    let mut copy: Vec<(String, String)> = Vec::new();
    let mut i: usize = 0;
    while i < pairs.len()
        invariant
            i <= pairs@.len(),
            copy@ == pairs@.take(i as int),
        decreases pairs.len() - i,
    {
        copy.push((pairs[i].0.clone(), pairs[i].1.clone()));
        assert(copy@ =~= pairs@.take(i + 1));
        i = i + 1;
    }
    assert(pairs@.take(i as int) =~= pairs@);
    copy
}

/// Returns whether two sequences of pairs of strings hold the same texts.
pub fn same_pairs(a: &Vec<(String, String)>, b: &Vec<(String, String)>) -> (same: bool)
    ensures
        same == (pairs_view(a@) == pairs_view(b@)),
{
    if a.len() != b.len() {
        assert(pairs_view(a@).len() != pairs_view(b@).len());
        return false;
    }
    let mut i: usize = 0;
    while i < a.len()
        invariant
            a@.len() == b@.len(),
            i <= a@.len(),
            forall|j: int| 0 <= j < i ==> #[trigger] pairs_view(a@)[j] == pairs_view(b@)[j],
        decreases a.len() - i,
    {
        if a[i].0 != b[i].0 || a[i].1 != b[i].1 {
            assert(pairs_view(a@)[i as int] != pairs_view(b@)[i as int]);
            return false;
        }
        i = i + 1;
    }
    assert(pairs_view(a@) =~= pairs_view(b@));
    true
}

/// Returns whether two queries ask for the same thing.
pub fn is_same_query(a: &Query, b: &Query) -> (same: bool)
    ensures
        same == same_query(*a, *b),
{
    a.game == b.game && a.category == b.category && a.platform == b.platform && a.region
        == b.region && a.uses_emulator == b.uses_emulator && same_pairs(&a.variables, &b.variables)
        && a.filter_variables == b.filter_variables && a.filter_subcategories
        == b.filter_subcategories && a.filter_platform == b.filter_platform && a.filter_region
        == b.filter_region && a.timing_method == b.timing_method
}

/// How long a completed lookup stays valid, in seconds.
pub const REFRESH_SECONDS: u64 = 300;

/// Returns whether a lookup result that completed the given number of
/// whole seconds ago has expired: once it is five minutes old.
pub fn is_expired(completed_seconds_ago: u64) -> (expired: bool)
    ensures
        expired == (completed_seconds_ago >= 300),
{
    completed_seconds_ago >= REFRESH_SECONDS
}

/// The World Record component shows the first-place run for the current game
/// and category on speedrun.com.
#[derive(Debug)]
pub struct Component {
    pub settings: Settings,
    pub lookup: Lookup,
}

impl Default for Component {
    fn default() -> (component: Self)
        ensures
            component.settings == spec_default_settings(),
            lookup_at_start(component.lookup),
            component.lookup.query is None,
    {
        Self::with_settings(Settings::default())
    }
}

impl Component {
    /// Creates a new World Record component.
    pub fn new() -> (component: Self)
        ensures
            component.settings == spec_default_settings(),
            lookup_at_start(component.lookup),
            component.lookup.query is None,
    {
        Self::default()
    }

    /// Creates a new World Record component with the given settings.
    pub fn with_settings(settings: Settings) -> (component: Self)
        ensures
            component.settings == settings,
            lookup_at_start(component.lookup),
            component.lookup.query is None,
    {
        Component { settings, lookup: fresh_lookup(None) }
    }

    /// Accesses the settings of the component.
    pub fn settings(&self) -> (settings: &Settings)
        ensures
            *settings == self.settings,
    {
        &self.settings
    }

    /// Grants mutable access to the settings of the component.
    pub fn settings_mut(&mut self) -> (settings: &mut Settings)
        ensures
            *settings == old(self).settings,
            final(self).settings == *final(settings),
            final(self).lookup == old(self).lookup,
    {
        &mut self.settings
    }

    /// Accesses the name of the component.
    pub fn name(&self) -> (name: &'static str)
        ensures
            name@ == "World Record"@,
    {
        "World Record"
    }

    /// Restarts the speedrun.com lookup.
    pub fn refresh(&mut self)
        ensures
            final(self).settings == old(self).settings,
            lookup_at_start(final(self).lookup),
            final(self).lookup.query is None,
    {
        self.lookup = fresh_lookup(None);
    }

    /// Builds the query for the timer's current run.
    pub fn current_query(&self, timer: &Snapshot) -> (query: Query)
        ensures
            query_matches(query, self.settings, *timer),
    {
        let run = &timer.run;
        let metadata = &run.metadata;
        Query {
            game: run.game_name.clone(),
            category: run.category_name.clone(),
            platform: metadata.platform_name.clone(),
            region: metadata.region_name.clone(),
            uses_emulator: metadata.uses_emulator,
            variables: copy_pairs(&metadata.speedrun_com_variables),
            filter_variables: self.settings.filter_variables,
            filter_subcategories: self.settings.filter_subcategories,
            filter_platform: self.settings.filter_platform,
            filter_region: self.settings.filter_region,
            timing_method: self.settings.timing_method,
        }
    }

    /// Makes the lookup follow the timer's current run, given whether its
    /// result has expired: the lookup starts over, answering the current
    /// query, when the run's game, category or metadata or the filters
    /// changed or when the result expired; otherwise it is kept.
    pub fn follow_run(&mut self, timer: &Snapshot, expired: bool)
        ensures
            final(self).settings == old(self).settings,
            final(self).lookup.query matches Some(q) && query_matches(q, old(self).settings, *timer),
            if !expired && (old(self).lookup.query matches Some(q) && query_matches(
                q,
                old(self).settings,
                *timer,
            )) {
                final(self).lookup == old(self).lookup
            } else {
                lookup_at_start(final(self).lookup)
            },
    {
        let query = self.current_query(timer);
        let same = match &self.lookup.query {
            Some(current) => is_same_query(current, &query),
            None => false,
        };
        if !same || expired {
            self.lookup = fresh_lookup(Some(query));
        }
    }

    /// Makes the lookup follow the timer's current run, given how many whole
    /// seconds ago its result completed, if it did: the result expires once
    /// it is five minutes old ([`is_expired`]), and the lookup starts over
    /// when the run's game, category or metadata or the filters changed or
    /// when the result expired; otherwise it is kept.
    pub fn follow_run_after(&mut self, timer: &Snapshot, completed_seconds_ago: Option<u64>)
        ensures
            final(self).settings == old(self).settings,
            final(self).lookup.query matches Some(q) && query_matches(q, old(self).settings, *timer),
            if !(completed_seconds_ago matches Some(s) && s >= REFRESH_SECONDS) && (
            old(self).lookup.query matches Some(q) && query_matches(q, old(self).settings, *timer)) {
                final(self).lookup == old(self).lookup
            } else {
                lookup_at_start(final(self).lookup)
            },
    {
        let expired = match completed_seconds_ago {
            Some(seconds) => is_expired(seconds),
            None => false,
        };
        self.follow_run(timer, expired);
    }

    /// Makes the lookup follow the timer's current run: the lookup starts
    /// over when the run's game, category or metadata or the filters changed,
    /// or when its result is at least five minutes old, as the clock tells.
    /// Otherwise it is kept.
    pub fn sync_query(&mut self, timer: &Snapshot)
        ensures
            final(self).settings == old(self).settings,
            final(self).lookup.query matches Some(q) && query_matches(q, old(self).settings, *timer),
            !(old(self).lookup.query matches Some(q) && query_matches(
                q,
                old(self).settings,
                *timer,
            )) ==> lookup_at_start(final(self).lookup),
            old(self).lookup.completed_at is None && (old(self).lookup.query matches Some(q)
                && query_matches(q, old(self).settings, *timer))
                ==> final(self).lookup == old(self).lookup,
            lookup_at_start(final(self).lookup) || final(self).lookup == old(self).lookup,
    {
        let completed_seconds_ago = match &self.lookup.completed_at {
            Some(completed_at) => Some(crate::clock::elapsed_whole_seconds(completed_at)),
            None => None,
        };
        self.follow_run_after(timer, completed_seconds_ago);
    }

    /// Returns the URL of the next speedrun.com API request.
    ///
    /// The lookup follows the current run's game, category and metadata
    /// (see [`Component::sync_query`]); there is no request when the lookup
    /// failed or completed, or when the run names no game or no category.
    pub fn request_url(&mut self, timer: &Snapshot) -> (url: Option<String>)
        ensures
            final(self).settings == old(self).settings,
            final(self).lookup.query matches Some(q) && query_matches(q, old(self).settings, *timer),
            !(old(self).lookup.query matches Some(q) && query_matches(
                q,
                old(self).settings,
                *timer,
            )) ==> lookup_at_start(final(self).lookup),
            lookup_at_start(final(self).lookup) || final(self).lookup == old(self).lookup,
            old(self).lookup.completed_at is None && (old(self).lookup.query matches Some(q)
                && query_matches(q, old(self).settings, *timer))
                ==> final(self).lookup == old(self).lookup,
            match url {
                Some(u) => spec_stage_url(final(self).lookup) == Some(u@),
                None => spec_stage_url(final(self).lookup) is None,
            },
    {
        self.sync_query(timer);
        self.lookup.stage_url()
    }
}

// ---------------------------------------------------------------------------
// What the component reads of speedrun.com responses.

/// An element of a response's data array: its name and its id, where the
/// element has them.
#[derive(Debug)]
pub struct NamedEntry {
    pub name: Option<String>,
    pub id: Option<String>,
}

/// A choice of a variable: its id and its label.
pub type Choice = (String, Option<String>);

/// A speedrun.com variable of a category.
#[derive(Debug)]
pub struct VariableEntry {
    pub id: Option<String>,
    pub name: Option<String>,
    pub is_subcategory: Option<bool>,
    /// The variable's value choices, in the order of the response's object.
    pub choices: Option<Vec<Choice>>,
}

/// A player of a leaderboard run.
#[derive(Debug)]
pub struct PlayerEntry {
    /// `user` or `guest`.
    pub rel: Option<String>,
    /// The name of a guest.
    pub name: Option<String>,
    /// The id of a user.
    pub id: Option<String>,
}

/// A leaderboard run: its players and times.
#[derive(Debug)]
pub struct RunEntry {
    pub players: Option<Vec<PlayerEntry>>,
    pub times: Times,
}

/// A leaderboard response: its runs (`None` for an entry without a run) and
/// the embedded user data, whose names are the international names.
#[derive(Debug)]
pub struct LeaderboardData {
    pub runs: Option<Vec<Option<RunEntry>>>,
    pub players: Option<Vec<NamedEntry>>,
}

/// Whether an entry's name is the wanted name, ignoring ASCII case.
pub open spec fn name_matches(entry: NamedEntry, wanted: Seq<char>) -> bool {
    entry.name matches Some(n) && eq_ignoring_ascii_case(n@, wanted)
}

/// The first entry from `start` on whose name is the wanted name.
pub open spec fn find_named_from(entries: Seq<NamedEntry>, wanted: Seq<char>, start: int) -> Option<
    int,
>
    decreases entries.len() - start,
{
    if start < 0 || start >= entries.len() {
        None
    } else if name_matches(entries[start], wanted) {
        Some(start)
    } else {
        find_named_from(entries, wanted, start + 1)
    }
}

/// An optional index as a mathematical integer.
pub open spec fn int_index(index: Option<usize>) -> Option<int> {
    match index {
        Some(i) => Some(i as int),
        None => None,
    }
}

/// Returns the first entry whose name is the wanted name, ignoring ASCII
/// case.
pub fn find_named(entries: &Vec<NamedEntry>, wanted: &str) -> (index: Option<usize>)
    ensures
        int_index(index) == find_named_from(entries@, wanted@, 0),
        index matches Some(i) ==> i < entries@.len(),
{
    let mut i: usize = 0;
    while i < entries.len()
        invariant
            i <= entries@.len(),
            find_named_from(entries@, wanted@, 0) == find_named_from(entries@, wanted@, i as int),
        decreases entries.len() - i,
    {
        let found = match &entries[i].name {
            Some(name) => eq_ignore_ascii_case(name.as_str(), wanted),
            None => false,
        };
        if found {
            return Some(i);
        }
        i = i + 1;
    }
    None
}

/// The text of the error for a missing member.
pub open spec fn missing_text(pointer: Seq<char>) -> Seq<char> {
    "The response is missing "@ + pointer + "."@
}

/// Whether a result is an error for invalid data with the given text.
pub open spec fn is_invalid_with<T>(result: Result<T, ParseResponseError>, text: Seq<char>) -> bool {
    result matches Err(ParseResponseError::InvalidResponse { message }) && message@ == text
}

/// Returns a text made of a prefix and a suffix.
fn concat3(a: &str, b: &str, c: &str) -> (text: String)
    ensures
        text@ == a@ + b@ + c@,
{
    let mut text = String::new();
    push_str(&mut text, a);
    push_str(&mut text, b);
    push_str(&mut text, c);
    assert(text@ =~= a@ + b@ + c@);
    text
}

/// The member that a response must have, or the error that it is missing.
pub fn required_str(value: &Option<String>, pointer: &str) -> (text: Result<String, ParseResponseError>)
    ensures
        value matches Some(v) ==> text == Ok::<String, ParseResponseError>(*v),
        value is None ==> is_invalid_with(text, missing_text(pointer@)),
{
    match value {
        Some(v) => Ok(v.clone()),
        None => Err(invalid(concat3("The response is missing ", pointer, "."))),
    }
}

/// The entry a game response selects: the first whose international name
/// is the game's name, else the first entry.
pub open spec fn spec_select_game(games: Seq<NamedEntry>, game: Seq<char>) -> Option<int> {
    match find_named_from(games, game, 0) {
        Some(i) => Some(i),
        None => if games.len() > 0 {
            Some(0)
        } else {
            None
        },
    }
}

/// Whether a variable is one that the query's filters apply to.
pub open spec fn is_filtered_variable(entry: VariableEntry, query: Query) -> bool {
    let is_subcategory = match entry.is_subcategory {
        Some(b) => b,
        None => false,
    };
    !((is_subcategory && !query.filter_subcategories) || (!is_subcategory
        && !query.filter_variables))
}

/// The first of the run's variables from `start` on whose name is the
/// given name.
pub open spec fn find_variable_from(
    variables: Seq<(String, String)>,
    name: Seq<char>,
    start: int,
) -> Option<int>
    decreases variables.len() - start,
{
    if start < 0 || start >= variables.len() {
        None
    } else if eq_ignoring_ascii_case(name, variables[start].0@) {
        Some(start)
    } else {
        find_variable_from(variables, name, start + 1)
    }
}

/// The first choice from `start` on whose label is the selected value.
pub open spec fn find_choice_from(choices: Seq<Choice>, selected: Seq<char>, start: int) -> Option<int>
    decreases choices.len() - start,
{
    if start < 0 || start >= choices.len() {
        None
    } else if choices[start].1 matches Some(label) && eq_ignoring_ascii_case(label@, selected) {
        Some(start)
    } else {
        find_choice_from(choices, selected, start + 1)
    }
}

/// The id of the choice that the run selected for a variable, if the
/// leaderboard is filtered on it.
pub open spec fn spec_variable_choice(entry: VariableEntry, query: Query) -> Option<String> {
    if !is_filtered_variable(entry, query) {
        None
    } else {
        match entry.name {
            None => None,
            Some(name) => match find_variable_from(query.variables@, name@, 0) {
                None => None,
                Some(k) => match entry.choices {
                    None => None,
                    Some(choices) => match find_choice_from(
                        choices@,
                        query.variables@[k].1@,
                        0,
                    ) {
                        None => None,
                        Some(c) => Some(choices@[c].0),
                    },
                },
            },
        }
    }
}

/// The variable filters that a variables response adds, in order, and
/// whether every filtered variable had an id.
pub open spec fn spec_variable_filters(entries: Seq<VariableEntry>, query: Query) -> (
    Seq<(String, String)>,
    bool,
)
    decreases entries.len(),
{
    if entries.len() == 0 {
        (Seq::empty(), true)
    } else {
        let (previous, ok) = spec_variable_filters(entries.drop_last(), query);
        if !ok {
            (previous, false)
        } else {
            match spec_variable_choice(entries.last(), query) {
                None => (previous, true),
                Some(choice) => match entries.last().id {
                    None => (previous, false),
                    Some(id) => (previous.push((id, choice)), true),
                },
            }
        }
    }
}

/// The first embedded user from `start` on with the given id.
pub open spec fn find_user_from(users: Seq<NamedEntry>, id: Seq<char>, start: int) -> Option<int>
    decreases users.len() - start,
{
    if start < 0 || start >= users.len() {
        None
    } else if users[start].id matches Some(user_id) && user_id@ == id {
        Some(start)
    } else {
        find_user_from(users, id, start + 1)
    }
}

/// The name of a player: a guest's name, or a user's international name
/// from the embedded user data, falling back to the user's id; or the text
/// of the error for what is missing.
pub open spec fn spec_resolve_player(player: PlayerEntry, users: Option<Vec<NamedEntry>>) -> Result<
    String,
    Seq<char>,
> {
    if player.rel matches Some(rel) && rel@ == "guest"@ {
        match player.name {
            Some(name) => Ok(name),
            None => Err(missing_text("/name"@)),
        }
    } else {
        match player.id {
            None => Err(missing_text("/id"@)),
            Some(id) => match users {
                None => Ok(id),
                Some(users) => match find_user_from(users@, id@, 0) {
                    None => Ok(id),
                    Some(k) => match users@[k].name {
                        Some(name) => Ok(name),
                        None => Ok(id),
                    },
                },
            },
        }
    }
}

/// The runners of a run, in order, and the error that stopped resolving
/// them, if any.
pub open spec fn spec_runners(players: Seq<PlayerEntry>, users: Option<Vec<NamedEntry>>) -> (
    Seq<String>,
    Option<Seq<char>>,
)
    decreases players.len(),
{
    if players.len() == 0 {
        (Seq::empty(), None)
    } else {
        let (previous, error) = spec_runners(players.drop_last(), users);
        if error is Some {
            (previous, error)
        } else {
            match spec_resolve_player(players.last(), users) {
                Ok(name) => (previous.push(name), None),
                Err(text) => (previous, Some(text)),
            }
        }
    }
}

/// A record as its times and the texts of its runners.
pub open spec fn record_view(record: Record) -> (Times, Seq<String>) {
    (record.times, record.runners@)
}

/// The records of a leaderboard's runs, in order, and the error that
/// stopped reading them, if any.
pub open spec fn spec_records(runs: Seq<Option<RunEntry>>, users: Option<Vec<NamedEntry>>) -> (
    Seq<(Times, Seq<String>)>,
    Option<Seq<char>>,
)
    decreases runs.len(),
{
    if runs.len() == 0 {
        (Seq::empty(), None)
    } else {
        let (previous, error) = spec_records(runs.drop_last(), users);
        if error is Some {
            (previous, error)
        } else {
            match runs.last() {
                None => (previous, Some("A leaderboard entry has no run."@)),
                Some(run) => {
                    let players = match run.players {
                        Some(players) => players@,
                        None => Seq::empty(),
                    };
                    let (runners, runner_error) = spec_runners(players, users);
                    if runner_error is Some {
                        (previous, runner_error)
                    } else {
                        (previous.push((run.times, runners)), None)
                    }
                },
            }
        }
    }
}

/// Once resolving the runners of a run failed, it stays failed with the
/// same runners and error.
pub proof fn lemma_runners_error_persists(
    players: Seq<PlayerEntry>,
    users: Option<Vec<NamedEntry>>,
    n: int,
)
    requires
        0 <= n <= players.len(),
        spec_runners(players.take(n), users).1 is Some,
    ensures
        spec_runners(players, users) == spec_runners(players.take(n), users),
    decreases players.len() - n,
{
    if n < players.len() {
        assert(players.take(n + 1).drop_last() =~= players.take(n));
        lemma_runners_error_persists(players, users, n + 1);
    } else {
        assert(players.take(n) =~= players);
    }
}

/// Once reading the records failed, it stays failed with the same records
/// and error.
pub proof fn lemma_records_error_persists(
    runs: Seq<Option<RunEntry>>,
    users: Option<Vec<NamedEntry>>,
    n: int,
)
    requires
        0 <= n <= runs.len(),
        spec_records(runs.take(n), users).1 is Some,
    ensures
        spec_records(runs, users) == spec_records(runs.take(n), users),
    decreases runs.len() - n,
{
    if n < runs.len() {
        assert(runs.take(n + 1).drop_last() =~= runs.take(n));
        lemma_records_error_persists(runs, users, n + 1);
    } else {
        assert(runs.take(n) =~= runs);
    }
}

/// Once a variable filter failed, the filters stay as they were.
pub proof fn lemma_variable_filters_error_persists(entries: Seq<VariableEntry>, query: Query, n: int)
    requires
        0 <= n <= entries.len(),
        !spec_variable_filters(entries.take(n), query).1,
    ensures
        spec_variable_filters(entries, query) == spec_variable_filters(entries.take(n), query),
    decreases entries.len() - n,
{
    if n < entries.len() {
        assert(entries.take(n + 1).drop_last() =~= entries.take(n));
        lemma_variable_filters_error_persists(entries, query, n + 1);
    } else {
        assert(entries.take(n) =~= entries);
    }
}

/// The stage a successful response moves the lookup to.
pub open spec fn spec_next_stage(lookup: Lookup) -> Stage {
    match lookup.stage {
        Stage::Game => Stage::Category,
        Stage::Category => spec_after_category(lookup.query->0),
        Stage::Variables => spec_after_variables(lookup.query->0),
        Stage::Platforms => spec_after_platforms(lookup.query->0),
        Stage::Regions => Stage::Leaderboard,
        Stage::Leaderboard => Stage::Complete,
        Stage::Complete => Stage::Complete,
    }
}

/// A successful response moves an unfinished lookup strictly forward, so
/// the lookup completes after at most six successful responses.
pub proof fn lemma_next_stage_advances(lookup: Lookup)
    requires
        lookup.stage != Stage::Complete,
    ensures
        stage_rank(spec_next_stage(lookup)) > stage_rank(lookup.stage),
{
}

/// A lookup that recorded an error makes no more requests.
pub proof fn lemma_error_stops_requests(lookup: Lookup)
    requires
        lookup.error is Some,
    ensures
        spec_stage_url(lookup) is None,
{
}

/// A completed lookup makes no more requests.
pub proof fn lemma_complete_lookup_requests_nothing(lookup: Lookup)
    requires
        lookup.stage == Stage::Complete,
    ensures
        spec_stage_url(lookup) is None,
{
}

/// A lookup at its start, for a run that names its game and category,
/// requests the game by its name.
pub proof fn lemma_started_lookup_requests_game(lookup: Lookup)
    requires
        lookup_at_start(lookup),
        lookup.query matches Some(query) && query.game@.len() != 0 && query.category@.len() != 0,
    ensures
        spec_stage_url(lookup) == Some(
            api_base() + "/games?name="@ + encoded(lookup.query->0.game@),
        ),
{
}

/// Two queries for the same run and settings ask for the same thing: a
/// lookup that follows a run is kept as long as the run and the filters
/// stay the same and its result has not expired.
pub proof fn lemma_queries_of_a_run_agree(a: Query, b: Query, settings: Settings, timer: Snapshot)
    requires
        query_matches(a, settings, timer),
        query_matches(b, settings, timer),
    ensures
        same_query(a, b),
{
}

/// Whether the stage needs the lookup's query to consume its response.
pub open spec fn stage_needs_query(stage: Stage) -> bool {
    !(stage == Stage::Leaderboard || stage == Stage::Complete)
}

/// Returns the first of the run's variables whose name is the given name.
pub fn find_variable(variables: &Vec<(String, String)>, name: &str) -> (index: Option<usize>)
    ensures
        int_index(index) == find_variable_from(variables@, name@, 0),
        index matches Some(i) ==> i < variables@.len(),
{
    let mut i: usize = 0;
    while i < variables.len()
        invariant
            i <= variables@.len(),
            find_variable_from(variables@, name@, 0) == find_variable_from(
                variables@,
                name@,
                i as int,
            ),
        decreases variables.len() - i,
    {
        if eq_ignore_ascii_case(name, variables[i].0.as_str()) {
            return Some(i);
        }
        i = i + 1;
    }
    None
}

/// Returns the first choice whose label is the selected value.
pub fn find_choice(choices: &Vec<Choice>, selected: &str) -> (index: Option<usize>)
    ensures
        int_index(index) == find_choice_from(choices@, selected@, 0),
        index matches Some(i) ==> i < choices@.len(),
{
    let mut i: usize = 0;
    while i < choices.len()
        invariant
            i <= choices@.len(),
            find_choice_from(choices@, selected@, 0) == find_choice_from(
                choices@,
                selected@,
                i as int,
            ),
        decreases choices.len() - i,
    {
        let found = match &choices[i].1 {
            Some(label) => eq_ignore_ascii_case(label.as_str(), selected),
            None => false,
        };
        if found {
            return Some(i);
        }
        i = i + 1;
    }
    None
}

/// Returns the id of the choice that the run selected for a variable, if
/// the leaderboard is filtered on it.
pub fn variable_choice(entry: &VariableEntry, query: &Query) -> (choice: Option<String>)
    ensures
        choice == spec_variable_choice(*entry, *query),
{
    let is_subcategory = match entry.is_subcategory {
        Some(b) => b,
        None => false,
    };
    if (is_subcategory && !query.filter_subcategories) || (!is_subcategory
        && !query.filter_variables) {
        return None;
    }
    let name = match &entry.name {
        Some(name) => name,
        None => return None,
    };
    let k = match find_variable(&query.variables, name.as_str()) {
        Some(k) => k,
        None => return None,
    };
    let choices = match &entry.choices {
        Some(choices) => choices,
        None => return None,
    };
    match find_choice(choices, query.variables[k].1.as_str()) {
        Some(c) => Some(choices[c].0.clone()),
        None => None,
    }
}

/// Returns the first embedded user with the given id.
pub fn find_user(users: &Vec<NamedEntry>, id: &String) -> (index: Option<usize>)
    ensures
        int_index(index) == find_user_from(users@, id@, 0),
        index matches Some(i) ==> i < users@.len(),
        index matches Some(i) ==> (users@[i as int].id matches Some(u) && u@ == id@),
        index is None ==> forall|j: int|
            0 <= j < users@.len() ==> !(#[trigger] users@[j].id matches Some(u) && u@ == id@),
{
    proof {
        lemma_find_user_finds_the_id(users@, id@, 0);
    }
    let mut i: usize = 0;
    while i < users.len()
        invariant
            i <= users@.len(),
            find_user_from(users@, id@, 0) == find_user_from(users@, id@, i as int),
        decreases users.len() - i,
    {
        let found = match &users[i].id {
            Some(user_id) => *user_id == *id,
            None => false,
        };
        if found {
            return Some(i);
        }
        i = i + 1;
    }
    None
}

/// Returns the name of a player: a guest's name, or a user's international
/// name from the embedded user data, falling back to the user's id.
pub fn resolve_player(player: &PlayerEntry, users: &Option<Vec<NamedEntry>>) -> (name: Result<
    String,
    ParseResponseError,
>)
    ensures
        match spec_resolve_player(*player, *users) {
            Ok(n) => name == Ok::<String, ParseResponseError>(n),
            Err(text) => is_invalid_with(name, text),
        },
{
    let is_guest = match &player.rel {
        Some(rel) => str_equal(rel.as_str(), "guest"),
        None => false,
    };
    if is_guest {
        return required_str(&player.name, "/name");
    }
    let id = match required_str(&player.id, "/id") {
        Ok(id) => id,
        Err(error) => return Err(error),
    };
    match users {
        None => Ok(id),
        Some(users) => match find_user(users, &id) {
            None => Ok(id),
            Some(k) => match &users[k].name {
                Some(name) => Ok(name.clone()),
                None => Ok(id),
            },
        },
    }
}

/// Returns an owned copy of a text.
fn owned(a: &str) -> (text: String)
    ensures
        text@ == a@,
{
    let mut text = String::new();
    push_str(&mut text, a);
    assert(text@ =~= a@);
    text
}

/// Returns a text made of two parts.
fn concat2(a: &str, b: &str) -> (text: String)
    ensures
        text@ == a@ + b@,
{
    let mut text = String::new();
    push_str(&mut text, a);
    push_str(&mut text, b);
    text
}

impl Component {
    /// Consumes the games of a game response: the lookup takes the id of
    /// the game named like the run's game, or else of the first game, and
    /// moves on to the category.
    pub fn apply_games(&mut self, games: &Vec<NamedEntry>) -> (result: Result<(), ParseResponseError>)
        requires
            old(self).lookup.query is Some,
        ensures
            ({
                let query = old(self).lookup.query->0;
                match spec_select_game(games@, query.game@) {
                    None => is_invalid_with(result, "Game not found: "@ + query.game@)
                        && *final(self) == *old(self),
                    Some(i) => match games@[i].id {
                        None => is_invalid_with(result, missing_text("/id"@)) && *final(self)
                            == *old(self),
                        Some(id) => result is Ok && final(self).settings == old(self).settings
                            && final(self).lookup == (Lookup {
                            game_id: id,
                            stage: Stage::Category,
                            ..old(self).lookup
                        }),
                    },
                }
            }),
    {
        let query = match &self.lookup.query {
            Some(query) => query,
            None => {
                assert(false);
                return Ok(());
            },
        };
        let index = match find_named(games, query.game.as_str()) {
            Some(i) => Some(i),
            None => if games.len() > 0 {
                Some(0)
            } else {
                None
            },
        };
        let i = match index {
            Some(i) => i,
            None => return Err(invalid(concat2("Game not found: ", query.game.as_str()))),
        };
        let id = match required_str(&games[i].id, "/id") {
            Ok(id) => id,
            Err(error) => return Err(error),
        };
        self.lookup.game_id = id;
        self.lookup.stage = Stage::Category;
        Ok(())
    }

    /// Consumes the categories of a category response: the lookup takes the
    /// id of the category named like the run's category and moves on.
    pub fn apply_categories(&mut self, categories: &Vec<NamedEntry>) -> (result: Result<
        (),
        ParseResponseError,
    >)
        requires
            old(self).lookup.query is Some,
        ensures
            ({
                let query = old(self).lookup.query->0;
                match find_named_from(categories@, query.category@, 0) {
                    None => is_invalid_with(result, "Category not found: "@ + query.category@)
                        && *final(self) == *old(self),
                    Some(i) => match categories@[i].id {
                        None => is_invalid_with(result, missing_text("/id"@)) && *final(self)
                            == *old(self),
                        Some(id) => result is Ok && final(self).settings == old(self).settings
                            && final(self).lookup == (Lookup {
                            category_id: id,
                            stage: spec_after_category(query),
                            ..old(self).lookup
                        }),
                    },
                }
            }),
    {
        let query = match &self.lookup.query {
            Some(query) => query,
            None => {
                assert(false);
                return Ok(());
            },
        };
        let i = match find_named(categories, query.category.as_str()) {
            Some(i) => i,
            None => return Err(invalid(concat2("Category not found: ", query.category.as_str()))),
        };
        let id = match required_str(&categories[i].id, "/id") {
            Ok(id) => id,
            Err(error) => return Err(error),
        };
        self.lookup.category_id = id;
        self.lookup.advance_after_category();
        Ok(())
    }

    /// Consumes the platforms of a platform response: the lookup takes the
    /// id of the platform named like the run's platform, if there is one,
    /// and moves on.
    pub fn apply_platforms(&mut self, platforms: &Vec<NamedEntry>) -> (result: Result<
        (),
        ParseResponseError,
    >)
        requires
            old(self).lookup.query is Some,
        ensures
            ({
                let query = old(self).lookup.query->0;
                match find_named_from(platforms@, query.platform@, 0) {
                    None => result is Ok && final(self).settings == old(self).settings
                        && final(self).lookup == (Lookup {
                        stage: spec_after_platforms(query),
                        ..old(self).lookup
                    }),
                    Some(i) => match platforms@[i].id {
                        None => is_invalid_with(result, missing_text("/id"@)) && *final(self)
                            == *old(self),
                        Some(id) => result is Ok && final(self).settings == old(self).settings
                            && final(self).lookup == (Lookup {
                            platform_id: id,
                            stage: spec_after_platforms(query),
                            ..old(self).lookup
                        }),
                    },
                }
            }),
    {
        let query = match &self.lookup.query {
            Some(query) => query,
            None => {
                assert(false);
                return Ok(());
            },
        };
        match find_named(platforms, query.platform.as_str()) {
            Some(i) => {
                let id = match required_str(&platforms[i].id, "/id") {
                    Ok(id) => id,
                    Err(error) => return Err(error),
                };
                self.lookup.platform_id = id;
            },
            None => {},
        }
        self.lookup.advance_after_platforms();
        Ok(())
    }

    /// Consumes the regions of a region response: the lookup takes the id
    /// of the region named like the run's region, if there is one, and
    /// moves on to the leaderboard.
    pub fn apply_regions(&mut self, regions: &Vec<NamedEntry>) -> (result: Result<
        (),
        ParseResponseError,
    >)
        requires
            old(self).lookup.query is Some,
        ensures
            ({
                let query = old(self).lookup.query->0;
                match find_named_from(regions@, query.region@, 0) {
                    None => result is Ok && final(self).settings == old(self).settings
                        && final(self).lookup == (Lookup {
                        stage: Stage::Leaderboard,
                        ..old(self).lookup
                    }),
                    Some(i) => match regions@[i].id {
                        None => is_invalid_with(result, missing_text("/id"@)) && *final(self)
                            == *old(self),
                        Some(id) => result is Ok && final(self).settings == old(self).settings
                            && final(self).lookup == (Lookup {
                            region_id: id,
                            stage: Stage::Leaderboard,
                            ..old(self).lookup
                        }),
                    },
                }
            }),
    {
        let query = match &self.lookup.query {
            Some(query) => query,
            None => {
                assert(false);
                return Ok(());
            },
        };
        match find_named(regions, query.region.as_str()) {
            Some(i) => {
                let id = match required_str(&regions[i].id, "/id") {
                    Ok(id) => id,
                    Err(error) => return Err(error),
                };
                self.lookup.region_id = id;
            },
            None => {},
        }
        self.lookup.stage = Stage::Leaderboard;
        Ok(())
    }

    /// Consumes the variables of a variables response: for every variable
    /// that the filters apply to and that the run sets, the lookup adds a
    /// filter on the choice whose label is the run's value, then moves on.
    pub fn apply_variables(&mut self, variables: &Vec<VariableEntry>) -> (result: Result<
        (),
        ParseResponseError,
    >)
        requires
            old(self).lookup.query is Some,
        ensures
            ({
                let query = old(self).lookup.query->0;
                let (added, ok) = spec_variable_filters(variables@, query);
                let filters = old(self).lookup.variable_filters@ + added;
                &&& final(self).settings == old(self).settings
                &&& final(self).lookup.variable_filters@ == filters
                &&& ok ==> result is Ok && final(self).lookup == (Lookup {
                    variable_filters: final(self).lookup.variable_filters,
                    stage: spec_after_variables(query),
                    ..old(self).lookup
                })
                &&& !ok ==> is_invalid_with(result, missing_text("/id"@)) && final(self).lookup == (
                Lookup { variable_filters: final(self).lookup.variable_filters, ..old(self).lookup })
            }),
    {
        let ghost before = *self;
        assert(before == *old(self));
        let query = match &self.lookup.query {
            Some(query) => query,
            None => {
                assert(false);
                return Ok(());
            },
        };
        let ghost q = *query;
        let mut i: usize = 0;
        while i < variables.len()
            invariant
                i <= variables@.len(),
                before == *old(self),
                before.lookup.query == Some(q),
                self.lookup.query == Some(q),
                *query == q,
                spec_variable_filters(variables@.take(i as int), q).1,
                self.lookup.variable_filters@ == before.lookup.variable_filters@
                    + spec_variable_filters(variables@.take(i as int), q).0,
                self.settings == before.settings,
                self.lookup == (Lookup {
                    variable_filters: self.lookup.variable_filters,
                    ..before.lookup
                }),
            decreases variables.len() - i,
        {
            assert(variables@.take(i + 1).drop_last() =~= variables@.take(i as int));
            match variable_choice(&variables[i], query) {
                None => {},
                Some(choice) => match &variables[i].id {
                    None => {
                        proof {
                            assert(!spec_variable_filters(variables@.take(i + 1), q).1);
                            lemma_variable_filters_error_persists(variables@, q, i + 1);
                        }
                        return Err(invalid(concat3("The response is missing ", "/id", ".")));
                    },
                    Some(id) => {
                        self.lookup.variable_filters.push((id.clone(), choice));
                        assert(self.lookup.variable_filters@ =~= before.lookup.variable_filters@
                            + spec_variable_filters(variables@.take(i + 1), q).0);
                    },
                },
            }
            i = i + 1;
        }
        assert(variables@.take(i as int) =~= variables@);
        self.lookup.advance_after_variables();
        Ok(())
    }

    /// Consumes a leaderboard response: the records become the leaderboard's
    /// runs with their runners resolved, and the lookup completes at the
    /// given moment.
    pub fn apply_leaderboard(
        &mut self,
        leaderboard: &LeaderboardData,
        completed_at: std::time::Instant,
    ) -> (result: Result<(), ParseResponseError>)
        ensures
            final(self).settings == old(self).settings,
            match leaderboard.runs {
                None => is_invalid_with(result, "The response has no leaderboard runs."@)
                    && *final(self) == *old(self),
                Some(runs) => {
                    let (records, error) = spec_records(runs@, leaderboard.players);
                    &&& final(self).lookup.records@.map_values(|r: Record| record_view(r))
                        == records
                    &&& match error {
                        Some(text) => is_invalid_with(result, text) && final(self).lookup == (
                        Lookup { records: final(self).lookup.records, ..old(self).lookup }),
                        None => result is Ok && final(self).lookup == (Lookup {
                            records: final(self).lookup.records,
                            stage: Stage::Complete,
                            completed_at: Some(completed_at),
                            ..old(self).lookup
                        }),
                    }
                },
            },
    {
        let runs = match &leaderboard.runs {
            Some(runs) => runs,
            None => return Err(invalid(owned("The response has no leaderboard runs."))),
        };
        let ghost before = *self;
        assert(before == *old(self));
        let users = &leaderboard.players;
        self.lookup.records.clear();
        let mut i: usize = 0;
        while i < runs.len()
            invariant
                i <= runs@.len(),
                leaderboard.runs == Some(*runs),
                *users == leaderboard.players,
                spec_records(runs@.take(i as int), *users).1 is None,
                self.lookup.records@.map_values(|r: Record| record_view(r)) == spec_records(
                    runs@.take(i as int),
                    *users,
                ).0,
                before == *old(self),
                self.settings == before.settings,
                self.lookup == (Lookup { records: self.lookup.records, ..before.lookup }),
            decreases runs.len() - i,
        {
            assert(runs@.take(i + 1).drop_last() =~= runs@.take(i as int));
            let run = match &runs[i] {
                Some(run) => run,
                None => {
                    proof {
                        assert(spec_records(runs@.take(i + 1), *users).1 is Some);
                        lemma_records_error_persists(runs@, *users, i + 1);
                    }
                    return Err(invalid(owned("A leaderboard entry has no run.")));
                },
            };
            let mut runners: Vec<String> = Vec::new();
            match &run.players {
                Some(players) => {
                    let mut j: usize = 0;
                    while j < players.len()
                        invariant
                            j <= players@.len(),
                            i < runs@.len(),
                            runs@[i as int] == Some(*run),
                            run.players == Some(*players),
                            leaderboard.runs == Some(*runs),
                            *users == leaderboard.players,
                            spec_records(runs@.take(i as int), *users).1 is None,
                            self.lookup.records@.map_values(|r: Record| record_view(r)) == spec_records(
                                runs@.take(i as int),
                                *users,
                            ).0,
                            before == *old(self),
                            self.settings == before.settings,
                            self.lookup == (Lookup { records: self.lookup.records, ..before.lookup }),
                            spec_runners(players@.take(j as int), *users).1 is None,
                            runners@ == spec_runners(players@.take(j as int), *users).0,
                        decreases players.len() - j,
                    {
                        assert(players@.take(j + 1).drop_last() =~= players@.take(j as int));
                        match resolve_player(&players[j], users) {
                            Ok(name) => runners.push(name),
                            Err(error) => {
                                proof {
                                    let text = spec_resolve_player(players@[j as int], *users)->Err_0;
                                    assert(spec_runners(players@.take(j + 1), *users) == (spec_runners(players@.take(j as int), *users).0, Some(text)));
                                    lemma_runners_error_persists(players@, *users, j + 1);
                                    assert(spec_runners(players@, *users).1 == Some(text));
                                    assert(players@.take(players@.len() as int) =~= players@);
                                    assert(runs@.take(i + 1).last() == Some(*run));
                                    assert(runs@.take(i + 1).drop_last() =~= runs@.take(i as int));
                                    assert(spec_records(runs@.take(i + 1), *users).1 == Some(text));
                                    assert(spec_records(runs@.take(i + 1), *users).1 is Some);
                                    lemma_records_error_persists(runs@, *users, i + 1);
                                }
                                return Err(error);
                            },
                        }
                        j = j + 1;
                    }
                    assert(players@.take(j as int) =~= players@);
                },
                None => {
                    assert(spec_runners(Seq::<PlayerEntry>::empty(), *users).0 =~= Seq::<String>::empty());
                },
            }
            let ghost old_records = self.lookup.records@;
            self.lookup.records.push(Record { times: run.times, runners });
            assert(self.lookup.records@.map_values(|r: Record| record_view(r)) =~= old_records.map_values(
                |r: Record| record_view(r),
            ).push((run.times, runners@)));
            i = i + 1;
        }
        assert(runs@.take(i as int) =~= runs@);
        self.lookup.stage = Stage::Complete;
        self.lookup.completed_at = Some(completed_at);
        Ok(())
    }
}

// ---------------------------------------------------------------------------
// Reading responses.

/// The texts of an entry's name and id.
pub open spec fn named_entry_view(entry: NamedEntry) -> (Option<Seq<char>>, Option<Seq<char>>) {
    (option_text(entry.name), option_text(entry.id))
}

/// What an element of a data array names: the string at `name_pointer` and
/// the string at `/id`.
pub open spec fn spec_named_entry(value: JsonTree, name_pointer: Seq<char>) -> (
    Option<Seq<char>>,
    Option<Seq<char>>,
) {
    (spec_optional_str(value, name_pointer), spec_optional_str(value, "/id"@))
}

/// The elements of a response's data array, if it has one.
pub open spec fn spec_data_array(value: JsonTree) -> Option<Seq<JsonTree>> {
    spec_optional_array(value, "/data"@)
}

/// The texts of a choice's id and label.
pub open spec fn choice_view(choice: Choice) -> (Seq<char>, Option<Seq<char>>) {
    (choice.0@, option_text(choice.1))
}

/// The choices of a variable: the keys of the members of its
/// `/values/choices` object with the string at their `/label`.
pub open spec fn spec_variable_choices(variable: JsonTree) -> Option<Seq<(Seq<char>, Option<Seq<char>>)>> {
    match pointer_target(variable, "/values/choices"@) {
        Some(JsonTree::Object(members)) => Some(
            members.map_values(
                |m: (Seq<char>, JsonTree)| (m.0, spec_optional_str(m.1, "/label"@)),
            ),
        ),
        _ => None,
    }
}

/// The texts of optional choices.
pub open spec fn choices_view(choices: Option<Vec<Choice>>) -> Option<Seq<(Seq<char>, Option<Seq<char>>)>> {
    match choices {
        Some(c) => Some(c@.map_values(|choice: Choice| choice_view(choice))),
        None => None,
    }
}

/// The texts of a variable's id and name, its subcategory flag and its
/// choices.
pub open spec fn variable_entry_view(entry: VariableEntry) -> (
    Option<Seq<char>>,
    Option<Seq<char>>,
    Option<bool>,
    Option<Seq<(Seq<char>, Option<Seq<char>>)>>,
) {
    (option_text(entry.id), option_text(entry.name), entry.is_subcategory, choices_view(entry.choices))
}

/// What a variable of a variables response holds: its `/id`, `/name`,
/// `/is-subcategory` and choices.
pub open spec fn spec_variable_entry(variable: JsonTree) -> (
    Option<Seq<char>>,
    Option<Seq<char>>,
    Option<bool>,
    Option<Seq<(Seq<char>, Option<Seq<char>>)>>,
) {
    (
        spec_optional_str(variable, "/id"@),
        spec_optional_str(variable, "/name"@),
        spec_optional_bool(variable, "/is-subcategory"@),
        spec_variable_choices(variable),
    )
}

/// The texts of a player's relation, name and id.
pub open spec fn player_entry_view(player: PlayerEntry) -> (
    Option<Seq<char>>,
    Option<Seq<char>>,
    Option<Seq<char>>,
) {
    (option_text(player.rel), option_text(player.name), option_text(player.id))
}

/// What a player of a run holds: its `/rel`, `/name` and `/id`.
pub open spec fn spec_player_entry(player: JsonTree) -> (
    Option<Seq<char>>,
    Option<Seq<char>>,
    Option<Seq<char>>,
) {
    (
        spec_optional_str(player, "/rel"@),
        spec_optional_str(player, "/name"@),
        spec_optional_str(player, "/id"@),
    )
}

/// The texts of a run's players and its times.
pub open spec fn run_entry_view(run: RunEntry) -> (
    Option<Seq<(Option<Seq<char>>, Option<Seq<char>>, Option<Seq<char>>)>>,
    Times,
) {
    (
        match run.players {
            Some(players) => Some(players@.map_values(|p: PlayerEntry| player_entry_view(p))),
            None => None,
        },
        run.times,
    )
}

/// What a leaderboard run holds: the players of its `/players` array and
/// the numbers of its `/times`.
pub open spec fn spec_run_entry(run: JsonTree) -> (
    Option<Seq<(Option<Seq<char>>, Option<Seq<char>>, Option<Seq<char>>)>>,
    Times,
) {
    (
        match spec_optional_array(run, "/players"@) {
            Some(players) => Some(players.map_values(|p: JsonTree| spec_player_entry(p))),
            None => None,
        },
        Times {
            primary: spec_optional_f64_bits(run, "/times/primary_t"@),
            real_time: spec_optional_f64_bits(run, "/times/realtime_t"@),
            real_time_without_loads: spec_optional_f64_bits(run, "/times/realtime_noloads_t"@),
            game_time: spec_optional_f64_bits(run, "/times/ingame_t"@),
        },
    )
}

/// The view of an optional run.
pub open spec fn optional_run_view(run: Option<RunEntry>) -> Option<
    (Option<Seq<(Option<Seq<char>>, Option<Seq<char>>, Option<Seq<char>>)>>, Times),
> {
    match run {
        Some(r) => Some(run_entry_view(r)),
        None => None,
    }
}

/// What an entry of a leaderboard's runs holds: its `/run`, if it has one.
pub open spec fn spec_leaderboard_run(entry: JsonTree) -> Option<
    (Option<Seq<(Option<Seq<char>>, Option<Seq<char>>, Option<Seq<char>>)>>, Times),
> {
    match pointer_target(entry, "/run"@) {
        Some(run) => Some(spec_run_entry(run)),
        None => None,
    }
}

/// The texts of a leaderboard's runs and users.
pub open spec fn leaderboard_view(leaderboard: LeaderboardData) -> (
    Option<Seq<Option<(Option<Seq<(Option<Seq<char>>, Option<Seq<char>>, Option<Seq<char>>)>>, Times)>>>,
    Option<Seq<(Option<Seq<char>>, Option<Seq<char>>)>>,
) {
    (
        match leaderboard.runs {
            Some(runs) => Some(runs@.map_values(|r: Option<RunEntry>| optional_run_view(r))),
            None => None,
        },
        match leaderboard.players {
            Some(users) => Some(users@.map_values(|u: NamedEntry| named_entry_view(u))),
            None => None,
        },
    )
}

/// What a leaderboard response holds: the entries of its `/data/runs` array
/// and the users of its `/data/players/data` array, named by their
/// international names.
pub open spec fn spec_leaderboard(value: JsonTree) -> (
    Option<Seq<Option<(Option<Seq<(Option<Seq<char>>, Option<Seq<char>>, Option<Seq<char>>)>>, Times)>>>,
    Option<Seq<(Option<Seq<char>>, Option<Seq<char>>)>>,
) {
    (
        match spec_optional_array(value, "/data/runs"@) {
            Some(entries) => Some(entries.map_values(|e: JsonTree| spec_leaderboard_run(e))),
            None => None,
        },
        match spec_optional_array(value, "/data/players/data"@) {
            Some(users) => Some(users.map_values(|u: JsonTree| spec_named_entry(u, "/names/international"@))),
            None => None,
        },
    )
}

// ---------------------------------------------------------------------------
// What the component does with a response, read off its JSON value.

/// The texts of the embedded users of a leaderboard, if it has them.
pub open spec fn optional_named_views(users: Option<Vec<NamedEntry>>) -> Option<
    Seq<(Option<Seq<char>>, Option<Seq<char>>)>,
> {
    match users {
        Some(u) => Some(u@.map_values(|n: NamedEntry| named_entry_view(n))),
        None => None,
    }
}

/// The first entry from `start` on whose name is the wanted name, ignoring
/// ASCII case, among entries given by the texts of their names and ids.
pub open spec fn find_name_in(
    entries: Seq<(Option<Seq<char>>, Option<Seq<char>>)>,
    wanted: Seq<char>,
    start: int,
) -> Option<int>
    decreases entries.len() - start,
{
    if start < 0 || start >= entries.len() {
        None
    } else if entries[start].0 matches Some(n) && eq_ignoring_ascii_case(n, wanted) {
        Some(start)
    } else {
        find_name_in(entries, wanted, start + 1)
    }
}

/// The game a game response selects: the first named like the run's game,
/// else the first one.
pub open spec fn select_game_in(
    games: Seq<(Option<Seq<char>>, Option<Seq<char>>)>,
    game: Seq<char>,
) -> Option<int> {
    match find_name_in(games, game, 0) {
        Some(i) => Some(i),
        None => if games.len() > 0 {
            Some(0)
        } else {
            None
        },
    }
}

/// The first choice from `start` on whose label is the selected value,
/// among choices given by the texts of their ids and labels.
pub open spec fn find_label_in(
    choices: Seq<(Seq<char>, Option<Seq<char>>)>,
    selected: Seq<char>,
    start: int,
) -> Option<int>
    decreases choices.len() - start,
{
    if start < 0 || start >= choices.len() {
        None
    } else if choices[start].1 matches Some(label) && eq_ignoring_ascii_case(label, selected) {
        Some(start)
    } else {
        find_label_in(choices, selected, start + 1)
    }
}

/// The id of the choice that the run selected for a variable, given by the
/// texts of its id, name, subcategory flag and choices, if the leaderboard
/// is filtered on it.
pub open spec fn variable_choice_in(
    variable: (
        Option<Seq<char>>,
        Option<Seq<char>>,
        Option<bool>,
        Option<Seq<(Seq<char>, Option<Seq<char>>)>>,
    ),
    query: Query,
) -> Option<Seq<char>> {
    let is_subcategory = match variable.2 {
        Some(b) => b,
        None => false,
    };
    if (is_subcategory && !query.filter_subcategories) || (!is_subcategory
        && !query.filter_variables) {
        None
    } else {
        match variable.1 {
            None => None,
            Some(name) => match find_variable_from(query.variables@, name, 0) {
                None => None,
                Some(k) => match variable.3 {
                    None => None,
                    Some(choices) => match find_label_in(choices, query.variables@[k].1@, 0) {
                        None => None,
                        Some(c) => Some(choices[c].0),
                    },
                },
            },
        }
    }
}

/// The variable filters that variables, given by their texts, add, in
/// order, and whether every filtered variable had an id.
pub open spec fn variable_filters_in(
    variables: Seq<
        (
            Option<Seq<char>>,
            Option<Seq<char>>,
            Option<bool>,
            Option<Seq<(Seq<char>, Option<Seq<char>>)>>,
        ),
    >,
    query: Query,
) -> (Seq<(Seq<char>, Seq<char>)>, bool)
    decreases variables.len(),
{
    if variables.len() == 0 {
        (Seq::empty(), true)
    } else {
        let (previous, ok) = variable_filters_in(variables.drop_last(), query);
        if !ok {
            (previous, false)
        } else {
            match variable_choice_in(variables.last(), query) {
                None => (previous, true),
                Some(choice) => match variables.last().0 {
                    None => (previous, false),
                    Some(id) => (previous.push((id, choice)), true),
                },
            }
        }
    }
}

/// The first embedded user from `start` on with the given id, among users
/// given by the texts of their names and ids.
pub open spec fn find_user_in(
    users: Seq<(Option<Seq<char>>, Option<Seq<char>>)>,
    id: Seq<char>,
    start: int,
) -> Option<int>
    decreases users.len() - start,
{
    if start < 0 || start >= users.len() {
        None
    } else if users[start].1 matches Some(user_id) && user_id == id {
        Some(start)
    } else {
        find_user_in(users, id, start + 1)
    }
}

/// The name of a player given by the texts of its relation, name and id:
/// a guest's name, or a user's international name, falling back to the
/// user's id; or the text of the error for what is missing.
pub open spec fn player_name_in(
    player: (Option<Seq<char>>, Option<Seq<char>>, Option<Seq<char>>),
    users: Option<Seq<(Option<Seq<char>>, Option<Seq<char>>)>>,
) -> Result<Seq<char>, Seq<char>> {
    if player.0 matches Some(rel) && rel == "guest"@ {
        match player.1 {
            Some(name) => Ok(name),
            None => Err(missing_text("/name"@)),
        }
    } else {
        match player.2 {
            None => Err(missing_text("/id"@)),
            Some(id) => match users {
                None => Ok(id),
                Some(users) => match find_user_in(users, id, 0) {
                    None => Ok(id),
                    Some(k) => match users[k].0 {
                        Some(name) => Ok(name),
                        None => Ok(id),
                    },
                },
            },
        }
    }
}

/// The names of the runners of a run, in order, and the error that stopped
/// resolving them, if any.
pub open spec fn runners_in(
    players: Seq<(Option<Seq<char>>, Option<Seq<char>>, Option<Seq<char>>)>,
    users: Option<Seq<(Option<Seq<char>>, Option<Seq<char>>)>>,
) -> (Seq<Seq<char>>, Option<Seq<char>>)
    decreases players.len(),
{
    if players.len() == 0 {
        (Seq::empty(), None)
    } else {
        let (previous, error) = runners_in(players.drop_last(), users);
        if error is Some {
            (previous, error)
        } else {
            match player_name_in(players.last(), users) {
                Ok(name) => (previous.push(name), None),
                Err(text) => (previous, Some(text)),
            }
        }
    }
}

/// The records of a leaderboard's runs, as times and runner names, in
/// order, and the error that stopped reading them, if any.
pub open spec fn records_in(
    runs: Seq<
        Option<(Option<Seq<(Option<Seq<char>>, Option<Seq<char>>, Option<Seq<char>>)>>, Times)>,
    >,
    users: Option<Seq<(Option<Seq<char>>, Option<Seq<char>>)>>,
) -> (Seq<(Times, Seq<Seq<char>>)>, Option<Seq<char>>)
    decreases runs.len(),
{
    if runs.len() == 0 {
        (Seq::empty(), None)
    } else {
        let (previous, error) = records_in(runs.drop_last(), users);
        if error is Some {
            (previous, error)
        } else {
            match runs.last() {
                None => (previous, Some("A leaderboard entry has no run."@)),
                Some(run) => {
                    let players = match run.0 {
                        Some(players) => players,
                        None => Seq::empty(),
                    };
                    let (runners, runner_error) = runners_in(players, users);
                    if runner_error is Some {
                        (previous, runner_error)
                    } else {
                        (previous.push((run.1, runners)), None)
                    }
                },
            }
        }
    }
}

/// The texts of a sequence of strings.
pub open spec fn texts(strings: Seq<String>) -> Seq<Seq<char>> {
    strings.map_values(|s: String| s@)
}

/// A record as its times and the texts of its runners.
pub open spec fn record_text(record: (Times, Seq<String>)) -> (Times, Seq<Seq<char>>) {
    (record.0, texts(record.1))
}

/// Finding an entry by name reads only the texts of the entries.
pub proof fn lemma_find_named_reads_texts(entries: Seq<NamedEntry>, wanted: Seq<char>, start: int)
    ensures
        find_named_from(entries, wanted, start) == find_name_in(
            entries.map_values(|n: NamedEntry| named_entry_view(n)),
            wanted,
            start,
        ),
        find_named_from(entries, wanted, start) matches Some(i) ==> 0 <= i < entries.len(),
    decreases entries.len() - start,
{
    if 0 <= start < entries.len() {
        lemma_find_named_reads_texts(entries, wanted, start + 1);
    }
}

/// Finding a choice by label reads only the texts of the choices.
pub proof fn lemma_find_choice_reads_texts(choices: Seq<Choice>, selected: Seq<char>, start: int)
    ensures
        find_choice_from(choices, selected, start) == find_label_in(
            choices.map_values(|c: Choice| choice_view(c)),
            selected,
            start,
        ),
        find_choice_from(choices, selected, start) matches Some(i) ==> 0 <= i < choices.len(),
    decreases choices.len() - start,
{
    if 0 <= start < choices.len() {
        lemma_find_choice_reads_texts(choices, selected, start + 1);
    }
}

/// The choice selected for a variable depends only on its texts.
pub proof fn lemma_variable_choice_reads_texts(entry: VariableEntry, query: Query)
    ensures
        option_text(spec_variable_choice(entry, query)) == variable_choice_in(
            variable_entry_view(entry),
            query,
        ),
{
    if let Some(choices) = entry.choices {
        if let Some(name) = entry.name {
            if let Some(k) = find_variable_from(query.variables@, name@, 0) {
                lemma_find_choice_reads_texts(choices@, query.variables@[k].1@, 0);
            }
        }
    }
}

/// The variable filters of a response depend only on the texts of its
/// variables.
pub proof fn lemma_variable_filters_read_texts(entries: Seq<VariableEntry>, query: Query)
    ensures
        pairs_view(spec_variable_filters(entries, query).0) == variable_filters_in(
            entries.map_values(|v: VariableEntry| variable_entry_view(v)),
            query,
        ).0,
        spec_variable_filters(entries, query).1 == variable_filters_in(
            entries.map_values(|v: VariableEntry| variable_entry_view(v)),
            query,
        ).1,
    decreases entries.len(),
{
    let views = entries.map_values(|v: VariableEntry| variable_entry_view(v));
    if entries.len() > 0 {
        lemma_variable_filters_read_texts(entries.drop_last(), query);
        assert(entries.drop_last().map_values(|v: VariableEntry| variable_entry_view(v))
            =~= views.drop_last());
        lemma_variable_choice_reads_texts(entries.last(), query);
        let previous = spec_variable_filters(entries.drop_last(), query).0;
        if let Some(choice) = spec_variable_choice(entries.last(), query) {
            if let Some(id) = entries.last().id {
                assert(pairs_view(previous.push((id, choice))) =~= pairs_view(previous).push(
                    (id@, choice@),
                ));
            }
        }
    } else {
        assert(pairs_view(Seq::<(String, String)>::empty()) =~= Seq::empty());
    }
}

/// Resolving a player reads only the texts of the player and the users.
pub proof fn lemma_resolve_player_reads_texts(player: PlayerEntry, users: Option<Vec<NamedEntry>>)
    ensures
        match spec_resolve_player(player, users) {
            Ok(name) => player_name_in(player_entry_view(player), optional_named_views(users))
                == Ok::<Seq<char>, Seq<char>>(name@),
            Err(text) => player_name_in(player_entry_view(player), optional_named_views(users))
                == Err::<Seq<char>, Seq<char>>(text),
        },
{
    if let Some(u) = users {
        if let Some(id) = player.id {
            lemma_find_user_reads_texts(u@, id@, 0);
        }
    }
}

/// Finding a user by id reads only the texts of the users.
pub proof fn lemma_find_user_reads_texts(users: Seq<NamedEntry>, id: Seq<char>, start: int)
    ensures
        find_user_from(users, id, start) == find_user_in(
            users.map_values(|n: NamedEntry| named_entry_view(n)),
            id,
            start,
        ),
        find_user_from(users, id, start) matches Some(i) ==> 0 <= i < users.len(),
    decreases users.len() - start,
{
    if 0 <= start < users.len() {
        lemma_find_user_reads_texts(users, id, start + 1);
    }
}

/// Resolving the runners of a run reads only the texts of its players and
/// of the users.
pub proof fn lemma_runners_read_texts(players: Seq<PlayerEntry>, users: Option<Vec<NamedEntry>>)
    ensures
        texts(spec_runners(players, users).0) == runners_in(
            players.map_values(|p: PlayerEntry| player_entry_view(p)),
            optional_named_views(users),
        ).0,
        spec_runners(players, users).1 == runners_in(
            players.map_values(|p: PlayerEntry| player_entry_view(p)),
            optional_named_views(users),
        ).1,
    decreases players.len(),
{
    let views = players.map_values(|p: PlayerEntry| player_entry_view(p));
    if players.len() > 0 {
        lemma_runners_read_texts(players.drop_last(), users);
        assert(players.drop_last().map_values(|p: PlayerEntry| player_entry_view(p))
            =~= views.drop_last());
        lemma_resolve_player_reads_texts(players.last(), users);
        let previous = spec_runners(players.drop_last(), users).0;
        if let Ok(name) = spec_resolve_player(players.last(), users) {
            assert(texts(previous.push(name)) =~= texts(previous).push(name@));
        }
    } else {
        assert(texts(Seq::<String>::empty()) =~= Seq::empty());
    }
}

/// Reading the records of a leaderboard reads only the texts of its runs
/// and users.
pub proof fn lemma_records_read_texts(runs: Seq<Option<RunEntry>>, users: Option<Vec<NamedEntry>>)
    ensures
        spec_records(runs, users).0.map_values(|r: (Times, Seq<String>)| record_text(r))
            == records_in(
            runs.map_values(|r: Option<RunEntry>| optional_run_view(r)),
            optional_named_views(users),
        ).0,
        spec_records(runs, users).1 == records_in(
            runs.map_values(|r: Option<RunEntry>| optional_run_view(r)),
            optional_named_views(users),
        ).1,
    decreases runs.len(),
{
    let views = runs.map_values(|r: Option<RunEntry>| optional_run_view(r));
    if runs.len() > 0 {
        lemma_records_read_texts(runs.drop_last(), users);
        assert(runs.drop_last().map_values(|r: Option<RunEntry>| optional_run_view(r))
            =~= views.drop_last());
        let previous = spec_records(runs.drop_last(), users).0;
        if let Some(run) = runs.last() {
            let players = match run.players {
                Some(players) => players@,
                None => Seq::empty(),
            };
            lemma_runners_read_texts(players, users);
            assert(players.map_values(|p: PlayerEntry| player_entry_view(p)) =~= match run_entry_view(
                run,
            ).0 {
                Some(p) => p,
                None => Seq::empty(),
            });
            let runners = spec_runners(players, users).0;
            assert(previous.push((run.times, runners)).map_values(
                |r: (Times, Seq<String>)| record_text(r),
            ) =~= previous.map_values(|r: (Times, Seq<String>)| record_text(r)).push(
                (run.times, texts(runners)),
            ));
        }
    } else {
        assert(Seq::<(Times, Seq<String>)>::empty().map_values(
            |r: (Times, Seq<String>)| record_text(r),
        ) =~= Seq::empty());
    }
}

// ---------------------------------------------------------------------------
// What the searches and readings of a response are for.

/// The embedded user found from `start` on for an id is the first one from
/// there whose id is that id; none is found only when no user from there
/// has it.
pub proof fn lemma_find_user_finds_the_id(users: Seq<NamedEntry>, id: Seq<char>, start: int)
    requires
        0 <= start,
    ensures
        match find_user_from(users, id, start) {
            Some(k) => {
                &&& start <= k < users.len()
                &&& users[k].id matches Some(u) && u@ == id
                &&& forall|j: int| start <= j < k ==> !(#[trigger] users[j].id matches Some(u) && u@ == id)
            },
            None => forall|j: int|
                start <= j < users.len() ==> !(#[trigger] users[j].id matches Some(u) && u@ == id),
        },
    decreases users.len() - start,
{
    if start < users.len() {
        lemma_find_user_finds_the_id(users, id, start + 1);
    }
}

/// Among users given by the texts of their names and ids, the user found
/// from `start` on for an id is the first one from there with that id; none
/// is found only when no user from there has it.
pub proof fn lemma_find_user_in_finds_the_id(
    users: Seq<(Option<Seq<char>>, Option<Seq<char>>)>,
    id: Seq<char>,
    start: int,
)
    requires
        0 <= start,
    ensures
        match find_user_in(users, id, start) {
            Some(k) => {
                &&& start <= k < users.len()
                &&& users[k].1 == Some(id)
                &&& forall|j: int| start <= j < k ==> (#[trigger] users[j]).1 != Some(id)
            },
            None => forall|j: int| start <= j < users.len() ==> (#[trigger] users[j]).1 != Some(id),
        },
    decreases users.len() - start,
{
    if start < users.len() {
        lemma_find_user_in_finds_the_id(users, id, start + 1);
    }
}

/// The entry found from `start` on for a name is the first one from there
/// whose name is that name, ignoring ASCII case; none is found only when no
/// entry from there has it.
pub proof fn lemma_find_named_finds_the_name(entries: Seq<NamedEntry>, wanted: Seq<char>, start: int)
    requires
        0 <= start,
    ensures
        match find_named_from(entries, wanted, start) {
            Some(k) => {
                &&& start <= k < entries.len()
                &&& entries[k].name matches Some(n) && eq_ignoring_ascii_case(n@, wanted)
                &&& forall|j: int|
                    start <= j < k ==> !(#[trigger] entries[j].name matches Some(n)
                        && eq_ignoring_ascii_case(n@, wanted))
            },
            None => forall|j: int|
                start <= j < entries.len() ==> !(#[trigger] entries[j].name matches Some(n)
                    && eq_ignoring_ascii_case(n@, wanted)),
        },
    decreases entries.len() - start,
{
    if start < entries.len() {
        lemma_find_named_finds_the_name(entries, wanted, start + 1);
    }
}

/// Among entries given by the texts of their names and ids, the entry found
/// from `start` on for a name is the first one from there whose name is
/// that name, ignoring ASCII case; none is found only when no entry from
/// there has it.
pub proof fn lemma_find_name_in_finds_the_name(
    entries: Seq<(Option<Seq<char>>, Option<Seq<char>>)>,
    wanted: Seq<char>,
    start: int,
)
    requires
        0 <= start,
    ensures
        match find_name_in(entries, wanted, start) {
            Some(k) => {
                &&& start <= k < entries.len()
                &&& entries[k].0 matches Some(n) && eq_ignoring_ascii_case(n, wanted)
                &&& forall|j: int|
                    start <= j < k ==> !(#[trigger] entries[j].0 matches Some(n)
                        && eq_ignoring_ascii_case(n, wanted))
            },
            None => forall|j: int|
                start <= j < entries.len() ==> !(#[trigger] entries[j].0 matches Some(n)
                    && eq_ignoring_ascii_case(n, wanted)),
        },
    decreases entries.len() - start,
{
    if start < entries.len() {
        lemma_find_name_in_finds_the_name(entries, wanted, start + 1);
    }
}

/// The choice found from `start` on for a selected value is the first one
/// from there whose label is that value, ignoring ASCII case; none is found
/// only when no choice from there has it.
pub proof fn lemma_find_choice_finds_the_label(choices: Seq<Choice>, selected: Seq<char>, start: int)
    requires
        0 <= start,
    ensures
        match find_choice_from(choices, selected, start) {
            Some(k) => {
                &&& start <= k < choices.len()
                &&& choices[k].1 matches Some(l) && eq_ignoring_ascii_case(l@, selected)
                &&& forall|j: int|
                    start <= j < k ==> !(#[trigger] choices[j].1 matches Some(l)
                        && eq_ignoring_ascii_case(l@, selected))
            },
            None => forall|j: int|
                start <= j < choices.len() ==> !(#[trigger] choices[j].1 matches Some(l)
                    && eq_ignoring_ascii_case(l@, selected)),
        },
    decreases choices.len() - start,
{
    if start < choices.len() {
        lemma_find_choice_finds_the_label(choices, selected, start + 1);
    }
}

/// Among choices given by the texts of their ids and labels, the choice
/// found from `start` on for a selected value is the first one from there
/// whose label is that value, ignoring ASCII case; none is found only when
/// no choice from there has it.
pub proof fn lemma_find_label_in_finds_the_label(
    choices: Seq<(Seq<char>, Option<Seq<char>>)>,
    selected: Seq<char>,
    start: int,
)
    requires
        0 <= start,
    ensures
        match find_label_in(choices, selected, start) {
            Some(k) => {
                &&& start <= k < choices.len()
                &&& choices[k].1 matches Some(l) && eq_ignoring_ascii_case(l, selected)
                &&& forall|j: int|
                    start <= j < k ==> !(#[trigger] choices[j].1 matches Some(l)
                        && eq_ignoring_ascii_case(l, selected))
            },
            None => forall|j: int|
                start <= j < choices.len() ==> !(#[trigger] choices[j].1 matches Some(l)
                    && eq_ignoring_ascii_case(l, selected)),
        },
    decreases choices.len() - start,
{
    if start < choices.len() {
        lemma_find_label_in_finds_the_label(choices, selected, start + 1);
    }
}

/// The run's variable found from `start` on for a name is the first one
/// from there with that name, ignoring ASCII case; none is found only when
/// no variable from there has it.
pub proof fn lemma_find_variable_finds_the_name(
    variables: Seq<(String, String)>,
    name: Seq<char>,
    start: int,
)
    requires
        0 <= start,
    ensures
        match find_variable_from(variables, name, start) {
            Some(k) => {
                &&& start <= k < variables.len()
                &&& eq_ignoring_ascii_case(name, variables[k].0@)
                &&& forall|j: int|
                    start <= j < k ==> !eq_ignoring_ascii_case(name, (#[trigger] variables[j]).0@)
            },
            None => forall|j: int|
                start <= j < variables.len() ==> !eq_ignoring_ascii_case(
                    name,
                    (#[trigger] variables[j]).0@,
                ),
        },
    decreases variables.len() - start,
{
    if start < variables.len() {
        lemma_find_variable_finds_the_name(variables, name, start + 1);
    }
}

/// A user player is named after the first embedded user with the player's
/// id: by that user's international name, or by the id where that user has
/// no name or no embedded user has the id.
pub proof fn lemma_user_player_is_named_by_its_id(
    player: (Option<Seq<char>>, Option<Seq<char>>, Option<Seq<char>>),
    users: Seq<(Option<Seq<char>>, Option<Seq<char>>)>,
    id: Seq<char>,
    k: int,
)
    requires
        !(player.0 == Some("guest"@)),
        player.2 == Some(id),
    ensures
        0 <= k < users.len() && users[k].1 == Some(id) && (forall|j: int|
            0 <= j < k ==> (#[trigger] users[j]).1 != Some(id)) ==> player_name_in(
            player,
            Some(users),
        ) == Ok::<Seq<char>, Seq<char>>(
            match users[k].0 {
                Some(name) => name,
                None => id,
            },
        ),
        (forall|j: int| 0 <= j < users.len() ==> (#[trigger] users[j]).1 != Some(id))
            ==> player_name_in(player, Some(users)) == Ok::<Seq<char>, Seq<char>>(id),
{
    lemma_find_user_in_finds_the_id(users, id, 0);
    if 0 <= k < users.len() && users[k].1 == Some(id) && (forall|j: int|
        0 <= j < k ==> (#[trigger] users[j]).1 != Some(id)) {
        let found = find_user_in(users, id, 0)->0;
        if found < k {
            assert(users[found].1 != Some(id));
        }
        if found > k {
            assert(users[k].1 != Some(id));
        }
    }
}

/// The leaderboard is asked for in the timing method whose times the record
/// is shown with: for every override, the record time of a run read from a
/// leaderboard response is the number at `/times/<timing parameter>_t`, and
/// without an override it is the primary time.
pub proof fn lemma_timing_parameter_names_the_record_time(run: JsonTree, method: TimingMethodOverride)
    ensures
        spec_record_time(spec_run_entry(run).1, Some(method)) == spec_optional_f64_bits(
            run,
            "/times/"@ + timing_parameter_value(method) + "_t"@,
        ),
        spec_record_time(spec_run_entry(run).1, None) == spec_optional_f64_bits(
            run,
            "/times/primary_t"@,
        ),
{
    reveal_strlit("/times/");
    reveal_strlit("_t");
    reveal_strlit("realtime");
    reveal_strlit("realtime_noloads");
    reveal_strlit("ingame");
    reveal_strlit("/times/realtime_t");
    reveal_strlit("/times/realtime_noloads_t");
    reveal_strlit("/times/ingame_t");
    match method {
        TimingMethodOverride::RealTime => {
            assert("/times/"@ + "realtime"@ + "_t"@ =~= "/times/realtime_t"@);
        },
        TimingMethodOverride::RealTimeWithoutLoads => {
            assert("/times/"@ + "realtime_noloads"@ + "_t"@ =~= "/times/realtime_noloads_t"@);
        },
        TimingMethodOverride::GameTime => {
            assert("/times/"@ + "ingame"@ + "_t"@ =~= "/times/ingame_t"@);
        },
    }
}

/// Different timing method overrides ask the leaderboard for different
/// timing methods.
pub proof fn lemma_timing_parameters_differ(a: TimingMethodOverride, b: TimingMethodOverride)
    ensures
        a != b ==> timing_parameter_value(a) != timing_parameter_value(b),
{
    reveal_strlit("realtime");
    reveal_strlit("realtime_noloads");
    reveal_strlit("ingame");
    if a != b {
        let (x, y) = (timing_parameter_value(a), timing_parameter_value(b));
        if x.len() == y.len() {
            assert(x[0] != y[0] || x[1] != y[1]);
        }
    }
}

/// The data array of a response.
fn data_array<'a>(value: &JsonRef<'a>) -> (data: Result<Vec<JsonRef<'a>>, ParseResponseError>)
    ensures
        match spec_data_array(value@) {
            Some(items) => data matches Ok(d) && trees(d@) == items,
            None => is_invalid_with(data, "The response has no data array."@),
        },
{
    match optional_array(value, "/data") {
        Some(data) => Ok(data),
        None => Err(invalid(owned("The response has no data array."))),
    }
}

/// Reads the name at `name_pointer` and the id of every element of the
/// response's data array.
fn named_entries(value: &JsonRef, name_pointer: &str) -> (entries: Result<
    Vec<NamedEntry>,
    ParseResponseError,
>)
    ensures
        match spec_data_array(value@) {
            Some(items) => entries matches Ok(e) && e@.map_values(|n: NamedEntry| named_entry_view(n))
                == items.map_values(|t: JsonTree| spec_named_entry(t, name_pointer@)),
            None => is_invalid_with(entries, "The response has no data array."@),
        },
{
    let data = match data_array(value) {
        Ok(data) => data,
        Err(error) => return Err(error),
    };
    let ghost items = trees(data@);
    let mut entries: Vec<NamedEntry> = Vec::new();
    let mut i: usize = 0;
    while i < data.len()
        invariant
            i <= data@.len(),
            items == trees(data@),
            entries@.len() == i,
            forall|j: int| 0 <= j < i ==> named_entry_view(#[trigger] entries@[j]) == spec_named_entry(items[j], name_pointer@),
        decreases data.len() - i,
    {
        entries.push(
            NamedEntry {
                name: optional_str(&data[i], name_pointer),
                id: optional_str(&data[i], "/id"),
            },
        );
        i = i + 1;
    }
    assert(entries@.map_values(|n: NamedEntry| named_entry_view(n))
        =~= items.map_values(|t: JsonTree| spec_named_entry(t, name_pointer@)));
    Ok(entries)
}

/// Reads the choices of a variable: the ids and labels of the members of its
/// choices object.
fn variable_choices(variable: &JsonRef) -> (choices: Option<Vec<Choice>>)
    ensures
        choices_view(choices) == spec_variable_choices(variable@),
{
    let choices_value = match json_pointer(variable, "/values/choices") {
        Some(found) => found,
        None => return None,
    };
    let members = match json_as_object(&choices_value) {
        Some(members) => members,
        None => return None,
    };
    let ghost object = choices_value@->Object_0;
    let mut choices: Vec<Choice> = Vec::new();
    let mut i: usize = 0;
    while i < members.len()
        invariant
            i <= members@.len(),
            members@.len() == object.len(),
            forall|j: int| 0 <= j < object.len() ==> (#[trigger] members@[j]).0@ == object[j].0 && members@[j].1@ == object[j].1,
            choices@.len() == i,
            forall|j: int| 0 <= j < i ==> choice_view(#[trigger] choices@[j]) == (object[j].0, spec_optional_str(object[j].1, "/label"@)),
        decreases members.len() - i,
    {
        choices.push((members[i].0.clone(), optional_str(&members[i].1, "/label")));
        i = i + 1;
    }
    assert(choices@.map_values(|c: Choice| choice_view(c)) =~= object.map_values(
        |m: (Seq<char>, JsonTree)| (m.0, spec_optional_str(m.1, "/label"@)),
    ));
    Some(choices)
}

/// Reads the variables of a variables response.
fn variable_entries(value: &JsonRef) -> (entries: Result<
    Vec<VariableEntry>,
    ParseResponseError,
>)
    ensures
        match spec_data_array(value@) {
            Some(items) => entries matches Ok(e) && e@.map_values(|v: VariableEntry| variable_entry_view(v))
                == items.map_values(|t: JsonTree| spec_variable_entry(t)),
            None => is_invalid_with(entries, "The response has no data array."@),
        },
{
    let data = match data_array(value) {
        Ok(data) => data,
        Err(error) => return Err(error),
    };
    let ghost items = trees(data@);
    let mut entries: Vec<VariableEntry> = Vec::new();
    let mut i: usize = 0;
    while i < data.len()
        invariant
            i <= data@.len(),
            items == trees(data@),
            entries@.len() == i,
            forall|j: int| 0 <= j < i ==> variable_entry_view(#[trigger] entries@[j]) == spec_variable_entry(items[j]),
        decreases data.len() - i,
    {
        let variable = &data[i];
        entries.push(
            VariableEntry {
                id: optional_str(variable, "/id"),
                name: optional_str(variable, "/name"),
                is_subcategory: optional_bool(variable, "/is-subcategory"),
                choices: variable_choices(variable),
            },
        );
        i = i + 1;
    }
    assert(entries@.map_values(|v: VariableEntry| variable_entry_view(v)) =~= items.map_values(
        |t: JsonTree| spec_variable_entry(t),
    ));
    Ok(entries)
}

/// Reads the players of a leaderboard run.
fn player_entries(players: &Vec<JsonRef>) -> (entries: Vec<PlayerEntry>)
    ensures
        entries@.map_values(|p: PlayerEntry| player_entry_view(p)) == trees(players@).map_values(
            |t: JsonTree| spec_player_entry(t),
        ),
{
    let ghost items = trees(players@);
    let mut entries: Vec<PlayerEntry> = Vec::new();
    let mut i: usize = 0;
    while i < players.len()
        invariant
            i <= players@.len(),
            items == trees(players@),
            entries@.len() == i,
            forall|j: int| 0 <= j < i ==> player_entry_view(#[trigger] entries@[j]) == spec_player_entry(items[j]),
        decreases players.len() - i,
    {
        let player = &players[i];
        entries.push(
            PlayerEntry {
                rel: optional_str(player, "/rel"),
                name: optional_str(player, "/name"),
                id: optional_str(player, "/id"),
            },
        );
        i = i + 1;
    }
    assert(entries@.map_values(|p: PlayerEntry| player_entry_view(p)) =~= items.map_values(
        |t: JsonTree| spec_player_entry(t),
    ));
    entries
}

/// Reads a leaderboard run: its players and times.
fn run_entry(run: &JsonRef) -> (entry: RunEntry)
    ensures
        run_entry_view(entry) == spec_run_entry(run@),
{
    let players = match optional_array(run, "/players") {
        Some(players) => Some(player_entries(&players)),
        None => None,
    };
    RunEntry {
        players,
        times: Times {
            primary: optional_f64_bits(run, "/times/primary_t"),
            real_time: optional_f64_bits(run, "/times/realtime_t"),
            real_time_without_loads: optional_f64_bits(run, "/times/realtime_noloads_t"),
            game_time: optional_f64_bits(run, "/times/ingame_t"),
        },
    }
}

/// Reads a leaderboard response: its runs and the embedded user data.
fn leaderboard_data(value: &JsonRef) -> (leaderboard: LeaderboardData)
    ensures
        leaderboard_view(leaderboard) == spec_leaderboard(value@),
{
    let runs = match optional_array(value, "/data/runs") {
        Some(entries) => {
            let ghost items = trees(entries@);
            let mut runs: Vec<Option<RunEntry>> = Vec::new();
            let mut i: usize = 0;
            while i < entries.len()
                invariant
                    i <= entries@.len(),
                    items == trees(entries@),
                    runs@.len() == i,
                    forall|j: int| 0 <= j < i ==> optional_run_view(#[trigger] runs@[j]) == spec_leaderboard_run(items[j]),
                decreases entries.len() - i,
            {
                runs.push(
                    match json_pointer(&entries[i], "/run") {
                        Some(run) => Some(run_entry(&run)),
                        None => None,
                    },
                );
                i = i + 1;
            }
            assert(runs@.map_values(|r: Option<RunEntry>| optional_run_view(r)) =~= items.map_values(
                |e: JsonTree| spec_leaderboard_run(e),
            ));
            Some(runs)
        },
        None => None,
    };
    let players = match optional_array(value, "/data/players/data") {
        Some(users) => {
            let ghost items = trees(users@);
            let mut players: Vec<NamedEntry> = Vec::new();
            let mut i: usize = 0;
            while i < users.len()
                invariant
                    i <= users@.len(),
                    items == trees(users@),
                    players@.len() == i,
                    forall|j: int| 0 <= j < i ==> named_entry_view(#[trigger] players@[j]) == spec_named_entry(items[j], "/names/international"@),
                decreases users.len() - i,
            {
                players.push(
                    NamedEntry {
                        name: optional_str(&users[i], "/names/international"),
                        id: optional_str(&users[i], "/id"),
                    },
                );
                i = i + 1;
            }
            assert(players@.map_values(|u: NamedEntry| named_entry_view(u)) =~= items.map_values(
                |u: JsonTree| spec_named_entry(u, "/names/international"@),
            ));
            Some(players)
        },
        None => None,
    };
    LeaderboardData { runs, players }
}

/// The text of the error for a response without a data array.
pub open spec fn no_data_text() -> Seq<char> {
    "The response has no data array."@
}

/// What a game response does: it selects the game named like the run's
/// game, or else the first game, and the lookup takes its id and moves on
/// to the category.
pub open spec fn game_response(
    before: Lookup,
    after: Lookup,
    value: JsonTree,
    result: Result<(), ParseResponseError>,
) -> bool {
    match spec_data_array(value) {
        None => is_invalid_with(result, no_data_text()) && after == before,
        Some(items) => {
            let games = items.map_values(
                |t: JsonTree| spec_named_entry(t, "/names/international"@),
            );
            let game = before.query->0.game@;
            match select_game_in(games, game) {
                None => is_invalid_with(result, "Game not found: "@ + game) && after == before,
                Some(i) => match games[i].1 {
                    None => is_invalid_with(result, missing_text("/id"@)) && after == before,
                    Some(id) => result is Ok && after.game_id@ == id && after == (Lookup {
                        game_id: after.game_id,
                        stage: Stage::Category,
                        ..before
                    }),
                },
            }
        },
    }
}

/// What a category response does: the lookup takes the id of the category
/// named like the run's category and moves on.
pub open spec fn category_response(
    before: Lookup,
    after: Lookup,
    value: JsonTree,
    result: Result<(), ParseResponseError>,
) -> bool {
    match spec_data_array(value) {
        None => is_invalid_with(result, no_data_text()) && after == before,
        Some(items) => {
            let categories = items.map_values(|t: JsonTree| spec_named_entry(t, "/name"@));
            let query = before.query->0;
            match find_name_in(categories, query.category@, 0) {
                None => is_invalid_with(result, "Category not found: "@ + query.category@)
                    && after == before,
                Some(i) => match categories[i].1 {
                    None => is_invalid_with(result, missing_text("/id"@)) && after == before,
                    Some(id) => result is Ok && after.category_id@ == id && after == (Lookup {
                        category_id: after.category_id,
                        stage: spec_after_category(query),
                        ..before
                    }),
                },
            }
        },
    }
}

/// What a variables response does: the lookup adds a filter for every
/// variable that the filters apply to and that the run sets, then moves on.
pub open spec fn variables_response(
    before: Lookup,
    after: Lookup,
    value: JsonTree,
    result: Result<(), ParseResponseError>,
) -> bool {
    match spec_data_array(value) {
        None => is_invalid_with(result, no_data_text()) && after == before,
        Some(items) => {
            let query = before.query->0;
            let (added, ok) = variable_filters_in(
                items.map_values(|t: JsonTree| spec_variable_entry(t)),
                query,
            );
            &&& pairs_view(after.variable_filters@) == pairs_view(before.variable_filters@) + added
            &&& ok ==> result is Ok && after == (Lookup {
                variable_filters: after.variable_filters,
                stage: spec_after_variables(query),
                ..before
            })
            &&& !ok ==> is_invalid_with(result, missing_text("/id"@)) && after == (Lookup {
                variable_filters: after.variable_filters,
                ..before
            })
        },
    }
}

/// What a platform response does: the lookup takes the id of the platform
/// named like the run's platform, if there is one, and moves on.
pub open spec fn platform_response(
    before: Lookup,
    after: Lookup,
    value: JsonTree,
    result: Result<(), ParseResponseError>,
) -> bool {
    match spec_data_array(value) {
        None => is_invalid_with(result, no_data_text()) && after == before,
        Some(items) => {
            let platforms = items.map_values(|t: JsonTree| spec_named_entry(t, "/name"@));
            let query = before.query->0;
            match find_name_in(platforms, query.platform@, 0) {
                None => result is Ok && after == (Lookup {
                    stage: spec_after_platforms(query),
                    ..before
                }),
                Some(i) => match platforms[i].1 {
                    None => is_invalid_with(result, missing_text("/id"@)) && after == before,
                    Some(id) => result is Ok && after.platform_id@ == id && after == (Lookup {
                        platform_id: after.platform_id,
                        stage: spec_after_platforms(query),
                        ..before
                    }),
                },
            }
        },
    }
}

/// What a region response does: the lookup takes the id of the region
/// named like the run's region, if there is one, and moves on to the
/// leaderboard.
pub open spec fn region_response(
    before: Lookup,
    after: Lookup,
    value: JsonTree,
    result: Result<(), ParseResponseError>,
) -> bool {
    match spec_data_array(value) {
        None => is_invalid_with(result, no_data_text()) && after == before,
        Some(items) => {
            let regions = items.map_values(|t: JsonTree| spec_named_entry(t, "/name"@));
            let query = before.query->0;
            match find_name_in(regions, query.region@, 0) {
                None => result is Ok && after == (Lookup { stage: Stage::Leaderboard, ..before }),
                Some(i) => match regions[i].1 {
                    None => is_invalid_with(result, missing_text("/id"@)) && after == before,
                    Some(id) => result is Ok && after.region_id@ == id && after == (Lookup {
                        region_id: after.region_id,
                        stage: Stage::Leaderboard,
                        ..before
                    }),
                },
            }
        },
    }
}

/// The times and the texts of the runners of a record.
pub open spec fn record_texts(records: Seq<Record>) -> Seq<(Times, Seq<Seq<char>>)> {
    records.map_values(|r: Record| record_text(record_view(r)))
}

/// What a leaderboard response does: the records become its runs with
/// their runners resolved, and the lookup completes, recording when; a
/// failure keeps the records read before it and leaves the lookup
/// unfinished.
pub open spec fn leaderboard_response(
    before: Lookup,
    after: Lookup,
    value: JsonTree,
    result: Result<(), ParseResponseError>,
) -> bool {
    let (runs, users) = spec_leaderboard(value);
    match runs {
        None => is_invalid_with(result, "The response has no leaderboard runs."@) && after
            == before,
        Some(runs) => {
            let (records, error) = records_in(runs, users);
            &&& record_texts(after.records@) == records
            &&& match error {
                Some(text) => is_invalid_with(result, text) && after == (Lookup {
                    records: after.records,
                    ..before
                }),
                None => result is Ok && after.completed_at is Some && after == (Lookup {
                    records: after.records,
                    stage: Stage::Complete,
                    completed_at: after.completed_at,
                    ..before
                }),
            }
        },
    }
}

/// What a JSON response does to the lookup at its stage, leaving aside the
/// recording of an error: a complete lookup answers `Ok` and stays as it
/// is.
pub open spec fn response_read(
    before: Lookup,
    after: Lookup,
    value: JsonTree,
    result: Result<(), ParseResponseError>,
) -> bool {
    match before.stage {
        Stage::Game => game_response(before, after, value, result),
        Stage::Category => category_response(before, after, value, result),
        Stage::Variables => variables_response(before, after, value, result),
        Stage::Platforms => platform_response(before, after, value, result),
        Stage::Regions => region_response(before, after, value, result),
        Stage::Leaderboard => leaderboard_response(before, after, value, result),
        Stage::Complete => result is Ok && after == before,
    }
}

/// What a response of the lookup's stage did: the settings, query and
/// recorded error are kept; on success the lookup moves to the next stage,
/// on failure, which is an error for invalid data, it stays at its stage.
pub open spec fn stage_step(
    before: Component,
    after: Component,
    result: Result<(), ParseResponseError>,
) -> bool {
    &&& after.settings == before.settings
    &&& after.lookup.query == before.lookup.query
    &&& after.lookup.error == before.lookup.error
    &&& result is Ok ==> after.lookup.stage == spec_next_stage(before.lookup)
    &&& result is Err ==> (result->Err_0 is InvalidResponse && after.lookup.stage
        == before.lookup.stage)
}

impl Component {
    /// Consumes a game response.
    fn parse_game(&mut self, value: &JsonRef) -> (result: Result<
        (),
        ParseResponseError,
    >)
        requires
            old(self).lookup.stage == Stage::Game,
            old(self).lookup.query is Some,
        ensures
            stage_step(*old(self), *final(self), result),
            final(self).settings == old(self).settings,
            game_response(old(self).lookup, final(self).lookup, value@, result),
    {
        let games = match named_entries(value, "/names/international") {
            Ok(games) => games,
            Err(error) => return Err(error),
        };
        proof {
            lemma_find_named_reads_texts(games@, self.lookup.query->0.game@, 0);
        }
        self.apply_games(&games)
    }

    /// Consumes a category response.
    fn parse_category(&mut self, value: &JsonRef) -> (result: Result<
        (),
        ParseResponseError,
    >)
        requires
            old(self).lookup.stage == Stage::Category,
            old(self).lookup.query is Some,
        ensures
            stage_step(*old(self), *final(self), result),
            final(self).settings == old(self).settings,
            category_response(old(self).lookup, final(self).lookup, value@, result),
    {
        let categories = match named_entries(value, "/name") {
            Ok(categories) => categories,
            Err(error) => return Err(error),
        };
        proof {
            lemma_find_named_reads_texts(categories@, self.lookup.query->0.category@, 0);
        }
        self.apply_categories(&categories)
    }

    /// Consumes a variables response.
    fn parse_variables(&mut self, value: &JsonRef) -> (result: Result<
        (),
        ParseResponseError,
    >)
        requires
            old(self).lookup.stage == Stage::Variables,
            old(self).lookup.query is Some,
        ensures
            stage_step(*old(self), *final(self), result),
            final(self).settings == old(self).settings,
            variables_response(old(self).lookup, final(self).lookup, value@, result),
    {
        let variables = match variable_entries(value) {
            Ok(variables) => variables,
            Err(error) => return Err(error),
        };
        let ghost before = self.lookup;
        let ghost query = self.lookup.query->0;
        proof {
            lemma_variable_filters_read_texts(variables@, query);
        }
        let result = self.apply_variables(&variables);
        proof {
            let added = spec_variable_filters(variables@, query).0;
            assert(pairs_view(before.variable_filters@ + added) =~= pairs_view(
                before.variable_filters@,
            ) + pairs_view(added));
        }
        result
    }

    /// Consumes a platform response.
    fn parse_platforms(&mut self, value: &JsonRef) -> (result: Result<
        (),
        ParseResponseError,
    >)
        requires
            old(self).lookup.stage == Stage::Platforms,
            old(self).lookup.query is Some,
        ensures
            stage_step(*old(self), *final(self), result),
            final(self).settings == old(self).settings,
            platform_response(old(self).lookup, final(self).lookup, value@, result),
    {
        let platforms = match named_entries(value, "/name") {
            Ok(platforms) => platforms,
            Err(error) => return Err(error),
        };
        proof {
            lemma_find_named_reads_texts(platforms@, self.lookup.query->0.platform@, 0);
        }
        self.apply_platforms(&platforms)
    }

    /// Consumes a region response.
    fn parse_regions(&mut self, value: &JsonRef) -> (result: Result<
        (),
        ParseResponseError,
    >)
        requires
            old(self).lookup.stage == Stage::Regions,
            old(self).lookup.query is Some,
        ensures
            stage_step(*old(self), *final(self), result),
            final(self).settings == old(self).settings,
            region_response(old(self).lookup, final(self).lookup, value@, result),
    {
        let regions = match named_entries(value, "/name") {
            Ok(regions) => regions,
            Err(error) => return Err(error),
        };
        proof {
            lemma_find_named_reads_texts(regions@, self.lookup.query->0.region@, 0);
        }
        self.apply_regions(&regions)
    }

    /// Consumes a leaderboard response; the lookup completes now.
    fn parse_leaderboard(&mut self, value: &JsonRef) -> (result: Result<
        (),
        ParseResponseError,
    >)
        requires
            old(self).lookup.stage == Stage::Leaderboard,
        ensures
            stage_step(*old(self), *final(self), result),
            final(self).settings == old(self).settings,
            leaderboard_response(old(self).lookup, final(self).lookup, value@, result),
    {
        let leaderboard = leaderboard_data(value);
        let result = self.apply_leaderboard(&leaderboard, crate::clock::now());
        proof {
            if let Some(runs) = leaderboard.runs {
                lemma_records_read_texts(runs@, leaderboard.players);
                let records = spec_records(runs@, leaderboard.players).0;
                let stored = self.lookup.records@;
                assert(stored.map_values(|r: Record| record_view(r)) == records);
                assert forall|k: int| 0 <= k < stored.len() implies #[trigger] record_texts(stored)[k]
                    == records.map_values(|r: (Times, Seq<String>)| record_text(r))[k] by {
                    assert(stored.map_values(|r: Record| record_view(r))[k] == records[k]);
                }
                assert(record_texts(stored) =~= records.map_values(
                    |r: (Times, Seq<String>)| record_text(r),
                ));
            }
        }
        result
    }

    /// Consumes the response body for the URL returned by
    /// [`Component::request_url`].
    ///
    /// A body that is not JSON is reported and changes nothing. A response
    /// that lacks what its stage needs is reported, recorded as the lookup's
    /// error, which stops its requests, and leaves the lookup at its stage.
    /// A good response moves the lookup to its next stage, with what the
    /// stage reads of it (`response_read`): the game, category, platform or
    /// region id, the variable filters, or the records, after which the
    /// lookup is complete and records when. A complete lookup answers `Ok`
    /// and stays as it is. The stage never moves backwards.
    pub fn parse_response(&mut self, response: &str) -> (result: Result<(), ParseResponseError>)
        requires
            stage_needs_query(old(self).lookup.stage) ==> old(self).lookup.query is Some,
        ensures
            !is_json_text(response@) ==> (result matches Err(ParseResponseError::Json { .. })
                && *final(self) == *old(self)),
            is_json_text(response@) ==> !(result matches Err(ParseResponseError::Json { .. })),
            final(self).settings == old(self).settings,
            final(self).lookup.query == old(self).lookup.query,
            result is Ok ==> final(self).lookup.stage == spec_next_stage(old(self).lookup)
                && final(self).lookup.error == old(self).lookup.error,
            result matches Err(ParseResponseError::InvalidResponse { message }) ==> (final(self).lookup.stage
                == old(self).lookup.stage && (final(self).lookup.error matches Some(recorded) && recorded@
                == message@)),
            stage_rank(final(self).lookup.stage) >= stage_rank(old(self).lookup.stage),
            is_json_text(response@) ==> response_read(
                old(self).lookup,
                Lookup { error: old(self).lookup.error, ..final(self).lookup },
                parsed_json(response@)->0,
                result,
            ),
            is_json_text(response@) && old(self).lookup.stage == Stage::Complete ==> result is Ok
                && *final(self) == *old(self),
    {
        let document = match parse_json_text(response) {
            Ok(document) => document,
            Err(error) => return Err(ParseResponseError::Json { message: json_error_message(&error) }),
        };
        let value = document_root(&document);
        let result = match self.lookup.stage {
            Stage::Game => self.parse_game(&value),
            Stage::Category => self.parse_category(&value),
            Stage::Variables => self.parse_variables(&value),
            Stage::Platforms => self.parse_platforms(&value),
            Stage::Regions => self.parse_regions(&value),
            Stage::Leaderboard => self.parse_leaderboard(&value),
            Stage::Complete => Ok(()),
        };
        match &result {
            Err(error) => {
                self.lookup.error = Some(error.to_string());
            },
            Ok(()) => {},
        }
        result
    }
}

// ---------------------------------------------------------------------------
// The settings description.

/// The name of each setting, by index.
pub open spec fn setting_name(index: int) -> Seq<char> {
    if index == 0 {
        "Background"@
    } else if index == 1 {
        "Display 2 Rows"@
    } else if index == 2 {
        "Filter Variables"@
    } else if index == 3 {
        "Filter Subcategories"@
    } else if index == 4 {
        "Filter Platform"@
    } else if index == 5 {
        "Filter Region"@
    } else if index == 6 {
        "Timing Method"@
    } else if index == 7 {
        "Automatic Precision"@
    } else if index == 8 {
        "Accuracy"@
    } else if index == 9 {
        "Label Color"@
    } else {
        "Value Color"@
    }
}

/// The description of each setting, by index.
pub open spec fn setting_description(index: int) -> Seq<char> {
    if index == 0 {
        "The component background."@
    } else if index == 1 {
        "Displays the label and value on separate rows."@
    } else if index == 2 {
        "Filters to non-subcategory variables from the splits."@
    } else if index == 3 {
        "Filters to subcategory variables from the splits."@
    } else if index == 4 {
        "Filters to the platform and emulator usage from the splits."@
    } else if index == 5 {
        "Filters to the region from the splits."@
    } else if index == 6 {
        "Overrides the leaderboard's primary timing method."@
    } else if index == 7 {
        "Uses the precision shown on the leaderboard."@
    } else if index == 8 {
        "The time accuracy when automatic precision is disabled."@
    } else if index == 9 {
        "The color of the label."@
    } else {
        "The color of the value."@
    }
}

/// Whether a setting value shows the setting of the given index.
pub open spec fn shows_setting(value: SettingValue, settings: Settings, index: int) -> bool {
    if index == 0 {
        value == SettingValue::Gradient(settings.background)
    } else if index == 1 {
        value == SettingValue::Bool(settings.display_two_rows)
    } else if index == 2 {
        value == SettingValue::Bool(settings.filter_variables)
    } else if index == 3 {
        value == SettingValue::Bool(settings.filter_subcategories)
    } else if index == 4 {
        value == SettingValue::Bool(settings.filter_platform)
    } else if index == 5 {
        value == SettingValue::Bool(settings.filter_region)
    } else if index == 6 {
        value matches SettingValue::String(name) && name@ == spec_timing_method_name(
            settings.timing_method,
        )
    } else if index == 7 {
        value == SettingValue::Bool(settings.automatic_precision)
    } else if index == 8 {
        value == SettingValue::Accuracy(settings.accuracy)
    } else if index == 9 {
        value == SettingValue::OptionalColor(settings.label_color)
    } else {
        value == SettingValue::OptionalColor(settings.value_color)
    }
}

/// Creates a setting of a settings description.
pub fn field(name: &str, description: &str, value: SettingValue) -> (field: Field)
    ensures
        field.name@ == name@,
        field.description@ == description@,
        field.value == value,
{
    Field { name: owned(name), description: owned(description), value }
}

/// Whether a value is of the kind of the setting of the given index.
pub open spec fn setting_accepts(index: int, value: SettingValue) -> bool {
    if index == 0 {
        value is Gradient
    } else if index == 6 {
        value is String
    } else if index == 8 {
        value is Accuracy
    } else if index == 9 || index == 10 {
        value is OptionalColor
    } else {
        1 <= index <= 7 && value is Bool
    }
}

/// The settings with the setting of the given index set to a value.
pub open spec fn spec_set_value(settings: Settings, index: int, value: SettingValue) -> Settings {
    match value {
        SettingValue::Gradient(background) => Settings { background, ..settings },
        SettingValue::Bool(b) => if index == 1 {
            Settings { display_two_rows: b, ..settings }
        } else if index == 2 {
            Settings { filter_variables: b, ..settings }
        } else if index == 3 {
            Settings { filter_subcategories: b, ..settings }
        } else if index == 4 {
            Settings { filter_platform: b, ..settings }
        } else if index == 5 {
            Settings { filter_region: b, ..settings }
        } else {
            Settings { automatic_precision: b, ..settings }
        },
        SettingValue::String(name) => Settings {
            timing_method: spec_parse_timing_method(name@),
            ..settings
        },
        SettingValue::Accuracy(accuracy) => Settings { accuracy, ..settings },
        SettingValue::OptionalColor(color) => if index == 9 {
            Settings { label_color: color, ..settings }
        } else {
            Settings { value_color: color, ..settings }
        },
        _ => settings,
    }
}

/// A setting reads back the value it was set to; for the timing method
/// that holds of the names the settings description shows.
pub proof fn lemma_set_value_reads_back(settings: Settings, index: int, value: SettingValue)
    requires
        0 <= index <= 10,
        setting_accepts(index, value),
        index == 6 ==> (value matches SettingValue::String(name) && spec_timing_method_name(
            spec_parse_timing_method(name@),
        ) == name@),
    ensures
        shows_setting(value, spec_set_value(settings, index, value), index),
{
}

/// Naming a timing method override and setting the name as the timing
/// method setting gives back the override.
pub proof fn lemma_timing_method_setting_round_trip(
    settings: Settings,
    method: Option<TimingMethodOverride>,
    name: String,
)
    requires
        name@ == spec_timing_method_name(method),
    ensures
        spec_set_value(settings, 6, SettingValue::String(name)).timing_method == method,
{
    lemma_parse_timing_method_name(method);
}

impl Component {
    /// Describes the component's settings, in the order of their indices.
    pub fn settings_description(&self) -> (description: SettingsDescription)
        ensures
            description.fields@.len() == 11,
            forall|i: int|
                0 <= i < 11 ==> {
                    &&& (#[trigger] description.fields@[i]).name@ == setting_name(i)
                    &&& description.fields@[i].description@ == setting_description(i)
                    &&& shows_setting(description.fields@[i].value, self.settings, i)
                },
    {
        let settings = &self.settings;
        let mut fields: Vec<Field> = Vec::new();
        fields.push(
            field(
                "Background",
                "The component background.",
                SettingValue::Gradient(settings.background),
            ),
        );
        fields.push(
            field(
                "Display 2 Rows",
                "Displays the label and value on separate rows.",
                SettingValue::Bool(settings.display_two_rows),
            ),
        );
        fields.push(
            field(
                "Filter Variables",
                "Filters to non-subcategory variables from the splits.",
                SettingValue::Bool(settings.filter_variables),
            ),
        );
        fields.push(
            field(
                "Filter Subcategories",
                "Filters to subcategory variables from the splits.",
                SettingValue::Bool(settings.filter_subcategories),
            ),
        );
        fields.push(
            field(
                "Filter Platform",
                "Filters to the platform and emulator usage from the splits.",
                SettingValue::Bool(settings.filter_platform),
            ),
        );
        fields.push(
            field(
                "Filter Region",
                "Filters to the region from the splits.",
                SettingValue::Bool(settings.filter_region),
            ),
        );
        fields.push(
            field(
                "Timing Method",
                "Overrides the leaderboard's primary timing method.",
                SettingValue::String(owned(timing_method_name(settings.timing_method))),
            ),
        );
        fields.push(
            field(
                "Automatic Precision",
                "Uses the precision shown on the leaderboard.",
                SettingValue::Bool(settings.automatic_precision),
            ),
        );
        fields.push(
            field(
                "Accuracy",
                "The time accuracy when automatic precision is disabled.",
                SettingValue::Accuracy(settings.accuracy),
            ),
        );
        fields.push(
            field(
                "Label Color",
                "The color of the label.",
                SettingValue::OptionalColor(settings.label_color),
            ),
        );
        fields.push(
            field(
                "Value Color",
                "The color of the value.",
                SettingValue::OptionalColor(settings.value_color),
            ),
        );
        SettingsDescription { fields }
    }

    /// Sets a setting by its index in the settings description.
    pub fn set_value(&mut self, index: usize, value: SettingValue)
        requires
            index <= 10,
            setting_accepts(index as int, value),
        ensures
            final(self).settings == spec_set_value(old(self).settings, index as int, value),
            final(self).lookup == old(self).lookup,
    {
        match value {
            SettingValue::Gradient(background) => self.settings.background = background,
            SettingValue::Bool(b) => {
                if index == 1 {
                    self.settings.display_two_rows = b;
                } else if index == 2 {
                    self.settings.filter_variables = b;
                } else if index == 3 {
                    self.settings.filter_subcategories = b;
                } else if index == 4 {
                    self.settings.filter_platform = b;
                } else if index == 5 {
                    self.settings.filter_region = b;
                } else {
                    self.settings.automatic_precision = b;
                }
            },
            SettingValue::String(name) => {
                self.settings.timing_method = parse_timing_method(name.as_str());
            },
            SettingValue::Accuracy(accuracy) => self.settings.accuracy = accuracy,
            SettingValue::OptionalColor(color) => {
                if index == 9 {
                    self.settings.label_color = color;
                } else {
                    self.settings.value_color = color;
                }
            },
            _ => {},
        }
    }
}

// ---------------------------------------------------------------------------
// The visual state.

/// The personal best of the run at the end for a timing method: the final
/// split of the current attempt if it ended faster, else the personal best
/// split time of the last segment. An attempt without a final time counts
/// as faster than a personal best.
pub open spec fn spec_local_pb(timer: Snapshot, method: TimingMethod) -> Option<TimeSpan> {
    if timer.run.segments@.len() == 0 {
        None
    } else {
        let last = timer.run.segments@.last();
        let pb = last.personal_best_split_time.spec_get(method);
        let split = last.split_time.spec_get(method);
        if timer.current_phase == TimerPhase::Ended && optional_time_less(split, pb) {
            split
        } else {
            pb
        }
    }
}

/// Returns the run's own best final time for a timing method.
pub fn local_pb(timer: &Snapshot, method: TimingMethod) -> (pb: Option<TimeSpan>)
    ensures
        pb == spec_local_pb(*timer, method),
{
    let segments = &timer.run.segments;
    if segments.len() == 0 {
        return None;
    }
    let last = &segments[segments.len() - 1];
    let pb = last.personal_best_split_time.get(method);
    let split = last.split_time.get(method);
    if timer.current_phase == TimerPhase::Ended && is_optional_time_less(split, pb) {
        split
    } else {
        pb
    }
}

/// The timer's timing method that a leaderboard time compares with: real
/// time for real time, game time for the two others, and the timer's
/// current timing method for the leaderboard default.
pub open spec fn spec_comparison_method(
    method: Option<TimingMethodOverride>,
    current: TimingMethod,
) -> TimingMethod {
    match method {
        Some(TimingMethodOverride::RealTime) => TimingMethod::RealTime,
        Some(TimingMethodOverride::RealTimeWithoutLoads) => TimingMethod::GameTime,
        Some(TimingMethodOverride::GameTime) => TimingMethod::GameTime,
        None => current,
    }
}

/// Returns the timer's timing method that a leaderboard time compares with.
pub fn comparison_method(method: Option<TimingMethodOverride>, current: TimingMethod) -> (compared: TimingMethod)
    ensures
        compared == spec_comparison_method(method, current),
{
    match method {
        Some(TimingMethodOverride::RealTime) => TimingMethod::RealTime,
        Some(TimingMethodOverride::RealTimeWithoutLoads) => TimingMethod::GameTime,
        Some(TimingMethodOverride::GameTime) => TimingMethod::GameTime,
        None => current,
    }
}

/// What the value of the component shows.
#[derive(Debug)]
pub enum RecordDisplay {
    /// The world record: its time in seconds as the bit pattern of a double,
    /// its runners joined by ` & `, how many runs share first place, and the
    /// run's own best final time for the compared timing method, which
    /// replaces the record when it is at least as fast.
    Record { seconds_bits: u64, runners: String, tie_count: usize, personal_best: Option<TimeSpan> },
    /// The lookup is still in progress.
    Loading,
    /// The lookup failed or found no time.
    Unavailable,
}

/// The text after the record's time: the tie when several runs share first
/// place, else the runners if there are any.
pub open spec fn record_suffix(tie_count: nat, runners: Seq<char>) -> Seq<char> {
    if tie_count > 1 {
        " ("@ + decimal(tie_count) + "-way tie)"@
    } else if runners.len() != 0 {
        " by "@ + runners
    } else {
        Seq::empty()
    }
}

/// Appends the record's formatted time and the tie or the runners.
pub fn write_record_value(value: &mut String, time_text: &str, tie_count: usize, runners: &str)
    ensures
        final(value)@ == old(value)@ + time_text@ + record_suffix(tie_count as nat, runners@),
{
    push_str(value, time_text);
    if tie_count > 1 {
        push_str(value, " (");
        push_decimal(value, tie_count);
        push_str(value, "-way tie)");
    } else if !runners.is_empty() {
        push_str(value, " by ");
        push_str(value, runners);
    }
    assert(final(value)@ =~= old(value)@ + time_text@ + record_suffix(tie_count as nat, runners@));
}

/// The accuracy a record of the given length is shown with: with automatic
/// precision, whole seconds for a time without a fractional part and
/// milliseconds otherwise; else the accuracy of the settings.
pub open spec fn spec_record_accuracy(settings: Settings, nanoseconds: i128) -> Accuracy {
    if settings.automatic_precision {
        if magnitude(nanoseconds) % 1_000_000_000 == 0 {
            Accuracy::Seconds
        } else {
            Accuracy::Milliseconds
        }
    } else {
        settings.accuracy
    }
}

/// Returns the accuracy a record of the given length is shown with.
pub fn record_accuracy(settings: &Settings, nanoseconds: i128) -> (accuracy: Accuracy)
    ensures
        accuracy == spec_record_accuracy(*settings, nanoseconds),
{
    if settings.automatic_precision {
        if nanosecond_magnitude(nanoseconds) % NANOSECONDS_PER_SECOND == 0 {
            Accuracy::Seconds
        } else {
            Accuracy::Milliseconds
        }
    } else {
        settings.accuracy
    }
}

/// Writes a time shown in place of the record, given in nanoseconds, the
/// regular way: `m:ss` or `h:mm:ss`, then the fraction of the accuracy.
pub fn format_record_time(nanoseconds: i128, accuracy: Accuracy, separator: char) -> (text: String)
    ensures
        text@ == spec_format_time(
            Some(nanoseconds),
            DigitsFormat::SingleDigitMinutes,
            accuracy,
            separator,
        ),
{
    format_time(Some(nanoseconds), DigitsFormat::SingleDigitMinutes, accuracy, separator)
}

/// The time of the first record for the settings' timing method, if any.
pub open spec fn spec_first_record_time(lookup: Lookup, settings: Settings) -> Option<u64> {
    if lookup.records@.len() == 0 {
        None
    } else {
        spec_record_time(lookup.records@[0].times, settings.timing_method)
    }
}

impl Component {
    /// Updates the component's visual state, after following the current
    /// run as [`Component::request_url`] does. The label, colors, layout and
    /// abbreviation are set; the value is `Loading...` while the lookup runs
    /// and `-` when it failed or found no time. For a found record the value
    /// is left empty and the record is returned: the caller formats the time
    /// and completes the value with [`write_record_value`].
    pub fn update_state(&mut self, state: &mut KeyValueState, timer: &Snapshot) -> (display: RecordDisplay)
        ensures
            final(self).settings == old(self).settings,
            final(self).lookup.query matches Some(q) && query_matches(q, old(self).settings, *timer),
            !(old(self).lookup.query matches Some(q) && query_matches(
                q,
                old(self).settings,
                *timer,
            )) ==> lookup_at_start(final(self).lookup),
            lookup_at_start(final(self).lookup) || final(self).lookup == old(self).lookup,
            old(self).lookup.completed_at is None && (old(self).lookup.query matches Some(q)
                && query_matches(q, old(self).settings, *timer))
                ==> final(self).lookup == old(self).lookup,
            final(state).background == old(self).settings.background,
            final(state).key_color == old(self).settings.label_color,
            final(state).value_color == old(self).settings.value_color,
            final(state).key@ == "World Record"@,
            final(state).key_abbreviations@.len() == 1,
            final(state).key_abbreviations@[0]@ == "WR"@,
            final(state).display_two_rows == old(self).settings.display_two_rows,
            !final(state).updates_frequently,
            ({
                let lookup = final(self).lookup;
                match spec_first_record_time(lookup, old(self).settings) {
                    Some(bits) => display matches RecordDisplay::Record {
                        seconds_bits,
                        runners,
                        tie_count,
                        personal_best,
                    } && seconds_bits == bits && runners@ == joined(
                        lookup.records@[0].runners@,
                        " & "@,
                    ) && tie_count == lookup.records@.len() && personal_best == spec_local_pb(
                        *timer,
                        spec_comparison_method(
                            old(self).settings.timing_method,
                            timer.current_timing_method,
                        ),
                    ) && final(state).value@.len() == 0,
                    None => if lookup.stage != Stage::Complete && lookup.error is None {
                        display is Loading && final(state).value@ == "Loading..."@
                    } else {
                        display is Unavailable && final(state).value@ == "-"@
                    },
                }
            }),
    {
        self.sync_query(timer);
        state.background = self.settings.background;
        state.key_color = self.settings.label_color;
        state.value_color = self.settings.value_color;
        state.key = owned("World Record");
        state.value = String::new();
        let mut abbreviations: Vec<String> = Vec::new();
        abbreviations.push(owned("WR"));
        state.key_abbreviations = abbreviations;
        state.display_two_rows = self.settings.display_two_rows;
        state.updates_frequently = false;
        let records = &self.lookup.records;
        let record_time = if records.len() == 0 {
            None
        } else {
            records[0].time(self.settings.timing_method)
        };
        match record_time {
            Some(seconds_bits) => {
                let runners = join(&records[0].runners, " & ");
                let method = comparison_method(
                    self.settings.timing_method,
                    timer.current_timing_method,
                );
                RecordDisplay::Record {
                    seconds_bits,
                    runners,
                    tie_count: records.len(),
                    personal_best: local_pb(timer, method),
                }
            },
            None => {
                if self.lookup.stage != Stage::Complete && self.lookup.error.is_none() {
                    state.value = owned("Loading...");
                    RecordDisplay::Loading
                } else {
                    state.value = owned("-");
                    RecordDisplay::Unavailable
                }
            },
        }
    }
}

} // verus!
