//! Verified logic of three LiveSplit layout components: the World Record
//! component (speedrun.com lookup), the Reset Chance component and the
//! Alternate Timing Method component, with the settings they read from
//! layout files.

pub mod settings;
pub mod text;
pub mod clock;
pub mod json;
pub mod percent;
pub mod timer;
pub mod reset_chance;
pub mod world_record;
pub mod alternate_timing_method;
pub mod layout_parser;
pub mod time_format;
