# livesplit_components

Verified logic of three LiveSplit layout components, written in Verus:

- **World Record** (`src/world_record.rs`): follows the timer's run and looks
  its world record up on speedrun.com, stage by stage (game, category,
  variables, platform, region, leaderboard). `request_url` gives the next
  URL, `parse_response` consumes the response body. The URLs are proved
  against specifications, and `parse_response` states, over the JSON value
  that `serde_json` parses the body to, what each stage reads of it: the
  chosen game, category, platform and region ids, the variable filters, the
  records with their runners, the error text of a response that lacks what
  its stage needs, and that a leaderboard completes the lookup.
  Percent-encoding is proved lossless (`src/percent.rs`).
- **Reset Chance** (`src/reset_chance.rs`): counts, from the run's segment
  histories, how many attempts reached and completed the current segment,
  over all runs or a window of recent runs or split attempts, and renders
  the formatted percentage.
- **Alternate Timing Method** (`src/alternate_timing_method.rs`): picks the
  timing method and time opposite to the timer's.

The components take their localized texts (labels, abbreviations, setting
names) as arguments.

`src/time_format.rs` writes times from nanoseconds with a digits format
and an accuracy. `src/layout_parser.rs` holds how the setting elements of
layout files fill the World Record and Reset Chance settings.
`src/timer.rs` and `src/settings.rs` are the plain types the components
read and write. `src/json.rs` and `src/clock.rs` hold the trusted boundary
to `serde_json` and to the standard library's monotonic clock.

`app/` holds what is not verified: the floating-point arithmetic of the
shown values (percentages, and record times given as doubles),
serializable copies of the settings and states, and a C API.
