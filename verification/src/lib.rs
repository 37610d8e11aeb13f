//! Verified core of a terminal DJ mixer: control layout and navigation,
//! viewport layout and mouse areas, the source and sample pickers, solo and
//! mute rules, capture buffers, OSC messages, route metadata, the polling
//! schedule, and the command line and config checks.
use vstd::prelude::*;

pub mod controls;
pub mod layout;
pub mod selection;
pub mod text;
pub mod picker;
pub mod picker_keys;
pub mod listing;
pub mod routes;
pub mod log;
pub mod meta;
pub mod deck_source;
pub mod screen;
pub mod schedule;
pub mod playback;
pub mod devices;
pub mod ring;
pub mod lookback;
pub mod osc;
pub mod synth;
pub mod cli;
pub mod areas;
pub mod modes;
pub mod backend;
pub mod source;
pub mod config;
pub mod panes;
pub mod keys;
pub mod solo;
pub mod dsp;
pub mod control_select;
pub mod edit_keys;
pub mod mouse;
pub mod voices;

verus! {
}
