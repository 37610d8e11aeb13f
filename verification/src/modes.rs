//! Modes of the application and the dialogs it can show.
use vstd::prelude::*;

verus! {

/// Which deck is being configured
#[derive(Debug, Clone, Copy, PartialEq, Eq, Structural)]
pub enum Deck {
    A,
    B,
    C,
}

/// Destructive actions that require confirmation
#[derive(Debug, Clone, Copy, PartialEq, Eq, Structural)]
pub enum ConfirmAction {
    /// Clear a deck (disconnect source)
    ClearDeck(Deck),
    /// Reset deck controls to defaults (source stays connected)
    ResetDeck(Deck),
    /// Reset all controls to defaults
    ResetAll,
}

/// Application mode - 3-level navigation
#[derive(Debug, Clone, Copy, PartialEq, Eq, Structural)]
pub enum AppMode {
    /// Navigate between panes (Deck A, DJ Center, Deck B, Master)
    PaneSelect,
    /// Navigate controls within selected pane
    ControlSelect,
    /// Edit selected control value
    Edit,
    /// Help overlay
    Help,
    /// Pad keys active, trigger samples
    SamplePads,
    /// Configure pads (assign samples)
    SamplePadConfig,
    /// Source picker popup for a deck
    SourcePicker(Deck),
    /// Sample picker popup for a pad
    SamplePicker(usize),
    /// Confirmation dialog for destructive actions
    ConfirmAction(ConfirmAction),
    /// Config file update check dialog
    ConfigCheck,
}

impl AppMode {
    /// Whether a control value is being edited.
    pub fn is_editing(&self) -> (b: bool)
        ensures
            b == (*self == AppMode::Edit),
    {
        match self {
            AppMode::Edit => true,
            _ => false,
        }
    }

    /// Whether the help overlay is shown.
    pub fn show_help(&self) -> (b: bool)
        ensures
            b == (*self == AppMode::Help),
    {
        match self {
            AppMode::Help => true,
            _ => false,
        }
    }
}

/// Which output device picker is active
#[derive(Debug, Clone, Copy, PartialEq, Eq, Structural)]
pub enum OutputPickerTarget {
    Master,
    Cue,
}

/// Counters of the route-mode performance trace.
#[derive(Debug, Clone, Copy, PartialEq, Eq, Structural)]
pub struct PerfTrace {
    pub route_seek_sends: u32,
    pub route_seek_send_failures: u32,
    pub route_seek_input_events: u32,
    pub route_seek_input_to_send_max_ms: u32,
    pub route_seek_send_to_apply_max_ms: u32,
    pub route_timepos_delta_max_ms: u32,
    pub route_meta_polls: u32,
    pub route_meta_selected_polls: u32,
    pub route_meta_updates: u32,
    pub route_meta_failures: u32,
    pub route_meta_age_max_ms: u32,
    pub timeline_updates: u32,
    pub timeline_age_max_ms: u32,
}

impl PerfTrace {
    /// All counters at zero.
    pub open spec fn zeroed() -> PerfTrace {
        PerfTrace {
            route_seek_sends: 0,
            route_seek_send_failures: 0,
            route_seek_input_events: 0,
            route_seek_input_to_send_max_ms: 0,
            route_seek_send_to_apply_max_ms: 0,
            route_timepos_delta_max_ms: 0,
            route_meta_polls: 0,
            route_meta_selected_polls: 0,
            route_meta_updates: 0,
            route_meta_failures: 0,
            route_meta_age_max_ms: 0,
            timeline_updates: 0,
            timeline_age_max_ms: 0,
        }
    }

    pub fn new() -> (r: Self)
        ensures
            r == Self::zeroed(),
    {
        PerfTrace {
            route_seek_sends: 0,
            route_seek_send_failures: 0,
            route_seek_input_events: 0,
            route_seek_input_to_send_max_ms: 0,
            route_seek_send_to_apply_max_ms: 0,
            route_timepos_delta_max_ms: 0,
            route_meta_polls: 0,
            route_meta_selected_polls: 0,
            route_meta_updates: 0,
            route_meta_failures: 0,
            route_meta_age_max_ms: 0,
            timeline_updates: 0,
            timeline_age_max_ms: 0,
        }
    }

    /// Set every counter back to zero.
    pub fn reset(&mut self)
        ensures
            *final(self) == Self::zeroed(),
    {
        *self = Self::new();
    }
}

} // verus!
