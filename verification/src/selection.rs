//! Which channel and control of the mixer are selected, and how the
//! selection moves up and down a channel strip.
use vstd::prelude::*;
use crate::controls::{ChannelControl, GlobalControl, SelectionFocus};
use crate::layout::SelectedPane;

verus! {

/// The selection part of the mixer state: the focus, the selected channel
/// and controls, and which channel indices are the decks.
#[derive(Debug, Clone, Copy, PartialEq, Eq, Structural)]
pub struct MixerSelection {
    /// Selection focus
    pub focus: SelectionFocus,
    /// Currently selected channel index (when focus is Channel)
    pub selected_channel: usize,
    /// Currently selected control within channel
    pub selected_control: ChannelControl,
    /// Currently selected global control (when focus is Global)
    pub selected_global: GlobalControl,
    /// Which channel is assigned to deck A (usually 0)
    pub deck_a_channel: usize,
    /// Which channel is assigned to deck B (usually 1)
    pub deck_b_channel: usize,
    /// Which channel is assigned to deck C / CUE (usually 2)
    pub deck_c_channel: usize,
}

/// The position a control has in the move order of a deck strip (its row,
/// the output select coming after -> B) or of a plain strip (its row).
pub open spec fn row_in(c: ChannelControl, is_deck: bool) -> usize {
    if is_deck {
        c.deck_step()
    } else {
        c.plain_row()
    }
}

/// Last position of a strip's move order: the CUE pane ends at its output
/// select (position 17, after -> B on row 16), decks and plain strips at
/// Solo.
pub open spec fn max_row_of(is_deck: bool, is_cue_pane: bool) -> usize {
    if is_cue_pane {
        17
    } else if is_deck {
        14
    } else {
        10
    }
}

/// First reachable row: the scrub row only when the scrubber is shown.
pub open spec fn min_row_of(scrub_visible: bool) -> usize {
    if scrub_visible {
        0
    } else {
        1
    }
}

/// The control on a row, in the layout used by decks and the CUE pane or in
/// the plain layout.
pub open spec fn control_at(row: usize, deck_layout: bool) -> Option<ChannelControl> {
    if deck_layout {
        ChannelControl::at_deck_row(row)
    } else {
        ChannelControl::at_plain_row(row)
    }
}

/// Row reached by moving up one control (round-robin).  The CUE pane follows
/// its two-column visual layout (Pan, Fader, then M beside -> A, S beside
/// -> B, then OUTPUT): OUTPUT goes up to -> B, -> B to -> A, -> A and M to
/// the fader, S to M.  On decks A/B, Solo goes up to the fader, skipping
/// Mute.
pub open spec fn row_above(cur: usize, is_deck: bool, scrub_visible: bool, is_cue_pane: bool) -> usize {
    let max_row = max_row_of(is_deck, is_cue_pane);
    let min_row = min_row_of(scrub_visible);
    let wrapped = if cur <= min_row {
        max_row
    } else {
        (cur - 1) as usize
    };
    let r = if is_cue_pane {
        if cur == 17 {
            16
        } else if cur == 16 {
            15
        } else if cur == 15 {
            12
        } else if cur == 14 {
            13
        } else if cur == 13 {
            12
        } else if cur == 12 {
            11
        } else if cur == 11 {
            10
        } else if wrapped <= min_row {
            max_row
        } else {
            wrapped
        }
    } else if is_deck && cur == 14 {
        12
    } else {
        wrapped
    };
    if !scrub_visible && r == 0 {
        max_row
    } else {
        r
    }
}

/// Row reached by moving down one control (round-robin).  In the CUE pane
/// the fader goes down to M, M to S, -> A to -> B, and both S and -> B to
/// OUTPUT, which wraps to the top.
pub open spec fn row_below(cur: usize, is_deck: bool, scrub_visible: bool, is_cue_pane: bool) -> usize {
    let max_row = max_row_of(is_deck, is_cue_pane);
    let min_row = min_row_of(scrub_visible);
    let stepped = if cur >= max_row {
        min_row
    } else {
        (cur + 1) as usize
    };
    let r = if !scrub_visible && stepped == 0 {
        1
    } else {
        stepped
    };
    if is_cue_pane {
        if cur == 12 {
            13
        } else if cur == 13 {
            14
        } else if cur == 15 {
            16
        } else if cur == 16 {
            17
        } else if cur == 14 {
            17
        } else if cur == 17 {
            min_row
        } else if r >= max_row {
            min_row
        } else {
            r
        }
    } else {
        r
    }
}

/// The control selected after a move to row `row`: the control on that row,
/// or the old one when the row holds none.
pub open spec fn moved_to(old: ChannelControl, row: usize, deck_layout: bool) -> ChannelControl {
    match control_at(row, deck_layout) {
        Some(c) => c,
        None => old,
    }
}

impl MixerSelection {
    /// The selection of a fresh mixer: the fader of channel 0, the crossfader
    /// among the global controls, decks on channels 0, 1 and 2.
    pub fn new() -> (s: Self)
        ensures
            s.focus == SelectionFocus::Channel(0),
            s.selected_channel == 0,
            s.selected_control == ChannelControl::Fader,
            s.selected_global == GlobalControl::Crossfader,
            s.deck_a_channel == 0,
            s.deck_b_channel == 1,
            s.deck_c_channel == 2,
    {
        MixerSelection {
            focus: SelectionFocus::Channel(0),
            selected_channel: 0,
            selected_control: ChannelControl::Fader,
            selected_global: GlobalControl::Crossfader,
            deck_a_channel: 0,
            deck_b_channel: 1,
            deck_c_channel: 2,
        }
    }

    pub open spec fn deck(self, ch_idx: usize) -> bool {
        ch_idx == self.deck_a_channel || ch_idx == self.deck_b_channel || ch_idx
            == self.deck_c_channel
    }

    pub open spec fn in_eq_section(self) -> bool {
        match self.selected_control {
            ChannelControl::EqHigh | ChannelControl::EqHighKill | ChannelControl::EqMid
            | ChannelControl::EqMidKill | ChannelControl::EqLow | ChannelControl::EqLowKill => true,
            _ => false,
        }
    }

    pub open spec fn in_filter_section(self) -> bool {
        match self.selected_control {
            ChannelControl::FilterCutoff | ChannelControl::FilterFreq | ChannelControl::LfoShape
            | ChannelControl::LfoSpeed => true,
            _ => false,
        }
    }

    /// Check if a channel index is a deck channel (has PlayPause/BPM controls)
    pub fn is_deck_channel(&self, ch_idx: usize) -> (b: bool)
        ensures
            b == self.deck(ch_idx),
    {
        ch_idx == self.deck_a_channel || ch_idx == self.deck_b_channel || ch_idx
            == self.deck_c_channel
    }

    /// Check if the current control is in the EQ section (High/Mid/Low + kill switches)
    pub fn is_in_eq_section(&self) -> (b: bool)
        ensures
            b == self.in_eq_section(),
    {
        match self.selected_control {
            ChannelControl::EqHigh | ChannelControl::EqHighKill | ChannelControl::EqMid
            | ChannelControl::EqMidKill | ChannelControl::EqLow | ChannelControl::EqLowKill => true,
            _ => false,
        }
    }

    /// Check if the current control is in the filter section (including LFO)
    pub fn is_in_filter_section(&self) -> (b: bool)
        ensures
            b == self.in_filter_section(),
    {
        match self.selected_control {
            ChannelControl::FilterCutoff | ChannelControl::FilterFreq | ChannelControl::LfoShape
            | ChannelControl::LfoSpeed => true,
            _ => false,
        }
    }

    /// Check if the current control is in the EQ or filter section
    pub fn is_in_eq_or_filter_section(&self) -> (b: bool)
        ensures
            b == (self.in_eq_section() || self.in_filter_section()),
    {
        self.is_in_eq_section() || self.is_in_filter_section()
    }

    /// Whether the selected control is adjusted continuously: a knob or fader
    /// of a channel, or an EQ band, the crossfader, headphone volume or the
    /// master fader among the global controls.
    pub open spec fn continuous_selected(self) -> bool {
        match self.focus {
            SelectionFocus::Channel(_) => self.selected_control.continuous(),
            SelectionFocus::Global => self.selected_global.band_of() is Some || self.selected_global
                == GlobalControl::Crossfader || self.selected_global
                == GlobalControl::HeadphoneVolume || self.selected_global
                == GlobalControl::MasterFader,
        }
    }

    pub fn is_current_control_continuous(&self) -> (b: bool)
        ensures
            b == self.continuous_selected(),
    {
        match self.focus {
            SelectionFocus::Channel(_) => self.selected_control.is_continuous(),
            SelectionFocus::Global => {
                self.selected_global.eq_band_index().is_some() || match self.selected_global {
                    GlobalControl::Crossfader | GlobalControl::HeadphoneVolume
                    | GlobalControl::MasterFader => true,
                    _ => false,
                }
            },
        }
    }

    /// A volume fader is selected: a channel's fader or the master fader.
    pub fn is_volume_fader_selected(&self) -> (b: bool)
        ensures
            b == match self.focus {
                SelectionFocus::Channel(_) => self.selected_control == ChannelControl::Fader,
                SelectionFocus::Global => self.selected_global == GlobalControl::MasterFader,
            },
    {
        match self.focus {
            SelectionFocus::Channel(_) => match self.selected_control {
                ChannelControl::Fader => true,
                _ => false,
            },
            SelectionFocus::Global => match self.selected_global {
                GlobalControl::MasterFader => true,
                _ => false,
            },
        }
    }

    /// A channel's filter or LFO control is selected.
    pub fn is_filter_selected(&self) -> (b: bool)
        ensures
            b == (self.focus is Channel && self.in_filter_section()),
    {
        match self.focus {
            SelectionFocus::Channel(_) => self.is_in_filter_section(),
            SelectionFocus::Global => false,
        }
    }

    /// A channel's pan control is selected.
    pub fn is_pan_selected(&self) -> (b: bool)
        ensures
            b == (self.focus is Channel && self.selected_control == ChannelControl::Pan),
    {
        match self.focus {
            SelectionFocus::Channel(_) => match self.selected_control {
                ChannelControl::Pan => true,
                _ => false,
            },
            SelectionFocus::Global => false,
        }
    }

    /// Move selection up (round-robin).  `is_cue_pane` is true when the
    /// Deck C pane is active; `scrub_visible` tells whether the selected
    /// channel shows its scrubber.
    pub fn select_prev_control(&mut self, is_cue_pane: bool, scrub_visible: bool)
        ensures
            ({
                let is_deck = old(self).deck(old(self).selected_channel);
                let cur = row_in(old(self).selected_control, is_deck);
                *final(self) == MixerSelection {
                    selected_control: moved_to(
                        old(self).selected_control,
                        row_above(cur, is_deck, scrub_visible, is_cue_pane),
                        is_deck || is_cue_pane,
                    ),
                    ..*old(self)
                }
            }),
    {
        let is_deck = self.is_deck_channel(self.selected_channel);
        let current_row = if is_deck {
            self.selected_control.step_index()
        } else {
            self.selected_control.row_index_no_deck()
        };
        let max_row: usize = if is_cue_pane {
            17
        } else if is_deck {
            14
        } else {
            10
        };
        let min_row: usize = if scrub_visible {
            0
        } else {
            1
        };
        let mut new_row = if current_row <= min_row {
            max_row
        } else {
            current_row - 1
        };
        if is_cue_pane {
            new_row =
            match current_row {
                17 => 16,
                16 => 15,
                15 => 12,
                14 => 13,
                13 => 12,
                12 => 11,
                11 => 10,
                _ => if new_row <= min_row {
                    max_row
                } else {
                    new_row
                },
            };
        } else if is_deck && current_row == 14 {
            new_row = 12;
        }
        if !scrub_visible && new_row == 0 {
            new_row = max_row;
        }
        if is_deck || is_cue_pane {
            if let Some(ctrl) = ChannelControl::from_row_index(new_row) {
                self.selected_control = ctrl;
            }
        } else if let Some(ctrl) = ChannelControl::from_row_index_no_deck(new_row) {
            self.selected_control = ctrl;
        }
    }

    /// Move selection down (round-robin).
    pub fn select_next_control(&mut self, is_cue_pane: bool, scrub_visible: bool)
        ensures
            ({
                let is_deck = old(self).deck(old(self).selected_channel);
                let cur = row_in(old(self).selected_control, is_deck);
                *final(self) == MixerSelection {
                    selected_control: moved_to(
                        old(self).selected_control,
                        row_below(cur, is_deck, scrub_visible, is_cue_pane),
                        is_deck || is_cue_pane,
                    ),
                    ..*old(self)
                }
            }),
    {
        let is_deck = self.is_deck_channel(self.selected_channel);
        let current_row = if is_deck {
            self.selected_control.step_index()
        } else {
            self.selected_control.row_index_no_deck()
        };
        let max_row: usize = if is_cue_pane {
            17
        } else if is_deck {
            14
        } else {
            10
        };
        let min_row: usize = if scrub_visible {
            0
        } else {
            1
        };
        let mut new_row = if current_row >= max_row {
            min_row
        } else {
            current_row + 1
        };
        if !scrub_visible && new_row == 0 {
            new_row = 1;
        }
        if is_cue_pane {
            new_row =
            match current_row {
                12 => 13,
                13 => 14,
                15 => 16,
                16 => 17,
                14 => 17,
                17 => min_row,
                _ => if new_row >= max_row {
                    min_row
                } else {
                    new_row
                },
            };
        }
        if is_deck || is_cue_pane {
            if let Some(ctrl) = ChannelControl::from_row_index(new_row) {
                self.selected_control = ctrl;
            }
        } else if let Some(ctrl) = ChannelControl::from_row_index_no_deck(new_row) {
            self.selected_control = ctrl;
        }
    }

    /// Point the mixer selection at a pane: deck panes select their channel's
    /// fader, the DJ centre and crossfader the crossfader, the master pane its
    /// play/pause control; the loops pane only moves the focus to global.
    pub fn sync_pane_to_mixer(&mut self, pane: SelectedPane)
        ensures
            final(self).deck_a_channel == old(self).deck_a_channel,
            final(self).deck_b_channel == old(self).deck_b_channel,
            final(self).deck_c_channel == old(self).deck_c_channel,
            match pane {
                SelectedPane::DeckA => final(self).focus == SelectionFocus::Channel(
                    old(self).deck_a_channel,
                ) && final(self).selected_channel == old(self).deck_a_channel
                    && final(self).selected_control == ChannelControl::Fader
                    && final(self).selected_global == old(self).selected_global,
                SelectedPane::DeckB => final(self).focus == SelectionFocus::Channel(
                    old(self).deck_b_channel,
                ) && final(self).selected_channel == old(self).deck_b_channel
                    && final(self).selected_control == ChannelControl::Fader
                    && final(self).selected_global == old(self).selected_global,
                SelectedPane::DeckC => final(self).focus == SelectionFocus::Channel(2)
                    && final(self).selected_channel == 2 && final(self).selected_control
                    == ChannelControl::Fader && final(self).selected_global
                    == old(self).selected_global,
                SelectedPane::DjCenter | SelectedPane::Crossfader => final(self).focus
                    == SelectionFocus::Global && final(self).selected_global
                    == GlobalControl::Crossfader && final(self).selected_channel
                    == old(self).selected_channel && final(self).selected_control
                    == old(self).selected_control,
                SelectedPane::Master => final(self).focus == SelectionFocus::Global
                    && final(self).selected_global == GlobalControl::MasterPlayPause
                    && final(self).selected_channel == old(self).selected_channel
                    && final(self).selected_control == old(self).selected_control,
                SelectedPane::Loops => final(self).focus == SelectionFocus::Global
                    && final(self).selected_global == old(self).selected_global
                    && final(self).selected_channel == old(self).selected_channel
                    && final(self).selected_control == old(self).selected_control,
            },
    {
        match pane {
            SelectedPane::DeckA => {
                self.focus = SelectionFocus::Channel(self.deck_a_channel);
                self.selected_channel = self.deck_a_channel;
                self.selected_control = ChannelControl::Fader;
            },
            SelectedPane::DeckB => {
                self.focus = SelectionFocus::Channel(self.deck_b_channel);
                self.selected_channel = self.deck_b_channel;
                self.selected_control = ChannelControl::Fader;
            },
            SelectedPane::DjCenter => {
                self.focus = SelectionFocus::Global;
                self.selected_global = GlobalControl::Crossfader;
            },
            SelectedPane::Loops => {
                self.focus = SelectionFocus::Global;
            },
            SelectedPane::Crossfader => {
                self.focus = SelectionFocus::Global;
                self.selected_global = GlobalControl::Crossfader;
            },
            SelectedPane::Master => {
                self.focus = SelectionFocus::Global;
                self.selected_global = GlobalControl::MasterPlayPause;
            },
            SelectedPane::DeckC => {
                self.focus = SelectionFocus::Channel(2);
                self.selected_channel = 2;
                self.selected_control = ChannelControl::Fader;
            },
        }
    }
}

/// A hidden scrubber is never selected by moving up or down: a move lands on
/// the scrub control only if it was selected already.
pub proof fn lemma_hidden_scrub_not_reached(c: ChannelControl, is_deck: bool, is_cue_pane: bool)
    ensures
        moved_to(c, row_above(row_in(c, is_deck), is_deck, false, is_cue_pane), is_deck || is_cue_pane)
            == ChannelControl::Scrub ==> c == ChannelControl::Scrub,
        moved_to(c, row_below(row_in(c, is_deck), is_deck, false, is_cue_pane), is_deck || is_cue_pane)
            == ChannelControl::Scrub ==> c == ChannelControl::Scrub,
{
}

/// A move lands on a row of the strip: at most the last row of the strip and
/// at least the first reachable one.
pub proof fn lemma_moves_stay_in_strip(cur: usize, is_deck: bool, scrub_visible: bool, is_cue_pane: bool)
    requires
        cur <= max_row_of(is_deck, is_cue_pane),
    ensures
        min_row_of(scrub_visible) <= row_above(cur, is_deck, scrub_visible, is_cue_pane)
            <= max_row_of(is_deck, is_cue_pane),
        min_row_of(scrub_visible) <= row_below(
            cur,
            is_deck,
            scrub_visible,
            is_cue_pane,
        ) <= max_row_of(is_deck, is_cue_pane),
{
}

/// On the strip of deck A or B, moving down and then up comes back to the
/// same row, except from Mute (row 13), because moving up from Solo skips
/// Mute to the fader; moving up and then down comes back to the same row
/// except from Solo (row 14).
pub proof fn lemma_deck_moves_round_trip(r: usize, scrub_visible: bool)
    requires
        min_row_of(scrub_visible) <= r <= 14,
    ensures
        r != 13 ==> row_above(row_below(r, true, scrub_visible, false), true, scrub_visible, false)
            == r,
        r != 14 ==> row_below(row_above(r, true, scrub_visible, false), true, scrub_visible, false)
            == r,
        row_above(ChannelControl::Solo.deck_row(), true, scrub_visible, false)
            == ChannelControl::Fader.deck_row(),
{
}

} // verus!
