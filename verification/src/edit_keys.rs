//! Edit mode: keys that adjust the selected control's value.  The values
//! themselves live with the caller; this decides which adjustment a key
//! asks for.
use vstd::prelude::*;
use crate::controls::{ChannelControl, GlobalControl, SelectionFocus};
use crate::layout::SelectedPane;
use crate::modes::AppMode;
use crate::panes::{synced, NavKey, PaneState};

verus! {

/// An adjustment asked of the caller in edit mode.
#[derive(Debug, Clone, Copy, PartialEq, Eq, Structural)]
pub enum EditAction {
    Nothing,
    /// The selected sequence control moves up or down, by a fine step or a
    /// coarse one (the tempo by 1 or 5 BPM, other values by 0.05).
    SequenceAdjust { up: bool, coarse: bool },
    /// A scrub tap forward or backward.
    ScrubTap(bool),
    /// A coarse scrub starts forward or backward.
    StartScrub(bool),
    /// The selected control changes by this many hundredths.
    AdjustSelected(i32),
    /// The selected filter or LFO knob jumps to its top (true) or bottom.
    FilterToEdge(bool),
    /// The selected pan jumps fully right (true) or left.
    PanToEdge(bool),
    /// The crossfader slams fully to deck B (true) or deck A.
    SlamCrossfader(bool),
    /// The selected sequence control goes back to its default.
    ResetSequenceControl,
    /// The selected control goes back to its default.
    ResetCurrentControl,
    /// A pan, scrub, tempo, key or fader (or the crossfader or master fader)
    /// is centred.
    CenterControl,
}

/// The adjustment a key asks for, and whether the selected control is
/// synced to the players afterwards.
#[derive(Debug, Clone, Copy, PartialEq, Eq, Structural)]
pub struct EditOutcome {
    pub action: EditAction,
    pub sync: bool,
}

/// An outcome.
pub open spec fn outcome(action: EditAction, sync: bool) -> EditOutcome {
    EditOutcome { action, sync }
}

/// A fine step (h/j/k/l and the arrows) up or down.
pub open spec fn fine_step(s: PaneState, up: bool) -> EditOutcome {
    if s.selected_pane == SelectedPane::Loops {
        outcome(EditAction::SequenceAdjust { up, coarse: false }, false)
    } else if s.selection.selected_control == ChannelControl::Scrub {
        outcome(EditAction::ScrubTap(up), false)
    } else {
        outcome(EditAction::AdjustSelected(if up { 5i32 } else { -5i32 }), true)
    }
}

/// A coarse sideways step (H/L): knobs and pans jump to their edge.
pub open spec fn coarse_side_step(s: PaneState, up: bool) -> EditOutcome {
    if s.selected_pane == SelectedPane::Loops {
        outcome(EditAction::SequenceAdjust { up, coarse: true }, false)
    } else if s.selection.selected_control == ChannelControl::Scrub {
        outcome(EditAction::StartScrub(up), false)
    } else if s.selection.focus is Channel && s.selection.in_filter_section() {
        outcome(EditAction::FilterToEdge(up), true)
    } else if s.selection.focus is Channel && s.selection.selected_control == ChannelControl::Pan {
        outcome(EditAction::PanToEdge(up), true)
    } else {
        outcome(EditAction::AdjustSelected(if up { 20i32 } else { -20i32 }), true)
    }
}

/// A volume fader is selected: a channel's fader or the master fader.
pub open spec fn volume_fader_selected(s: PaneState) -> bool {
    match s.selection.focus {
        SelectionFocus::Channel(_) => s.selection.selected_control == ChannelControl::Fader,
        SelectionFocus::Global => s.selection.selected_global == GlobalControl::MasterFader,
    }
}

/// A coarse vertical step (K/J): faders move a quarter, other values 0.2.
pub open spec fn coarse_vertical_step(s: PaneState, up: bool) -> EditOutcome {
    if s.selected_pane == SelectedPane::Loops {
        outcome(EditAction::SequenceAdjust { up, coarse: true }, true)
    } else if s.selection.selected_control == ChannelControl::Scrub {
        outcome(EditAction::StartScrub(up), true)
    } else if volume_fader_selected(s) {
        outcome(EditAction::AdjustSelected(if up { 25i32 } else { -25i32 }), true)
    } else {
        outcome(EditAction::AdjustSelected(if up { 20i32 } else { -20i32 }), true)
    }
}

/// A crossfader slam, only while the crossfader is being edited.
pub open spec fn slam_step(s: PaneState, to_b: bool) -> EditOutcome {
    if s.selection.focus == SelectionFocus::Global && s.selection.selected_global == GlobalControl::Crossfader {
        outcome(EditAction::SlamCrossfader(to_b), true)
    } else {
        outcome(EditAction::Nothing, false)
    }
}

/// What a key does in edit mode: the next state and the adjustment.
pub open spec fn edit_step(s: PaneState, key: NavKey) -> (PaneState, EditOutcome) {
    let none = outcome(EditAction::Nothing, false);
    match key {
        NavKey::Esc | NavKey::Enter => (
            PaneState {
                mode: if s.selected_pane == SelectedPane::Crossfader {
                    AppMode::PaneSelect
                } else {
                    AppMode::ControlSelect
                },
                ..s
            },
            none,
        ),
        NavKey::Tab => {
            let p = SelectedPane::at_order((s.selected_pane.order() + 1) % 7);
            (PaneState { selected_pad_idx: None, selected_pane: p, selection: synced(s.selection, p), ..s }, none)
        },
        NavKey::BackTab => {
            let p = SelectedPane::at_order((s.selected_pane.order() + 6) % 7);
            (PaneState { selected_pad_idx: None, selected_pane: p, selection: synced(s.selection, p), ..s }, none)
        },
        NavKey::Left | NavKey::Down => (s, fine_step(s, false)),
        NavKey::Right | NavKey::Up => (s, fine_step(s, true)),
        NavKey::Char(c) => (s, if c == 'h' || c == 'j' {
            fine_step(s, false)
        } else if c == 'l' || c == 'k' {
            fine_step(s, true)
        } else if c == 'H' {
            coarse_side_step(s, false)
        } else if c == 'L' {
            coarse_side_step(s, true)
        } else if c == 'K' {
            coarse_vertical_step(s, true)
        } else if c == 'J' {
            coarse_vertical_step(s, false)
        } else if c == 'a' {
            slam_step(s, false)
        } else if c == 'b' {
            slam_step(s, true)
        } else if c == '0' {
            if s.selected_pane == SelectedPane::Loops {
                outcome(EditAction::ResetSequenceControl, false)
            } else {
                outcome(EditAction::ResetCurrentControl, true)
            }
        } else if c == 'c' || c == 'C' {
            outcome(EditAction::CenterControl, true)
        } else {
            none
        }),
        _ => (s, none),
    }
}

impl PaneState {
    /// A fine step up or down.
    fn edit_fine(&self, up: bool) -> (o: EditOutcome)
        ensures
            o == fine_step(*self, up),
    {
        if matches!(self.selected_pane, SelectedPane::Loops) {
            EditOutcome { action: EditAction::SequenceAdjust { up, coarse: false }, sync: false }
        } else if matches!(self.selection.selected_control, ChannelControl::Scrub) {
            EditOutcome { action: EditAction::ScrubTap(up), sync: false }
        } else {
            EditOutcome {
                action: EditAction::AdjustSelected(
                    if up {
                        5
                    } else {
                        -5
                    },
                ),
                sync: true,
            }
        }
    }

    /// A coarse sideways step.
    fn edit_coarse_side(&self, up: bool) -> (o: EditOutcome)
        ensures
            o == coarse_side_step(*self, up),
    {
        if matches!(self.selected_pane, SelectedPane::Loops) {
            EditOutcome { action: EditAction::SequenceAdjust { up, coarse: true }, sync: false }
        } else if matches!(self.selection.selected_control, ChannelControl::Scrub) {
            EditOutcome { action: EditAction::StartScrub(up), sync: false }
        } else if self.selection.is_filter_selected() {
            EditOutcome { action: EditAction::FilterToEdge(up), sync: true }
        } else if self.selection.is_pan_selected() {
            EditOutcome { action: EditAction::PanToEdge(up), sync: true }
        } else {
            EditOutcome {
                action: EditAction::AdjustSelected(
                    if up {
                        20
                    } else {
                        -20
                    },
                ),
                sync: true,
            }
        }
    }

    /// A coarse vertical step.
    fn edit_coarse_vertical(&self, up: bool) -> (o: EditOutcome)
        ensures
            o == coarse_vertical_step(*self, up),
    {
        if matches!(self.selected_pane, SelectedPane::Loops) {
            EditOutcome { action: EditAction::SequenceAdjust { up, coarse: true }, sync: true }
        } else if matches!(self.selection.selected_control, ChannelControl::Scrub) {
            EditOutcome { action: EditAction::StartScrub(up), sync: true }
        } else if self.selection.is_volume_fader_selected() {
            EditOutcome {
                action: EditAction::AdjustSelected(
                    if up {
                        25
                    } else {
                        -25
                    },
                ),
                sync: true,
            }
        } else {
            EditOutcome {
                action: EditAction::AdjustSelected(
                    if up {
                        20
                    } else {
                        -20
                    },
                ),
                sync: true,
            }
        }
    }

    /// A crossfader slam.
    fn edit_slam(&self, to_b: bool) -> (o: EditOutcome)
        ensures
            o == slam_step(*self, to_b),
    {
        if matches!(self.selection.focus, SelectionFocus::Global) && matches!(
            self.selection.selected_global,
            GlobalControl::Crossfader
        ) {
            EditOutcome { action: EditAction::SlamCrossfader(to_b), sync: true }
        } else {
            EditOutcome { action: EditAction::Nothing, sync: false }
        }
    }

    /// Handle a key in edit mode (hjkl adjusts values, Esc returns to
    /// control select).
    pub fn handle_edit_key(&mut self, key: NavKey) -> (o: EditOutcome)
        ensures
            (*final(self), o) == edit_step(*old(self), key),
    {
        let none = EditOutcome { action: EditAction::Nothing, sync: false };
        match key {
            NavKey::Esc | NavKey::Enter => {
                self.mode = if matches!(self.selected_pane, SelectedPane::Crossfader) {
                    AppMode::PaneSelect
                } else {
                    AppMode::ControlSelect
                };
                none
            },
            NavKey::Tab | NavKey::BackTab => {
                self.selected_pad_idx = None;
                self.selected_pane = if matches!(key, NavKey::Tab) {
                    self.selected_pane.next()
                } else {
                    self.selected_pane.prev()
                };
                let pane = self.selected_pane;
                self.selection.sync_pane_to_mixer(pane);
                none
            },
            NavKey::Left | NavKey::Down => self.edit_fine(false),
            NavKey::Right | NavKey::Up => self.edit_fine(true),
            NavKey::Char(c) => {
                if c == 'h' || c == 'j' {
                    self.edit_fine(false)
                } else if c == 'l' || c == 'k' {
                    self.edit_fine(true)
                } else if c == 'H' {
                    self.edit_coarse_side(false)
                } else if c == 'L' {
                    self.edit_coarse_side(true)
                } else if c == 'K' {
                    self.edit_coarse_vertical(true)
                } else if c == 'J' {
                    self.edit_coarse_vertical(false)
                } else if c == 'a' {
                    self.edit_slam(false)
                } else if c == 'b' {
                    self.edit_slam(true)
                } else if c == '0' {
                    if matches!(self.selected_pane, SelectedPane::Loops) {
                        EditOutcome { action: EditAction::ResetSequenceControl, sync: false }
                    } else {
                        EditOutcome { action: EditAction::ResetCurrentControl, sync: true }
                    }
                } else if c == 'c' || c == 'C' {
                    EditOutcome { action: EditAction::CenterControl, sync: true }
                } else {
                    none
                }
            },
            _ => none,
        }
    }
}


/// Editing changes values, not the selection: apart from Tab and Shift+Tab,
/// which switch panes, no key in edit mode moves the selected pane, pad or
/// control, and Esc or Enter always leaves edit mode.
pub proof fn lemma_edit_keeps_selection(s: PaneState, key: NavKey)
    ensures
        key != NavKey::Tab && key != NavKey::BackTab ==> {
            let t = edit_step(s, key).0;
            &&& t.selected_pane == s.selected_pane
            &&& t.selected_pad_idx == s.selected_pad_idx
            &&& t.selection == s.selection
        },
        (key == NavKey::Esc || key == NavKey::Enter) ==> edit_step(s, key).0.mode != AppMode::Edit,
{
}

/// In edit mode with the crossfader selected, `a` slams it fully to deck A
/// (`SlamCrossfader(false)`) and `b` fully to deck B
/// (`SlamCrossfader(true)`): the two slams are opposite, both are sent on,
/// and neither changes the state. With anything else selected neither key
/// does anything.
pub proof fn lemma_edit_slams_are_opposite(s: PaneState)
    ensures
        s.selection.focus == SelectionFocus::Global && s.selection.selected_global
            == GlobalControl::Crossfader ==> {
            &&& edit_step(s, NavKey::Char('a')) == (s, EditOutcome {
                action: EditAction::SlamCrossfader(false),
                sync: true,
            })
            &&& edit_step(s, NavKey::Char('b')) == (s, EditOutcome {
                action: EditAction::SlamCrossfader(true),
                sync: true,
            })
        },
        !(s.selection.focus == SelectionFocus::Global && s.selection.selected_global
            == GlobalControl::Crossfader) ==> {
            &&& edit_step(s, NavKey::Char('a')) == (s, EditOutcome {
                action: EditAction::Nothing,
                sync: false,
            })
            &&& edit_step(s, NavKey::Char('b')) == (s, EditOutcome {
                action: EditAction::Nothing,
                sync: false,
            })
        },
{
}

} // verus!
