//! Mouse clicks on the mixer: which pane and control a click selects, and
//! what it asks the caller to do.
use vstd::prelude::*;
use crate::areas::{HitAreas, HitResult};
use crate::controls::{ChannelControl, GlobalControl, SelectionFocus};
use crate::layout::{PaneArea, SelectedPane};
use crate::panes::PaneState;
use crate::selection::MixerSelection;

verus! {

/// Work that a click asks of the caller.
#[derive(Debug, Clone, Copy, PartialEq, Eq, Structural)]
pub enum ClickAction {
    Nothing,
    /// A vertical drag of the selected control starts at this row, from the
    /// control's current value.
    BeginDrag(u16),
    /// The button under the selection toggles.
    ToggleSelected,
    /// The pad is triggered and its sample played.
    TriggerPad(usize),
    /// The crossfader jumps to column `inner_x` of its `width` columns
    /// (left edge full A, right edge full B) and a drag starts at `start`.
    PositionCrossfader { inner_x: u16, width: u16, start: u16 },
    /// Master play/pause toggles and every deck follows.
    ToggleMasterPlay,
    /// The master mute toggles.
    ToggleMasterMute,
}

/// `s` with the focus on the global controls and `g` selected.
pub open spec fn global_selected(s: MixerSelection, g: GlobalControl) -> MixerSelection {
    MixerSelection { focus: SelectionFocus::Global, selected_global: g, ..s }
}

/// A click on the master pane: play/pause at the top, the mute and output
/// buttons on the bottom rows (left and right half), the fader in between.
pub open spec fn master_click(s: PaneState, area: PaneArea, column: u16, row: u16) -> (PaneState, ClickAction) {
    let rel_y = if row >= area.y { row - area.y } else { 0 };
    let bottom = if area.h >= 3 { area.h - 3 } else { 0 };
    let base = MixerSelection { focus: SelectionFocus::Global, ..s.selection };
    if rel_y <= 4 {
        (
            PaneState { selection: global_selected(base, GlobalControl::MasterPlayPause), ..s },
            ClickAction::ToggleMasterPlay,
        )
    } else if rel_y >= bottom {
        if column < area.x + area.w / 2 {
            (
                PaneState { selection: global_selected(base, GlobalControl::MasterMute), ..s },
                ClickAction::ToggleMasterMute,
            )
        } else {
            (
                PaneState { selection: global_selected(base, GlobalControl::MasterOutputSelect), ..s },
                ClickAction::Nothing,
            )
        }
    } else {
        (PaneState { selection: global_selected(base, GlobalControl::MasterFader), ..s }, ClickAction::BeginDrag(row))
    }
}

/// A click on the CUE pane: the send buttons on the bottom rows (left half
/// to deck A, right half to deck B), the fader above them.
pub open spec fn cue_click(s: PaneState, area: PaneArea, column: u16, row: u16) -> (PaneState, ClickAction) {
    let rel_y = if row >= area.y { row - area.y } else { 0 };
    let controls_h = if area.h >= 4 { area.h - 4 } else { 0 };
    let base = MixerSelection { focus: SelectionFocus::Channel(2), ..s.selection };
    if rel_y > controls_h {
        let c = if column < area.x + area.w / 2 {
            ChannelControl::CueSendToA
        } else {
            ChannelControl::CueSendToB
        };
        (PaneState { selection: MixerSelection { selected_control: c, ..base }, ..s }, ClickAction::ToggleSelected)
    } else {
        (
            PaneState { selection: MixerSelection { selected_control: ChannelControl::Fader, ..base }, ..s },
            ClickAction::BeginDrag(row),
        )
    }
}

/// What a left click at (`column`, `row`) does.
pub open spec fn click_step(s: PaneState, areas: HitAreas, column: u16, row: u16) -> (PaneState, ClickAction) {
    match areas.hit(column as int, row as int) {
        Some(HitResult::Channel(i, c)) => {
            let t = PaneState {
                selection: MixerSelection {
                    selected_channel: i,
                    selected_control: c,
                    focus: SelectionFocus::Channel(i),
                    ..s.selection
                },
                selected_pane: if i == 0 {
                    SelectedPane::DeckA
                } else {
                    SelectedPane::DeckB
                },
                ..s
            };
            (t, if c.continuous() {
                ClickAction::BeginDrag(row)
            } else {
                ClickAction::ToggleSelected
            })
        },
        Some(HitResult::Pad(p)) => (PaneState { selected_pane: SelectedPane::DjCenter, ..s }, ClickAction::TriggerPad(p)),
        Some(HitResult::Crossfader) => {
            let t = PaneState {
                selected_pane: SelectedPane::Crossfader,
                selection: global_selected(s.selection, GlobalControl::Crossfader),
                ..s
            };
            match areas.crossfader_area {
                Some(a) => (t, ClickAction::PositionCrossfader {
                    inner_x: if column >= a.x { (column - a.x) as u16 } else { 0 },
                    width: a.w,
                    start: row,
                }),
                None => (t, ClickAction::Nothing),
            }
        },
        Some(HitResult::Master) => {
            let t = PaneState {
                selected_pane: SelectedPane::Master,
                selection: MixerSelection { focus: SelectionFocus::Global, ..s.selection },
                ..s
            };
            match areas.master_area {
                Some(a) => master_click(t, a, column, row),
                None => (t, ClickAction::Nothing),
            }
        },
        Some(HitResult::Cue) => {
            let t = PaneState {
                selected_pane: SelectedPane::DeckC,
                selection: MixerSelection { focus: SelectionFocus::Channel(2), ..s.selection },
                ..s
            };
            match areas.cue_area {
                Some(a) => cue_click(t, a, column, row),
                None => (t, ClickAction::Nothing),
            }
        },
        Some(HitResult::Loops) => (PaneState { selected_pane: SelectedPane::Loops, ..s }, ClickAction::Nothing),
        None => (s, ClickAction::Nothing),
    }
}

impl PaneState {
    /// A click on the master pane's area.
    fn click_master(&mut self, area: PaneArea, column: u16, row: u16) -> (a: ClickAction)
        requires
            area.in_bounds(),
        ensures
            (*final(self), a) == master_click(*old(self), area, column, row),
    {
        let rel_y = row.saturating_sub(area.y);
        let h = area.h;
        self.selection.focus = SelectionFocus::Global;
        if rel_y <= 4 {
            self.selection.selected_global = GlobalControl::MasterPlayPause;
            ClickAction::ToggleMasterPlay
        } else if rel_y >= h.saturating_sub(3) {
            let mid_x = area.x + area.w / 2;
            if column < mid_x {
                self.selection.selected_global = GlobalControl::MasterMute;
                ClickAction::ToggleMasterMute
            } else {
                self.selection.selected_global = GlobalControl::MasterOutputSelect;
                ClickAction::Nothing
            }
        } else {
            self.selection.selected_global = GlobalControl::MasterFader;
            ClickAction::BeginDrag(row)
        }
    }

    /// A click on the CUE pane's area.
    fn click_cue(&mut self, area: PaneArea, column: u16, row: u16) -> (a: ClickAction)
        requires
            area.in_bounds(),
        ensures
            (*final(self), a) == cue_click(*old(self), area, column, row),
    {
        let rel_y = row.saturating_sub(area.y);
        let controls_h = area.h.saturating_sub(4);
        self.selection.focus = SelectionFocus::Channel(2);
        if rel_y > controls_h {
            let mid_x = area.x + area.w / 2;
            self.selection.selected_control = if column < mid_x {
                ChannelControl::CueSendToA
            } else {
                ChannelControl::CueSendToB
            };
            ClickAction::ToggleSelected
        } else {
            self.selection.selected_control = ChannelControl::Fader;
            ClickAction::BeginDrag(row)
        }
    }

    /// A left click on the mixer at (`column`, `row`): select what is
    /// under it and say what else it asks for.
    pub fn handle_mixer_click(&mut self, areas: &HitAreas, column: u16, row: u16) -> (a: ClickAction)
        requires
            areas.in_bounds(),
        ensures
            (*final(self), a) == click_step(*old(self), *areas, column, row),
    {
        match areas.hit_test_all(column, row) {
            Some(HitResult::Channel(channel_idx, control)) => {
                self.selection.selected_channel = channel_idx;
                self.selection.selected_control = control;
                self.selection.focus = SelectionFocus::Channel(channel_idx);
                self.selected_pane = if channel_idx == 0 {
                    SelectedPane::DeckA
                } else {
                    SelectedPane::DeckB
                };
                if control.is_continuous() {
                    ClickAction::BeginDrag(row)
                } else {
                    ClickAction::ToggleSelected
                }
            },
            Some(HitResult::Pad(pad_idx)) => {
                self.selected_pane = SelectedPane::DjCenter;
                ClickAction::TriggerPad(pad_idx)
            },
            Some(HitResult::Crossfader) => {
                self.selected_pane = SelectedPane::Crossfader;
                self.selection.focus = SelectionFocus::Global;
                self.selection.selected_global = GlobalControl::Crossfader;
                match areas.crossfader_area {
                    Some(area) => ClickAction::PositionCrossfader {
                        inner_x: column.saturating_sub(area.x),
                        width: area.w,
                        start: row,
                    },
                    None => ClickAction::Nothing,
                }
            },
            Some(HitResult::Master) => {
                self.selected_pane = SelectedPane::Master;
                self.selection.focus = SelectionFocus::Global;
                match areas.master_area {
                    Some(area) => self.click_master(area, column, row),
                    None => ClickAction::Nothing,
                }
            },
            Some(HitResult::Cue) => {
                self.selected_pane = SelectedPane::DeckC;
                self.selection.focus = SelectionFocus::Channel(2);
                match areas.cue_area {
                    Some(area) => self.click_cue(area, column, row),
                    None => ClickAction::Nothing,
                }
            },
            Some(HitResult::Loops) => {
                self.selected_pane = SelectedPane::Loops;
                ClickAction::Nothing
            },
            None => ClickAction::Nothing,
        }
    }
}

/// A click on a control of a channel strip selects that channel and that
/// control and moves the focus to that channel, whatever was focused
/// before (a deck, the master or the crossfader); the pane becomes deck A's
/// for channel 0 and deck B's for any other. The other parts of the
/// selection stay as they were. A button is toggled, a knob or fader starts
/// a drag from the clicked row.
pub proof fn lemma_channel_click_focuses_channel(
    s: PaneState,
    areas: HitAreas,
    column: u16,
    row: u16,
    i: usize,
    c: ChannelControl,
)
    requires
        areas.hit(column as int, row as int) == Some(HitResult::Channel(i, c)),
    ensures
        ({
            let (t, a) = click_step(s, areas, column, row);
            &&& t.selection.focus == SelectionFocus::Channel(i)
            &&& t.selection.selected_channel == i
            &&& t.selection.selected_control == c
            &&& t.selection.selected_global == s.selection.selected_global
            &&& t.selection.deck_a_channel == s.selection.deck_a_channel
            &&& t.selection.deck_b_channel == s.selection.deck_b_channel
            &&& t.selection.deck_c_channel == s.selection.deck_c_channel
            &&& t.selected_pane == (if i == 0 {
                SelectedPane::DeckA
            } else {
                SelectedPane::DeckB
            })
            &&& t.mode == s.mode
            &&& a == (if c.continuous() {
                ClickAction::BeginDrag(row)
            } else {
                ClickAction::ToggleSelected
            })
        }),
{
}

/// A click on a pad selects the pads' pane and triggers that pad, leaving
/// the selection alone; a click on the crossfader selects it, with the
/// focus on the global controls; a click on the master pane selects it
/// with the focus on the global controls; a click on nothing changes
/// nothing.
pub proof fn lemma_other_clicks(s: PaneState, areas: HitAreas, column: u16, row: u16)
    ensures
        ({
            let (t, a) = click_step(s, areas, column, row);
            match areas.hit(column as int, row as int) {
                Some(HitResult::Pad(p)) => t.selected_pane == SelectedPane::DjCenter && t.selection
                    == s.selection && a == ClickAction::TriggerPad(p),
                Some(HitResult::Crossfader) => t.selected_pane == SelectedPane::Crossfader
                    && t.selection.focus == SelectionFocus::Global && t.selection.selected_global
                    == GlobalControl::Crossfader && t.selection.selected_channel
                    == s.selection.selected_channel,
                Some(HitResult::Master) => t.selected_pane == SelectedPane::Master
                    && t.selection.focus == SelectionFocus::Global,
                None => t == s && a == ClickAction::Nothing,
                _ => true,
            }
        }),
{
}

} // verus!
