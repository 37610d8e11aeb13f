//! Control-select mode: moving between the controls of a pane with the
//! keyboard, and the actions that keys in this mode request.
use vstd::prelude::*;
use crate::controls::{ChannelControl, GlobalControl, SelectionFocus, SendTarget};
use crate::layout::SelectedPane;
use crate::modes::{AppMode, ConfirmAction, Deck, OutputPickerTarget};
use crate::panes::{synced, NavKey, PaneState};
use crate::selection::{moved_to, row_above, row_below, row_in, MixerSelection};

verus! {

/// A direction of movement.
#[derive(Debug, Clone, Copy, PartialEq, Eq, Structural)]
pub enum NavMove {
    Up,
    Down,
    Left,
    Right,
}

/// Work that a key in control-select mode asks for beyond the navigation
/// state: it is carried out by the caller, which owns the channels, the
/// sequences, the pads and the audio connections.
#[derive(Debug, Clone, Copy, PartialEq, Eq, Structural)]
pub enum ControlAction {
    Nothing,
    /// Sample pads become active.
    ActivatePads,
    /// Crossfader moves one step (0.05) towards deck A, then is synced.
    CrossfaderTowardsA,
    /// Crossfader moves one step (0.05) towards deck B, then is synced.
    CrossfaderTowardsB,
    /// Master play/pause toggles and every deck follows.
    ToggleMasterPlay,
    /// The loops pane moves its own selection.
    Sequence(NavMove),
    /// Enter on the loops pane acts on the selected sequence or its global bar.
    SequenceEnter,
    /// The highlighted output device is selected.
    SelectOutputDevice,
    /// Pad configuration opens on this pad, with its first control focused.
    OpenPadConfig(usize),
    /// The CUE deck is sent to deck A or B.
    SendCue(SendTarget),
    /// The output device picker opens.
    OpenOutputPicker(OutputPickerTarget),
    /// The channel's playlist steps back (false) or forward (true).
    PlaylistNav(usize, bool),
    /// The source picker opens for an empty deck.
    OpenSourcePicker(Deck),
    /// The button under the selection toggles, then is synced.
    ToggleCurrentControl,
    /// The channel's mute toggles, then is synced.
    ToggleChannelMute(usize),
    /// The master mute toggles, then both deck volumes are synced.
    ToggleMasterMute,
    /// The channel's solo toggles (saving or restoring faders), then solo is
    /// synced to every deck.
    ToggleSolo(usize),
    /// The selected control goes back to its default.
    ResetCurrentControl,
    /// A selected pan or crossfader is centred, then the control is synced.
    CenterControl,
}

/// What the caller knows of the channels and the other panes.
#[derive(Debug, Clone, Copy, PartialEq, Eq, Structural)]
pub struct ControlContext {
    /// The selected channel shows its scrubber.
    pub scrub_visible: bool,
    /// The selected channel can step through a playlist (a connected source
    /// that is not SuperCollider).
    pub can_nav: bool,
    /// The focused channel has a source connected.
    pub focus_connected: bool,
    /// The output device picker is open.
    pub output_picker_active: bool,
    /// The loops pane has a sequence or its global bar selected.
    pub sequence_focused: bool,
}

/// Number of sample pads (a 4 by 4 grid).
pub open spec fn pad_count() -> usize {
    16
}

/// The pad below `p`, wrapping from the bottom row to the top.
pub open spec fn pad_down(p: usize) -> usize {
    let row = p / 4;
    let col = p % 4;
    ((if row == 3 { 0 } else { row + 1 }) * 4 + col) as usize
}

/// The pad above `p`, wrapping from the top row to the bottom.
pub open spec fn pad_up(p: usize) -> usize {
    let row = p / 4;
    let col = p % 4;
    ((if row == 0 { 3 } else { row - 1 }) * 4 + col) as usize
}

/// The pad left of `p`, wrapping within its row.
pub open spec fn pad_left(p: usize) -> usize {
    let row = p / 4;
    let col = p % 4;
    (row * 4 + (if col == 0 { 3 } else { col - 1 })) as usize
}

/// The pad right of `p`, wrapping within its row.
pub open spec fn pad_right(p: usize) -> usize {
    let row = p / 4;
    let col = p % 4;
    (row * 4 + (if col == 3 { 0 } else { col + 1 })) as usize
}

/// The EQ band left of band `b` (wrapping).
pub open spec fn band_left(b: usize) -> usize {
    if b == 0 {
        9
    } else {
        (b - 1) as usize
    }
}

/// The EQ band right of band `b` (wrapping).
pub open spec fn band_right(b: usize) -> usize {
    ((b + 1) % 10) as usize
}

/// Moving left within a channel's EQ and filter section.
pub open spec fn eq_left(c: ChannelControl) -> ChannelControl {
    match c {
        ChannelControl::EqLow => ChannelControl::FilterCutoff,
        ChannelControl::EqLowKill => ChannelControl::EqLowKill,
        ChannelControl::EqMid => ChannelControl::EqLow,
        ChannelControl::EqMidKill => ChannelControl::EqLowKill,
        ChannelControl::EqHigh => ChannelControl::EqMid,
        ChannelControl::EqHighKill => ChannelControl::EqMidKill,
        ChannelControl::FilterCutoff => ChannelControl::EqHigh,
        ChannelControl::FilterFreq => ChannelControl::EqHigh,
        ChannelControl::LfoShape => ChannelControl::EqHigh,
        ChannelControl::LfoSpeed => ChannelControl::EqHigh,
        _ => c,
    }
}

/// Moving right within a channel's EQ and filter section.
pub open spec fn eq_right(c: ChannelControl) -> ChannelControl {
    match c {
        ChannelControl::EqLow => ChannelControl::EqMid,
        ChannelControl::EqLowKill => ChannelControl::EqMidKill,
        ChannelControl::EqMid => ChannelControl::EqHigh,
        ChannelControl::EqMidKill => ChannelControl::EqHighKill,
        ChannelControl::EqHigh => ChannelControl::FilterCutoff,
        ChannelControl::EqHighKill => ChannelControl::EqHighKill,
        ChannelControl::FilterCutoff => ChannelControl::EqLow,
        ChannelControl::FilterFreq => ChannelControl::EqLow,
        ChannelControl::LfoShape => ChannelControl::EqLow,
        ChannelControl::LfoSpeed => ChannelControl::EqLow,
        _ => c,
    }
}

/// Moving sideways on the CUE deck's button rows: M and S swap with the
/// send buttons beside them.
pub open spec fn cue_side(c: ChannelControl) -> ChannelControl {
    match c {
        ChannelControl::Mute => ChannelControl::CueSendToA,
        ChannelControl::CueSendToA => ChannelControl::Mute,
        ChannelControl::Solo => ChannelControl::CueSendToB,
        ChannelControl::CueSendToB => ChannelControl::Solo,
        _ => c,
    }
}

/// Moving sideways on a deck's button rows: BPM and key swap, mute and solo
/// swap.
pub open spec fn deck_side(c: ChannelControl) -> ChannelControl {
    match c {
        ChannelControl::Bpm => ChannelControl::Key,
        ChannelControl::Key => ChannelControl::Bpm,
        ChannelControl::Mute => ChannelControl::Solo,
        ChannelControl::Solo => ChannelControl::Mute,
        _ => c,
    }
}

/// The selection after stepping one control down a strip.
pub open spec fn sel_next(s: MixerSelection, is_cue_pane: bool, scrub_visible: bool) -> MixerSelection {
    let is_deck = s.deck(s.selected_channel);
    let cur = row_in(s.selected_control, is_deck);
    MixerSelection {
        selected_control: moved_to(
            s.selected_control,
            row_below(cur, is_deck, scrub_visible, is_cue_pane),
            is_deck || is_cue_pane,
        ),
        ..s
    }
}

/// The selection after stepping one control up a strip.
pub open spec fn sel_prev(s: MixerSelection, is_cue_pane: bool, scrub_visible: bool) -> MixerSelection {
    let is_deck = s.deck(s.selected_channel);
    let cur = row_in(s.selected_control, is_deck);
    MixerSelection {
        selected_control: moved_to(
            s.selected_control,
            row_above(cur, is_deck, scrub_visible, is_cue_pane),
            is_deck || is_cue_pane,
        ),
        ..s
    }
}

/// `s` with another channel control selected.
pub open spec fn with_control(s: PaneState, c: ChannelControl) -> PaneState {
    PaneState { selection: MixerSelection { selected_control: c, ..s.selection }, ..s }
}

/// `s` with another global control selected.
pub open spec fn with_global(s: PaneState, g: GlobalControl) -> PaneState {
    PaneState { selection: MixerSelection { selected_global: g, ..s.selection }, ..s }
}

/// A deck pane (A, B or the CUE deck C).
pub open spec fn is_deck_pane(p: SelectedPane) -> bool {
    p == SelectedPane::DeckA || p == SelectedPane::DeckB || p == SelectedPane::DeckC
}

/// The selection is in a channel's EQ or filter section.
pub open spec fn in_eq_or_filter(s: MixerSelection) -> bool {
    s.in_eq_section() || s.in_filter_section()
}

/// Moving down within the selected pane.
pub open spec fn nav_down(s: PaneState, scrub_visible: bool) -> (PaneState, ControlAction) {
    let c = s.selection.selected_control;
    let g = s.selection.selected_global;
    let is_cue = s.selected_pane == SelectedPane::DeckC;
    if is_deck_pane(s.selected_pane) {
        if in_eq_or_filter(s.selection) {
            (with_control(s, match c {
                ChannelControl::EqLow | ChannelControl::EqMid | ChannelControl::EqHigh => ChannelControl::Pan,
                ChannelControl::FilterCutoff => ChannelControl::FilterFreq,
                ChannelControl::FilterFreq => ChannelControl::LfoShape,
                ChannelControl::LfoShape => ChannelControl::LfoSpeed,
                ChannelControl::LfoSpeed => ChannelControl::Pan,
                _ => c,
            }), ControlAction::Nothing)
        } else if c == ChannelControl::Bpm || c == ChannelControl::Key {
            (with_control(s, ChannelControl::FilterCutoff), ControlAction::Nothing)
        } else if is_cue && c == ChannelControl::Mute {
            (with_control(s, ChannelControl::Solo), ControlAction::Nothing)
        } else if is_cue && (c == ChannelControl::Solo || c == ChannelControl::CueSendToB) {
            (with_control(s, ChannelControl::CueOutputSelect), ControlAction::Nothing)
        } else {
            (PaneState { selection: sel_next(s.selection, is_cue, scrub_visible), ..s }, ControlAction::Nothing)
        }
    } else if s.selected_pane == SelectedPane::DjCenter {
        match s.selected_pad_idx {
            Some(p) => (PaneState { selected_pad_idx: Some(pad_down(p)), ..s }, ControlAction::Nothing),
            None => if g == GlobalControl::Crossfader {
                (with_global(s, GlobalControl::HeadphoneVolume), ControlAction::Nothing)
            } else {
                (PaneState { selected_pad_idx: Some(0), ..s }, ControlAction::Nothing)
            },
        }
    } else if s.selected_pane == SelectedPane::Loops {
        (s, ControlAction::Sequence(NavMove::Down))
    } else if s.selected_pane == SelectedPane::Master {
        (with_global(s, if g.band_of() is Some {
            GlobalControl::MasterFader
        } else {
            match g {
                GlobalControl::MasterPlayPause => GlobalControl::MasterEq32,
                GlobalControl::MasterFader => GlobalControl::MasterMute,
                GlobalControl::MasterMute => GlobalControl::MasterPlayPause,
                GlobalControl::MasterOutputSelect => GlobalControl::MasterPlayPause,
                _ => g,
            }
        }), ControlAction::Nothing)
    } else {
        (s, ControlAction::Nothing)
    }
}

/// Moving up within the selected pane.
pub open spec fn nav_up(s: PaneState, scrub_visible: bool) -> (PaneState, ControlAction) {
    let c = s.selection.selected_control;
    let g = s.selection.selected_global;
    if is_deck_pane(s.selected_pane) {
        if in_eq_or_filter(s.selection) {
            (with_control(s, match c {
                ChannelControl::EqLow | ChannelControl::EqMid | ChannelControl::EqHigh => ChannelControl::Key,
                ChannelControl::Key => ChannelControl::Bpm,
                ChannelControl::FilterCutoff => ChannelControl::Key,
                ChannelControl::FilterFreq => ChannelControl::FilterCutoff,
                ChannelControl::LfoShape => ChannelControl::FilterFreq,
                ChannelControl::LfoSpeed => ChannelControl::LfoShape,
                _ => c,
            }), ControlAction::Nothing)
        } else if c == ChannelControl::Bpm || c == ChannelControl::Key {
            (with_control(s, ChannelControl::PlayPause), ControlAction::Nothing)
        } else if s.selected_pane == SelectedPane::DeckC {
            match c {
                ChannelControl::PlayPause | ChannelControl::PrevTrack | ChannelControl::NextTrack => (
                    with_control(s, if scrub_visible {
                        ChannelControl::Scrub
                    } else {
                        ChannelControl::CueOutputSelect
                    }),
                    ControlAction::Nothing,
                ),
                ChannelControl::Scrub => (with_control(s, ChannelControl::CueOutputSelect), ControlAction::Nothing),
                ChannelControl::CueOutputSelect => (with_control(s, ChannelControl::Solo), ControlAction::Nothing),
                ChannelControl::Solo => (with_control(s, ChannelControl::Mute), ControlAction::Nothing),
                ChannelControl::Mute | ChannelControl::CueSendToA => (
                    with_control(s, ChannelControl::Fader),
                    ControlAction::Nothing,
                ),
                _ => (PaneState { selection: sel_prev(s.selection, true, scrub_visible), ..s }, ControlAction::Nothing),
            }
        } else if c == ChannelControl::Mute || c == ChannelControl::Solo {
            (with_control(s, ChannelControl::Fader), ControlAction::Nothing)
        } else {
            (PaneState { selection: sel_prev(s.selection, false, scrub_visible), ..s }, ControlAction::Nothing)
        }
    } else if s.selected_pane == SelectedPane::DjCenter {
        match s.selected_pad_idx {
            Some(p) => (PaneState { selected_pad_idx: Some(pad_up(p)), ..s }, ControlAction::Nothing),
            None => if g == GlobalControl::Crossfader {
                (PaneState { selected_pad_idx: Some(12), ..s }, ControlAction::Nothing)
            } else {
                (with_global(s, GlobalControl::Crossfader), ControlAction::Nothing)
            },
        }
    } else if s.selected_pane == SelectedPane::Loops {
        (s, ControlAction::Sequence(NavMove::Up))
    } else if s.selected_pane == SelectedPane::Master {
        (with_global(s, if g.band_of() is Some {
            GlobalControl::MasterPlayPause
        } else {
            match g {
                GlobalControl::MasterPlayPause => GlobalControl::MasterOutputSelect,
                GlobalControl::MasterFader => GlobalControl::MasterEq16k,
                GlobalControl::MasterMute => GlobalControl::MasterFader,
                GlobalControl::MasterOutputSelect => GlobalControl::MasterFader,
                _ => g,
            }
        }), ControlAction::Nothing)
    } else {
        (s, ControlAction::Nothing)
    }
}

/// Moving sideways within the selected pane (`right` picks the direction).
pub open spec fn nav_side(s: PaneState, can_nav: bool, right: bool) -> (PaneState, ControlAction) {
    let c = s.selection.selected_control;
    let g = s.selection.selected_global;
    if s.selected_pane == SelectedPane::Loops {
        (s, ControlAction::Sequence(if right { NavMove::Right } else { NavMove::Left }))
    } else if s.selected_pane == SelectedPane::Master {
        match g.band_of() {
            Some(b) => (
                with_global(
                    s,
                    GlobalControl::eq_in_band_order()[(if right {
                        band_right(b)
                    } else {
                        band_left(b)
                    }) as int],
                ),
                ControlAction::Nothing,
            ),
            None => match g {
                GlobalControl::MasterMute => (with_global(s, GlobalControl::MasterOutputSelect), ControlAction::Nothing),
                GlobalControl::MasterOutputSelect => (with_global(s, GlobalControl::MasterMute), ControlAction::Nothing),
                GlobalControl::MasterPlayPause => (s, ControlAction::ToggleMasterPlay),
                _ => (s, ControlAction::Nothing),
            },
        }
    } else if s.selected_pane == SelectedPane::DjCenter {
        match s.selected_pad_idx {
            Some(p) => (
                PaneState {
                    selected_pad_idx: Some(if right {
                        pad_right(p)
                    } else {
                        pad_left(p)
                    }),
                    ..s
                },
                ControlAction::Nothing,
            ),
            None => (s, ControlAction::Nothing),
        }
    } else if s.selected_pane == SelectedPane::DeckC {
        (with_control(s, if in_eq_or_filter(s.selection) {
            if right {
                eq_right(c)
            } else {
                eq_left(c)
            }
        } else {
            cue_side(c)
        }), ControlAction::Nothing)
    } else if s.selected_pane == SelectedPane::DeckA || s.selected_pane == SelectedPane::DeckB {
        if c == ChannelControl::PlayPause && can_nav {
            (with_control(s, if right {
                ChannelControl::NextTrack
            } else {
                ChannelControl::PrevTrack
            }), ControlAction::Nothing)
        } else if c == (if right {
            ChannelControl::PrevTrack
        } else {
            ChannelControl::NextTrack
        }) {
            (with_control(s, ChannelControl::PlayPause), ControlAction::Nothing)
        } else {
            (with_control(s, if in_eq_or_filter(s.selection) {
                if right {
                    eq_right(c)
                } else {
                    eq_left(c)
                }
            } else {
                deck_side(c)
            }), ControlAction::Nothing)
        }
    } else {
        (s, ControlAction::Nothing)
    }
}

/// The deck whose channel is `ch` (deck A when none is).
pub open spec fn deck_for(sel: MixerSelection, ch: usize) -> Deck {
    if ch == sel.deck_a_channel {
        Deck::A
    } else if ch == sel.deck_b_channel {
        Deck::B
    } else if ch == sel.deck_c_channel {
        Deck::C
    } else {
        Deck::A
    }
}

/// What Enter (or Space) does in control-select mode.
pub open spec fn enter_step(s: PaneState, ctx: ControlContext) -> (PaneState, ControlAction) {
    let c = s.selection.selected_control;
    if ctx.output_picker_active {
        (s, ControlAction::SelectOutputDevice)
    } else if s.selected_pane == SelectedPane::DjCenter && s.selected_pad_idx is Some {
        (
            PaneState { mode: AppMode::SamplePadConfig, ..s },
            ControlAction::OpenPadConfig(s.selected_pad_idx->0),
        )
    } else if s.selected_pane == SelectedPane::Loops && ctx.sequence_focused {
        (s, ControlAction::SequenceEnter)
    } else if s.selected_pane == SelectedPane::DeckC && c == ChannelControl::CueSendToA {
        (s, ControlAction::SendCue(SendTarget::A))
    } else if s.selected_pane == SelectedPane::DeckC && c == ChannelControl::CueSendToB {
        (s, ControlAction::SendCue(SendTarget::B))
    } else if s.selected_pane == SelectedPane::DeckC && c == ChannelControl::CueOutputSelect {
        (s, ControlAction::OpenOutputPicker(OutputPickerTarget::Cue))
    } else if s.selected_pane == SelectedPane::Master && s.selection.selected_global
        == GlobalControl::MasterOutputSelect {
        (s, ControlAction::OpenOutputPicker(OutputPickerTarget::Master))
    } else if s.selection.continuous_selected() {
        (PaneState { mode: AppMode::Edit, ..s }, ControlAction::Nothing)
    } else {
        match s.selection.focus {
            SelectionFocus::Channel(ch) => if c == ChannelControl::PrevTrack {
                (s, ControlAction::PlaylistNav(ch, false))
            } else if c == ChannelControl::NextTrack {
                (s, ControlAction::PlaylistNav(ch, true))
            } else if c == ChannelControl::PlayPause && !ctx.focus_connected {
                (s, ControlAction::OpenSourcePicker(deck_for(s.selection, ch)))
            } else {
                (s, ControlAction::ToggleCurrentControl)
            },
            SelectionFocus::Global => (s, ControlAction::ToggleCurrentControl),
        }
    }
}

/// An arrow key in control-select mode: on the crossfader pane a nudge
/// (down and left towards deck A), elsewhere a move within the pane.
pub open spec fn move_step(s: PaneState, dir: NavMove, ctx: ControlContext) -> (PaneState, ControlAction) {
    if s.selected_pane == SelectedPane::Crossfader {
        (s, match dir {
            NavMove::Down | NavMove::Left => ControlAction::CrossfaderTowardsA,
            NavMove::Up | NavMove::Right => ControlAction::CrossfaderTowardsB,
        })
    } else {
        match dir {
            NavMove::Down => nav_down(s, ctx.scrub_visible),
            NavMove::Up => nav_up(s, ctx.scrub_visible),
            NavMove::Left => nav_side(s, ctx.can_nav, false),
            NavMove::Right => nav_side(s, ctx.can_nav, true),
        }
    }
}

/// What a key does in control-select mode (navigate controls within the
/// selected pane): the next state and the work asked of the caller.
pub open spec fn control_select_step(s: PaneState, key: NavKey, ctx: ControlContext) -> (PaneState, ControlAction) {
    match key {
        NavKey::Esc => (PaneState { selected_pad_idx: None, mode: AppMode::PaneSelect, ..s }, ControlAction::Nothing),
        NavKey::Tab => {
            let p = SelectedPane::at_order((s.selected_pane.order() + 1) % 7);
            (
                PaneState { selected_pad_idx: None, selected_pane: p, selection: synced(s.selection, p), ..s },
                ControlAction::Nothing,
            )
        },
        NavKey::BackTab => {
            let p = SelectedPane::at_order((s.selected_pane.order() + 6) % 7);
            (
                PaneState { selected_pad_idx: None, selected_pane: p, selection: synced(s.selection, p), ..s },
                ControlAction::Nothing,
            )
        },
        NavKey::Down => move_step(s, NavMove::Down, ctx),
        NavKey::Up => move_step(s, NavMove::Up, ctx),
        NavKey::Left => move_step(s, NavMove::Left, ctx),
        NavKey::Right => move_step(s, NavMove::Right, ctx),
        NavKey::Enter => enter_step(s, ctx),
        NavKey::Char(ch) => {
            if ch == '?' {
                (PaneState { help_scroll: 0, mode: AppMode::Help, ..s }, ControlAction::Nothing)
            } else if ch == 'p' || ch == 'P' {
                (PaneState { mode: AppMode::SamplePads, ..s }, ControlAction::ActivatePads)
            } else if ch == 'j' {
                move_step(s, NavMove::Down, ctx)
            } else if ch == 'k' {
                move_step(s, NavMove::Up, ctx)
            } else if ch == 'h' {
                move_step(s, NavMove::Left, ctx)
            } else if ch == 'l' {
                move_step(s, NavMove::Right, ctx)
            } else if ch == ' ' {
                enter_step(s, ctx)
            } else if ch == 'R' {
                match crate::panes::deck_of(s.selected_pane) {
                    Some(d) => (
                        PaneState {
                            confirm_selected: false,
                            mode: AppMode::ConfirmAction(ConfirmAction::ResetDeck(d)),
                            ..s
                        },
                        ControlAction::Nothing,
                    ),
                    None => (s, ControlAction::Nothing),
                }
            } else if ch == 'm' {
                (s, match s.selection.focus {
                    SelectionFocus::Channel(i) => ControlAction::ToggleChannelMute(i),
                    SelectionFocus::Global => if s.selected_pane == SelectedPane::Master {
                        ControlAction::ToggleMasterMute
                    } else {
                        ControlAction::Nothing
                    },
                })
            } else if ch == 's' {
                (s, match s.selection.focus {
                    SelectionFocus::Channel(i) => ControlAction::ToggleSolo(i),
                    SelectionFocus::Global => ControlAction::Nothing,
                })
            } else if ch == '0' {
                (s, ControlAction::ResetCurrentControl)
            } else if ch == 'c' || ch == 'C' {
                if s.selected_pane == SelectedPane::DjCenter && s.selected_pad_idx is Some {
                    (
                        PaneState { mode: AppMode::SamplePadConfig, ..s },
                        ControlAction::OpenPadConfig(s.selected_pad_idx->0),
                    )
                } else {
                    (s, ControlAction::CenterControl)
                }
            } else {
                (s, ControlAction::Nothing)
            }
        },
        _ => (s, ControlAction::Nothing),
    }
}

/// The pad index names a pad of the grid, if any.
pub open spec fn pads_ok(s: PaneState) -> bool {
    match s.selected_pad_idx {
        Some(p) => p < pad_count(),
        None => true,
    }
}

/// Moving left within a channel's EQ and filter section.
fn eq_left_of(c: ChannelControl) -> (r: ChannelControl)
    ensures
        r == eq_left(c),
{
    match c {
        ChannelControl::EqLow => ChannelControl::FilterCutoff,
        ChannelControl::EqLowKill => ChannelControl::EqLowKill,
        ChannelControl::EqMid => ChannelControl::EqLow,
        ChannelControl::EqMidKill => ChannelControl::EqLowKill,
        ChannelControl::EqHigh => ChannelControl::EqMid,
        ChannelControl::EqHighKill => ChannelControl::EqMidKill,
        ChannelControl::FilterCutoff => ChannelControl::EqHigh,
        ChannelControl::FilterFreq => ChannelControl::EqHigh,
        ChannelControl::LfoShape => ChannelControl::EqHigh,
        ChannelControl::LfoSpeed => ChannelControl::EqHigh,
        other => other,
    }
}

/// Moving right within a channel's EQ and filter section.
fn eq_right_of(c: ChannelControl) -> (r: ChannelControl)
    ensures
        r == eq_right(c),
{
    match c {
        ChannelControl::EqLow => ChannelControl::EqMid,
        ChannelControl::EqLowKill => ChannelControl::EqMidKill,
        ChannelControl::EqMid => ChannelControl::EqHigh,
        ChannelControl::EqMidKill => ChannelControl::EqHighKill,
        ChannelControl::EqHigh => ChannelControl::FilterCutoff,
        ChannelControl::EqHighKill => ChannelControl::EqHighKill,
        ChannelControl::FilterCutoff => ChannelControl::EqLow,
        ChannelControl::FilterFreq => ChannelControl::EqLow,
        ChannelControl::LfoShape => ChannelControl::EqLow,
        ChannelControl::LfoSpeed => ChannelControl::EqLow,
        other => other,
    }
}

impl PaneState {
    /// Navigate to next control down within current pane.  `scrub_visible`
    /// tells whether the selected channel shows its scrubber.
    pub fn navigate_control_down(&mut self, scrub_visible: bool) -> (a: ControlAction)
        requires
            pads_ok(*old(self)),
        ensures
            (*final(self), a) == nav_down(*old(self), scrub_visible),
    {
        let is_cue = match self.selected_pane {
            SelectedPane::DeckC => true,
            _ => false,
        };
        match self.selected_pane {
            SelectedPane::DeckA | SelectedPane::DeckB | SelectedPane::DeckC => {
                if self.selection.is_in_eq_or_filter_section() {
                    self.selection.selected_control = match self.selection.selected_control {
                        ChannelControl::EqLow | ChannelControl::EqMid | ChannelControl::EqHigh => ChannelControl::Pan,
                        ChannelControl::FilterCutoff => ChannelControl::FilterFreq,
                        ChannelControl::FilterFreq => ChannelControl::LfoShape,
                        ChannelControl::LfoShape => ChannelControl::LfoSpeed,
                        ChannelControl::LfoSpeed => ChannelControl::Pan,
                        other => other,
                    };
                } else {
                    match self.selection.selected_control {
                        ChannelControl::Bpm | ChannelControl::Key => {
                            self.selection.selected_control = ChannelControl::FilterCutoff;
                        },
                        ChannelControl::Mute if is_cue => {
                            self.selection.selected_control = ChannelControl::Solo;
                        },
                        ChannelControl::Solo if is_cue => {
                            self.selection.selected_control = ChannelControl::CueOutputSelect;
                        },
                        ChannelControl::CueSendToB if is_cue => {
                            self.selection.selected_control = ChannelControl::CueOutputSelect;
                        },
                        _ => {
                            self.selection.select_next_control(is_cue, scrub_visible);
                        },
                    }
                }
                ControlAction::Nothing
            },
            SelectedPane::DjCenter => {
                match self.selected_pad_idx {
                    Some(pad_idx) => {
                        let row = pad_idx / 4;
                        let col = pad_idx % 4;
                        let new_row = if row == 3 {
                            0
                        } else {
                            row + 1
                        };
                        self.selected_pad_idx = Some(new_row * 4 + col);
                    },
                    None => {
                        if matches!(self.selection.selected_global, GlobalControl::Crossfader) {
                            self.selection.selected_global = GlobalControl::HeadphoneVolume;
                        } else {
                            self.selected_pad_idx = Some(0);
                        }
                    },
                }
                ControlAction::Nothing
            },
            SelectedPane::Loops => ControlAction::Sequence(NavMove::Down),
            SelectedPane::Crossfader => ControlAction::Nothing,
            SelectedPane::Master => {
                if self.selection.selected_global.eq_band_index().is_some() {
                    self.selection.selected_global = GlobalControl::MasterFader;
                } else {
                    self.selection.selected_global = match self.selection.selected_global {
                        GlobalControl::MasterPlayPause => GlobalControl::MasterEq32,
                        GlobalControl::MasterFader => GlobalControl::MasterMute,
                        GlobalControl::MasterMute => GlobalControl::MasterPlayPause,
                        GlobalControl::MasterOutputSelect => GlobalControl::MasterPlayPause,
                        other => other,
                    };
                }
                ControlAction::Nothing
            },
        }
    }

    /// Navigate to next control up within current pane.
    pub fn navigate_control_up(&mut self, scrub_visible: bool) -> (a: ControlAction)
        requires
            pads_ok(*old(self)),
        ensures
            (*final(self), a) == nav_up(*old(self), scrub_visible),
    {
        match self.selected_pane {
            SelectedPane::DeckA | SelectedPane::DeckB | SelectedPane::DeckC => {
                if self.selection.is_in_eq_or_filter_section() {
                    self.selection.selected_control = match self.selection.selected_control {
                        ChannelControl::EqLow | ChannelControl::EqMid | ChannelControl::EqHigh => ChannelControl::Key,
                        ChannelControl::Key => ChannelControl::Bpm,
                        ChannelControl::FilterCutoff => ChannelControl::Key,
                        ChannelControl::FilterFreq => ChannelControl::FilterCutoff,
                        ChannelControl::LfoShape => ChannelControl::FilterFreq,
                        ChannelControl::LfoSpeed => ChannelControl::LfoShape,
                        other => other,
                    };
                } else {
                    match self.selected_pane {
                        SelectedPane::DeckC => {
                            match self.selection.selected_control {
                                ChannelControl::Bpm | ChannelControl::Key => {
                                    self.selection.selected_control = ChannelControl::PlayPause;
                                },
                                ChannelControl::PlayPause | ChannelControl::PrevTrack | ChannelControl::NextTrack => {
                                    self.selection.selected_control = if scrub_visible {
                                        ChannelControl::Scrub
                                    } else {
                                        ChannelControl::CueOutputSelect
                                    };
                                },
                                ChannelControl::Scrub => {
                                    self.selection.selected_control = ChannelControl::CueOutputSelect;
                                },
                                ChannelControl::CueOutputSelect => {
                                    self.selection.selected_control = ChannelControl::Solo;
                                },
                                ChannelControl::Solo => {
                                    self.selection.selected_control = ChannelControl::Mute;
                                },
                                ChannelControl::Mute | ChannelControl::CueSendToA => {
                                    self.selection.selected_control = ChannelControl::Fader;
                                },
                                _ => self.selection.select_prev_control(true, scrub_visible),
                            }
                        },
                        _ => {
                            match self.selection.selected_control {
                                ChannelControl::Bpm | ChannelControl::Key => {
                                    self.selection.selected_control = ChannelControl::PlayPause;
                                },
                                ChannelControl::Mute | ChannelControl::Solo => {
                                    self.selection.selected_control = ChannelControl::Fader;
                                },
                                _ => self.selection.select_prev_control(false, scrub_visible),
                            }
                        },
                    }
                }
                ControlAction::Nothing
            },
            SelectedPane::DjCenter => {
                match self.selected_pad_idx {
                    Some(pad_idx) => {
                        let row = pad_idx / 4;
                        let col = pad_idx % 4;
                        let new_row = if row == 0 {
                            3
                        } else {
                            row - 1
                        };
                        self.selected_pad_idx = Some(new_row * 4 + col);
                    },
                    None => {
                        if matches!(self.selection.selected_global, GlobalControl::Crossfader) {
                            self.selected_pad_idx = Some(12);
                        } else {
                            self.selection.selected_global = GlobalControl::Crossfader;
                        }
                    },
                }
                ControlAction::Nothing
            },
            SelectedPane::Loops => ControlAction::Sequence(NavMove::Up),
            SelectedPane::Crossfader => ControlAction::Nothing,
            SelectedPane::Master => {
                if self.selection.selected_global.eq_band_index().is_some() {
                    self.selection.selected_global = GlobalControl::MasterPlayPause;
                } else {
                    self.selection.selected_global = match self.selection.selected_global {
                        GlobalControl::MasterPlayPause => GlobalControl::MasterOutputSelect,
                        GlobalControl::MasterFader => GlobalControl::MasterEq16k,
                        GlobalControl::MasterMute => GlobalControl::MasterFader,
                        GlobalControl::MasterOutputSelect => GlobalControl::MasterFader,
                        other => other,
                    };
                }
                ControlAction::Nothing
            },
        }
    }

    /// Navigate left (`right` false) or right (`right` true) within the
    /// current pane.  `can_nav` tells whether the selected channel can step
    /// through a playlist.
    fn navigate_control_side(&mut self, can_nav: bool, right: bool) -> (a: ControlAction)
        requires
            pads_ok(*old(self)),
        ensures
            (*final(self), a) == nav_side(*old(self), can_nav, right),
    {
        match self.selected_pane {
            SelectedPane::Loops => ControlAction::Sequence(
                if right {
                    NavMove::Right
                } else {
                    NavMove::Left
                },
            ),
            SelectedPane::Master => {
                match self.selection.selected_global.eq_band_index() {
                    Some(b) => {
                        let eq_variants = GlobalControl::all_eq_variants();
                        let idx = if right {
                            (b + 1) % 10
                        } else if b == 0 {
                            9
                        } else {
                            b - 1
                        };
                        proof {
                            crate::controls::lemma_eq_variants_match_bands(b as int, self.selection.selected_global);
                        }
                        self.selection.selected_global = eq_variants[idx];
                        ControlAction::Nothing
                    },
                    None => {
                        match self.selection.selected_global {
                            GlobalControl::MasterMute => {
                                self.selection.selected_global = GlobalControl::MasterOutputSelect;
                                ControlAction::Nothing
                            },
                            GlobalControl::MasterOutputSelect => {
                                self.selection.selected_global = GlobalControl::MasterMute;
                                ControlAction::Nothing
                            },
                            GlobalControl::MasterPlayPause => ControlAction::ToggleMasterPlay,
                            _ => ControlAction::Nothing,
                        }
                    },
                }
            },
            SelectedPane::DjCenter => {
                if let Some(pad_idx) = self.selected_pad_idx {
                    let row = pad_idx / 4;
                    let col = pad_idx % 4;
                    let new_col = if right {
                        if col == 3 {
                            0
                        } else {
                            col + 1
                        }
                    } else if col == 0 {
                        3
                    } else {
                        col - 1
                    };
                    self.selected_pad_idx = Some(row * 4 + new_col);
                }
                ControlAction::Nothing
            },
            SelectedPane::DeckC => {
                let c = self.selection.selected_control;
                self.selection.selected_control = if self.selection.is_in_eq_or_filter_section() {
                    if right {
                        eq_right_of(c)
                    } else {
                        eq_left_of(c)
                    }
                } else {
                    match c {
                        ChannelControl::Mute => ChannelControl::CueSendToA,
                        ChannelControl::CueSendToA => ChannelControl::Mute,
                        ChannelControl::Solo => ChannelControl::CueSendToB,
                        ChannelControl::CueSendToB => ChannelControl::Solo,
                        other => other,
                    }
                };
                ControlAction::Nothing
            },
            SelectedPane::DeckA | SelectedPane::DeckB => {
                let c = self.selection.selected_control;
                let towards_play = if right {
                    matches!(c, ChannelControl::PrevTrack)
                } else {
                    matches!(c, ChannelControl::NextTrack)
                };
                if matches!(c, ChannelControl::PlayPause) && can_nav {
                    self.selection.selected_control = if right {
                        ChannelControl::NextTrack
                    } else {
                        ChannelControl::PrevTrack
                    };
                } else if towards_play {
                    self.selection.selected_control = ChannelControl::PlayPause;
                } else if self.selection.is_in_eq_or_filter_section() {
                    self.selection.selected_control = if right {
                        eq_right_of(c)
                    } else {
                        eq_left_of(c)
                    };
                } else {
                    self.selection.selected_control = match c {
                        ChannelControl::Bpm => ChannelControl::Key,
                        ChannelControl::Key => ChannelControl::Bpm,
                        ChannelControl::Mute => ChannelControl::Solo,
                        ChannelControl::Solo => ChannelControl::Mute,
                        other => other,
                    };
                }
                ControlAction::Nothing
            },
            SelectedPane::Crossfader => ControlAction::Nothing,
        }
    }

    /// Navigate left within current pane.
    pub fn navigate_control_left(&mut self, can_nav: bool) -> (a: ControlAction)
        requires
            pads_ok(*old(self)),
        ensures
            (*final(self), a) == nav_side(*old(self), can_nav, false),
    {
        self.navigate_control_side(can_nav, false)
    }

    /// Navigate right within current pane.
    pub fn navigate_control_right(&mut self, can_nav: bool) -> (a: ControlAction)
        requires
            pads_ok(*old(self)),
        ensures
            (*final(self), a) == nav_side(*old(self), can_nav, true),
    {
        self.navigate_control_side(can_nav, true)
    }

    /// Enter or Space in control-select mode.
    fn control_enter(&mut self, ctx: ControlContext) -> (a: ControlAction)
        ensures
            (*final(self), a) == enter_step(*old(self), ctx),
    {
        let c = self.selection.selected_control;
        let pane = self.selected_pane;
        if ctx.output_picker_active {
            return ControlAction::SelectOutputDevice;
        }
        if matches!(pane, SelectedPane::DjCenter) {
            if let Some(pad_idx) = self.selected_pad_idx {
                self.mode = AppMode::SamplePadConfig;
                return ControlAction::OpenPadConfig(pad_idx);
            }
        }
        if matches!(pane, SelectedPane::Loops) && ctx.sequence_focused {
            return ControlAction::SequenceEnter;
        }
        if matches!(pane, SelectedPane::DeckC) {
            match c {
                ChannelControl::CueSendToA => {
                    return ControlAction::SendCue(SendTarget::A);
                },
                ChannelControl::CueSendToB => {
                    return ControlAction::SendCue(SendTarget::B);
                },
                ChannelControl::CueOutputSelect => {
                    return ControlAction::OpenOutputPicker(OutputPickerTarget::Cue);
                },
                _ => {},
            }
        }
        if matches!(pane, SelectedPane::Master) && matches!(
            self.selection.selected_global,
            GlobalControl::MasterOutputSelect
        ) {
            return ControlAction::OpenOutputPicker(OutputPickerTarget::Master);
        }
        if self.selection.is_current_control_continuous() {
            self.mode = AppMode::Edit;
            return ControlAction::Nothing;
        }
        match self.selection.focus {
            SelectionFocus::Channel(ch_idx) => {
                match c {
                    ChannelControl::PrevTrack => ControlAction::PlaylistNav(ch_idx, false),
                    ChannelControl::NextTrack => ControlAction::PlaylistNav(ch_idx, true),
                    ChannelControl::PlayPause if !ctx.focus_connected => {
                        let deck = if ch_idx == self.selection.deck_a_channel {
                            Deck::A
                        } else if ch_idx == self.selection.deck_b_channel {
                            Deck::B
                        } else if ch_idx == self.selection.deck_c_channel {
                            Deck::C
                        } else {
                            Deck::A
                        };
                        ControlAction::OpenSourcePicker(deck)
                    },
                    _ => ControlAction::ToggleCurrentControl,
                }
            },
            SelectionFocus::Global => ControlAction::ToggleCurrentControl,
        }
    }

    /// Handle a key in control-select mode (navigate controls within the
    /// selected pane).
    pub fn handle_control_select_key(&mut self, key: NavKey, ctx: ControlContext) -> (a: ControlAction)
        requires
            pads_ok(*old(self)),
        ensures
            (*final(self), a) == control_select_step(*old(self), key, ctx),
    {
        let xfade = matches!(self.selected_pane, SelectedPane::Crossfader);
        match key {
            NavKey::Esc => {
                self.selected_pad_idx = None;
                self.mode = AppMode::PaneSelect;
                ControlAction::Nothing
            },
            NavKey::Tab | NavKey::BackTab => {
                self.selected_pad_idx = None;
                self.selected_pane = if matches!(key, NavKey::Tab) {
                    self.selected_pane.next()
                } else {
                    self.selected_pane.prev()
                };
                let pane = self.selected_pane;
                self.selection.sync_pane_to_mixer(pane);
                ControlAction::Nothing
            },
            NavKey::Enter => self.control_enter(ctx),
            NavKey::Down => self.control_move(NavMove::Down, xfade, ctx),
            NavKey::Up => self.control_move(NavMove::Up, xfade, ctx),
            NavKey::Left => self.control_move(NavMove::Left, xfade, ctx),
            NavKey::Right => self.control_move(NavMove::Right, xfade, ctx),
            NavKey::Char(ch) => self.control_char(ch, ctx),
            _ => ControlAction::Nothing,
        }
    }

    /// Ask to reset the selected deck's controls, on a deck pane.
    fn confirm_reset_deck(&mut self)
        ensures
            *final(self) == match crate::panes::deck_of(old(self).selected_pane) {
                Some(d) => PaneState {
                    confirm_selected: false,
                    mode: AppMode::ConfirmAction(ConfirmAction::ResetDeck(d)),
                    ..*old(self)
                },
                None => *old(self),
            },
    {
        let deck = match self.selected_pane {
            SelectedPane::DeckA => Some(Deck::A),
            SelectedPane::DeckB => Some(Deck::B),
            SelectedPane::DeckC => Some(Deck::C),
            _ => None,
        };
        match deck {
            Some(d) => {
                self.confirm_selected = false;
                self.mode = AppMode::ConfirmAction(ConfirmAction::ResetDeck(d));
            },
            None => {},
        }
    }

    /// A character key in control-select mode.
    fn control_char(&mut self, ch: char, ctx: ControlContext) -> (a: ControlAction)
        requires
            pads_ok(*old(self)),
        ensures
            (*final(self), a) == control_select_step(*old(self), NavKey::Char(ch), ctx),
    {
        let xfade = matches!(self.selected_pane, SelectedPane::Crossfader);
        if ch == '?' {
            self.help_scroll = 0;
            self.mode = AppMode::Help;
            ControlAction::Nothing
        } else if ch == 'p' || ch == 'P' {
            self.mode = AppMode::SamplePads;
            ControlAction::ActivatePads
        } else if ch == 'j' {
            self.control_move(NavMove::Down, xfade, ctx)
        } else if ch == 'k' {
            self.control_move(NavMove::Up, xfade, ctx)
        } else if ch == 'h' {
            self.control_move(NavMove::Left, xfade, ctx)
        } else if ch == 'l' {
            self.control_move(NavMove::Right, xfade, ctx)
        } else if ch == ' ' {
            self.control_enter(ctx)
        } else if ch == 'R' {
            self.confirm_reset_deck();
            ControlAction::Nothing
        } else if ch == 'm' {
            match self.selection.focus {
                SelectionFocus::Channel(i) => ControlAction::ToggleChannelMute(i),
                SelectionFocus::Global => if matches!(self.selected_pane, SelectedPane::Master) {
                    ControlAction::ToggleMasterMute
                } else {
                    ControlAction::Nothing
                },
            }
        } else if ch == 's' {
            match self.selection.focus {
                SelectionFocus::Channel(i) => ControlAction::ToggleSolo(i),
                SelectionFocus::Global => ControlAction::Nothing,
            }
        } else if ch == '0' {
            ControlAction::ResetCurrentControl
        } else if ch == 'c' || ch == 'C' {
            let on_pads = matches!(self.selected_pane, SelectedPane::DjCenter);
            match self.selected_pad_idx {
                Some(pad_idx) => {
                    if on_pads {
                        self.mode = AppMode::SamplePadConfig;
                        ControlAction::OpenPadConfig(pad_idx)
                    } else {
                        ControlAction::CenterControl
                    }
                },
                None => ControlAction::CenterControl,
            }
        } else {
            ControlAction::Nothing
        }
    }

    /// An arrow key: a crossfader nudge on the crossfader pane, else a move
    /// within the pane.
    fn control_move(&mut self, dir: NavMove, xfade: bool, ctx: ControlContext) -> (a: ControlAction)
        requires
            pads_ok(*old(self)),
            xfade == (old(self).selected_pane == SelectedPane::Crossfader),
        ensures
            (*final(self), a) == move_step(*old(self), dir, ctx),
    {
        match dir {
            NavMove::Down => if xfade {
                ControlAction::CrossfaderTowardsA
            } else {
                self.navigate_control_down(ctx.scrub_visible)
            },
            NavMove::Up => if xfade {
                ControlAction::CrossfaderTowardsB
            } else {
                self.navigate_control_up(ctx.scrub_visible)
            },
            NavMove::Left => if xfade {
                ControlAction::CrossfaderTowardsA
            } else {
                self.navigate_control_left(ctx.can_nav)
            },
            NavMove::Right => if xfade {
                ControlAction::CrossfaderTowardsB
            } else {
                self.navigate_control_right(ctx.can_nav)
            },
        }
    }
}


/// Moves on the pad grid stay on the grid and undo each other: down after
/// up, up after down, left after right and right after left each return to
/// the pad they started from.
pub proof fn lemma_pad_moves_undo(p: usize)
    requires
        p < pad_count(),
    ensures
        pad_down(p) < pad_count(),
        pad_up(p) < pad_count(),
        pad_left(p) < pad_count(),
        pad_right(p) < pad_count(),
        pad_up(pad_down(p)) == p,
        pad_down(pad_up(p)) == p,
        pad_left(pad_right(p)) == p,
        pad_right(pad_left(p)) == p,
{
    assert(pad_up(pad_down(p)) == p && pad_down(pad_up(p)) == p && pad_left(pad_right(p)) == p
        && pad_right(pad_left(p)) == p && pad_down(p) < 16 && pad_up(p) < 16 && pad_left(p) < 16
        && pad_right(p) < 16) by (bit_vector)
        requires
            p < 16,
    ;
}

/// On the sample pads, a vertical or sideways move and the opposite move
/// bring the selection back to the same pad.
pub proof fn lemma_pad_navigation_undo(s: PaneState, can_nav: bool, scrub_visible: bool)
    requires
        s.selected_pane == SelectedPane::DjCenter,
        s.selected_pad_idx is Some,
        pads_ok(s),
    ensures
        nav_up(nav_down(s, scrub_visible).0, scrub_visible).0 == s,
        nav_down(nav_up(s, scrub_visible).0, scrub_visible).0 == s,
        nav_side(nav_side(s, can_nav, true).0, can_nav, false).0 == s,
        nav_side(nav_side(s, can_nav, false).0, can_nav, true).0 == s,
{
    lemma_pad_moves_undo(s.selected_pad_idx->0);
}

/// On the master EQ, moving right then left (or left then right) returns to
/// the same band, and sideways moves never leave the EQ bands.
pub proof fn lemma_master_eq_navigation_undo(s: PaneState, can_nav: bool, right: bool)
    requires
        s.selected_pane == SelectedPane::Master,
        s.selection.selected_global.band_of() is Some,
    ensures
        nav_side(s, can_nav, right).0.selection.selected_global.band_of() is Some,
        nav_side(nav_side(s, can_nav, right).0, can_nav, !right).0 == s,
{
    let g = s.selection.selected_global;
    let b = g.band_of()->0;
    crate::controls::lemma_eq_variants_match_bands(b as int, g);
    let order = GlobalControl::eq_in_band_order();
    let nb = if right {
        band_right(b)
    } else {
        band_left(b)
    };
    crate::controls::lemma_eq_variants_match_bands(nb as int, order[nb as int]);
    assert(order[b as int] == g);
}

/// On the CUE deck's button rows a sideways move is the same either way and
/// undoes itself: M and S swap with the send buttons beside them.
pub proof fn lemma_cue_buttons_swap(s: PaneState, can_nav: bool)
    requires
        s.selected_pane == SelectedPane::DeckC,
        !in_eq_or_filter(s.selection),
    ensures
        nav_side(s, can_nav, true) == nav_side(s, can_nav, false),
        nav_side(nav_side(s, can_nav, true).0, can_nav, true).0 == s,
{
}

/// Every key in control-select mode keeps the pad selection on the grid.
#[verifier::rlimit(40)]
pub proof fn lemma_control_keys_keep_pads(s: PaneState, key: NavKey, ctx: ControlContext)
    requires
        pads_ok(s),
    ensures
        pads_ok(control_select_step(s, key, ctx).0),
{
    if let Some(p) = s.selected_pad_idx {
        lemma_pad_moves_undo(p);
    }
}

/// On a deck's pane with a channel focused and no output picker open,
/// Enter (or Space) on the channel's previous-track button asks for the
/// previous track of that channel (`PlaylistNav(ch, false)`) and on its
/// next-track button for the next one (`PlaylistNav(ch, true)`): the two
/// buttons go in opposite directions, and neither changes the state.
pub proof fn lemma_track_buttons_are_opposite(s: PaneState, ctx: ControlContext, ch: usize)
    requires
        s.selected_pane == SelectedPane::DeckA || s.selected_pane == SelectedPane::DeckB
            || s.selected_pane == SelectedPane::DeckC,
        s.selection.focus == SelectionFocus::Channel(ch),
        !ctx.output_picker_active,
    ensures
        s.selection.selected_control == ChannelControl::PrevTrack ==> {
            &&& control_select_step(s, NavKey::Enter, ctx) == (s, ControlAction::PlaylistNav(ch, false))
            &&& control_select_step(s, NavKey::Char(' '), ctx) == (s, ControlAction::PlaylistNav(ch, false))
        },
        s.selection.selected_control == ChannelControl::NextTrack ==> {
            &&& control_select_step(s, NavKey::Enter, ctx) == (s, ControlAction::PlaylistNav(ch, true))
            &&& control_select_step(s, NavKey::Char(' '), ctx) == (s, ControlAction::PlaylistNav(ch, true))
        },
{
}

/// On the CUE pane (deck C) with no output picker open, Enter on `-> A`
/// sends the CUE deck to deck A, on `-> B` to deck B, and on the output
/// select opens the CUE output picker; none of them changes the state.
pub proof fn lemma_cue_buttons_act(s: PaneState, ctx: ControlContext)
    requires
        s.selected_pane == SelectedPane::DeckC,
        !ctx.output_picker_active,
    ensures
        s.selection.selected_control == ChannelControl::CueSendToA ==> control_select_step(
            s,
            NavKey::Enter,
            ctx,
        ) == (s, ControlAction::SendCue(SendTarget::A)),
        s.selection.selected_control == ChannelControl::CueSendToB ==> control_select_step(
            s,
            NavKey::Enter,
            ctx,
        ) == (s, ControlAction::SendCue(SendTarget::B)),
        s.selection.selected_control == ChannelControl::CueOutputSelect ==> control_select_step(
            s,
            NavKey::Enter,
            ctx,
        ) == (s, ControlAction::OpenOutputPicker(OutputPickerTarget::Cue)),
{
}

} // verus!
