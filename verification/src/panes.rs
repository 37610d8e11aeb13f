//! Pane-select mode: moving between the panes of the mixer with the
//! keyboard, and the actions that keys in this mode request.
use vstd::prelude::*;
use crate::controls::{GlobalControl, SelectionFocus};
use crate::layout::{lemma_layout_shows_selection, lemma_window_range, window_of, MixerLayout, SelectedPane};
use crate::modes::{AppMode, ConfirmAction, Deck};
use crate::selection::MixerSelection;

verus! {

/// A key press, as far as navigation cares.
#[derive(Debug, Clone, Copy, PartialEq, Eq, Structural)]
pub enum NavKey {
    Esc,
    Tab,
    BackTab,
    Enter,
    Left,
    Right,
    Up,
    Down,
    PageUp,
    PageDown,
    Home,
    End,
    Backspace,
    F(u8),
    Char(char),
    Other,
}

/// Work that a key asks for beyond the navigation state: it is carried out
/// by the caller, which owns the channels and the audio connections.
#[derive(Debug, Clone, Copy, PartialEq, Eq, Structural)]
pub enum PaneAction {
    Nothing,
    /// Sample pads become active.
    ActivatePads,
    /// Crossfader slammed fully to deck A, then synced.
    SlamCrossfaderA,
    /// Crossfader slammed fully to deck B, then synced.
    SlamCrossfaderB,
    /// Pad configuration opens on this pad, with its first control focused.
    OpenPadConfig(usize),
    /// The channel's mute toggles, then is synced.
    ToggleChannelMute(usize),
    /// The master mute toggles, then both deck volumes are synced.
    ToggleMasterMute,
    /// The channel's solo toggles (saving or restoring faders), then solo is
    /// synced to every deck.
    ToggleSolo(usize),
}

/// The navigation state of the application.
#[derive(Debug, Clone, Copy, PartialEq, Eq, Structural)]
pub struct PaneState {
    pub mode: AppMode,
    pub selected_pane: SelectedPane,
    /// Currently selected pad in DJ center (when navigating pads)
    pub selected_pad_idx: Option<usize>,
    pub selection: MixerSelection,
    /// Confirm dialog selection (true = Y focused, false = N focused)
    pub confirm_selected: bool,
    /// Help panel scroll offset
    pub help_scroll: usize,
    /// Terminal width for horizontal pane scrolling
    pub term_width: u16,
    /// Current mixer window bounds (column indices)
    pub mixer_window_start: usize,
    pub mixer_window_end: usize,
}

/// Visible mixer columns `(start, end)` for a viewport width, the selected
/// pane and the current window.
pub open spec fn visible_window(vw: u16, pane: SelectedPane, cs: usize, ce: usize) -> (int, int) {
    if vw >= 108 {
        (0, 4)
    } else {
        window_of(vw as int, pane, Some(cs), Some(ce))
    }
}

/// Pane to the right in the mixer layout (DeckA, Crossfader, DeckB, DeckC,
/// Master, wrapping round).
pub open spec fn pane_right(p: SelectedPane) -> SelectedPane {
    match p {
        SelectedPane::DeckA => SelectedPane::Crossfader,
        SelectedPane::DjCenter | SelectedPane::Loops => SelectedPane::DeckB,
        SelectedPane::DeckB => SelectedPane::DeckC,
        SelectedPane::DeckC => SelectedPane::Master,
        SelectedPane::Master => SelectedPane::DeckA,
        SelectedPane::Crossfader => SelectedPane::DeckB,
    }
}

/// Pane to the left in the mixer layout.
pub open spec fn pane_left(p: SelectedPane) -> SelectedPane {
    match p {
        SelectedPane::DeckA => SelectedPane::Master,
        SelectedPane::DjCenter | SelectedPane::Loops => SelectedPane::DeckA,
        SelectedPane::DeckB => SelectedPane::Crossfader,
        SelectedPane::DeckC => SelectedPane::DeckB,
        SelectedPane::Master => SelectedPane::DeckC,
        SelectedPane::Crossfader => SelectedPane::DeckA,
    }
}

/// Pane below (DjCenter, Loops, Crossfader, DeckB, DeckC, Master, DeckA,
/// wrapping round).
pub open spec fn pane_down(p: SelectedPane) -> SelectedPane {
    match p {
        SelectedPane::DjCenter => SelectedPane::Loops,
        SelectedPane::Loops => SelectedPane::Crossfader,
        SelectedPane::Crossfader => SelectedPane::DeckB,
        SelectedPane::DeckB => SelectedPane::DeckC,
        SelectedPane::DeckC => SelectedPane::Master,
        SelectedPane::Master => SelectedPane::DeckA,
        SelectedPane::DeckA => SelectedPane::DjCenter,
    }
}

/// Pane above.
pub open spec fn pane_up(p: SelectedPane) -> SelectedPane {
    match p {
        SelectedPane::DjCenter => SelectedPane::DeckA,
        SelectedPane::Loops => SelectedPane::DjCenter,
        SelectedPane::Crossfader => SelectedPane::Loops,
        SelectedPane::DeckB => SelectedPane::Crossfader,
        SelectedPane::DeckC => SelectedPane::DeckB,
        SelectedPane::Master => SelectedPane::DeckC,
        SelectedPane::DeckA => SelectedPane::Master,
    }
}

/// The mixer selection once it points at a pane (see `sync_pane_to_mixer`).
pub open spec fn synced(sel: MixerSelection, pane: SelectedPane) -> MixerSelection {
    match pane {
        SelectedPane::DeckA => MixerSelection {
            focus: SelectionFocus::Channel(sel.deck_a_channel),
            selected_channel: sel.deck_a_channel,
            selected_control: crate::controls::ChannelControl::Fader,
            ..sel
        },
        SelectedPane::DeckB => MixerSelection {
            focus: SelectionFocus::Channel(sel.deck_b_channel),
            selected_channel: sel.deck_b_channel,
            selected_control: crate::controls::ChannelControl::Fader,
            ..sel
        },
        SelectedPane::DeckC => MixerSelection {
            focus: SelectionFocus::Channel(2),
            selected_channel: 2,
            selected_control: crate::controls::ChannelControl::Fader,
            ..sel
        },
        SelectedPane::DjCenter | SelectedPane::Crossfader => MixerSelection {
            focus: SelectionFocus::Global,
            selected_global: GlobalControl::Crossfader,
            ..sel
        },
        SelectedPane::Master => MixerSelection {
            focus: SelectionFocus::Global,
            selected_global: GlobalControl::MasterPlayPause,
            ..sel
        },
        SelectedPane::Loops => MixerSelection { focus: SelectionFocus::Global, ..sel },
    }
}

/// The state after moving to a pane: no pad selected, the mixer selection
/// pointed at the pane, and the mixer window scrolled to show it.
pub open spec fn moved_to_pane(s: PaneState, pane: SelectedPane) -> PaneState {
    let vw = if s.term_width > 1 {
        s.term_width
    } else {
        1
    };
    let w = visible_window(vw, pane, s.mixer_window_start, s.mixer_window_end);
    PaneState {
        selected_pad_idx: None,
        selected_pane: pane,
        selection: synced(s.selection, pane),
        mixer_window_start: w.0 as usize,
        mixer_window_end: w.1 as usize,
        ..s
    }
}

/// The deck shown by a pane, for the deck panes.
pub open spec fn deck_of(p: SelectedPane) -> Option<Deck> {
    match p {
        SelectedPane::DeckA => Some(Deck::A),
        SelectedPane::DeckB => Some(Deck::B),
        SelectedPane::DeckC => Some(Deck::C),
        _ => None,
    }
}

/// What a key does in pane-select mode: the next state and the work asked of
/// the caller.
pub open spec fn pane_select_step(s: PaneState, key: NavKey) -> (PaneState, PaneAction) {
    match key {
        NavKey::Char('?') => (PaneState { help_scroll: 0, mode: AppMode::Help, ..s }, PaneAction::Nothing),
        NavKey::Char('p') | NavKey::Char('P') => (
            PaneState { mode: AppMode::SamplePads, ..s },
            PaneAction::ActivatePads,
        ),
        NavKey::Tab => (moved_to_pane(s, SelectedPane::at_order((s.selected_pane.order() + 1) % 7)), PaneAction::Nothing),
        NavKey::BackTab => (moved_to_pane(s, SelectedPane::at_order((s.selected_pane.order() + 6) % 7)), PaneAction::Nothing),
        NavKey::Char('l') | NavKey::Right => (moved_to_pane(s, pane_right(s.selected_pane)), PaneAction::Nothing),
        NavKey::Char('h') | NavKey::Left => (moved_to_pane(s, pane_left(s.selected_pane)), PaneAction::Nothing),
        NavKey::Char('j') | NavKey::Down => (moved_to_pane(s, pane_down(s.selected_pane)), PaneAction::Nothing),
        NavKey::Char('k') | NavKey::Up => (moved_to_pane(s, pane_up(s.selected_pane)), PaneAction::Nothing),
        NavKey::Char('a') => (s, if s.selected_pane == SelectedPane::Crossfader {
            PaneAction::SlamCrossfaderA
        } else {
            PaneAction::Nothing
        }),
        NavKey::Char('b') => (s, if s.selected_pane == SelectedPane::Crossfader {
            PaneAction::SlamCrossfaderB
        } else {
            PaneAction::Nothing
        }),
        NavKey::Enter | NavKey::Char(' ') => if s.selected_pane == SelectedPane::Crossfader {
            (
                PaneState {
                    selection: MixerSelection {
                        focus: SelectionFocus::Global,
                        selected_global: GlobalControl::Crossfader,
                        ..s.selection
                    },
                    mode: AppMode::Edit,
                    ..s
                },
                PaneAction::Nothing,
            )
        } else {
            (
                PaneState {
                    mode: AppMode::ControlSelect,
                    selected_pad_idx: if s.selected_pane == SelectedPane::DjCenter {
                        Some(0)
                    } else {
                        s.selected_pad_idx
                    },
                    selection: synced(s.selection, s.selected_pane),
                    ..s
                },
                PaneAction::Nothing,
            )
        },
        NavKey::Char('c') | NavKey::Char('C') => if s.selected_pane == SelectedPane::DjCenter {
            let pad = match s.selected_pad_idx {
                Some(p) => p,
                None => 0,
            };
            (
                PaneState { selected_pad_idx: Some(pad), mode: AppMode::SamplePadConfig, ..s },
                PaneAction::OpenPadConfig(pad),
            )
        } else {
            (s, PaneAction::Nothing)
        },
        NavKey::Char('X') => match deck_of(s.selected_pane) {
            Some(d) => (
                PaneState {
                    confirm_selected: false,
                    mode: AppMode::ConfirmAction(ConfirmAction::ClearDeck(d)),
                    ..s
                },
                PaneAction::Nothing,
            ),
            None => (s, PaneAction::Nothing),
        },
        NavKey::Char('R') => (
            PaneState {
                confirm_selected: false,
                mode: AppMode::ConfirmAction(ConfirmAction::ResetAll),
                ..s
            },
            PaneAction::Nothing,
        ),
        NavKey::Char('m') => (s, match s.selection.focus {
            SelectionFocus::Channel(ch) => PaneAction::ToggleChannelMute(ch),
            SelectionFocus::Global => if s.selected_pane == SelectedPane::Master {
                PaneAction::ToggleMasterMute
            } else {
                PaneAction::Nothing
            },
        }),
        NavKey::Char('s') => (s, match s.selection.focus {
            SelectionFocus::Channel(ch) => PaneAction::ToggleSolo(ch),
            SelectionFocus::Global => PaneAction::Nothing,
        }),
        _ => (s, PaneAction::Nothing),
    }
}

impl PaneState {
    /// The mixer window is a range of existing columns.
    pub open spec fn window_wf(&self) -> bool {
        self.mixer_window_start <= self.mixer_window_end <= 4
    }

    /// Recompute the mixer window so the selected pane stays visible.
    pub fn ensure_mixer_pane_visible(&mut self)
        requires
            old(self).window_wf(),
        ensures
            final(self).window_wf(),
            *final(self) == ({
                let vw = if old(self).term_width > 1 {
                    old(self).term_width
                } else {
                    1
                };
                let w = visible_window(
                    vw,
                    old(self).selected_pane,
                    old(self).mixer_window_start,
                    old(self).mixer_window_end,
                );
                PaneState {
                    mixer_window_start: w.0 as usize,
                    mixer_window_end: w.1 as usize,
                    ..*old(self)
                }
            }),
    {
        let viewport_w = if self.term_width > 1 {
            self.term_width
        } else {
            1
        };
        let layout = MixerLayout::compute(
            viewport_w,
            self.selected_pane,
            Some(self.mixer_window_start),
            Some(self.mixer_window_end),
        );
        proof {
            lemma_layout_shows_selection(
                viewport_w,
                self.selected_pane,
                Some(self.mixer_window_start),
                Some(self.mixer_window_end),
                layout,
            );
        }
        self.mixer_window_start = layout.start as usize;
        self.mixer_window_end = layout.end as usize;
    }

    fn move_to_pane(&mut self, pane: SelectedPane)
        requires
            old(self).window_wf(),
        ensures
            final(self).window_wf(),
            *final(self) == moved_to_pane(*old(self), pane),
    {
        self.selected_pad_idx = None;
        self.selected_pane = pane;
        self.selection.sync_pane_to_mixer(pane);
        self.ensure_mixer_pane_visible();
    }

    /// Handle a key in pane-select mode (navigate between panes).
    pub fn handle_pane_select_key(&mut self, key: NavKey) -> (action: PaneAction)
        requires
            old(self).window_wf(),
        ensures
            final(self).window_wf(),
            (*final(self), action) == pane_select_step(*old(self), key),
    {
        match key {
            NavKey::Char('?') => {
                self.help_scroll = 0;
                self.mode = AppMode::Help;
                PaneAction::Nothing
            },
            NavKey::Char('p') | NavKey::Char('P') => {
                self.mode = AppMode::SamplePads;
                PaneAction::ActivatePads
            },
            NavKey::Tab => {
                let p = self.selected_pane.next();
                self.move_to_pane(p);
                PaneAction::Nothing
            },
            NavKey::BackTab => {
                let p = self.selected_pane.prev();
                self.move_to_pane(p);
                PaneAction::Nothing
            },
            NavKey::Char('l') | NavKey::Right => {
                let p = match self.selected_pane {
                    SelectedPane::DeckA => SelectedPane::Crossfader,
                    SelectedPane::DjCenter | SelectedPane::Loops => SelectedPane::DeckB,
                    SelectedPane::DeckB => SelectedPane::DeckC,
                    SelectedPane::DeckC => SelectedPane::Master,
                    SelectedPane::Master => SelectedPane::DeckA,
                    SelectedPane::Crossfader => SelectedPane::DeckB,
                };
                self.move_to_pane(p);
                PaneAction::Nothing
            },
            NavKey::Char('h') | NavKey::Left => {
                let p = match self.selected_pane {
                    SelectedPane::DeckA => SelectedPane::Master,
                    SelectedPane::DjCenter | SelectedPane::Loops => SelectedPane::DeckA,
                    SelectedPane::DeckB => SelectedPane::Crossfader,
                    SelectedPane::DeckC => SelectedPane::DeckB,
                    SelectedPane::Master => SelectedPane::DeckC,
                    SelectedPane::Crossfader => SelectedPane::DeckA,
                };
                self.move_to_pane(p);
                PaneAction::Nothing
            },
            NavKey::Char('j') | NavKey::Down => {
                let p = match self.selected_pane {
                    SelectedPane::DjCenter => SelectedPane::Loops,
                    SelectedPane::Loops => SelectedPane::Crossfader,
                    SelectedPane::Crossfader => SelectedPane::DeckB,
                    SelectedPane::DeckB => SelectedPane::DeckC,
                    SelectedPane::DeckC => SelectedPane::Master,
                    SelectedPane::Master => SelectedPane::DeckA,
                    SelectedPane::DeckA => SelectedPane::DjCenter,
                };
                self.move_to_pane(p);
                PaneAction::Nothing
            },
            NavKey::Char('k') | NavKey::Up => {
                let p = match self.selected_pane {
                    SelectedPane::DjCenter => SelectedPane::DeckA,
                    SelectedPane::Loops => SelectedPane::DjCenter,
                    SelectedPane::Crossfader => SelectedPane::Loops,
                    SelectedPane::DeckB => SelectedPane::Crossfader,
                    SelectedPane::DeckC => SelectedPane::DeckB,
                    SelectedPane::Master => SelectedPane::DeckC,
                    SelectedPane::DeckA => SelectedPane::Master,
                };
                self.move_to_pane(p);
                PaneAction::Nothing
            },
            NavKey::Char('a') => {
                if self.selected_pane == SelectedPane::Crossfader {
                    PaneAction::SlamCrossfaderA
                } else {
                    PaneAction::Nothing
                }
            },
            NavKey::Char('b') => {
                if self.selected_pane == SelectedPane::Crossfader {
                    PaneAction::SlamCrossfaderB
                } else {
                    PaneAction::Nothing
                }
            },
            NavKey::Enter | NavKey::Char(' ') => {
                if self.selected_pane == SelectedPane::Crossfader {
                    self.selection.focus = SelectionFocus::Global;
                    self.selection.selected_global = GlobalControl::Crossfader;
                    self.mode = AppMode::Edit;
                } else {
                    self.mode = AppMode::ControlSelect;
                    if self.selected_pane == SelectedPane::DjCenter {
                        self.selected_pad_idx = Some(0);
                    }
                    let p = self.selected_pane;
                    self.selection.sync_pane_to_mixer(p);
                }
                PaneAction::Nothing
            },
            NavKey::Char('c') | NavKey::Char('C') => {
                if self.selected_pane == SelectedPane::DjCenter {
                    let pad = match self.selected_pad_idx {
                        Some(p) => p,
                        None => 0,
                    };
                    self.selected_pad_idx = Some(pad);
                    self.mode = AppMode::SamplePadConfig;
                    PaneAction::OpenPadConfig(pad)
                } else {
                    PaneAction::Nothing
                }
            },
            NavKey::Char('X') => {
                let deck = match self.selected_pane {
                    SelectedPane::DeckA => Some(Deck::A),
                    SelectedPane::DeckB => Some(Deck::B),
                    SelectedPane::DeckC => Some(Deck::C),
                    _ => None,
                };
                if let Some(d) = deck {
                    self.confirm_selected = false;
                    self.mode = AppMode::ConfirmAction(ConfirmAction::ClearDeck(d));
                }
                PaneAction::Nothing
            },
            NavKey::Char('R') => {
                self.confirm_selected = false;
                self.mode = AppMode::ConfirmAction(ConfirmAction::ResetAll);
                PaneAction::Nothing
            },
            NavKey::Char('m') => {
                match self.selection.focus {
                    SelectionFocus::Channel(ch) => PaneAction::ToggleChannelMute(ch),
                    SelectionFocus::Global => {
                        if self.selected_pane == SelectedPane::Master {
                            PaneAction::ToggleMasterMute
                        } else {
                            PaneAction::Nothing
                        }
                    },
                }
            },
            NavKey::Char('s') => {
                match self.selection.focus {
                    SelectionFocus::Channel(ch) => PaneAction::ToggleSolo(ch),
                    SelectionFocus::Global => PaneAction::Nothing,
                }
            },
            _ => PaneAction::Nothing,
        }
    }
}

/// Every key that moves between panes leaves the mixer window showing the
/// newly selected pane.
pub proof fn lemma_pane_moves_stay_visible(s: PaneState, key: NavKey)
    requires
        s.window_wf(),
        key == NavKey::Tab || key == NavKey::BackTab || key == NavKey::Left || key == NavKey::Right
            || key == NavKey::Up || key == NavKey::Down || key == NavKey::Char('h') || key
            == NavKey::Char('j') || key == NavKey::Char('k') || key == NavKey::Char('l'),
    ensures
        pane_select_step(s, key).0.mixer_window_start <= pane_select_step(s, key).0.selected_pane.column()
            <= pane_select_step(s, key).0.mixer_window_end <= 4,
{
    let vw: u16 = if s.term_width > 1 {
        s.term_width
    } else {
        1
    };
    let t = pane_select_step(s, key).0;
    if vw < 108 {
        lemma_window_range(
            vw as int,
            t.selected_pane,
            Some(s.mixer_window_start),
            Some(s.mixer_window_end),
        );
    }
}

/// Moving down and then up between panes, or up and then down, comes back to
/// the same pane; so do Tab and Shift+Tab; moving right and then left, or
/// left and then right, comes back except from the DJ centre and loops
/// panes, whose horizontal neighbours lead back to the crossfader.
pub proof fn lemma_pane_moves_undo(p: SelectedPane)
    ensures
        pane_up(pane_down(p)) == p,
        pane_down(pane_up(p)) == p,
        SelectedPane::at_order((SelectedPane::at_order((p.order() + 1) % 7).order() + 6) % 7) == p,
        p != SelectedPane::DjCenter && p != SelectedPane::Loops ==> pane_left(pane_right(p)) == p
            && pane_right(pane_left(p)) == p,
{
}

/// In pane-select mode, `X` on a deck's pane asks to confirm clearing that
/// very deck (deck A's pane clears deck A, deck B's deck B, the CUE pane
/// deck C), with "no" preselected; on any other pane it does nothing.
pub proof fn lemma_clear_asks_for_the_shown_deck(s: PaneState)
    ensures
        ({
            let (t, a) = pane_select_step(s, NavKey::Char('X'));
            &&& a == PaneAction::Nothing
            &&& s.selected_pane == SelectedPane::DeckA ==> t == PaneState {
                confirm_selected: false,
                mode: AppMode::ConfirmAction(ConfirmAction::ClearDeck(Deck::A)),
                ..s
            }
            &&& s.selected_pane == SelectedPane::DeckB ==> t == PaneState {
                confirm_selected: false,
                mode: AppMode::ConfirmAction(ConfirmAction::ClearDeck(Deck::B)),
                ..s
            }
            &&& s.selected_pane == SelectedPane::DeckC ==> t == PaneState {
                confirm_selected: false,
                mode: AppMode::ConfirmAction(ConfirmAction::ClearDeck(Deck::C)),
                ..s
            }
            &&& (s.selected_pane != SelectedPane::DeckA && s.selected_pane != SelectedPane::DeckB
                && s.selected_pane != SelectedPane::DeckC) ==> t == s
        }),
{
}

/// In pane-select mode on the crossfader, `a` slams it to deck A and `b`
/// to deck B; elsewhere neither key does anything. Neither changes the
/// state.
pub proof fn lemma_pane_slams_are_opposite(s: PaneState)
    ensures
        pane_select_step(s, NavKey::Char('a')).0 == s,
        pane_select_step(s, NavKey::Char('b')).0 == s,
        pane_select_step(s, NavKey::Char('a')).1 == (if s.selected_pane == SelectedPane::Crossfader {
            PaneAction::SlamCrossfaderA
        } else {
            PaneAction::Nothing
        }),
        pane_select_step(s, NavKey::Char('b')).1 == (if s.selected_pane == SelectedPane::Crossfader {
            PaneAction::SlamCrossfaderB
        } else {
            PaneAction::Nothing
        }),
{
}

} // verus!
