//! Keys handled before and beside the per-mode handlers: global shortcuts,
//! debug log scrolling, the output device picker, and the help, confirm and
//! config-check dialogs.
use vstd::prelude::*;
use crate::modes::{AppMode, ConfirmAction, Deck, OutputPickerTarget};
use crate::panes::{NavKey, PaneState};

verus! {

/// What a global shortcut asks for.
#[derive(Debug, Clone, Copy, PartialEq, Eq, Structural)]
pub enum GlobalKeyAction {
    /// Quit the application.
    Quit,
    /// Copy the visible debug log to the clipboard.
    CopyDebugLog,
    /// Scroll the debug log to this offset (0 follows the newest line).
    SetDebugScroll(usize),
    /// Open the source picker for a deck.
    OpenSourcePicker(Deck),
    /// Toggle master play/pause and sync every deck.
    ToggleMasterPlay,
    /// Not a global shortcut: the key goes on to the mode's handler.
    PassOn,
}

/// Lines of the debug pane.
pub open spec fn debug_rows() -> int {
    8
}

/// `a - b`, or 0 when `b > a`.
pub open spec fn sat_sub(a: int, b: int) -> int {
    if a > b {
        a - b
    } else {
        0
    }
}

/// The scroll offset after scrolling the debug log towards older lines by
/// `step` lines; at 0 (following the newest lines) scroll mode is entered
/// `enter_gap` lines back from the end.
pub open spec fn debug_scroll_older(scroll: int, len: int, step: int, enter_gap: int) -> int {
    if scroll == 0 {
        let top = sat_sub(len, enter_gap);
        if top > 1 {
            top
        } else {
            1
        }
    } else {
        let max_top = sat_sub(len, debug_rows());
        if scroll + step < max_top {
            scroll + step
        } else {
            max_top
        }
    }
}

/// What a key does before the mode's handler sees it.
pub open spec fn global_key_spec(key: NavKey, ctrl: bool, debug_len: int, debug_scroll: int) -> GlobalKeyAction {
    let has_log = debug_len > 0;
    match key {
        NavKey::Char(c) => {
            if c == 'q' {
                GlobalKeyAction::Quit
            } else if c == 'y' && ctrl && has_log {
                GlobalKeyAction::CopyDebugLog
            } else if c == '[' && has_log {
                GlobalKeyAction::SetDebugScroll(
                    debug_scroll_older(debug_scroll, debug_len, 1, debug_rows()) as usize,
                )
            } else if c == ']' && has_log {
                GlobalKeyAction::SetDebugScroll(sat_sub(debug_scroll, 1) as usize)
            } else if c == 'A' {
                GlobalKeyAction::OpenSourcePicker(Deck::A)
            } else if c == 'B' {
                GlobalKeyAction::OpenSourcePicker(Deck::B)
            } else if c == 'C' {
                GlobalKeyAction::OpenSourcePicker(Deck::C)
            } else {
                GlobalKeyAction::PassOn
            }
        },
        NavKey::PageUp if has_log => GlobalKeyAction::SetDebugScroll(
            debug_scroll_older(debug_scroll, debug_len, 10, debug_rows() + 10) as usize,
        ),
        NavKey::PageDown if has_log => GlobalKeyAction::SetDebugScroll(
            sat_sub(debug_scroll, 10) as usize,
        ),
        NavKey::Home if has_log => GlobalKeyAction::SetDebugScroll(1),
        NavKey::End if has_log => GlobalKeyAction::SetDebugScroll(0),
        NavKey::F(n) if n == 8 => GlobalKeyAction::ToggleMasterPlay,
        _ => GlobalKeyAction::PassOn,
    }
}

/// The debug scroll offset after one step towards older lines.
fn scroll_older(debug_len: usize, debug_scroll: usize, step: usize, enter_gap: usize) -> (t: usize)
    requires
        step == 1 || step == 10,
    ensures
        t == debug_scroll_older(debug_scroll as int, debug_len as int, step as int, enter_gap as int),
{
    if debug_scroll == 0 {
        let top = debug_len.saturating_sub(enter_gap);
        if top > 1 {
            top
        } else {
            1
        }
    } else {
        let max_top = debug_len.saturating_sub(8);
        if debug_scroll < max_top && max_top - debug_scroll > step {
            debug_scroll + step
        } else {
            max_top
        }
    }
}

/// Global shortcuts available from any mode, given whether Ctrl is held,
/// the number of debug log lines and the debug scroll offset.
pub fn global_key(key: NavKey, ctrl: bool, debug_len: usize, debug_scroll: usize) -> (a: GlobalKeyAction)
    ensures
        a == global_key_spec(key, ctrl, debug_len as int, debug_scroll as int),
{
    let has_log = debug_len > 0;
    match key {
        NavKey::Char(c) => {
            if c == 'q' {
                GlobalKeyAction::Quit
            } else if c == 'y' && ctrl && has_log {
                GlobalKeyAction::CopyDebugLog
            } else if c == '[' && has_log {
                GlobalKeyAction::SetDebugScroll(scroll_older(debug_len, debug_scroll, 1, 8))
            } else if c == ']' && has_log {
                GlobalKeyAction::SetDebugScroll(debug_scroll.saturating_sub(1))
            } else if c == 'A' {
                GlobalKeyAction::OpenSourcePicker(Deck::A)
            } else if c == 'B' {
                GlobalKeyAction::OpenSourcePicker(Deck::B)
            } else if c == 'C' {
                GlobalKeyAction::OpenSourcePicker(Deck::C)
            } else {
                GlobalKeyAction::PassOn
            }
        },
        NavKey::PageUp if has_log => GlobalKeyAction::SetDebugScroll(
            scroll_older(debug_len, debug_scroll, 10, 18),
        ),
        NavKey::PageDown if has_log => GlobalKeyAction::SetDebugScroll(
            debug_scroll.saturating_sub(10),
        ),
        NavKey::Home if has_log => GlobalKeyAction::SetDebugScroll(1),
        NavKey::End if has_log => GlobalKeyAction::SetDebugScroll(0),
        NavKey::F(n) if n == 8 => GlobalKeyAction::ToggleMasterPlay,
        _ => GlobalKeyAction::PassOn,
    }
}

/// Selection in the output device pickers.
#[derive(Debug, Clone, Copy, PartialEq, Eq, Structural)]
pub struct OutputPickerState {
    /// Output device picker mode
    pub output_picker_active: bool,
    pub output_picker_target: OutputPickerTarget,
    /// Selected output device indices (for UI navigation)
    pub selected_master_output_idx: usize,
    pub selected_cue_output_idx: usize,
}

/// What a key in the output picker asks for.
#[derive(Debug, Clone, Copy, PartialEq, Eq, Structural)]
pub enum OutputPickerAction {
    /// Navigation only (or nothing).
    Stay,
    /// Select the highlighted output device.
    SelectDevice,
}

impl OutputPickerState {
    /// Handle a key while the picker is active, given how many devices each
    /// picker lists: Esc closes it, j/k move the highlight (clamped to the
    /// list), Enter or Space selects; every key is consumed.
    pub fn handle_key(&mut self, key: NavKey, master_devices: usize, cue_devices: usize) -> (a: OutputPickerAction)
        requires
            old(self).selected_master_output_idx < usize::MAX,
            old(self).selected_cue_output_idx < usize::MAX,
        ensures
            match key {
                NavKey::Esc => *final(self) == OutputPickerState {
                    output_picker_active: false,
                    ..*old(self)
                } && a == OutputPickerAction::Stay,
                NavKey::Char('j') | NavKey::Down => a == OutputPickerAction::Stay && ({
                    let max = match old(self).output_picker_target {
                        OutputPickerTarget::Master => master_devices,
                        OutputPickerTarget::Cue => cue_devices,
                    };
                    let next = |i: usize|
                        if max > 0 {
                            if i + 1 < max {
                                (i + 1) as usize
                            } else {
                                (max - 1) as usize
                            }
                        } else {
                            i
                        };
                    *final(self) == match old(self).output_picker_target {
                        OutputPickerTarget::Master => OutputPickerState {
                            selected_master_output_idx: next(old(self).selected_master_output_idx),
                            ..*old(self)
                        },
                        OutputPickerTarget::Cue => OutputPickerState {
                            selected_cue_output_idx: next(old(self).selected_cue_output_idx),
                            ..*old(self)
                        },
                    }
                }),
                NavKey::Char('k') | NavKey::Up => a == OutputPickerAction::Stay
                    && *final(self) == match old(self).output_picker_target {
                    OutputPickerTarget::Master => OutputPickerState {
                        selected_master_output_idx: sat_sub(
                            old(self).selected_master_output_idx as int,
                            1,
                        ) as usize,
                        ..*old(self)
                    },
                    OutputPickerTarget::Cue => OutputPickerState {
                        selected_cue_output_idx: sat_sub(old(self).selected_cue_output_idx as int, 1)
                            as usize,
                        ..*old(self)
                    },
                },
                NavKey::Enter | NavKey::Char(' ') => *final(self) == *old(self) && a
                    == OutputPickerAction::SelectDevice,
                _ => *final(self) == *old(self) && a == OutputPickerAction::Stay,
            },
    {
        match key {
            NavKey::Esc => {
                self.output_picker_active = false;
                OutputPickerAction::Stay
            },
            NavKey::Char('j') | NavKey::Down => {
                let max_idx = match self.output_picker_target {
                    OutputPickerTarget::Master => master_devices,
                    OutputPickerTarget::Cue => cue_devices,
                };
                if max_idx > 0 {
                    match self.output_picker_target {
                        OutputPickerTarget::Master => {
                            let n = self.selected_master_output_idx + 1;
                            self.selected_master_output_idx = if n < max_idx {
                                n
                            } else {
                                max_idx - 1
                            };
                        },
                        OutputPickerTarget::Cue => {
                            let n = self.selected_cue_output_idx + 1;
                            self.selected_cue_output_idx = if n < max_idx {
                                n
                            } else {
                                max_idx - 1
                            };
                        },
                    }
                }
                OutputPickerAction::Stay
            },
            NavKey::Char('k') | NavKey::Up => {
                match self.output_picker_target {
                    OutputPickerTarget::Master => {
                        self.selected_master_output_idx = self.selected_master_output_idx.saturating_sub(1);
                    },
                    OutputPickerTarget::Cue => {
                        self.selected_cue_output_idx = self.selected_cue_output_idx.saturating_sub(1);
                    },
                }
                OutputPickerAction::Stay
            },
            NavKey::Enter | NavKey::Char(' ') => OutputPickerAction::SelectDevice,
            _ => OutputPickerAction::Stay,
        }
    }
}

impl PaneState {
    /// Help overlay: Esc or `?` closes it, j/k scroll.
    pub fn handle_help_key(&mut self, key: NavKey)
        ensures
            *final(self) == match key {
                NavKey::Esc | NavKey::Char('?') => PaneState { mode: AppMode::PaneSelect, ..*old(self) },
                NavKey::Char('j') | NavKey::Down => PaneState {
                    help_scroll: if old(self).help_scroll < usize::MAX {
                        (old(self).help_scroll + 1) as usize
                    } else {
                        usize::MAX
                    },
                    ..*old(self)
                },
                NavKey::Char('k') | NavKey::Up => PaneState {
                    help_scroll: sat_sub(old(self).help_scroll as int, 1) as usize,
                    ..*old(self)
                },
                _ => *old(self),
            },
    {
        match key {
            NavKey::Esc | NavKey::Char('?') => {
                self.mode = AppMode::PaneSelect;
            },
            NavKey::Char('j') | NavKey::Down => {
                self.help_scroll = self.help_scroll.saturating_add(1);
            },
            NavKey::Char('k') | NavKey::Up => {
                self.help_scroll = self.help_scroll.saturating_sub(1);
            },
            _ => {},
        }
    }

    /// Confirmation dialog: y/Enter confirms (the action is returned for the
    /// caller to carry out) and n/Esc cancels, both back to pane select; h/l
    /// move the focus between No and Yes.
    pub fn handle_confirm_key(&mut self, key: NavKey, action: ConfirmAction) -> (todo: Option<ConfirmAction>)
        ensures
            match key {
                NavKey::Char('y') | NavKey::Char('Y') | NavKey::Enter => todo == Some(action)
                    && *final(self) == PaneState { mode: AppMode::PaneSelect, ..*old(self) },
                NavKey::Esc | NavKey::Char('n') | NavKey::Char('N') => todo is None
                    && *final(self) == PaneState { mode: AppMode::PaneSelect, ..*old(self) },
                NavKey::Char('h') | NavKey::Left => todo is None && *final(self) == PaneState {
                    confirm_selected: false,
                    ..*old(self)
                },
                NavKey::Char('l') | NavKey::Right => todo is None && *final(self) == PaneState {
                    confirm_selected: true,
                    ..*old(self)
                },
                _ => todo is None && *final(self) == *old(self),
            },
    {
        match key {
            NavKey::Char('y') | NavKey::Char('Y') | NavKey::Enter => {
                self.mode = AppMode::PaneSelect;
                Some(action)
            },
            NavKey::Esc | NavKey::Char('n') | NavKey::Char('N') => {
                self.mode = AppMode::PaneSelect;
                None
            },
            NavKey::Char('h') | NavKey::Left => {
                self.confirm_selected = false;
                None
            },
            NavKey::Char('l') | NavKey::Right => {
                self.confirm_selected = true;
                None
            },
            _ => None,
        }
    }

    /// Config-check dialog: y/Enter asks for the config files to be applied
    /// (returns true) and n/Esc skips, both back to pane select; h/l move the
    /// focus between Yes and No.
    pub fn handle_config_check_key(&mut self, key: NavKey) -> (apply: bool)
        ensures
            match key {
                NavKey::Char('y') | NavKey::Char('Y') | NavKey::Enter => apply && *final(self)
                    == PaneState { mode: AppMode::PaneSelect, ..*old(self) },
                NavKey::Esc | NavKey::Char('n') | NavKey::Char('N') => !apply && *final(self)
                    == PaneState { mode: AppMode::PaneSelect, ..*old(self) },
                NavKey::Char('h') | NavKey::Left => !apply && *final(self) == PaneState {
                    confirm_selected: true,
                    ..*old(self)
                },
                NavKey::Char('l') | NavKey::Right => !apply && *final(self) == PaneState {
                    confirm_selected: false,
                    ..*old(self)
                },
                _ => !apply && *final(self) == *old(self),
            },
    {
        match key {
            NavKey::Char('y') | NavKey::Char('Y') | NavKey::Enter => {
                self.mode = AppMode::PaneSelect;
                true
            },
            NavKey::Esc | NavKey::Char('n') | NavKey::Char('N') => {
                self.mode = AppMode::PaneSelect;
                false
            },
            NavKey::Char('h') | NavKey::Left => {
                self.confirm_selected = true;
                false
            },
            NavKey::Char('l') | NavKey::Right => {
                self.confirm_selected = false;
                false
            },
            _ => false,
        }
    }
}

/// Debug scrolling keeps the offset within the log: scrolling towards older
/// lines never passes the last full page (nor drops below 1, which marks
/// scroll mode), and scrolling back never goes below 0.
pub proof fn lemma_debug_scroll_bounded(key: NavKey, ctrl: bool, len: int, scroll: int)
    requires
        0 <= scroll <= len,
        len >= 1,
    ensures
        global_key_spec(key, ctrl, len, scroll) matches GlobalKeyAction::SetDebugScroll(t) ==> t
            <= len,
{
}

} // verus!
