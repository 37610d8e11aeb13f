use termixer::control_select::{ControlAction, ControlContext, NavMove};
use termixer::controls::{ChannelControl, GlobalControl, SelectionFocus, SendTarget};
use termixer::edit_keys::{EditAction, EditOutcome};
use termixer::keys::{global_key, GlobalKeyAction, OutputPickerAction, OutputPickerState};
use termixer::layout::SelectedPane;
use termixer::modes::{AppMode, ConfirmAction, Deck, OutputPickerTarget};
use termixer::panes::{NavKey, PaneAction, PaneState};
use termixer::selection::MixerSelection;

fn state(pane: SelectedPane, mode: AppMode) -> PaneState {
    let mut selection = MixerSelection::new();
    selection.sync_pane_to_mixer(pane);
    PaneState {
        mode,
        selected_pane: pane,
        selected_pad_idx: None,
        selection,
        confirm_selected: false,
        help_scroll: 0,
        term_width: 200,
        mixer_window_start: 0,
        mixer_window_end: 4,
    }
}

fn ctx() -> ControlContext {
    ControlContext {
        scrub_visible: false,
        can_nav: true,
        focus_connected: true,
        output_picker_active: false,
        sequence_focused: false,
    }
}

#[test]
fn global_shortcuts() {
    assert_eq!(global_key(NavKey::Char('q'), false, 0, 0), GlobalKeyAction::Quit);
    assert_eq!(global_key(NavKey::Char('y'), true, 3, 0), GlobalKeyAction::CopyDebugLog);
    assert_eq!(global_key(NavKey::Char('y'), false, 3, 0), GlobalKeyAction::PassOn);
    assert_eq!(global_key(NavKey::Char('y'), true, 0, 0), GlobalKeyAction::PassOn);
    assert_eq!(global_key(NavKey::Char('B'), false, 0, 0), GlobalKeyAction::OpenSourcePicker(Deck::B));
    assert_eq!(global_key(NavKey::F(8), false, 0, 0), GlobalKeyAction::ToggleMasterPlay);
    assert_eq!(global_key(NavKey::F(7), false, 0, 0), GlobalKeyAction::PassOn);
    assert_eq!(global_key(NavKey::Char('['), false, 0, 0), GlobalKeyAction::PassOn);
}

#[test]
fn debug_log_scrolling() {
    // Entering scroll mode starts at the top line of the last page.
    assert_eq!(global_key(NavKey::Char('['), false, 20, 0), GlobalKeyAction::SetDebugScroll(12));
    assert_eq!(global_key(NavKey::Char('['), false, 5, 0), GlobalKeyAction::SetDebugScroll(1));
    assert_eq!(global_key(NavKey::Char('['), false, 20, 5), GlobalKeyAction::SetDebugScroll(6));
    assert_eq!(global_key(NavKey::Char('['), false, 20, 12), GlobalKeyAction::SetDebugScroll(12));
    assert_eq!(global_key(NavKey::Char(']'), false, 20, 5), GlobalKeyAction::SetDebugScroll(4));
    assert_eq!(global_key(NavKey::Char(']'), false, 20, 0), GlobalKeyAction::SetDebugScroll(0));
    assert_eq!(global_key(NavKey::PageUp, false, 30, 0), GlobalKeyAction::SetDebugScroll(12));
    assert_eq!(global_key(NavKey::PageUp, false, 30, 5), GlobalKeyAction::SetDebugScroll(15));
    assert_eq!(global_key(NavKey::PageUp, false, 30, 20), GlobalKeyAction::SetDebugScroll(22));
    assert_eq!(global_key(NavKey::PageDown, false, 30, 5), GlobalKeyAction::SetDebugScroll(0));
    assert_eq!(global_key(NavKey::Home, false, 30, 5), GlobalKeyAction::SetDebugScroll(1));
    assert_eq!(global_key(NavKey::End, false, 30, 5), GlobalKeyAction::SetDebugScroll(0));
}

#[test]
fn debug_scroll_never_passes_the_log() {
    for len in 1..30usize {
        for scroll in 0..=len {
            for key in [NavKey::Char('['), NavKey::PageUp, NavKey::Char(']'), NavKey::PageDown] {
                if let GlobalKeyAction::SetDebugScroll(t) = global_key(key, false, len, scroll) {
                    assert!(t <= len);
                }
            }
        }
    }
}

#[test]
fn output_picker_navigation() {
    let mut p = OutputPickerState {
        output_picker_active: true,
        output_picker_target: OutputPickerTarget::Master,
        selected_master_output_idx: 1,
        selected_cue_output_idx: 0,
    };
    assert_eq!(p.handle_key(NavKey::Char('j'), 3, 5), OutputPickerAction::Stay);
    assert_eq!(p.selected_master_output_idx, 2);
    p.handle_key(NavKey::Down, 3, 5);
    assert_eq!(p.selected_master_output_idx, 2);
    p.handle_key(NavKey::Up, 3, 5);
    p.handle_key(NavKey::Char('k'), 3, 5);
    p.handle_key(NavKey::Char('k'), 3, 5);
    assert_eq!(p.selected_master_output_idx, 0);
    assert_eq!(p.handle_key(NavKey::Enter, 3, 5), OutputPickerAction::SelectDevice);
    assert_eq!(p.handle_key(NavKey::Char(' '), 3, 5), OutputPickerAction::SelectDevice);
    p.output_picker_target = OutputPickerTarget::Cue;
    p.handle_key(NavKey::Char('j'), 3, 0);
    assert_eq!(p.selected_cue_output_idx, 0);
    p.handle_key(NavKey::Char('j'), 3, 2);
    assert_eq!(p.selected_cue_output_idx, 1);
    p.handle_key(NavKey::Esc, 3, 2);
    assert!(!p.output_picker_active);
}

#[test]
fn help_and_dialogs() {
    let mut s = state(SelectedPane::DeckA, AppMode::Help);
    s.handle_help_key(NavKey::Char('j'));
    s.handle_help_key(NavKey::Down);
    assert_eq!(s.help_scroll, 2);
    s.handle_help_key(NavKey::Char('k'));
    s.handle_help_key(NavKey::Up);
    s.handle_help_key(NavKey::Up);
    assert_eq!(s.help_scroll, 0);
    s.handle_help_key(NavKey::Char('?'));
    assert_eq!(s.mode, AppMode::PaneSelect);

    let reset = ConfirmAction::ResetDeck(Deck::A);
    let mut c = state(SelectedPane::DeckA, AppMode::ConfirmAction(reset));
    assert_eq!(c.handle_confirm_key(NavKey::Char('l'), reset), None);
    assert!(c.confirm_selected);
    assert_eq!(c.handle_confirm_key(NavKey::Char('h'), reset), None);
    assert!(!c.confirm_selected);
    assert_eq!(c.handle_confirm_key(NavKey::Char('x'), reset), None);
    assert_eq!(c.mode, AppMode::ConfirmAction(reset));
    assert_eq!(c.handle_confirm_key(NavKey::Enter, reset), Some(reset));
    assert_eq!(c.mode, AppMode::PaneSelect);
    let mut n = state(SelectedPane::DeckA, AppMode::ConfirmAction(reset));
    assert_eq!(n.handle_confirm_key(NavKey::Char('N'), reset), None);
    assert_eq!(n.mode, AppMode::PaneSelect);

    let mut k = state(SelectedPane::DeckA, AppMode::ConfigCheck);
    assert!(!k.handle_config_check_key(NavKey::Char('h')));
    assert!(k.confirm_selected);
    assert!(!k.handle_config_check_key(NavKey::Right));
    assert!(!k.confirm_selected);
    assert!(k.handle_config_check_key(NavKey::Char('Y')));
    assert_eq!(k.mode, AppMode::PaneSelect);
}

#[test]
fn pane_select_moves_between_panes() {
    let mut s = state(SelectedPane::DeckA, AppMode::PaneSelect);
    assert_eq!(s.handle_pane_select_key(NavKey::Char('l')), PaneAction::Nothing);
    assert_eq!(s.selected_pane, SelectedPane::Crossfader);
    s.handle_pane_select_key(NavKey::Right);
    assert_eq!(s.selected_pane, SelectedPane::DeckB);
    assert_eq!(s.selection.focus, SelectionFocus::Channel(1));
    s.handle_pane_select_key(NavKey::Char('j'));
    assert_eq!(s.selected_pane, SelectedPane::DeckC);
    s.handle_pane_select_key(NavKey::Char('k'));
    assert_eq!(s.selected_pane, SelectedPane::DeckB);
    s.handle_pane_select_key(NavKey::Tab);
    assert_eq!(s.selected_pane, SelectedPane::DeckC);
    s.handle_pane_select_key(NavKey::BackTab);
    assert_eq!(s.selected_pane, SelectedPane::DeckB);
    s.handle_pane_select_key(NavKey::Left);
    assert_eq!(s.selected_pane, SelectedPane::Crossfader);
}

#[test]
fn pane_moves_keep_the_selection_in_view_on_narrow_screens() {
    let mut s = state(SelectedPane::DeckA, AppMode::PaneSelect);
    s.term_width = 60;
    s.mixer_window_start = 0;
    s.mixer_window_end = 1;
    for key in [NavKey::Char('l'), NavKey::Char('l'), NavKey::Char('l'), NavKey::Char('l'), NavKey::Tab] {
        s.handle_pane_select_key(key);
        let col = match s.selected_pane {
            SelectedPane::DeckA => 0,
            SelectedPane::DjCenter | SelectedPane::Loops | SelectedPane::Crossfader => 1,
            SelectedPane::DeckB => 2,
            SelectedPane::DeckC => 3,
            SelectedPane::Master => 4,
        };
        assert!(s.mixer_window_start <= col && col <= s.mixer_window_end && s.mixer_window_end <= 4);
    }
}

#[test]
fn pane_select_actions() {
    let mut s = state(SelectedPane::Crossfader, AppMode::PaneSelect);
    assert_eq!(s.handle_pane_select_key(NavKey::Char('a')), PaneAction::SlamCrossfaderA);
    assert_eq!(s.handle_pane_select_key(NavKey::Char('b')), PaneAction::SlamCrossfaderB);
    s.handle_pane_select_key(NavKey::Enter);
    assert_eq!(s.mode, AppMode::Edit);
    assert_eq!(s.selection.selected_global, GlobalControl::Crossfader);

    let mut d = state(SelectedPane::DeckB, AppMode::PaneSelect);
    assert_eq!(d.handle_pane_select_key(NavKey::Char('m')), PaneAction::ToggleChannelMute(1));
    assert_eq!(d.handle_pane_select_key(NavKey::Char('s')), PaneAction::ToggleSolo(1));
    d.handle_pane_select_key(NavKey::Char('X'));
    assert_eq!(d.mode, AppMode::ConfirmAction(ConfirmAction::ClearDeck(Deck::B)));

    let mut p = state(SelectedPane::DjCenter, AppMode::PaneSelect);
    assert_eq!(p.handle_pane_select_key(NavKey::Char('c')), PaneAction::OpenPadConfig(0));
    assert_eq!(p.mode, AppMode::SamplePadConfig);
    let mut q = state(SelectedPane::DjCenter, AppMode::PaneSelect);
    q.handle_pane_select_key(NavKey::Enter);
    assert_eq!(q.mode, AppMode::ControlSelect);
    assert_eq!(q.selected_pad_idx, Some(0));

    let mut m = state(SelectedPane::Master, AppMode::PaneSelect);
    assert_eq!(m.handle_pane_select_key(NavKey::Char('m')), PaneAction::ToggleMasterMute);
    assert_eq!(m.handle_pane_select_key(NavKey::Char('p')), PaneAction::ActivatePads);
    assert_eq!(m.mode, AppMode::SamplePads);
}

#[test]
fn pad_grid_navigation_wraps() {
    let mut s = state(SelectedPane::DjCenter, AppMode::ControlSelect);
    s.selected_pad_idx = Some(0);
    s.navigate_control_up(false);
    assert_eq!(s.selected_pad_idx, Some(12));
    s.navigate_control_left(false);
    assert_eq!(s.selected_pad_idx, Some(15));
    s.navigate_control_down(false);
    assert_eq!(s.selected_pad_idx, Some(3));
    s.navigate_control_right(false);
    assert_eq!(s.selected_pad_idx, Some(0));
    for p in 0..16usize {
        s.selected_pad_idx = Some(p);
        s.navigate_control_down(false);
        s.navigate_control_up(false);
        s.navigate_control_right(true);
        s.navigate_control_left(true);
        assert_eq!(s.selected_pad_idx, Some(p));
    }
}

#[test]
fn dj_centre_without_pad() {
    let mut s = state(SelectedPane::DjCenter, AppMode::ControlSelect);
    assert_eq!(s.selection.selected_global, GlobalControl::Crossfader);
    s.navigate_control_down(false);
    assert_eq!(s.selection.selected_global, GlobalControl::HeadphoneVolume);
    s.navigate_control_down(false);
    assert_eq!(s.selected_pad_idx, Some(0));
    let mut t = state(SelectedPane::DjCenter, AppMode::ControlSelect);
    t.navigate_control_up(false);
    assert_eq!(t.selected_pad_idx, Some(12));
}

#[test]
fn master_pane_navigation() {
    let mut s = state(SelectedPane::Master, AppMode::ControlSelect);
    s.navigate_control_down(false);
    assert_eq!(s.selection.selected_global, GlobalControl::MasterEq32);
    s.navigate_control_left(false);
    assert_eq!(s.selection.selected_global, GlobalControl::MasterEq16k);
    s.navigate_control_right(false);
    assert_eq!(s.selection.selected_global, GlobalControl::MasterEq32);
    s.navigate_control_down(false);
    assert_eq!(s.selection.selected_global, GlobalControl::MasterFader);
    s.navigate_control_down(false);
    assert_eq!(s.selection.selected_global, GlobalControl::MasterMute);
    s.navigate_control_right(false);
    assert_eq!(s.selection.selected_global, GlobalControl::MasterOutputSelect);
    s.navigate_control_up(false);
    assert_eq!(s.selection.selected_global, GlobalControl::MasterFader);
    s.navigate_control_up(false);
    assert_eq!(s.selection.selected_global, GlobalControl::MasterEq16k);
    s.navigate_control_up(false);
    assert_eq!(s.selection.selected_global, GlobalControl::MasterPlayPause);
    assert_eq!(s.navigate_control_left(false), ControlAction::ToggleMasterPlay);
}

#[test]
fn deck_navigation() {
    let mut s = state(SelectedPane::DeckA, AppMode::ControlSelect);
    s.selection.selected_control = ChannelControl::PlayPause;
    s.navigate_control_right(true);
    assert_eq!(s.selection.selected_control, ChannelControl::NextTrack);
    s.navigate_control_left(true);
    assert_eq!(s.selection.selected_control, ChannelControl::PlayPause);
    s.navigate_control_left(false);
    assert_eq!(s.selection.selected_control, ChannelControl::PlayPause);
    s.selection.selected_control = ChannelControl::Bpm;
    s.navigate_control_right(true);
    assert_eq!(s.selection.selected_control, ChannelControl::Key);
    s.navigate_control_down(false);
    assert_eq!(s.selection.selected_control, ChannelControl::FilterCutoff);
    s.navigate_control_down(false);
    assert_eq!(s.selection.selected_control, ChannelControl::FilterFreq);
    s.navigate_control_left(true);
    assert_eq!(s.selection.selected_control, ChannelControl::EqHigh);
    s.navigate_control_left(true);
    assert_eq!(s.selection.selected_control, ChannelControl::EqMid);
    s.navigate_control_down(false);
    assert_eq!(s.selection.selected_control, ChannelControl::Pan);
    s.navigate_control_down(false);
    assert_eq!(s.selection.selected_control, ChannelControl::Fader);
    s.navigate_control_down(false);
    assert_eq!(s.selection.selected_control, ChannelControl::Mute);
    s.navigate_control_right(true);
    assert_eq!(s.selection.selected_control, ChannelControl::Solo);
    s.navigate_control_up(false);
    assert_eq!(s.selection.selected_control, ChannelControl::Fader);
}

#[test]
fn cue_deck_navigation() {
    let mut s = state(SelectedPane::DeckC, AppMode::ControlSelect);
    s.navigate_control_down(false);
    assert_eq!(s.selection.selected_control, ChannelControl::Mute);
    s.navigate_control_right(true);
    assert_eq!(s.selection.selected_control, ChannelControl::CueSendToA);
    s.navigate_control_right(true);
    assert_eq!(s.selection.selected_control, ChannelControl::Mute);
    s.navigate_control_down(false);
    assert_eq!(s.selection.selected_control, ChannelControl::Solo);
    s.navigate_control_down(false);
    assert_eq!(s.selection.selected_control, ChannelControl::CueOutputSelect);
    s.navigate_control_up(false);
    assert_eq!(s.selection.selected_control, ChannelControl::Solo);
    s.selection.selected_control = ChannelControl::PlayPause;
    s.navigate_control_up(true);
    assert_eq!(s.selection.selected_control, ChannelControl::Scrub);
    s.navigate_control_up(true);
    assert_eq!(s.selection.selected_control, ChannelControl::CueOutputSelect);
}

#[test]
fn loops_pane_hands_moves_to_the_sequencer() {
    let mut s = state(SelectedPane::Loops, AppMode::ControlSelect);
    assert_eq!(s.navigate_control_down(false), ControlAction::Sequence(NavMove::Down));
    assert_eq!(s.navigate_control_left(false), ControlAction::Sequence(NavMove::Left));
    assert_eq!(s.handle_control_select_key(NavKey::Char('k'), ctx()), ControlAction::Sequence(NavMove::Up));
}

#[test]
fn control_select_keys() {
    let mut x = state(SelectedPane::Crossfader, AppMode::ControlSelect);
    assert_eq!(x.handle_control_select_key(NavKey::Char('j'), ctx()), ControlAction::CrossfaderTowardsA);
    assert_eq!(x.handle_control_select_key(NavKey::Right, ctx()), ControlAction::CrossfaderTowardsB);
    assert_eq!(x.handle_control_select_key(NavKey::Esc, ctx()), ControlAction::Nothing);
    assert_eq!(x.mode, AppMode::PaneSelect);

    let mut t = state(SelectedPane::Master, AppMode::ControlSelect);
    t.handle_control_select_key(NavKey::Tab, ctx());
    assert_eq!(t.selected_pane, SelectedPane::DeckA);
    assert_eq!(t.selection.focus, SelectionFocus::Channel(0));
    t.handle_control_select_key(NavKey::BackTab, ctx());
    assert_eq!(t.selected_pane, SelectedPane::Master);

    let mut r = state(SelectedPane::DeckC, AppMode::ControlSelect);
    r.handle_control_select_key(NavKey::Char('R'), ctx());
    assert_eq!(r.mode, AppMode::ConfirmAction(ConfirmAction::ResetDeck(Deck::C)));
    let mut r2 = state(SelectedPane::DeckC, AppMode::ControlSelect);
    r2.handle_control_select_key(NavKey::Char('r'), ctx());
    assert_eq!(r2.mode, AppMode::ControlSelect);

    let mut m = state(SelectedPane::DeckA, AppMode::ControlSelect);
    assert_eq!(m.handle_control_select_key(NavKey::Char('m'), ctx()), ControlAction::ToggleChannelMute(0));
    assert_eq!(m.handle_control_select_key(NavKey::Char('s'), ctx()), ControlAction::ToggleSolo(0));
    assert_eq!(m.handle_control_select_key(NavKey::Char('0'), ctx()), ControlAction::ResetCurrentControl);
    assert_eq!(m.handle_control_select_key(NavKey::Char('c'), ctx()), ControlAction::CenterControl);
    assert_eq!(m.handle_control_select_key(NavKey::Char('?'), ctx()), ControlAction::Nothing);
    assert_eq!(m.mode, AppMode::Help);
}

#[test]
fn enter_in_control_select() {
    let mut s = state(SelectedPane::DeckA, AppMode::ControlSelect);
    assert_eq!(s.handle_control_select_key(NavKey::Enter, ctx()), ControlAction::Nothing);
    assert_eq!(s.mode, AppMode::Edit);

    let mut b = state(SelectedPane::DeckB, AppMode::ControlSelect);
    b.selection.selected_control = ChannelControl::Mute;
    assert_eq!(b.handle_control_select_key(NavKey::Char(' '), ctx()), ControlAction::ToggleCurrentControl);
    b.selection.selected_control = ChannelControl::NextTrack;
    assert_eq!(b.handle_control_select_key(NavKey::Enter, ctx()), ControlAction::PlaylistNav(1, true));
    b.selection.selected_control = ChannelControl::PlayPause;
    let empty = ControlContext { focus_connected: false, ..ctx() };
    assert_eq!(b.handle_control_select_key(NavKey::Enter, empty), ControlAction::OpenSourcePicker(Deck::B));
    assert_eq!(b.handle_control_select_key(NavKey::Enter, ctx()), ControlAction::ToggleCurrentControl);
    let picking = ControlContext { output_picker_active: true, ..ctx() };
    assert_eq!(b.handle_control_select_key(NavKey::Enter, picking), ControlAction::SelectOutputDevice);

    let mut c = state(SelectedPane::DeckC, AppMode::ControlSelect);
    c.selection.selected_control = ChannelControl::CueSendToB;
    assert_eq!(c.handle_control_select_key(NavKey::Enter, ctx()), ControlAction::SendCue(SendTarget::B));
    c.selection.selected_control = ChannelControl::CueOutputSelect;
    assert_eq!(
        c.handle_control_select_key(NavKey::Enter, ctx()),
        ControlAction::OpenOutputPicker(OutputPickerTarget::Cue)
    );

    let mut p = state(SelectedPane::DjCenter, AppMode::ControlSelect);
    p.selected_pad_idx = Some(6);
    assert_eq!(p.handle_control_select_key(NavKey::Enter, ctx()), ControlAction::OpenPadConfig(6));
    assert_eq!(p.mode, AppMode::SamplePadConfig);

    let mut l = state(SelectedPane::Loops, AppMode::ControlSelect);
    let seq = ControlContext { sequence_focused: true, ..ctx() };
    assert_eq!(l.handle_control_select_key(NavKey::Enter, seq), ControlAction::SequenceEnter);

    let mut g = state(SelectedPane::Master, AppMode::ControlSelect);
    assert_eq!(g.handle_control_select_key(NavKey::Enter, ctx()), ControlAction::ToggleCurrentControl);
    g.selection.selected_global = GlobalControl::MasterOutputSelect;
    assert_eq!(
        g.handle_control_select_key(NavKey::Enter, ctx()),
        ControlAction::OpenOutputPicker(OutputPickerTarget::Master)
    );
}

#[test]
fn edit_mode_keys() {
    let mut s = state(SelectedPane::DeckA, AppMode::Edit);
    let fine_up = s.handle_edit_key(NavKey::Char('k'));
    assert_eq!(fine_up, EditOutcome { action: EditAction::AdjustSelected(5), sync: true });
    assert_eq!(s.handle_edit_key(NavKey::Left).action, EditAction::AdjustSelected(-5));
    assert_eq!(s.handle_edit_key(NavKey::Char('K')).action, EditAction::AdjustSelected(25));
    assert_eq!(s.handle_edit_key(NavKey::Char('L')).action, EditAction::AdjustSelected(20));
    s.selection.selected_control = ChannelControl::Pan;
    assert_eq!(s.handle_edit_key(NavKey::Char('H')).action, EditAction::PanToEdge(false));
    assert_eq!(s.handle_edit_key(NavKey::Char('J')).action, EditAction::AdjustSelected(-20));
    s.selection.selected_control = ChannelControl::LfoShape;
    assert_eq!(s.handle_edit_key(NavKey::Char('L')).action, EditAction::FilterToEdge(true));
    s.selection.selected_control = ChannelControl::Scrub;
    assert_eq!(s.handle_edit_key(NavKey::Char('l')), EditOutcome { action: EditAction::ScrubTap(true), sync: false });
    assert_eq!(s.handle_edit_key(NavKey::Char('J')), EditOutcome { action: EditAction::StartScrub(false), sync: true });
    assert_eq!(s.handle_edit_key(NavKey::Char('a')).action, EditAction::Nothing);
    assert_eq!(s.handle_edit_key(NavKey::Char('0')).action, EditAction::ResetCurrentControl);
    assert_eq!(s.handle_edit_key(NavKey::Char('C')).action, EditAction::CenterControl);
    s.handle_edit_key(NavKey::Esc);
    assert_eq!(s.mode, AppMode::ControlSelect);

    let mut x = state(SelectedPane::Crossfader, AppMode::Edit);
    assert_eq!(x.handle_edit_key(NavKey::Char('b')), EditOutcome { action: EditAction::SlamCrossfader(true), sync: true });
    x.handle_edit_key(NavKey::Enter);
    assert_eq!(x.mode, AppMode::PaneSelect);

    let mut l = state(SelectedPane::Loops, AppMode::Edit);
    assert_eq!(
        l.handle_edit_key(NavKey::Char('H')),
        EditOutcome { action: EditAction::SequenceAdjust { up: false, coarse: true }, sync: false }
    );
    assert_eq!(
        l.handle_edit_key(NavKey::Char('K')),
        EditOutcome { action: EditAction::SequenceAdjust { up: true, coarse: true }, sync: true }
    );
    assert_eq!(l.handle_edit_key(NavKey::Char('0')).action, EditAction::ResetSequenceControl);
    l.handle_edit_key(NavKey::Tab);
    assert_eq!(l.selected_pane, SelectedPane::Crossfader);
    assert_eq!(l.mode, AppMode::Edit);
}
