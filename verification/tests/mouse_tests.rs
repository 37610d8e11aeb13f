use termixer::areas::{ChannelArea, HitAreas, HitResult};
use termixer::controls::{ChannelControl, GlobalControl, SelectionFocus};
use termixer::layout::{PaneArea, SelectedPane};
use termixer::modes::AppMode;
use termixer::mouse::ClickAction;
use termixer::panes::PaneState;
use termixer::selection::MixerSelection;

fn areas() -> HitAreas {
    let mut a = HitAreas::new();
    a.update_channel_areas(vec![
        ChannelArea {
            bounds: (0, 0, 20, 30),
            control_rows: vec![(ChannelControl::Mute, 20, 22), (ChannelControl::Pan, 10, 12)],
        },
        ChannelArea { bounds: (40, 0, 20, 30), control_rows: vec![(ChannelControl::Solo, 22, 24)] },
    ]);
    a.update_pane_areas(
        Some(PaneArea { x: 20, y: 25, w: 20, h: 5 }),
        Some(PaneArea { x: 60, y: 0, w: 20, h: 30 }),
        Some(PaneArea { x: 80, y: 0, w: 20, h: 30 }),
        Some(PaneArea { x: 20, y: 12, w: 20, h: 13 }),
        vec![(0, 20, 0, 10, 6), (1, 30, 0, 10, 6), (5, 20, 6, 10, 6)],
    );
    a
}

fn state() -> PaneState {
    PaneState {
        mode: AppMode::PaneSelect,
        selected_pane: SelectedPane::DeckB,
        selected_pad_idx: None,
        selection: MixerSelection::new(),
        confirm_selected: false,
        help_scroll: 0,
        term_width: 200,
        mixer_window_start: 0,
        mixer_window_end: 4,
    }
}

#[test]
fn hit_test_order() {
    let a = areas();
    assert_eq!(a.hit_test_all(5, 21), Some(HitResult::Channel(0, ChannelControl::Mute)));
    assert_eq!(a.hit_test_all(5, 11), Some(HitResult::Channel(0, ChannelControl::Pan)));
    // Outside every control row the fader is under the pointer.
    assert_eq!(a.hit_test_all(5, 3), Some(HitResult::Channel(0, ChannelControl::Fader)));
    assert_eq!(a.hit_test_all(45, 23), Some(HitResult::Channel(1, ChannelControl::Solo)));
    assert_eq!(a.hit_test(45, 23), Some((1, ChannelControl::Solo)));
    assert_eq!(a.hit_test_all(25, 2), Some(HitResult::Pad(0)));
    assert_eq!(a.hit_test_all(35, 2), Some(HitResult::Pad(1)));
    assert_eq!(a.hit_test_all(25, 8), Some(HitResult::Pad(5)));
    assert_eq!(a.hit_test_all(25, 26), Some(HitResult::Crossfader));
    assert_eq!(a.hit_test_all(70, 5), Some(HitResult::Master));
    assert_eq!(a.hit_test_all(90, 5), Some(HitResult::Cue));
    assert_eq!(a.hit_test_all(25, 15), Some(HitResult::Loops));
    assert_eq!(a.hit_test_all(150, 5), None);
    assert_eq!(a.hit_test(25, 2), None);
    assert_eq!(HitAreas::new().hit_test_all(0, 0), None);
}

#[test]
fn clicking_a_channel_selects_its_control() {
    let a = areas();
    let mut s = state();
    assert_eq!(s.handle_mixer_click(&a, 5, 11), ClickAction::BeginDrag(11));
    assert_eq!(s.selected_pane, SelectedPane::DeckA);
    assert_eq!(s.selection.focus, SelectionFocus::Channel(0));
    assert_eq!(s.selection.selected_control, ChannelControl::Pan);
    assert_eq!(s.handle_mixer_click(&a, 45, 23), ClickAction::ToggleSelected);
    assert_eq!(s.selected_pane, SelectedPane::DeckB);
    assert_eq!(s.selection.selected_channel, 1);
}

#[test]
fn clicking_pads_crossfader_and_loops() {
    let a = areas();
    let mut s = state();
    assert_eq!(s.handle_mixer_click(&a, 25, 8), ClickAction::TriggerPad(5));
    assert_eq!(s.selected_pane, SelectedPane::DjCenter);
    assert_eq!(
        s.handle_mixer_click(&a, 30, 27),
        ClickAction::PositionCrossfader { inner_x: 10, width: 20, start: 27 }
    );
    assert_eq!(s.selected_pane, SelectedPane::Crossfader);
    assert_eq!(s.selection.selected_global, GlobalControl::Crossfader);
    assert_eq!(s.handle_mixer_click(&a, 25, 15), ClickAction::Nothing);
    assert_eq!(s.selected_pane, SelectedPane::Loops);
    let before = s;
    assert_eq!(s.handle_mixer_click(&a, 150, 5), ClickAction::Nothing);
    assert_eq!(s, before);
}

#[test]
fn clicking_the_master_pane() {
    let a = areas();
    let mut s = state();
    assert_eq!(s.handle_mixer_click(&a, 70, 2), ClickAction::ToggleMasterPlay);
    assert_eq!(s.selected_pane, SelectedPane::Master);
    assert_eq!(s.selection.focus, SelectionFocus::Global);
    assert_eq!(s.selection.selected_global, GlobalControl::MasterPlayPause);
    assert_eq!(s.handle_mixer_click(&a, 65, 28), ClickAction::ToggleMasterMute);
    assert_eq!(s.selection.selected_global, GlobalControl::MasterMute);
    assert_eq!(s.handle_mixer_click(&a, 75, 28), ClickAction::Nothing);
    assert_eq!(s.selection.selected_global, GlobalControl::MasterOutputSelect);
    assert_eq!(s.handle_mixer_click(&a, 70, 15), ClickAction::BeginDrag(15));
    assert_eq!(s.selection.selected_global, GlobalControl::MasterFader);
}

#[test]
fn clicking_the_cue_pane() {
    let a = areas();
    let mut s = state();
    assert_eq!(s.handle_mixer_click(&a, 85, 28), ClickAction::ToggleSelected);
    assert_eq!(s.selected_pane, SelectedPane::DeckC);
    assert_eq!(s.selection.focus, SelectionFocus::Channel(2));
    assert_eq!(s.selection.selected_control, ChannelControl::CueSendToA);
    assert_eq!(s.handle_mixer_click(&a, 95, 29), ClickAction::ToggleSelected);
    assert_eq!(s.selection.selected_control, ChannelControl::CueSendToB);
    assert_eq!(s.handle_mixer_click(&a, 95, 10), ClickAction::BeginDrag(10));
    assert_eq!(s.selection.selected_control, ChannelControl::Fader);
}
