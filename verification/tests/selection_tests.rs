use termixer::controls::{ChannelControl, GlobalControl, SelectionFocus};
use termixer::layout::SelectedPane;
use termixer::selection::MixerSelection;

fn on_channel(ch: usize, c: ChannelControl) -> MixerSelection {
    let mut s = MixerSelection::new();
    s.focus = SelectionFocus::Channel(ch);
    s.selected_channel = ch;
    s.selected_control = c;
    s
}

#[test]
fn fresh_selection() {
    let s = MixerSelection::new();
    assert_eq!(s.focus, SelectionFocus::Channel(0));
    assert_eq!(s.selected_control, ChannelControl::Fader);
    assert_eq!(s.selected_global, GlobalControl::Crossfader);
    assert_eq!((s.deck_a_channel, s.deck_b_channel, s.deck_c_channel), (0, 1, 2));
}

#[test]
fn deck_channels_and_sections() {
    let s = on_channel(0, ChannelControl::EqMidKill);
    assert!(s.is_deck_channel(0) && s.is_deck_channel(1) && s.is_deck_channel(2));
    assert!(!s.is_deck_channel(3));
    assert!(s.is_in_eq_section());
    assert!(!s.is_in_filter_section());
    assert!(s.is_in_eq_or_filter_section());
    let f = on_channel(1, ChannelControl::LfoSpeed);
    assert!(f.is_in_filter_section() && f.is_filter_selected());
    assert!(!on_channel(1, ChannelControl::Mute).is_in_eq_or_filter_section());
}

#[test]
fn continuous_and_fader_selection() {
    assert!(on_channel(0, ChannelControl::Pan).is_current_control_continuous());
    assert!(on_channel(0, ChannelControl::Pan).is_pan_selected());
    assert!(!on_channel(0, ChannelControl::Mute).is_current_control_continuous());
    assert!(on_channel(0, ChannelControl::Fader).is_volume_fader_selected());
    let mut g = MixerSelection::new();
    g.focus = SelectionFocus::Global;
    g.selected_global = GlobalControl::MasterFader;
    assert!(g.is_volume_fader_selected());
    assert!(g.is_current_control_continuous());
    g.selected_global = GlobalControl::MasterEq250;
    assert!(g.is_current_control_continuous());
    g.selected_global = GlobalControl::MasterMute;
    assert!(!g.is_current_control_continuous());
    // With the focus on the global controls no channel knob counts.
    g.selected_control = ChannelControl::Pan;
    assert!(!g.is_pan_selected());
}

#[test]
fn deck_moves_down_and_up() {
    let mut s = on_channel(0, ChannelControl::Fader);
    s.select_next_control(false, false);
    assert_eq!(s.selected_control, ChannelControl::Mute);
    s.select_next_control(false, false);
    assert_eq!(s.selected_control, ChannelControl::Solo);
    s.select_next_control(false, false);
    // Past the last deck row the selection wraps to the first shown row.
    assert_eq!(s.selected_control, ChannelControl::PlayPause);
    s.select_prev_control(false, false);
    assert_eq!(s.selected_control, ChannelControl::Solo);
    // Going up from Solo on a deck skips Mute and lands on the fader.
    s.select_prev_control(false, false);
    assert_eq!(s.selected_control, ChannelControl::Fader);
    let mut m = on_channel(1, ChannelControl::Mute);
    m.select_prev_control(false, false);
    assert_eq!(m.selected_control, ChannelControl::Fader);
}

#[test]
fn scrub_row_only_when_visible() {
    let mut s = on_channel(0, ChannelControl::PlayPause);
    s.select_prev_control(false, true);
    assert_eq!(s.selected_control, ChannelControl::Scrub);
    let mut t = on_channel(0, ChannelControl::PlayPause);
    t.select_prev_control(false, false);
    assert_eq!(t.selected_control, ChannelControl::Solo);
    let mut u = on_channel(0, ChannelControl::Solo);
    u.select_next_control(false, true);
    assert_eq!(u.selected_control, ChannelControl::Scrub);
}

#[test]
fn cue_pane_moves() {
    let mut s = on_channel(2, ChannelControl::Fader);
    s.select_next_control(true, false);
    assert_eq!(s.selected_control, ChannelControl::Mute);
    s.select_next_control(true, false);
    assert_eq!(s.selected_control, ChannelControl::Solo);
    s.select_next_control(true, false);
    assert_eq!(s.selected_control, ChannelControl::CueOutputSelect);
    s.select_next_control(true, false);
    assert_eq!(s.selected_control, ChannelControl::PlayPause);
    let mut t = on_channel(2, ChannelControl::CueSendToA);
    t.select_prev_control(true, false);
    assert_eq!(t.selected_control, ChannelControl::Fader);
    let mut u = on_channel(2, ChannelControl::CueSendToA);
    u.select_next_control(true, false);
    assert_eq!(u.selected_control, ChannelControl::CueSendToB);
    u.select_next_control(true, false);
    assert_eq!(u.selected_control, ChannelControl::CueOutputSelect);
    u.select_prev_control(true, false);
    assert_eq!(u.selected_control, ChannelControl::CueSendToB);
    u.select_prev_control(true, false);
    assert_eq!(u.selected_control, ChannelControl::CueSendToA);
    let mut v = on_channel(2, ChannelControl::Solo);
    v.select_prev_control(true, false);
    assert_eq!(v.selected_control, ChannelControl::Mute);
}

#[test]
fn plain_strip_moves() {
    let mut s = on_channel(5, ChannelControl::Solo);
    s.select_next_control(false, false);
    assert_eq!(s.selected_control, ChannelControl::EqMid);
    s.select_prev_control(false, false);
    assert_eq!(s.selected_control, ChannelControl::Solo);
}

#[test]
fn pane_sync() {
    let mut s = on_channel(0, ChannelControl::Pan);
    s.sync_pane_to_mixer(SelectedPane::DeckB);
    assert_eq!(s.focus, SelectionFocus::Channel(1));
    assert_eq!(s.selected_channel, 1);
    assert_eq!(s.selected_control, ChannelControl::Fader);
    s.sync_pane_to_mixer(SelectedPane::Master);
    assert_eq!(s.focus, SelectionFocus::Global);
    assert_eq!(s.selected_global, GlobalControl::MasterPlayPause);
    s.sync_pane_to_mixer(SelectedPane::Loops);
    assert_eq!(s.selected_global, GlobalControl::MasterPlayPause);
    s.sync_pane_to_mixer(SelectedPane::DeckC);
    assert_eq!(s.focus, SelectionFocus::Channel(2));
}
