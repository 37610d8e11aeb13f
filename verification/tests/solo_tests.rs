use std::collections::HashMap;
use termixer::controls::{ChannelControl, GlobalControl, SelectionFocus};
use termixer::selection::MixerSelection;
use termixer::solo::{ChannelSwitches, MixerSwitches};

fn strip(fader: f32) -> ChannelSwitches<f32> {
    ChannelSwitches {
        fader,
        muted: false,
        solo: false,
        playing: false,
        eq_low_kill: false,
        eq_mid_kill: false,
        eq_high_kill: false,
    }
}

fn mixer() -> MixerSwitches<f32> {
    MixerSwitches {
        channels: vec![strip(0.5), strip(0.8)],
        cue_channel: strip(0.3),
        master_muted: false,
        master_playing: false,
        solo_active: false,
        pre_solo_faders: HashMap::new(),
        pre_solo_cue_fader: None,
    }
}

fn selecting(ch: usize, control: ChannelControl) -> MixerSelection {
    let mut s = MixerSelection::new();
    s.focus = SelectionFocus::Channel(ch);
    s.selected_channel = ch;
    s.selected_control = control;
    s
}

#[test]
fn buttons_toggle() {
    let mut m = mixer();
    m.toggle_selected(0, ChannelControl::Mute);
    assert!(m.channels[0].muted);
    m.toggle_selected(1, ChannelControl::EqMidKill);
    assert!(m.channels[1].eq_mid_kill);
    m.toggle_selected(2, ChannelControl::PlayPause);
    assert!(m.cue_channel.playing);
    m.toggle_selected(0, ChannelControl::Fader);
    m.toggle_selected(7, ChannelControl::Mute);
    assert!(m.channels[0].muted && !m.channels[1].muted);
    m.toggle_selected(0, ChannelControl::Mute);
    assert!(!m.channels[0].muted);
}

#[test]
fn toggling_solo_updates_solo_state() {
    let mut m = mixer();
    m.toggle_selected(1, ChannelControl::Solo);
    assert!(m.channels[1].solo && m.solo_active);
    m.toggle_selected(1, ChannelControl::Solo);
    assert!(!m.solo_active);
    // Only the deck channels count for this flag.
    m.toggle_selected(2, ChannelControl::Solo);
    assert!(m.cue_channel.solo && !m.solo_active);
}

#[test]
fn mute_is_active_when_anything_is_muted() {
    let mut m = mixer();
    assert!(!m.mute_active());
    m.channels[1].muted = true;
    assert!(m.mute_active());
    m.channels[1].muted = false;
    m.cue_channel.muted = true;
    assert!(m.mute_active());
    m.cue_channel.muted = false;
    m.master_muted = true;
    assert!(m.mute_active());
}

#[test]
fn first_save_wins() {
    let mut m = mixer();
    m.save_fader_for_solo(0);
    m.channels[0].fader = 0.9;
    m.save_fader_for_solo(0);
    assert_eq!(m.pre_solo_faders.get(&0), Some(&0.5));
    m.save_fader_for_solo(2);
    m.cue_channel.fader = 1.0;
    m.save_fader_for_solo(2);
    assert_eq!(m.pre_solo_cue_fader, Some(0.3));
    m.save_fader_for_solo(5);
    assert_eq!(m.pre_solo_faders.len(), 1);
}

#[test]
fn restore_puts_the_saved_level_back_once() {
    let mut m = mixer();
    m.save_fader_for_solo(1);
    m.channels[1].fader = 0.1;
    assert!(m.restore_fader_from_solo(1));
    assert_eq!(m.channels[1].fader, 0.8);
    assert!(!m.restore_fader_from_solo(1));
    assert_eq!(m.channels[1].fader, 0.8);
    m.save_fader_for_solo(2);
    m.cue_channel.fader = 0.0;
    assert!(m.restore_fader_from_solo(2));
    assert_eq!(m.cue_channel.fader, 0.3);
    assert!(!m.restore_fader_from_solo(2));
}

#[test]
fn saved_level_of_a_missing_channel_is_dropped() {
    let mut m = mixer();
    m.pre_solo_faders.insert(4, 0.7);
    assert!(!m.restore_fader_from_solo(4));
    assert!(m.pre_solo_faders.is_empty());
}

#[test]
fn solo_is_exclusive() {
    let mut m = mixer();
    m.toggle_current_control(&selecting(0, ChannelControl::Solo));
    assert!(m.channels[0].solo && m.solo_active);
    assert_eq!(m.pre_solo_faders.get(&0), Some(&0.5));
    m.channels[0].fader = 1.0;
    m.channels[1].fader = 0.2;
    m.toggle_current_control(&selecting(1, ChannelControl::Solo));
    assert!(m.channels[1].solo && !m.channels[0].solo);
    // Deck A left solo and got its level back.
    assert_eq!(m.channels[0].fader, 0.5);
    assert_eq!(m.pre_solo_faders.get(&1), Some(&0.2));
    m.toggle_current_control(&selecting(2, ChannelControl::Solo));
    assert!(m.cue_channel.solo && !m.channels[1].solo && m.solo_active);
    assert_eq!(m.channels[1].fader, 0.2);
}

#[test]
fn solo_twice_restores_the_fader() {
    let mut m = mixer();
    let sel = selecting(1, ChannelControl::Solo);
    m.toggle_current_control(&sel);
    m.channels[1].fader = 0.05;
    m.toggle_current_control(&sel);
    assert_eq!(m.channels[1].fader, 0.8);
    assert!(!m.solo_active && !m.channels[1].solo);
    assert!(m.pre_solo_faders.is_empty());
}

#[test]
fn other_buttons_and_master_controls() {
    let mut m = mixer();
    m.toggle_current_control(&selecting(0, ChannelControl::EqHighKill));
    assert!(m.channels[0].eq_high_kill);
    let mut g = MixerSelection::new();
    g.focus = SelectionFocus::Global;
    g.selected_global = GlobalControl::MasterMute;
    m.toggle_current_control(&g);
    assert!(m.master_muted);
    g.selected_global = GlobalControl::MasterPlayPause;
    m.toggle_current_control(&g);
    assert!(m.master_playing);
    g.selected_global = GlobalControl::Crossfader;
    m.toggle_current_control(&g);
    assert!(m.master_muted && m.master_playing);
}
