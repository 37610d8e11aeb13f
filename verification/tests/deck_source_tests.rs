use termixer::deck_source::SourceAction;
use termixer::modes::Deck;
use termixer::picker::{SourcePickerItem, SourcePickerState, SourcePickerTab};

fn entry(name: &str, path: &str) -> SourcePickerItem {
    SourcePickerItem {
        name: name.to_string(),
        path: path.to_string(),
        is_socket: false,
        is_pcm_fifo: false,
        is_udp: false,
        is_dir: false,
        camelot_key: None,
    }
}

fn picker_with(tab: SourcePickerTab, items: Vec<SourcePickerItem>) -> SourcePickerState {
    let mut p = SourcePickerState::new();
    p.tab = tab;
    p.items = items;
    p.filter();
    // filtering leaves nothing selected; pick the first entry
    p.selected = 0;
    p
}

#[test]
fn deck_actions_list_each_deck_with_its_mark() {
    let mut p = SourcePickerState::new();
    p.scan_deck_actions(true, false, true);
    let names: Vec<&str> = p.items.iter().map(|i| i.name.as_str()).collect();
    assert_eq!(names, vec!["\u{25cf} Clear Deck A", "\u{25cb} Clear Deck B", "\u{25cf} Clear Deck C"]);
    assert!(p.items.iter().all(|i| i.path.is_empty() && !i.is_dir));
}

#[test]
fn choosing_a_clear_action_clears_that_deck() {
    let mut p = SourcePickerState::new();
    p.tab = SourcePickerTab::DeckActions;
    p.scan_deck_actions(false, true, false);
    p.filter();
    for (k, deck) in [Deck::A, Deck::B, Deck::C].into_iter().enumerate() {
        p.selected = k;
        assert!(matches!(p.source_action(Deck::A), SourceAction::ClearDeck(Some(d)) if d == deck));
    }
    p.selected = 7;
    assert!(matches!(p.source_action(Deck::B), SourceAction::ClearDeck(None)));
}

#[test]
fn unnamed_deck_action_clears_nothing() {
    let p = picker_with(SourcePickerTab::DeckActions, vec![entry("Something else", "")]);
    assert!(matches!(p.source_action(Deck::C), SourceAction::ClearDeck(None)));
}

#[test]
fn nothing_selected_asks_for_nothing() {
    let p = picker_with(SourcePickerTab::AudioFiles, vec![]);
    assert!(matches!(p.source_action(Deck::A), SourceAction::Nothing));
    let mut p = picker_with(SourcePickerTab::AudioFiles, vec![entry("a.mp3", "/a.mp3")]);
    p.filter();
    assert!(matches!(p.source_action(Deck::A), SourceAction::Nothing));
}

#[test]
fn route_pipe_is_captured() {
    let mut it = entry("Song - Band", "/tmp/termixer-A.pcm");
    it.is_pcm_fifo = true;
    let p = picker_with(SourcePickerTab::MpvSockets, vec![it]);
    match p.source_action(Deck::A) {
        SourceAction::AttachFifo { path, name } => {
            assert_eq!(path, "/tmp/termixer-A.pcm");
            assert_eq!(name, "Song - Band");
        }
        _ => panic!("expected a pipe capture"),
    }
}

#[test]
fn mpv_socket_is_connected() {
    let mut it = entry("mpvsocket", "/tmp/mpvsocket");
    it.is_socket = true;
    let p = picker_with(SourcePickerTab::MpvSockets, vec![it]);
    match p.source_action(Deck::B) {
        SourceAction::ConnectMpv { socket, name } => {
            assert_eq!(socket, "/tmp/mpvsocket");
            assert_eq!(name, "mpvsocket");
        }
        _ => panic!("expected an MPV connection"),
    }
}

#[test]
fn supercollider_entry_connects_with_deck_nodes() {
    let mut p = SourcePickerState::new();
    p.tab = SourcePickerTab::SuperCollider;
    p.scan_supercollider_sources();
    p.filter();
    p.selected = 0;
    assert_eq!(p.items.len(), 1);
    assert_eq!(p.items[0].name, "SuperCollider UDP (127.0.0.1:57110)");
    for (deck, base) in [(Deck::A, 1000), (Deck::B, 2000), (Deck::C, 3000)] {
        match p.source_action(deck) {
            SourceAction::ConnectSuperCollider { addr, name, base_node_id, input_bus } => {
                assert_eq!(addr, "127.0.0.1:57110");
                assert_eq!(name, "SuperCollider UDP (127.0.0.1:57110)");
                assert_eq!(base_node_id, base);
                assert_eq!(input_bus, 4);
            }
            _ => panic!("expected a SuperCollider connection"),
        }
    }
}

#[test]
fn udp_address_without_scheme_is_kept() {
    let mut it = entry("remote", "10.0.0.2:57110");
    it.is_udp = true;
    let p = picker_with(SourcePickerTab::SuperCollider, vec![it]);
    match p.source_action(Deck::A) {
        SourceAction::ConnectSuperCollider { addr, .. } => assert_eq!(addr, "10.0.0.2:57110"),
        _ => panic!("expected a SuperCollider connection"),
    }
}

#[test]
fn audio_file_is_loaded() {
    let p = picker_with(SourcePickerTab::AudioFiles, vec![entry("track.flac", "/music/track.flac")]);
    match p.source_action(Deck::A) {
        SourceAction::LoadFile { path, name } => {
            assert_eq!(path, "/music/track.flac");
            assert_eq!(name, "track.flac");
        }
        _ => panic!("expected a file load"),
    }
}
