use termixer::picker::{PickerInputMode, SourcePickerItem, SourcePickerState, SourcePickerTab};

fn item(name: &str) -> SourcePickerItem {
    SourcePickerItem {
        name: name.to_string(),
        path: format!("/music/{}", name),
        is_socket: false,
        is_pcm_fifo: false,
        is_udp: false,
        is_dir: false,
        camelot_key: None,
    }
}

fn picker_with(names: &[&str]) -> SourcePickerState {
    let mut p = SourcePickerState::new();
    p.items = names.iter().map(|n| item(n)).collect();
    p.filter();
    p
}

#[test]
fn new_picker_starts_on_sockets_tab() {
    let p = SourcePickerState::new();
    assert_eq!(p.tab, SourcePickerTab::MpvSockets);
    assert!(p.tab_focused);
    assert_eq!(p.input_mode, PickerInputMode::Normal);
    assert_eq!(p.visible_height, 12);
    assert!(p.items.is_empty() && p.filtered.is_empty());
    assert_eq!((p.selected, p.scroll_offset, p.tab_scroll_offset), (0, 0, 0));
}

#[test]
fn empty_query_keeps_everything_and_selects_nothing() {
    let p = picker_with(&["Alpha", "beta", "Gamma"]);
    assert_eq!(p.filtered, vec![0, 1, 2]);
    assert_eq!(p.selected, 3);
    assert!(p.selected_item().is_none());
}

#[test]
fn filter_ignores_case() {
    let mut p = picker_with(&["Deep House Mix", "techno", "HOUSE classics", "ambient"]);
    p.query = "house".to_string();
    p.scroll_offset = 5;
    p.filter();
    assert_eq!(p.filtered, vec![0, 2]);
    assert_eq!(p.selected, 2);
    assert_eq!(p.scroll_offset, 0);
    p.query = "ÉCOLE".to_string();
    p.items.push(item("école de musique"));
    p.filter();
    assert_eq!(p.filtered, vec![4]);
}

#[test]
fn moving_wraps_around_the_list() {
    let mut p = picker_with(&["a", "b", "c"]);
    p.move_down();
    assert_eq!(p.selected, 0);
    assert_eq!(p.selected_item().unwrap().name, "a");
    p.move_up();
    assert_eq!(p.selected, 2);
    p.move_down();
    assert_eq!(p.selected, 0);
    p.move_down();
    p.move_up();
    assert_eq!(p.selected, 0);
}

#[test]
fn moving_down_scrolls_the_window() {
    let names: Vec<String> = (0..20).map(|i| format!("track {}", i)).collect();
    let refs: Vec<&str> = names.iter().map(|s| s.as_str()).collect();
    let mut p = picker_with(&refs);
    p.visible_height = 5;
    p.selected = 4;
    p.move_down();
    assert_eq!(p.selected, 5);
    assert_eq!(p.scroll_offset, 1);
    p.selected = 0;
    p.scroll_offset = 3;
    p.move_up();
    assert_eq!(p.selected, 19);
    assert_eq!(p.scroll_offset, 3);
    p.selected = 2;
    p.move_up();
    assert_eq!(p.selected, 1);
    assert_eq!(p.scroll_offset, 1);
}

#[test]
fn moving_in_an_empty_list_does_nothing() {
    let mut p = picker_with(&[]);
    p.move_down();
    p.move_up();
    assert_eq!(p.selected, 0);
}

#[test]
fn clamp_scroll_keeps_selection_visible() {
    let names: Vec<String> = (0..10).map(|i| format!("t{}", i)).collect();
    let refs: Vec<&str> = names.iter().map(|s| s.as_str()).collect();
    let mut p = picker_with(&refs);
    p.visible_height = 4;
    p.scroll_offset = 9;
    p.selected = 9;
    p.clamp_scroll();
    assert_eq!(p.scroll_offset, 6);
    p.selected = 2;
    p.clamp_scroll();
    assert_eq!(p.scroll_offset, 2);
    p.selected = 8;
    p.clamp_scroll();
    assert_eq!(p.scroll_offset, 5);
}

#[test]
fn tabs_cycle_both_ways() {
    let mut p = SourcePickerState::new();
    p.tab_focused = false;
    p.next_tab();
    assert_eq!(p.tab, SourcePickerTab::AudioFiles);
    assert!(p.tab_focused);
    p.next_tab();
    p.next_tab();
    assert_eq!(p.tab, SourcePickerTab::DeckActions);
    p.next_tab();
    assert_eq!(p.tab, SourcePickerTab::MpvSockets);
    p.prev_tab();
    assert_eq!(p.tab, SourcePickerTab::DeckActions);
    p.prev_tab();
    assert_eq!(p.tab, SourcePickerTab::SuperCollider);
}

#[test]
fn tab_bar_scrolls_back_to_the_active_label() {
    let mut p = SourcePickerState::new();
    p.tab = SourcePickerTab::DeckActions;
    p.tab_scroll_offset = 30;
    p.next_tab();
    assert_eq!(p.tab, SourcePickerTab::MpvSockets);
    assert_eq!(p.tab_scroll_offset, 0);
    p.tab = SourcePickerTab::AudioFiles;
    p.tab_scroll_offset = 20;
    p.next_tab();
    assert_eq!(p.tab, SourcePickerTab::SuperCollider);
    assert_eq!(p.tab_scroll_offset, 20);
}

#[test]
fn going_up_stops_at_the_root() {
    let mut p = SourcePickerState::new();
    p.set_root("/home/dj/Music".to_string());
    assert_eq!(p.current_dir, "/home/dj/Music");
    assert!(!p.can_go_up());
    assert_eq!(p.relative_path(), "");
    p.current_dir = "/home/dj/Music/techno/2024".to_string();
    assert!(p.can_go_up());
    assert_eq!(p.relative_path(), "techno/2024");
    p.current_dir = "/home/dj/Musical".to_string();
    assert!(!p.can_go_up());
    assert_eq!(p.relative_path(), "");
    p.current_dir = "/home/dj/Music/".to_string();
    assert!(!p.can_go_up());
}

use termixer::panes::NavKey;
use termixer::picker_keys::PickerAction;

fn dir_item(name: &str) -> SourcePickerItem {
    SourcePickerItem { is_dir: true, ..item(name) }
}

#[test]
fn picker_keys_from_the_tab_bar() {
    let mut p = picker_with(&["one", "two", "three"]);
    assert!(p.tab_focused);
    assert_eq!(p.handle_source_picker_key(NavKey::Char('j')), PickerAction::Nothing);
    assert_eq!(p.visible_height, 13);
    assert!(!p.tab_focused);
    assert_eq!(p.selected, 0);
    assert_eq!(p.handle_source_picker_key(NavKey::Char('k')), PickerAction::Nothing);
    assert!(p.tab_focused);
    assert_eq!(p.selected, 3);
    assert_eq!(p.handle_source_picker_key(NavKey::Up), PickerAction::Nothing);
    assert!(!p.tab_focused);
    assert_eq!(p.selected, 2);
    assert_eq!(p.handle_source_picker_key(NavKey::Char('g')), PickerAction::Nothing);
    assert_eq!(p.selected, 0);
    assert_eq!(p.handle_source_picker_key(NavKey::Char('G')), PickerAction::Nothing);
    assert_eq!(p.selected, 2);
    assert_eq!(p.handle_source_picker_key(NavKey::Esc), PickerAction::Close);
}

#[test]
fn picker_tabs_and_directories() {
    let mut p = picker_with(&[]);
    assert_eq!(p.handle_source_picker_key(NavKey::Char('l')), PickerAction::Rescan);
    assert_eq!(p.tab, SourcePickerTab::AudioFiles);
    p.set_root("/music".to_string());
    p.current_dir = "/music/house".to_string();
    p.items = vec![dir_item("../"), item("song.mp3")];
    p.filter();
    p.tab_focused = false;
    p.selected = 0;
    assert_eq!(p.handle_source_picker_key(NavKey::Char('h')), PickerAction::EnterParent);
    assert_eq!(p.handle_source_picker_key(NavKey::Right), PickerAction::EnterSelected);
    assert_eq!(p.handle_source_picker_key(NavKey::Enter), PickerAction::EnterSelected);
    p.handle_source_picker_key(NavKey::Down);
    assert_eq!(p.selected, 1);
    assert_eq!(p.handle_source_picker_key(NavKey::Enter), PickerAction::Choose);
    assert_eq!(p.handle_source_picker_key(NavKey::Char('l')), PickerAction::Rescan);
    assert_eq!(p.tab, SourcePickerTab::SuperCollider);
    assert!(p.tab_focused);
    assert_eq!(p.handle_source_picker_key(NavKey::BackTab), PickerAction::Rescan);
    assert_eq!(p.tab, SourcePickerTab::AudioFiles);
    p.current_dir = "/music".to_string();
    p.tab_focused = false;
    assert_eq!(p.handle_source_picker_key(NavKey::Left), PickerAction::Rescan);
    assert_eq!(p.tab, SourcePickerTab::MpvSockets);
}

#[test]
fn picker_search_typing() {
    let mut p = picker_with(&["Techno", "house", "TECH house"]);
    p.handle_source_picker_key(NavKey::Char('i'));
    assert_eq!(p.input_mode, PickerInputMode::Normal);
    p.tab_focused = false;
    p.handle_source_picker_key(NavKey::Char('i'));
    assert_eq!(p.input_mode, PickerInputMode::Insert);
    for c in "tech".chars() {
        p.handle_source_picker_key(NavKey::Char(c));
    }
    assert_eq!(p.query, "tech");
    assert_eq!(p.filtered, vec![0, 2]);
    assert_eq!(p.selected, 2);
    p.handle_source_picker_key(NavKey::Char('x'));
    assert!(p.filtered.is_empty());
    p.handle_source_picker_key(NavKey::Backspace);
    assert_eq!(p.query, "tech");
    assert_eq!(p.filtered, vec![0, 2]);
    p.handle_source_picker_key(NavKey::Down);
    assert_eq!(p.selected, 0);
    assert_eq!(p.handle_source_picker_key(NavKey::Enter), PickerAction::Choose);
    // j and k are typed, not moved with, while searching.
    p.handle_source_picker_key(NavKey::Char('k'));
    assert_eq!(p.query, "techk");
    for _ in 0..6 {
        p.handle_source_picker_key(NavKey::Backspace);
    }
    assert_eq!(p.query, "");
    assert_eq!(p.filtered, vec![0, 1, 2]);
    p.handle_source_picker_key(NavKey::Esc);
    assert_eq!(p.input_mode, PickerInputMode::Normal);
}

use termixer::picker_keys::SamplePickerAction;

#[test]
fn sample_picker_keys() {
    let mut p = picker_with(&["kick.wav", "snare.wav"]);
    p.items.insert(0, dir_item("loops/"));
    p.filter();
    p.set_root("/samples".to_string());
    assert_eq!(p.handle_sample_picker_key(NavKey::Char('j')), SamplePickerAction::Nothing);
    assert_eq!(p.visible_height, 15);
    assert_eq!(p.selected, 0);
    assert_eq!(p.handle_sample_picker_key(NavKey::Enter), SamplePickerAction::EnterSelected);
    p.handle_sample_picker_key(NavKey::Down);
    assert_eq!(p.handle_sample_picker_key(NavKey::Char('l')), SamplePickerAction::Assign);
    assert_eq!(p.handle_sample_picker_key(NavKey::Char(' ')), SamplePickerAction::Preview);
    assert_eq!(p.handle_sample_picker_key(NavKey::Char('h')), SamplePickerAction::Nothing);
    p.current_dir = "/samples/drums".to_string();
    assert_eq!(p.handle_sample_picker_key(NavKey::Left), SamplePickerAction::EnterParent);
    p.handle_sample_picker_key(NavKey::Char('G'));
    assert_eq!(p.selected, 2);
    p.handle_sample_picker_key(NavKey::Char('g'));
    assert_eq!(p.selected, 0);
    p.handle_sample_picker_key(NavKey::Char('i'));
    assert_eq!(p.input_mode, PickerInputMode::Insert);
    // Backspace on an empty query goes up a directory.
    assert_eq!(p.handle_sample_picker_key(NavKey::Backspace), SamplePickerAction::EnterParent);
    p.handle_sample_picker_key(NavKey::Char('N'));
    assert_eq!(p.filtered, vec![2]);
    assert_eq!(p.handle_sample_picker_key(NavKey::Backspace), SamplePickerAction::Nothing);
    assert_eq!(p.filtered, vec![0, 1, 2]);
    p.handle_sample_picker_key(NavKey::Esc);
    assert_eq!(p.handle_sample_picker_key(NavKey::Esc), SamplePickerAction::Close);
}
