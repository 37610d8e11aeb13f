use termixer::picker::{SourcePickerItem, SourcePickerState};
use termixer::schedule::{note_poll_outcome, volume_readback_allowed, nav_cache_fresh, restart_timeline_reader, route_meta_due, timeline_age, PollSchedule};

#[test]
fn polls_run_on_their_periods() {
    let mut s = PollSchedule::new();
    let mut mpv_ticks = Vec::new();
    let mut tidal_ticks = Vec::new();
    let mut meta = 0;
    for tick in 1..=100u32 {
        let p = s.tick(false);
        if p.mpv_state {
            mpv_ticks.push(tick);
        }
        if p.tidal_bpm {
            tidal_ticks.push(tick);
        }
        if p.route_meta {
            meta += 1;
        }
        assert!(!p.source_refresh);
    }
    assert_eq!(mpv_ticks, vec![25, 50, 75, 100]);
    assert_eq!(tidal_ticks, vec![100]);
    assert_eq!(meta, 50);
    assert_eq!(s.source_refresh, 0);
}

#[test]
fn counters_wrap_after_255() {
    let mut s = PollSchedule::new();
    s.mpv_poll = 250;
    assert!(!s.tick(false).mpv_state); // 251
    for _ in 0..4 {
        s.tick(false);
    }
    assert_eq!(s.mpv_poll, 255);
    let p = s.tick(false);
    assert_eq!(s.mpv_poll, 0);
    assert!(p.mpv_state);
}

#[test]
fn picker_refresh_counts_only_while_picking_sockets() {
    let mut s = PollSchedule::new();
    let mut refreshes = 0;
    for _ in 0..49 {
        assert!(!s.tick(true).source_refresh);
    }
    s.tick(false);
    assert_eq!(s.source_refresh, 49);
    if s.tick(true).source_refresh {
        refreshes += 1;
    }
    assert_eq!(refreshes, 1);
    s.route_meta_poll = 7;
    s.reset_route_meta();
    assert_eq!(s.route_meta_poll, 0);
    assert_eq!(s.source_refresh, 50);
}

fn socket(name: &str, path: &str) -> SourcePickerItem {
    SourcePickerItem {
        name: name.to_string(),
        path: path.to_string(),
        is_socket: true,
        is_pcm_fifo: false,
        is_udp: false,
        is_dir: false,
        camelot_key: None,
    }
}

#[test]
fn selection_follows_its_path_after_a_rescan() {
    let mut p = SourcePickerState::new();
    p.items = vec![socket("mpv-b", "/tmp/mpv-b"), socket("mpv-a", "/tmp/mpv-a")];
    p.filter();
    p.selected = 1;
    let prev = p.selected_item().map(|i| i.path.clone());
    assert_eq!(prev.as_deref(), Some("/tmp/mpv-a"));
    // the rescan lists a new socket first
    p.items = vec![socket("mpv-c", "/tmp/mpv-c"), socket("mpv-b", "/tmp/mpv-b"), socket("mpv-a", "/tmp/mpv-a")];
    p.filter();
    p.restore_selection(prev);
    assert_eq!(p.selected, 2);
    assert_eq!(p.selected_item().unwrap().path, "/tmp/mpv-a");
}

#[test]
fn selection_is_dropped_when_its_path_is_gone_or_filtered_out() {
    let mut p = SourcePickerState::new();
    p.items = vec![socket("mpv-b", "/tmp/mpv-b")];
    p.filter();
    p.restore_selection(Some("/tmp/mpv-a".to_string()));
    assert_eq!(p.selected, 1);
    assert!(p.selected_item().is_none());
    p.query = "zzz".to_string();
    p.restore_selection(Some("/tmp/mpv-b/".to_string()));
    assert!(p.filtered.is_empty());
    assert!(p.selected_item().is_none());
    p.restore_selection(None);
    assert!(p.selected_item().is_none());
}

#[test]
fn route_metadata_is_read_at_most_every_200_ms_unless_selected() {
    assert!(route_meta_due(false, 0, 50));
    assert!(!route_meta_due(false, 1000, 1199));
    assert!(route_meta_due(false, 1000, 1200));
    assert!(route_meta_due(true, 1000, 1001));
    // a clock that went backwards counts as no time passed
    assert!(!route_meta_due(false, 1000, 10));
}

#[test]
fn playlist_answers_are_cached_for_250_ms() {
    assert!(nav_cache_fresh(true, 1000, 1249));
    assert!(!nav_cache_fresh(true, 1000, 1250));
    assert!(!nav_cache_fresh(false, 1000, 1000));
}

#[test]
fn stale_timeline_readers_are_restarted() {
    assert_eq!(timeline_age(5000, 0), 0);
    assert_eq!(timeline_age(5000, 4600), 400);
    assert_eq!(timeline_age(4000, 4600), 0);
    assert_eq!(timeline_age(u64::MAX, 1), (u64::MAX - 1) as u32);
    assert!(restart_timeline_reader(true, 5, 0));
    assert!(restart_timeline_reader(false, 0, 301));
    assert!(!restart_timeline_reader(false, 0, 300));
    assert!(!restart_timeline_reader(false, 2, 1000));
}

#[test]
fn a_deck_is_cleared_after_two_failed_polls_in_a_row() {
    let mut failures = 0u8;
    assert!(!note_poll_outcome(&mut failures, false));
    assert_eq!(failures, 1);
    assert!(!note_poll_outcome(&mut failures, true));
    assert_eq!(failures, 0);
    assert!(!note_poll_outcome(&mut failures, false));
    assert!(note_poll_outcome(&mut failures, false));
    assert_eq!(failures, 2);
}

#[test]
fn volume_is_read_back_only_after_a_quiet_second_without_solo() {
    assert!(volume_readback_allowed(false, 1000, 2000));
    assert!(!volume_readback_allowed(false, 1000, 1999));
    assert!(!volume_readback_allowed(true, 0, 5000));
}
