use termixer::dsp::{AtomicMeter, FilterType};
use termixer::modes::{AppMode, PerfTrace};

#[test]
fn only_edit_mode_is_editing() {
    assert!(AppMode::Edit.is_editing());
    assert!(!AppMode::ControlSelect.is_editing());
    assert!(!AppMode::SamplePicker(3).is_editing());
}

#[test]
fn help_is_shown_only_in_help_mode() {
    assert!(AppMode::Help.show_help());
    assert!(!AppMode::Edit.show_help());
    assert!(!AppMode::ConfigCheck.show_help());
}

#[test]
fn perf_trace_resets_every_counter() {
    let mut t = PerfTrace::new();
    assert_eq!(t, PerfTrace::new());
    t.route_seek_sends = 4;
    t.timeline_age_max_ms = 900;
    t.route_meta_failures = 1;
    t.reset();
    assert_eq!(t, PerfTrace::new());
    assert_eq!(t.route_seek_sends, 0);
}

#[test]
fn meter_hands_levels_over() {
    let m = AtomicMeter::new();
    assert_eq!(m.load(), (0, 0, 0, 0));
    m.store(0.5f32.to_bits(), 0.25f32.to_bits(), 0.1f32.to_bits(), 0.2f32.to_bits());
    let (pl, pr, rl, rr) = m.load();
    assert_eq!(
        (f32::from_bits(pl), f32::from_bits(pr), f32::from_bits(rl), f32::from_bits(rr)),
        (0.5, 0.25, 0.1, 0.2)
    );
    m.detected_bpm.store(12800, std::sync::atomic::Ordering::Relaxed);
    assert_eq!(m.detected_bpm.load(std::sync::atomic::Ordering::Relaxed), 12800);
}

#[test]
fn filter_type_is_peaking() {
    assert_eq!(FilterType::Peaking, FilterType::Peaking);
}
