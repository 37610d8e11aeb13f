use termixer::areas::{HitAreas, HitResult};
use termixer::controls::ChannelControl;
use termixer::layout::{PaneArea, SelectedPane};
use termixer::screen::{areas_fit_screen, calculate_all_areas};

fn screen(w: u16, h: u16) -> PaneArea {
    PaneArea { x: 0, y: 0, w, h }
}

#[test]
fn wide_screen_areas() {
    let (strips, crossfader, master, cue, loops, pads) =
        calculate_all_areas(screen(120, 40), 2, SelectedPane::DeckA);
    assert_eq!(strips.len(), 2);
    assert_eq!(strips[0].bounds, (0, 3, 24, 34));
    assert_eq!(strips[1].bounds, (24, 3, 24, 34));
    let expected_rows = vec![
        (ChannelControl::EqHigh, 4, 6),
        (ChannelControl::EqMid, 6, 8),
        (ChannelControl::EqLow, 8, 10),
        (ChannelControl::FilterCutoff, 10, 12),
        (ChannelControl::FilterFreq, 12, 14),
        (ChannelControl::LfoShape, 14, 16),
        (ChannelControl::LfoSpeed, 16, 18),
        (ChannelControl::Pan, 18, 20),
        (ChannelControl::Fader, 20, 25),
        (ChannelControl::Mute, 25, 27),
        (ChannelControl::Solo, 27, 29),
    ];
    assert_eq!(strips[0].control_rows, expected_rows);
    assert_eq!(strips[1].control_rows, expected_rows);
    assert_eq!(crossfader, Some(PaneArea { x: 17, y: 32, w: 48, h: 5 }));
    assert_eq!(loops, Some(PaneArea { x: 17, y: 22, w: 48, h: 10 }));
    assert_eq!(cue, Some(PaneArea { x: 99, y: 3, w: 21, h: 22 }));
    assert_eq!(master, Some(PaneArea { x: 99, y: 25, w: 21, h: 12 }));
    assert_eq!(pads.len(), 16);
    assert_eq!(pads[0], (0, 29, 6, 5, 3));
    assert_eq!(pads[5], (5, 35, 9, 5, 3));
    assert_eq!(pads[15], (15, 47, 15, 5, 3));
}

#[test]
fn no_channels_no_areas() {
    let (strips, crossfader, master, cue, loops, pads) =
        calculate_all_areas(screen(120, 40), 0, SelectedPane::Master);
    assert!(strips.is_empty() && pads.is_empty());
    assert!(crossfader.is_none() && master.is_none() && cue.is_none() && loops.is_none());
}

#[test]
fn narrow_screen_hides_columns_out_of_view() {
    let (strips, crossfader, master, cue, loops, pads) =
        calculate_all_areas(screen(40, 40), 2, SelectedPane::Master);
    assert!(strips.is_empty());
    assert!(crossfader.is_none() && loops.is_none() && pads.is_empty());
    // Deck C (widened to 19) stays in view left of Master
    assert_eq!(cue, Some(PaneArea { x: 19, y: 3, w: 21, h: 22 }));
    assert_eq!(master, Some(PaneArea { x: 19, y: 25, w: 21, h: 12 }));
    let (_, _, master, cue, _, _) = calculate_all_areas(screen(30, 40), 2, SelectedPane::Master);
    assert_eq!(cue, Some(PaneArea { x: 0, y: 3, w: 30, h: 22 }));
    assert_eq!(master, Some(PaneArea { x: 0, y: 25, w: 30, h: 12 }));
}

#[test]
fn short_screen_has_no_pads() {
    let (_, _, _, _, _, pads) = calculate_all_areas(screen(120, 16), 2, SelectedPane::DeckA);
    assert!(pads.is_empty());
}

#[test]
fn clicks_land_on_what_is_drawn() {
    let (strips, crossfader, master, cue, loops, pads) =
        calculate_all_areas(screen(120, 40), 2, SelectedPane::DeckA);
    let mut hits = HitAreas::new();
    hits.update_channel_areas(strips);
    hits.update_pane_areas(crossfader, master, cue, loops, pads);
    assert_eq!(hits.hit_test_all(30, 22), Some(HitResult::Channel(1, ChannelControl::Fader)));
    assert_eq!(hits.hit_test_all(5, 5), Some(HitResult::Channel(0, ChannelControl::EqHigh)));
    assert_eq!(hits.hit_test_all(100, 30), Some(HitResult::Master));
    assert_eq!(hits.hit_test_all(100, 10), Some(HitResult::Cue));
    assert_eq!(hits.hit_test_all(60, 25), Some(HitResult::Loops));
    assert_eq!(hits.hit_test_all(50, 7), Some(HitResult::Pad(3)));
    assert_eq!(hits.hit_test_all(60, 33), Some(HitResult::Crossfader));
}

#[test]
fn cue_share_matches_sixty_six_percent_of_the_row() {
    for h in 6u32..=0xFFFF {
        let h = h as u16;
        let area = screen(40, h);
        if !areas_fit_screen(area, 2, SelectedPane::Master) {
            continue;
        }
        let (_, _, _, cue, _, _) = calculate_all_areas(area, 2, SelectedPane::Master);
        let mh = h - 6;
        assert_eq!(cue.unwrap().h, (mh as f32 * 0.66) as u16, "height {}", h);
    }
}

#[test]
fn strip_rows_share_the_height_by_weight() {
    let weights: [u16; 12] = [4, 4, 4, 3, 3, 3, 3, 4, 8, 3, 3, 3];
    let total: u16 = weights.iter().sum();
    for h in (8u32..=0xFFFF).step_by(7) {
        let h = h as u16;
        let area = screen(120, h);
        if !areas_fit_screen(area, 1, SelectedPane::DeckA) {
            continue;
        }
        let (strips, _, _, _, _, _) = calculate_all_areas(area, 1, SelectedPane::DeckA);
        let inner_h = (h - 6).saturating_sub(2);
        let scale = inner_h as f32 / total as f32;
        for (j, row) in strips[0].control_rows.iter().enumerate() {
            let row_h = (weights[j] as f32 * scale) as u16;
            assert_eq!(row.2 - row.1, row_h, "height {} row {}", h, j);
        }
    }
}

#[test]
fn screens_that_overflow_do_not_fit() {
    assert!(areas_fit_screen(screen(120, 40), 2, SelectedPane::DeckA));
    assert!(areas_fit_screen(PaneArea { x: 0, y: 65535, w: 10, h: 0 }, 0, SelectedPane::DeckA));
    assert!(!areas_fit_screen(PaneArea { x: 0, y: 65533, w: 10, h: 2 }, 1, SelectedPane::DeckA));
    assert!(!areas_fit_screen(screen(120, 40), 65536, SelectedPane::DeckA));
    assert!(!areas_fit_screen(screen(120, 40), 7000, SelectedPane::DeckA));
}
