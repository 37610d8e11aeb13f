use termixer::layout::{MixerLayout, PaneArea, SelectedPane};

fn widths(l: &MixerLayout) -> [u16; 5] {
    [l.deck_a, l.dj, l.deck_b, l.deck_c, l.master]
}

#[test]
fn pane_cycle_forward_and_back() {
    let mut p = SelectedPane::DeckA;
    let order = [
        SelectedPane::DjCenter,
        SelectedPane::Loops,
        SelectedPane::Crossfader,
        SelectedPane::DeckB,
        SelectedPane::DeckC,
        SelectedPane::Master,
        SelectedPane::DeckA,
    ];
    for expected in order {
        p = p.next();
        assert_eq!(p, expected);
    }
    for q in order {
        assert_eq!(q.next().prev(), q);
        assert_eq!(q.prev().next(), q);
    }
}

#[test]
fn pane_area_excludes_right_and_bottom_edges() {
    let a = PaneArea { x: 10, y: 5, w: 4, h: 3 };
    assert!(a.contains(10, 5));
    assert!(a.contains(13, 7));
    assert!(!a.contains(14, 7));
    assert!(!a.contains(13, 8));
    assert!(!a.contains(9, 6));
}

#[test]
fn wide_viewport_shows_every_column() {
    let l = MixerLayout::compute(120, SelectedPane::DeckA, None, None);
    assert_eq!(widths(&l), [17, 48, 17, 17, 21]);
    assert_eq!((l.start, l.end), (0, 4));
    let l = MixerLayout::compute(200, SelectedPane::Master, None, None);
    assert_eq!(widths(&l), [21, 116, 21, 21, 21]);
    let l = MixerLayout::compute(108, SelectedPane::DeckB, None, None);
    assert_eq!(widths(&l), [13, 48, 13, 13, 21]);
}

#[test]
fn narrow_viewport_grows_window_around_selection() {
    let l = MixerLayout::compute(80, SelectedPane::DeckA, None, None);
    assert_eq!((l.start, l.end), (0, 2));
    assert_eq!(widths(&l), [15, 50, 15, 0, 0]);
}

#[test]
fn master_anchors_the_right_edge() {
    let l = MixerLayout::compute(80, SelectedPane::Master, None, None);
    assert_eq!((l.start, l.end), (2, 4));
    assert_eq!(widths(&l), [13, 48, 30, 29, 21]);
    let l = MixerLayout::compute(21, SelectedPane::Master, None, None);
    assert_eq!((l.start, l.end), (4, 4));
    assert_eq!(widths(&l), [13, 48, 13, 13, 21]);
}

#[test]
fn current_window_is_kept_when_it_fits() {
    let l = MixerLayout::compute(100, SelectedPane::DjCenter, Some(0), Some(2));
    assert_eq!((l.start, l.end), (0, 2));
    assert_eq!(widths(&l), [22, 57, 21, 0, 0]);
}

#[test]
fn current_window_shifts_shrinks_and_regrows() {
    // 0..=2 no longer fits 50 cells: it shrinks to Deck B, then takes in
    // Deck C and Master, which still fit (13 + 13 + 21 = 47).
    let l = MixerLayout::compute(50, SelectedPane::DeckB, Some(0), Some(2));
    assert_eq!((l.start, l.end), (2, 4));
    assert_eq!(widths(&l), [13, 48, 15, 14, 21]);
}

#[test]
fn full_window_on_a_narrow_viewport_keeps_the_neighbours_that_fit() {
    // Deck A, DJ and Deck B need 13 + 48 + 13 = 74 cells, which fit in 80.
    let l = MixerLayout::compute(80, SelectedPane::DeckA, Some(0), Some(4));
    assert_eq!((l.start, l.end), (0, 2));
    assert_eq!(widths(&l), [15, 50, 15, 0, 0]);
    let fresh = MixerLayout::compute(80, SelectedPane::DeckA, None, None);
    assert_eq!(l, fresh);
}

#[test]
fn computed_window_fed_back_is_kept() {
    for vw in [30u16, 50, 61, 74, 80, 95, 107] {
        for p in [SelectedPane::DeckA, SelectedPane::DjCenter, SelectedPane::DeckB, SelectedPane::DeckC] {
            let l = MixerLayout::compute(vw, p, None, None);
            let again = MixerLayout::compute(vw, p, Some(l.start as usize), Some(l.end as usize));
            assert_eq!(l, again);
        }
    }
}

#[test]
fn visible_widths_fill_the_viewport() {
    let mins = [13u32, 48, 13, 13, 21];
    for vw in [21u16, 30, 47, 61, 74, 87, 95, 107] {
        for p in [
            SelectedPane::DeckA,
            SelectedPane::DjCenter,
            SelectedPane::DeckB,
            SelectedPane::DeckC,
            SelectedPane::Master,
        ] {
            let l = MixerLayout::compute(vw, p, None, None);
            let w = widths(&l);
            let total: u32 = (l.start..=l.end).map(|i| w[i as usize] as u32).sum();
            let min_total: u32 = (l.start..=l.end).map(|i| mins[i as usize]).sum();
            if min_total <= vw as u32 || (l.start == 4 && l.end == 4) {
                assert_eq!(total, vw as u32);
            } else {
                assert_eq!(total, min_total);
            }
        }
    }
}
