//! Where the mixer row's panes and controls sit on the screen, worked out
//! the way the row is drawn, so that mouse hit tests match what is shown.
use vstd::prelude::*;
use crate::areas::ChannelArea;
use crate::controls::ChannelControl;
use crate::layout::{
    full_deck_width, width_of, width_total, window_of, MixerLayout, PaneArea, SelectedPane,
};

verus! {

/// The layout of the mixer row for a width and a selected pane, with no
/// window kept from an earlier frame.
pub open spec fn row_layout(vw: u16, sel: SelectedPane) -> MixerLayout {
    let v = vw as int;
    if v >= 108 {
        let w = full_deck_width(v);
        MixerLayout {
            deck_a: w as u16,
            dj: (v - 3 * w - 21) as u16,
            deck_b: w as u16,
            deck_c: w as u16,
            master: 21,
            start: 0,
            end: 4,
        }
    } else {
        let (s, e) = window_of(v, sel, None, None);
        MixerLayout {
            deck_a: width_of(v, s, e, 0) as u16,
            dj: width_of(v, s, e, 1) as u16,
            deck_b: width_of(v, s, e, 2) as u16,
            deck_c: width_of(v, s, e, 3) as u16,
            master: width_of(v, s, e, 4) as u16,
            start: s as u8,
            end: e as u8,
        }
    }
}

/// The row layout that drawing uses.
fn layout_for(vw: u16, sel: SelectedPane) -> (l: MixerLayout)
    ensures
        l == row_layout(vw, sel),
        l.start <= l.end <= 4,
{
    let l = MixerLayout::compute(vw, sel, None, None);
    proof {
        let v = vw as int;
        if v < 108 {
            crate::layout::lemma_window_range(v, sel, None, None);
            assert(l.width(0) == width_of(v, l.start as int, l.end as int, 0));
            assert(l.width(1) == width_of(v, l.start as int, l.end as int, 1));
            assert(l.width(2) == width_of(v, l.start as int, l.end as int, 2));
            assert(l.width(3) == width_of(v, l.start as int, l.end as int, 3));
            assert(l.width(4) == width_of(v, l.start as int, l.end as int, 4));
        }
    }
    l
}

/// Left edge of column `i` when the visible columns are laid side by side
/// from `x`; 0 for a column out of view.
pub open spec fn column_x(x: int, l: MixerLayout, i: int) -> int {
    if l.start <= i <= l.end {
        x + width_total(l, l.start as int, i - 1)
    } else {
        0
    }
}

proof fn lemma_width_total_extend(l: MixerLayout, s: int, e: int)
    requires
        s <= e + 1,
    ensures
        width_total(l, s, e + 1) == width_total(l, s, e) + l.width(e + 1),
    decreases e + 1 - s,
{
    if s <= e {
        lemma_width_total_extend(l, s + 1, e);
    } else {
        assert(width_total(l, s + 1, e + 1) == 0);
    }
}

/// Left edges of the five columns.
fn column_positions(x: u16, l: MixerLayout) -> (cx: [u16; 5])
    requires
        l.start <= l.end <= 4,
        x + width_total(l, l.start as int, l.end as int) <= u16::MAX,
    ensures
        forall|i: int| 0 <= i < 5 ==> #[trigger] cx@[i] == column_x(x as int, l, i),
{
    let mut cx: [u16; 5] = [0u16; 5];
    let mut cursor: u16 = x;
    let start = l.start as usize;
    let end = l.end as usize;
    let mut i: usize = start;
    while i <= end
        invariant
            start == l.start,
            end == l.end,
            start <= i <= end + 1,
            end <= 4,
            x + width_total(l, start as int, end as int) <= u16::MAX,
            cursor == x + width_total(l, start as int, i - 1),
            forall|k: int| 0 <= k < 5 ==> #[trigger] cx@[k] == if start <= k < i {
                column_x(x as int, l, k)
            } else {
                0
            },
        decreases end + 1 - i,
    {
        proof {
            lemma_width_total_extend(l, start as int, i as int - 1);
            lemma_width_total_prefix(l, start as int, i as int, end as int);
        }
        cx[i] = cursor;
        let w: u16 = if i == 0 {
            l.deck_a
        } else if i == 1 {
            l.dj
        } else if i == 2 {
            l.deck_b
        } else if i == 3 {
            l.deck_c
        } else {
            l.master
        };
        cursor = cursor + w;
        i = i + 1;
    }
    cx
}

proof fn lemma_width_total_nonneg(l: MixerLayout, s: int, e: int)
    ensures
        width_total(l, s, e) >= 0,
    decreases e + 1 - s,
{
    if s <= e {
        lemma_width_total_nonneg(l, s + 1, e);
    }
}

/// A prefix of the visible widths is no more than all of them.
proof fn lemma_width_total_prefix(l: MixerLayout, s: int, i: int, e: int)
    requires
        s <= i <= e,
    ensures
        width_total(l, s, i) <= width_total(l, s, e),
    decreases e - i,
{
    if i < e {
        lemma_width_total_prefix(l, s, i + 1, e);
        lemma_width_total_extend(l, s, i);
    }
}

/// The controls of a channel strip, top to bottom, as they are hit-tested.
pub open spec fn strip_controls() -> Seq<ChannelControl> {
    seq![
        ChannelControl::EqHigh,
        ChannelControl::EqMid,
        ChannelControl::EqLow,
        ChannelControl::FilterCutoff,
        ChannelControl::FilterFreq,
        ChannelControl::LfoShape,
        ChannelControl::LfoSpeed,
        ChannelControl::Pan,
        ChannelControl::Fader,
        ChannelControl::Mute,
        ChannelControl::Solo,
    ]
}

/// Weights of the strip's rows; with the footer row (weight 3) they add up
/// to 45.
pub open spec fn strip_weights() -> Seq<int> {
    seq![4, 4, 4, 3, 3, 3, 3, 4, 8, 3, 3]
}

/// Height of row `j` of a strip whose inner height is `h`: its share of the
/// height by weight, rounded down.
pub open spec fn row_height(j: int, h: int) -> int {
    strip_weights()[j] * h / 45
}

/// Top of row `j` of a strip whose rows start at `y`.
pub open spec fn row_top(y: int, h: int, j: int) -> int
    decreases j,
{
    if j <= 0 {
        y
    } else {
        row_top(y, h, j - 1) + row_height(j - 1, h)
    }
}

/// Sum of the first `j` weights.
pub open spec fn weight_sum(j: int) -> int
    decreases j,
{
    if j <= 0 {
        0
    } else {
        weight_sum(j - 1) + strip_weights()[j - 1]
    }
}

/// The control rows of a strip: each control with the top and bottom of
/// its row.
pub open spec fn strip_rows(y: int, h: int) -> Seq<(ChannelControl, u16, u16)> {
    Seq::new(
        11,
        |j: int| (strip_controls()[j], row_top(y, h, j) as u16, row_top(y, h, j + 1) as u16),
    )
}

proof fn lemma_row_top_bound(y: int, h: int, j: int)
    requires
        0 <= j <= 11,
        0 <= h,
    ensures
        y <= row_top(y, h, j),
        row_top(y, h, j) * 45 <= y * 45 + weight_sum(j) * h,
        weight_sum(j) <= 42,
    decreases j,
{
    if j > 0 {
        lemma_row_top_bound(y, h, j - 1);
        let w = strip_weights()[j - 1];
        assert(0 <= w <= 8);
        assert((w * h / 45) * 45 <= w * h) by (nonlinear_arith)
            requires
                0 <= w,
                0 <= h,
        ;
        assert(0 <= w * h / 45) by (nonlinear_arith)
            requires
                0 <= w,
                0 <= h,
        ;
        assert(weight_sum(j - 1) * h + w * h == weight_sum(j) * h) by (nonlinear_arith)
            requires
                weight_sum(j) == weight_sum(j - 1) + w,
        ;
        reveal_with_fuel(weight_sum, 12);
    } else {
        reveal_with_fuel(weight_sum, 12);
    }
}

proof fn lemma_row_top_fits(y: int, h: int, j: int)
    requires
        0 <= j <= 11,
        0 <= h,
        0 <= y,
        y + h <= u16::MAX,
    ensures
        y <= row_top(y, h, j) <= y + h,
{
    lemma_row_top_bound(y, h, j);
    assert(weight_sum(j) * h <= 45 * h) by (nonlinear_arith)
        requires
            weight_sum(j) <= 42,
            0 <= h,
    ;
}

/// The control rows of a strip whose rows start at `y` and share the inner
/// height `h`.
fn strip_control_rows(y: u16, h: u16) -> (rows: Vec<(ChannelControl, u16, u16)>)
    requires
        y + h <= u16::MAX,
    ensures
        rows@ == strip_rows(y as int, h as int),
{
    let controls: [ChannelControl; 11] = [
        ChannelControl::EqHigh,
        ChannelControl::EqMid,
        ChannelControl::EqLow,
        ChannelControl::FilterCutoff,
        ChannelControl::FilterFreq,
        ChannelControl::LfoShape,
        ChannelControl::LfoSpeed,
        ChannelControl::Pan,
        ChannelControl::Fader,
        ChannelControl::Mute,
        ChannelControl::Solo,
    ];
    let weights: [u32; 11] = [4, 4, 4, 3, 3, 3, 3, 4, 8, 3, 3];
    proof {
        assert(controls@ =~= strip_controls());
        assert(forall|j: int| 0 <= j < 11 ==> weights@[j] == strip_weights()[j]);
    }
    let mut rows: Vec<(ChannelControl, u16, u16)> = Vec::new();
    let mut top: u16 = y;
    let mut j: usize = 0;
    while j < 11
        invariant
            j <= 11,
            y + h <= u16::MAX,
            controls@ == strip_controls(),
            forall|k: int| 0 <= k < 11 ==> weights@[k] == strip_weights()[k],
            top == row_top(y as int, h as int, j as int),
            rows@ == strip_rows(y as int, h as int).take(j as int),
        decreases 11 - j,
    {
        proof {
            lemma_row_top_fits(y as int, h as int, j as int + 1);
        }
        let step: u32 = weights[j] * (h as u32) / 45;
        let bottom: u16 = top + (step as u16);
        rows.push((controls[j], top, bottom));
        proof {
            assert(rows@ =~= strip_rows(y as int, h as int).take(j as int + 1));
        }
        top = bottom;
        j = j + 1;
    }
    proof {
        assert(rows@ =~= strip_rows(y as int, h as int));
    }
    rows
}

/// `x - y`, or 0 when that is negative.
pub open spec fn sat_sub(x: int, y: int) -> int {
    if x > y {
        x - y
    } else {
        0
    }
}

/// Pad `k` of the 4x4 grid centred in the pads area of the DJ column:
/// cells 5 wide and 3 high, one column apart, rows touching.
pub open spec fn pad_cell(cx: int, dj: int, py: int, ph: int, k: int) -> (usize, u16, u16, u16, u16) {
    let ox = sat_sub(dj, 23) / 2;
    let oy = sat_sub(ph, 12) / 2;
    (k as usize, (cx + ox + (k % 4) * 6) as u16, (py + oy + (k / 4) * 3) as u16, 5u16, 3u16)
}

/// Whether pad `k` fits inside the DJ column's pads area.
pub open spec fn pad_fits(cx: int, dj: int, py: int, ph: int, k: int) -> bool {
    let ox = sat_sub(dj, 23) / 2;
    let oy = sat_sub(ph, 12) / 2;
    cx + ox + (k % 4) * 6 + 5 <= cx + dj && py + oy + (k / 4) * 3 + 3 <= py + ph
}

/// The first `k` pads, in row order, that fit.
pub open spec fn pad_cells(cx: int, dj: int, py: int, ph: int, k: int) -> Seq<(usize, u16, u16, u16, u16)>
    decreases k,
{
    if k <= 0 {
        Seq::empty()
    } else {
        pad_cells(cx, dj, py, ph, k - 1) + if pad_fits(cx, dj, py, ph, k - 1) {
            seq![pad_cell(cx, dj, py, ph, k - 1)]
        } else {
            Seq::empty()
        }
    }
}

/// The pad cells of the DJ column whose left edge is `cx` and width `dj`,
/// over a pads area at `py` of height `ph`.
fn pad_grid(cx: u16, dj: u16, py: u16, ph: u16) -> (pads: Vec<(usize, u16, u16, u16, u16)>)
    requires
        ph >= 6,
        py + ph + 6 <= u16::MAX,
        cx + (if dj > 23 { dj as int } else { 23 }) <= u16::MAX,
    ensures
        pads@ == pad_cells(cx as int, dj as int, py as int, ph as int, 16),
{
    let cell_w: u16 = 5;
    let cell_h: u16 = 3;
    let gap_x: u16 = 1;
    let grid_w: u16 = cell_w * 4 + gap_x * 3;
    let grid_h: u16 = cell_h * 4;
    let offset_x: u16 = if dj > grid_w { (dj - grid_w) / 2 } else { 0 };
    let offset_y: u16 = if ph > grid_h { (ph - grid_h) / 2 } else { 0 };
    let mut pads: Vec<(usize, u16, u16, u16, u16)> = Vec::new();
    let mut row: u16 = 0;
    while row < 4
        invariant
            row <= 4,
            ph >= 6,
            py + ph + 6 <= u16::MAX,
            cx + (if dj > 23 { dj as int } else { 23 }) <= u16::MAX,
            cell_w == 5,
            cell_h == 3,
            gap_x == 1,
            offset_x == sat_sub(dj as int, 23) / 2,
            offset_y == sat_sub(ph as int, 12) / 2,
            pads@ == pad_cells(cx as int, dj as int, py as int, ph as int, 4 * row),
        decreases 4 - row,
    {
        let mut col: u16 = 0;
        while col < 4
            invariant
                row < 4,
                col <= 4,
                ph >= 6,
                py + ph + 6 <= u16::MAX,
                cx + (if dj > 23 { dj as int } else { 23 }) <= u16::MAX,
                cell_w == 5,
                cell_h == 3,
                gap_x == 1,
                offset_x == sat_sub(dj as int, 23) / 2,
                offset_y == sat_sub(ph as int, 12) / 2,
                pads@ == pad_cells(cx as int, dj as int, py as int, ph as int, 4 * row + col),
            decreases 4 - col,
        {
            let ghost k: int = 4 * row + col;
            assert(k % 4 == col && k / 4 == row);
            let pad_idx = (row * 4 + col) as usize;
            assert(col * (cell_w + gap_x) == col * 6 <= 18) by (nonlinear_arith)
                requires
                    col < 4,
                    cell_w == 5,
                    gap_x == 1,
            ;
            let x = cx + offset_x + col * (cell_w + gap_x);
            let y = py + offset_y + row * cell_h;
            if x + cell_w <= cx + dj && y + cell_h <= py + ph {
                pads.push((pad_idx, x, y, cell_w, cell_h));
            }
            proof {
                assert(pads@ =~= pad_cells(cx as int, dj as int, py as int, ph as int, k + 1));
            }
            col = col + 1;
        }
        row = row + 1;
    }
    pads
}

/// Top of the mixer row: below the three-line header.
pub open spec fn mixer_y(a: PaneArea) -> int {
    a.y + 3
}

/// Height of the mixer row: the screen less the header and the three-line
/// footer.
pub open spec fn mixer_h(a: PaneArea) -> int {
    sat_sub(a.h as int, 6)
}

/// Height shared by the pads and the sequences above the five-line
/// crossfader.
pub open spec fn shared_h(a: PaneArea) -> int {
    sat_sub(mixer_h(a), 5)
}

/// Height of the pads area: two thirds of the shared height, rounded down.
pub open spec fn pads_h(a: PaneArea) -> int {
    shared_h(a) * 2 / 3
}

/// Height of the sequences (loops) area: the rest of the shared height.
pub open spec fn loops_h(a: PaneArea) -> int {
    shared_h(a) - pads_h(a)
}

/// Height of the CUE pane at the top of the master column: 66% of the row,
/// rounded down.
pub open spec fn cue_h(a: PaneArea) -> int {
    mixer_h(a) * 66 / 100
}

/// Width of a channel strip: the DJ column shared among the channels (their
/// count taken as a `u16`), at least 10.
pub open spec fn strip_width(l: MixerLayout, n: int) -> int {
    let q = l.dj as int / (n % 0x10000);
    if q < 10 {
        10
    } else {
        q
    }
}

/// Bounds of channel strip `i`.
pub open spec fn channel_bounds(a: PaneArea, l: MixerLayout, n: int, i: int) -> (u16, u16, u16, u16) {
    let cw = strip_width(l, n);
    let w = if cw < sat_sub(a.w as int, i * cw) {
        cw
    } else {
        sat_sub(a.w as int, i * cw)
    };
    ((a.x + i * cw) as u16, mixer_y(a) as u16, w as u16, mixer_h(a) as u16)
}

/// Whether the pad grid is laid out: the DJ column is in view, at least 12
/// wide, and its pads area at least 6 high.
pub open spec fn pads_drawn(a: PaneArea, l: MixerLayout) -> bool {
    l.start <= 1 <= l.end && pads_h(a) >= 6 && l.dj >= 12
}

/// Width of the master column's panes: its width, cut at the screen's
/// right edge.
pub open spec fn master_w(a: PaneArea, l: MixerLayout) -> int {
    let room = sat_sub(a.w as int, column_x(a.x as int, l, 4) - a.x);
    if (l.master as int) < room {
        l.master as int
    } else {
        room
    }
}

/// The screens on which working out the areas stays within screen
/// coordinates (`u16`) and divides by a non-zero channel count.
pub open spec fn areas_fit(a: PaneArea, n: usize, sel: SelectedPane) -> bool {
    let l = row_layout(a.w, sel);
    n == 0 || {
        &&& a.y + 3 <= u16::MAX
        &&& shared_h(a) * 2 <= u16::MAX
        &&& n % 0x10000 != 0
        &&& a.x + width_total(l, l.start as int, l.end as int) <= u16::MAX
        &&& l.start == 0 ==> a.y + 4 <= u16::MAX && a.x + (n - 1) * strip_width(l, n as int)
            <= u16::MAX
        &&& pads_drawn(a, l) ==> column_x(a.x as int, l, 1) + 23 <= u16::MAX
    }
}

/// The channel strips of the mixer row: one per channel when Deck A's
/// column is in view, none otherwise.
pub open spec fn strips_of(a: PaneArea, n: usize, sel: SelectedPane, v: Seq<ChannelArea>) -> bool {
    let l = row_layout(a.w, sel);
    &&& v.len() == (if l.start == 0 {
        n as int
    } else {
        0
    })
    &&& forall|i: int| 0 <= i < v.len() ==> #[trigger] strip_at(a, l, n as int, v[i], i)
}

/// Whether `c` is channel strip `i`: its bounds, and its control rows.
pub open spec fn strip_at(a: PaneArea, l: MixerLayout, n: int, c: ChannelArea, i: int) -> bool {
    &&& c.bounds == channel_bounds(a, l, n, i)
    &&& c.control_rows@ == strip_rows(mixer_y(a) + 1, sat_sub(mixer_h(a), 2))
}

/// The crossfader pane: the bottom five lines of the DJ column.
pub open spec fn crossfader_of(a: PaneArea, sel: SelectedPane) -> Option<PaneArea> {
    let l = row_layout(a.w, sel);
    if l.start <= 1 <= l.end {
        Some(
            PaneArea {
                x: column_x(a.x as int, l, 1) as u16,
                y: (mixer_y(a) + pads_h(a) + loops_h(a)) as u16,
                w: l.dj,
                h: 5,
            },
        )
    } else {
        None
    }
}

/// The sequences (loops) pane: below the pads in the DJ column.
pub open spec fn loops_of(a: PaneArea, sel: SelectedPane) -> Option<PaneArea> {
    let l = row_layout(a.w, sel);
    if l.start <= 1 <= l.end {
        Some(
            PaneArea {
                x: column_x(a.x as int, l, 1) as u16,
                y: (mixer_y(a) + pads_h(a)) as u16,
                w: l.dj,
                h: loops_h(a) as u16,
            },
        )
    } else {
        None
    }
}

/// The CUE pane: the top of the master column.
pub open spec fn cue_of(a: PaneArea, sel: SelectedPane) -> Option<PaneArea> {
    let l = row_layout(a.w, sel);
    if l.start <= 4 <= l.end {
        Some(
            PaneArea {
                x: column_x(a.x as int, l, 4) as u16,
                y: mixer_y(a) as u16,
                w: master_w(a, l) as u16,
                h: cue_h(a) as u16,
            },
        )
    } else {
        None
    }
}

/// The master pane: the rest of the master column, below the CUE pane.
pub open spec fn master_of(a: PaneArea, sel: SelectedPane) -> Option<PaneArea> {
    let l = row_layout(a.w, sel);
    if l.start <= 4 <= l.end {
        Some(
            PaneArea {
                x: column_x(a.x as int, l, 4) as u16,
                y: (mixer_y(a) + cue_h(a)) as u16,
                w: master_w(a, l) as u16,
                h: (mixer_h(a) - cue_h(a)) as u16,
            },
        )
    } else {
        None
    }
}

/// The pad cells, when the pad grid is laid out.
pub open spec fn pads_of(a: PaneArea, sel: SelectedPane) -> Seq<(usize, u16, u16, u16, u16)> {
    let l = row_layout(a.w, sel);
    if pads_drawn(a, l) {
        pad_cells(column_x(a.x as int, l, 1), l.dj as int, mixer_y(a), pads_h(a), 16)
    } else {
        Seq::empty()
    }
}

/// Whether `r` holds the areas of the mixer row on screen `a` with `n`
/// channels and pane `sel` selected: the channel strips, the crossfader,
/// master, CUE and sequences panes, and the pad cells; nothing at all when
/// there is no channel.
pub open spec fn all_areas(
    a: PaneArea,
    n: usize,
    sel: SelectedPane,
    r: (
        Vec<ChannelArea>,
        Option<PaneArea>,
        Option<PaneArea>,
        Option<PaneArea>,
        Option<PaneArea>,
        Vec<(usize, u16, u16, u16, u16)>,
    ),
) -> bool {
    if n == 0 {
        &&& r.0@.len() == 0
        &&& r.1 is None
        &&& r.2 is None
        &&& r.3 is None
        &&& r.4 is None
        &&& r.5@.len() == 0
    } else {
        &&& strips_of(a, n, sel, r.0@)
        &&& r.1 == crossfader_of(a, sel)
        &&& r.2 == master_of(a, sel)
        &&& r.3 == cue_of(a, sel)
        &&& r.4 == loops_of(a, sel)
        &&& r.5@ == pads_of(a, sel)
    }
}

/// The channel strips laid side by side from `x`.
fn strip_areas(
    x: u16,
    y: u16,
    screen_w: u16,
    h: u16,
    n: usize,
    cw: u16,
) -> (areas: Vec<ChannelArea>)
    requires
        n >= 1,
        cw >= 10,
        x + (n - 1) * cw <= u16::MAX,
        y + h <= u16::MAX,
        y + 1 <= u16::MAX,
    ensures
        areas@.len() == n,
        forall|i: int|
            0 <= i < n ==> {
                &&& #[trigger] areas@[i].bounds == (
                    (x + i * cw) as u16,
                    y,
                    (if cw < sat_sub(screen_w as int, i * cw) {
                        cw as int
                    } else {
                        sat_sub(screen_w as int, i * cw)
                    }) as u16,
                    h,
                )
                &&& areas@[i].control_rows@ == strip_rows(y + 1, sat_sub(h as int, 2))
            },
{
    let mut areas: Vec<ChannelArea> = Vec::new();
    let mut i: usize = 0;
    while i < n
        invariant
            i <= n,
            n >= 1,
            cw >= 10,
            x + (n - 1) * cw <= u16::MAX,
            y + h <= u16::MAX,
            y + 1 <= u16::MAX,
            areas@.len() == i,
            forall|k: int|
                0 <= k < i ==> {
                    &&& #[trigger] areas@[k].bounds == (
                        (x + k * cw) as u16,
                        y,
                        (if cw < sat_sub(screen_w as int, k * cw) {
                            cw as int
                        } else {
                            sat_sub(screen_w as int, k * cw)
                        }) as u16,
                        h,
                    )
                    &&& areas@[k].control_rows@ == strip_rows(y + 1, sat_sub(h as int, 2))
                },
        decreases n - i,
    {
        assert(i * cw <= (n - 1) * cw) by (nonlinear_arith)
            requires
                i <= n - 1,
                cw >= 0,
        ;
        assert(i < 0x10000) by (nonlinear_arith)
            requires
                i * cw <= u16::MAX,
                cw >= 10,
        ;
        let off: u16 = (i as u16) * cw;
        let sx: u16 = x + off;
        let room: u16 = if screen_w > off { screen_w - off } else { 0 };
        let w: u16 = if cw < room { cw } else { room };
        let inner_y: u16 = y + 1;
        let inner_h: u16 = if h > 2 { h - 2 } else { 0 };
        let rows = strip_control_rows(inner_y, inner_h);
        areas.push(ChannelArea { bounds: (sx, y, w, h), control_rows: rows });
        i = i + 1;
    }
    areas
}

/// The screen areas of the mixer row, for mouse hit testing: the channel
/// strips, the crossfader, master, CUE and sequences panes, and the pad
/// cells, worked out the way the row is drawn on screen `area` with
/// `num_channels` channels and `selected_pane` selected.
pub fn calculate_all_areas(area: PaneArea, num_channels: usize, selected_pane: SelectedPane) -> (r: (
    Vec<ChannelArea>,
    Option<PaneArea>,
    Option<PaneArea>,
    Option<PaneArea>,
    Option<PaneArea>,
    Vec<(usize, u16, u16, u16, u16)>,
))
    requires
        area.in_bounds(),
        areas_fit(area, num_channels, selected_pane),
    ensures
        all_areas(area, num_channels, selected_pane, r),
{
    if num_channels == 0 {
        return (Vec::new(), None, None, None, None, Vec::new());
    }
    let header_height: u16 = 3;
    let footer_height: u16 = 3;
    let mx = area.x;
    let my = area.y + header_height;
    let mw = area.w;
    let mh: u16 = if area.h > header_height + footer_height {
        area.h - (header_height + footer_height)
    } else {
        0
    };
    let layout = layout_for(mw, selected_pane);
    let start = layout.start as usize;
    let end = layout.end as usize;
    let chunk_x = column_positions(mx, layout);

    let crossfader_height: u16 = 5;
    let shared_height: u16 = if mh > crossfader_height {
        mh - crossfader_height
    } else {
        0
    };
    let pads_height: u16 = (shared_height * 2) / 3;
    let loops_height: u16 = shared_height - pads_height;
    let pads_y = my;
    let loops_y = pads_y + pads_height;
    let crossfader_y = loops_y + loops_height;

    let cue_height: u16 = ((mh as u32) * 66 / 100) as u16;
    let master_height: u16 = mh - cue_height;
    let cue_y = my;
    let master_y = cue_y + cue_height;

    let dj_center_width = layout.dj;
    proof {
        assert((num_channels as u16) as int == num_channels % 0x10000) by (bit_vector);
        lemma_width_total_nonneg(layout, start as int, 3);
    }
    let per_channel: u16 = dj_center_width / (#[verifier::truncate] (num_channels as u16));
    let channel_width: u16 = if per_channel < 10 {
        10
    } else {
        per_channel
    };
    let channel_areas = if start == 0 {
        strip_areas(chunk_x[0], my, mw, mh, num_channels, channel_width)
    } else {
        Vec::new()
    };

    let crossfader_area = if start <= 1 && 1 <= end {
        Some(PaneArea { x: chunk_x[1], y: crossfader_y, w: dj_center_width, h: crossfader_height })
    } else {
        None
    };

    let master_width = layout.master;
    let master_area = if start <= 4 && 4 <= end {
        let room: u16 = if mw > chunk_x[4] - mx {
            mw - (chunk_x[4] - mx)
        } else {
            0
        };
        Some(
            PaneArea {
                x: chunk_x[4],
                y: master_y,
                w: if master_width < room {
                    master_width
                } else {
                    room
                },
                h: master_height,
            },
        )
    } else {
        None
    };
    let cue_area = if start <= 4 && 4 <= end {
        let room: u16 = if mw > chunk_x[4] - mx {
            mw - (chunk_x[4] - mx)
        } else {
            0
        };
        Some(
            PaneArea {
                x: chunk_x[4],
                y: cue_y,
                w: if master_width < room {
                    master_width
                } else {
                    room
                },
                h: cue_height,
            },
        )
    } else {
        None
    };
    let loops_area = if start <= 1 && 1 <= end {
        Some(PaneArea { x: chunk_x[1], y: loops_y, w: dj_center_width, h: loops_height })
    } else {
        None
    };

    let pad_areas = if start <= 1 && 1 <= end && pads_height >= 6 && dj_center_width >= 12 {
        proof {
            lemma_width_total_extend(layout, start as int, 0);
            lemma_width_total_prefix(layout, start as int, 1, end as int);
        }
        pad_grid(chunk_x[1], dj_center_width, pads_y, pads_height)
    } else {
        Vec::new()
    };
    let r = (channel_areas, crossfader_area, master_area, cue_area, loops_area, pad_areas);
    proof {
        let l = row_layout(area.w, selected_pane);
        assert(r.0@.len() == (if l.start == 0 { num_channels as int } else { 0 }));
        assert(channel_width == strip_width(l, num_channels as int));
        assert(l.start == 0 ==> chunk_x@[0] == area.x);
        assert(my == mixer_y(area) && mh == mixer_h(area));
        assert forall|i: int| 0 <= i < r.0@.len() implies #[trigger] strip_at(
            area,
            l,
            num_channels as int,
            r.0@[i],
            i,
        ) by {
            assert(l.start == 0);
            assert(r.0@[i].bounds == (
                (chunk_x@[0] + i * channel_width) as u16,
                my,
                (if channel_width < sat_sub(mw as int, i * channel_width) {
                    channel_width as int
                } else {
                    sat_sub(mw as int, i * channel_width)
                }) as u16,
                mh,
            ));
            assert(r.0@[i].control_rows@ == strip_rows(my + 1, sat_sub(mh as int, 2)));
        }
        assert(r.1 == crossfader_of(area, selected_pane));
        assert(r.4 == loops_of(area, selected_pane));
        assert(r.3 == cue_of(area, selected_pane));
        assert(r.2 == master_of(area, selected_pane));
        assert(r.5@ == pads_of(area, selected_pane));
        assert(strips_of(area, num_channels, selected_pane, r.0@));
    }
    r
}

/// Sum of the widths of the visible columns.
fn visible_width(l: MixerLayout) -> (t: u32)
    requires
        l.start <= l.end <= 4,
    ensures
        t == width_total(l, l.start as int, l.end as int),
        t <= 5 * 0x10000,
{
    let mut t: u32 = 0;
    let mut i: usize = l.start as usize;
    while i <= l.end as usize
        invariant
            l.start <= i <= l.end + 1,
            l.end <= 4,
            t == width_total(l, l.start as int, i - 1),
            t <= (i - l.start) * 0x10000,
        decreases l.end + 1 - i,
    {
        proof {
            lemma_width_total_extend(l, l.start as int, i as int - 1);
        }
        let w: u16 = if i == 0 {
            l.deck_a
        } else if i == 1 {
            l.dj
        } else if i == 2 {
            l.deck_b
        } else if i == 3 {
            l.deck_c
        } else {
            l.master
        };
        t = t + w as u32;
        i = i + 1;
    }
    t
}

/// Whether the areas of the mixer row can be worked out for a screen, a
/// channel count and a selected pane (see `areas_fit`).
pub fn areas_fit_screen(area: PaneArea, num_channels: usize, selected_pane: SelectedPane) -> (b: bool)
    ensures
        b == areas_fit(area, num_channels, selected_pane),
{
    if num_channels == 0 {
        return true;
    }
    if area.y as u32 + 3 > 0xFFFF {
        return false;
    }
    let mh: u32 = if area.h > 6 {
        (area.h - 6) as u32
    } else {
        0
    };
    let shared: u32 = if mh > 5 {
        mh - 5
    } else {
        0
    };
    if shared * 2 > 0xFFFF {
        return false;
    }
    proof {
        assert((num_channels as u16) as int == num_channels % 0x10000) by (bit_vector);
    }
    let count: u16 = #[verifier::truncate] (num_channels as u16);
    if count == 0 {
        return false;
    }
    let l = layout_for(area.w, selected_pane);
    let total = visible_width(l);
    if area.x as u32 + total > 0xFFFF {
        return false;
    }
    let per: u16 = l.dj / count;
    let cw: u64 = if per < 10 {
        10
    } else {
        per as u64
    };
    if l.start == 0 {
        if area.y as u32 + 4 > 0xFFFF {
            return false;
        }
        if num_channels as u64 > 0x10000 {
            proof {
                assert((num_channels - 1) * cw >= 0x10000 * 10) by (nonlinear_arith)
                    requires
                        num_channels - 1 >= 0x10000,
                        cw >= 10,
                ;
            }
            return false;
        }
        assert((num_channels - 1) * cw <= 0x10000 * 0xFFFF) by (nonlinear_arith)
            requires
                num_channels - 1 <= 0x10000,
                cw <= 0xFFFF,
        ;
        if area.x as u64 + (num_channels as u64 - 1) * cw > 0xFFFF {
            return false;
        }
    }
    let pads_height: u32 = shared * 2 / 3;
    assert(pads_height == pads_h(area));
    assert(cw == strip_width(l, num_channels as int));
    if l.start <= 1 && 1 <= l.end && pads_height >= 6 && l.dj >= 12 {
        proof {
            lemma_width_total_nonneg(l, l.start as int, 0);
            lemma_width_total_extend(l, l.start as int, 0);
            lemma_width_total_prefix(l, l.start as int, 1, l.end as int);
        }
        let x1: u32 = area.x as u32 + if l.start == 0 {
            l.deck_a as u32
        } else {
            0
        };
        proof {
            assert(width_total(l, 1, 0) == 0);
            assert(width_total(l, 0, 0) == l.deck_a + width_total(l, 1, 0));
            assert(x1 == column_x(area.x as int, l, 1));
        }
        if x1 + 23 > 0xFFFF {
            return false;
        }
    }
    true
}

} // verus!
